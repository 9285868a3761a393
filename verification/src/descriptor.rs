//! Ownership of the file descriptors that arrive beside a reply.
//!
//! A descriptor is never held as a nullable handle. It is either absent or
//! owned, and an owned one is a token that can be moved but not copied: who
//! holds the token is responsible for the descriptor, and gives the token
//! away to have it drained or closed.

use vstd::prelude::*;

verus! {

/// Stands for one open descriptor that the transport received. The number is
/// the descriptor's number in this process.
#[derive(Debug, PartialEq, Eq)]
pub struct DescriptorToken {
    pub raw: i32,
}

/// What came beside a message: nothing, or one descriptor.
#[derive(Debug, PartialEq, Eq)]
pub enum Descriptor {
    NoDescriptor,
    OwnedDescriptor(DescriptorToken),
}

/// A transferred readable descriptor together with the identifier under which
/// the helper knows it.
#[derive(Debug, PartialEq, Eq)]
pub struct PipeHandle {
    pub token: DescriptorToken,
    pub pipe_id: u32,
}

impl Descriptor {
    /// Whether a descriptor is present.
    pub open spec fn is_owned(&self) -> bool {
        self is OwnedDescriptor
    }

    /// Whether a descriptor is present.
    #[verifier::when_used_as_spec(is_owned)]
    pub fn attached(&self) -> (present: bool)
        ensures
            present == self.is_owned(),
    {
        match self {
            Descriptor::NoDescriptor => false,
            Descriptor::OwnedDescriptor(_) => true,
        }
    }
}

/// The descriptor that a pipe handle, if there is one, carries.
pub open spec fn pipe_descriptor(pipe: Option<PipeHandle>) -> Descriptor {
    match pipe {
        Some(handle) => Descriptor::OwnedDescriptor(handle.token),
        None => Descriptor::NoDescriptor,
    }
}

} // verus!
