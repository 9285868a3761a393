//! The bulk transfer: a transferred pipe is read to its end on a path of its
//! own while the helper is told that the pipe has been taken.
//!
//! The helper may hold back its writes until it has heard that
//! acknowledgement, so the reading must not be waited for before the
//! acknowledgement is sent. The two paths share nothing and meet only here,
//! where both of their results are in hand.

use crate::error::{Error, ErrorView};
use crate::supervisor::verdict_view;
use vstd::prelude::*;

verus! {

/// The manifest of an image: its digest, and its content byte for byte.
#[derive(Clone, Debug, PartialEq, Eq)]
pub struct ManifestResult {
    pub digest: String,
    pub content: Vec<u8>,
}

/// The mathematical value of a [`ManifestResult`].
pub struct ManifestResultView {
    pub digest: Seq<char>,
    pub content: Seq<u8>,
}

impl View for ManifestResult {
    type V = ManifestResultView;

    open spec fn view(&self) -> ManifestResultView {
        ManifestResultView { digest: self.digest@, content: self.content@ }
    }
}

/// What reading the pipe gave, as mathematical values.
pub open spec fn drained_view(drained: Result<Vec<u8>, Error>) -> Result<Seq<u8>, ErrorView> {
    match drained {
        Ok(content) => Ok(content@),
        Err(error) => Err(error@),
    }
}

/// The result of a transfer, as mathematical values.
pub open spec fn transfer_view(result: Result<ManifestResult, Error>) -> Result<
    ManifestResultView,
    ErrorView,
> {
    match result {
        Ok(manifest) => Ok(manifest@),
        Err(error) => Err(error@),
    }
}

/// Where the two paths meet. The transfer succeeds only if both did; a
/// failed acknowledgement is reported before a failed read.
pub open spec fn joined_transfer(
    digest: Seq<char>,
    handshake: Result<(), ErrorView>,
    drained: Result<Seq<u8>, ErrorView>,
) -> Result<ManifestResultView, ErrorView> {
    match handshake {
        Err(error) => Err(error),
        Ok(_) => match drained {
            Err(error) => Err(error),
            Ok(content) => Ok(ManifestResultView { digest, content }),
        },
    }
}

/// Joins the acknowledgement and the read into the result of the transfer.
pub fn join_transfer(
    digest: String,
    handshake: Result<(), Error>,
    drained: Result<Vec<u8>, Error>,
) -> (result: Result<ManifestResult, Error>)
    ensures
        transfer_view(result) == joined_transfer(
            digest@,
            verdict_view(handshake),
            drained_view(drained),
        ),
        result is Ok <==> handshake is Ok && drained is Ok,
{
    match handshake {
        Err(error) => Err(error),
        Ok(_) => match drained {
            Err(error) => Err(error),
            Ok(content) => Ok(ManifestResult { digest, content }),
        },
    }
}

} // verus!
