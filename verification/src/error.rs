//! The failures of the protocol, by kind, with the call they belong to.

use vstd::prelude::*;

verus! {

/// The calls that the helper understands.
#[derive(Clone, Copy, Debug, PartialEq, Eq, Structural)]
pub enum Method {
    GetManifest,
    FinishPipe,
    Shutdown,
}

/// The name of a method as it is written on the wire.
pub open spec fn method_name(method: Method) -> Seq<char> {
    match method {
        Method::GetManifest => "GetManifest"@,
        Method::FinishPipe => "FinishPipe"@,
        Method::Shutdown => "Shutdown"@,
    }
}

impl Method {
    /// The name of the method as it is written on the wire.
    pub fn name(self) -> (name: &'static str)
        ensures
            name@ == method_name(self),
    {
        match self {
            Method::GetManifest => "GetManifest",
            Method::FinishPipe => "FinishPipe",
            Method::Shutdown => "Shutdown",
        }
    }
}

/// What went wrong.
#[derive(Clone, Copy, Debug, PartialEq, Eq, Structural)]
pub enum ErrorKind {
    /// The channel could not send or receive a message.
    Transport,
    /// A reply was not of the expected structure.
    Decode,
    /// A well-formed reply broke the rules on descriptors and pipe identifiers.
    Protocol,
    /// The helper reported a failure of its own.
    Remote,
    /// The helper did not exit cleanly.
    Process,
}

/// The label under which a kind of failure is reported.
pub open spec fn kind_label(kind: ErrorKind) -> Seq<char> {
    match kind {
        ErrorKind::Transport => "transport error"@,
        ErrorKind::Decode => "decode error"@,
        ErrorKind::Protocol => "protocol error"@,
        ErrorKind::Remote => "remote error"@,
        ErrorKind::Process => "process error"@,
    }
}

impl ErrorKind {
    /// The label under which this kind of failure is reported.
    pub fn label(self) -> (label: &'static str)
        ensures
            label@ == kind_label(self),
    {
        match self {
            ErrorKind::Transport => "transport error",
            ErrorKind::Decode => "decode error",
            ErrorKind::Protocol => "protocol error",
            ErrorKind::Remote => "remote error",
            ErrorKind::Process => "process error",
        }
    }
}

/// A failed call: the kind of failure, the call that was in progress, and the
/// underlying cause.
#[derive(Clone, Debug, PartialEq, Eq)]
pub struct Error {
    pub kind: ErrorKind,
    pub method: Method,
    pub message: String,
}

/// The mathematical value of an [`Error`].
pub struct ErrorView {
    pub kind: ErrorKind,
    pub method: Method,
    pub message: Seq<char>,
}

impl View for Error {
    type V = ErrorView;

    open spec fn view(&self) -> ErrorView {
        ErrorView { kind: self.kind, method: self.method, message: self.message@ }
    }
}

/// The line that describes a failure: method, kind and cause, separated by
/// a colon and a space.
pub open spec fn error_text(error: ErrorView) -> Seq<char> {
    method_name(error.method) + ": "@ + kind_label(error.kind) + ": "@ + error.message
}

impl Error {
    /// A failure of the given kind during `method`, caused by `message`.
    pub fn new(kind: ErrorKind, method: Method, message: String) -> (error: Error)
        ensures
            error@ == (ErrorView { kind, method, message: message@ }),
    {
        Error { kind, method, message }
    }

    /// A failure of the given kind during `method` with a fixed description.
    pub fn described(kind: ErrorKind, method: Method, message: &str) -> (error: Error)
        ensures
            error@ == (ErrorView { kind, method, message: message@ }),
    {
        Error { kind, method, message: String::from_str(message) }
    }

    /// The line that describes this failure, for a user to read.
    pub fn to_text(&self) -> (text: String)
        ensures
            text@ == error_text(self@),
    {
        let mut text = String::from_str(self.method.name());
        text.append(": ");
        text.append(self.kind.label());
        text.append(": ");
        text.append(self.message.as_str());
        text
    }
}

} // verus!
