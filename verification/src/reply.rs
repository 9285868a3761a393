//! The rules that every reply has to meet before a call may use it.
//!
//! A message is first decoded (see [`crate::codec`]). A decoded reply that
//! reports a failure ends the call with the helper's complaint, whatever the
//! method; only then is the result of the call interpreted.

use crate::codec::{
    decode_reply, reply_of_text, validated, Decoded, DecodedView, Rejected, RejectedView, RawJson,
};
use crate::descriptor::{pipe_descriptor, Descriptor, PipeHandle};
use crate::error::{Error, ErrorKind, ErrorView, Method};
use crate::json::{json_string, json_unit, parse_string, parse_unit};
use vstd::prelude::*;

verus! {

/// The result of a call, interpreted: nothing, or a text.
#[derive(Clone, Debug, PartialEq, Eq)]
pub enum Payload {
    Unit,
    Text(String),
}

/// The mathematical value of a [`Payload`].
pub enum PayloadView {
    Unit,
    Text(Seq<char>),
}

impl View for Payload {
    type V = PayloadView;

    open spec fn view(&self) -> PayloadView {
        match self {
            Payload::Unit => PayloadView::Unit,
            Payload::Text(text) => PayloadView::Text(text@),
        }
    }
}

/// An interpreted result or the complaint about it, as mathematical values.
pub open spec fn payload_result_view(read: Result<Payload, String>) -> Result<
    PayloadView,
    Seq<char>,
> {
    match read {
        Ok(payload) => Ok(payload@),
        Err(complaint) => Err(complaint@),
    }
}

/// How the result of `method` is read: `GetManifest` answers with a string,
/// the digest; the other methods answer with nothing.
pub open spec fn payload_of_text(method: Method, value: Seq<char>) -> Result<
    PayloadView,
    Seq<char>,
> {
    if method == Method::GetManifest {
        match json_string(value) {
            Ok(text) => Ok(PayloadView::Text(text)),
            Err(complaint) => Err(complaint),
        }
    } else {
        match json_unit(value) {
            Ok(_) => Ok(PayloadView::Unit),
            Err(complaint) => Err(complaint),
        }
    }
}

/// Interprets the result of `method`.
pub fn decode_payload(method: Method, value: &RawJson) -> (read: Result<Payload, String>)
    ensures
        payload_result_view(read) == payload_of_text(method, value@),
{
    match method {
        Method::GetManifest => match parse_string(value.as_str()) {
            Ok(text) => Ok(Payload::Text(text)),
            Err(complaint) => Err(complaint),
        },
        _ => match parse_unit(value.as_str()) {
            Ok(_) => Ok(Payload::Unit),
            Err(complaint) => Err(complaint),
        },
    }
}

/// A reply that a call may use: its interpreted result, and the pipe that
/// came with it.
#[derive(Debug, PartialEq, Eq)]
pub struct Received {
    pub payload: Payload,
    pub pipe: Option<PipeHandle>,
}

/// The mathematical value of a [`Received`].
pub struct ReceivedView {
    pub payload: PayloadView,
    pub pipe: Option<PipeHandle>,
}

impl View for Received {
    type V = ReceivedView;

    open spec fn view(&self) -> ReceivedView {
        ReceivedView { payload: self.payload@, pipe: self.pipe }
    }
}

/// What became of a reply, as mathematical values.
pub open spec fn outcome_view(outcome: Result<Received, Rejected>) -> Result<
    ReceivedView,
    RejectedView,
> {
    match outcome {
        Ok(received) => Ok(received@),
        Err(rejected) => Err(rejected@),
    }
}

/// The rule shared by every call. A reply that reports a failure is turned
/// down with the helper's own words, before anything else is looked at; a
/// successful one whose result cannot be read is a decode error. Either way
/// the pipe's descriptor is handed back to be closed.
pub open spec fn accepted(
    method: Method,
    decoded: DecodedView,
    payload: Result<PayloadView, Seq<char>>,
) -> Result<ReceivedView, RejectedView> {
    if !decoded.reply.success {
        Err(
            RejectedView {
                error: ErrorView { kind: ErrorKind::Remote, method, message: decoded.reply.error },
                release: pipe_descriptor(decoded.pipe),
            },
        )
    } else {
        match payload {
            Err(complaint) => Err(
                RejectedView {
                    error: ErrorView { kind: ErrorKind::Decode, method, message: complaint },
                    release: pipe_descriptor(decoded.pipe),
                },
            ),
            Ok(payload) => Ok(ReceivedView { payload, pipe: decoded.pipe }),
        }
    }
}

fn release_pipe(pipe: Option<PipeHandle>) -> (release: Descriptor)
    ensures
        release == pipe_descriptor(pipe),
{
    match pipe {
        Some(handle) => Descriptor::OwnedDescriptor(handle.token),
        None => Descriptor::NoDescriptor,
    }
}

/// Applies the rule shared by every call to a decoded reply. `payload` is
/// what reading the reply's result gave.
pub fn accept(method: Method, decoded: Decoded, payload: Result<Payload, String>) -> (outcome:
    Result<Received, Rejected>)
    ensures
        outcome_view(outcome) == accepted(method, decoded@, payload_result_view(payload)),
        !decoded.reply.success ==> outcome is Err && outcome.unwrap_err().error@ == (ErrorView {
            kind: ErrorKind::Remote,
            method,
            message: decoded.reply.error@,
        }),
        outcome matches Err(rejected) ==> rejected.release == pipe_descriptor(decoded.pipe),
        outcome matches Ok(received) ==> received.pipe == decoded.pipe,
{
    let Decoded { reply, pipe } = decoded;
    if !reply.success {
        return Err(
            Rejected {
                error: Error::new(ErrorKind::Remote, method, reply.error),
                release: release_pipe(pipe),
            },
        );
    }
    match payload {
        Err(complaint) => Err(
            Rejected {
                error: Error::new(ErrorKind::Decode, method, complaint),
                release: release_pipe(pipe),
            },
        ),
        Ok(payload) => Ok(Received { payload, pipe }),
    }
}

/// What becomes of a message that answers `method` and of the descriptor
/// beside it. An empty message is a failure of the transport. Otherwise the
/// message is decoded, held to the pairing rule, then to the rule shared by
/// every call.
pub open spec fn reply_outcome(method: Method, message: Seq<u8>, descriptor: Descriptor) -> Result<
    ReceivedView,
    RejectedView,
> {
    if message.len() == 0 {
        Err(
            RejectedView {
                error: ErrorView {
                    kind: ErrorKind::Transport,
                    method,
                    message: "empty message"@,
                },
                release: descriptor,
            },
        )
    } else {
        match validated(method, reply_of_text(message), descriptor) {
            Err(rejected) => Err(rejected),
            Ok(decoded) => accepted(
                method,
                decoded,
                payload_of_text(method, decoded.reply.value),
            ),
        }
    }
}

/// Examines the message that answers `method`, and the descriptor that came
/// beside it.
///
/// The descriptor is never lost: a reply that is turned down hands it back to
/// be closed, and one that is let through carries it as its pipe.
pub fn get_reply(method: Method, message: &[u8], descriptor: Descriptor) -> (outcome: Result<
    Received,
    Rejected,
>)
    ensures
        outcome_view(outcome) == reply_outcome(method, message@, descriptor),
        outcome matches Err(rejected) ==> rejected.release == descriptor,
        outcome matches Ok(received) ==> pipe_descriptor(received.pipe) == descriptor,
{
    if message.len() == 0 {
        return Err(
            Rejected {
                error: Error::described(ErrorKind::Transport, method, "empty message"),
                release: descriptor,
            },
        );
    }
    match decode_reply(method, message, descriptor) {
        Err(rejected) => Err(rejected),
        Ok(decoded) => {
            let payload = decode_payload(method, &decoded.reply.value);
            accept(method, decoded, payload)
        },
    }
}

} // verus!
