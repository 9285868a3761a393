//! How the helper is started, and what its exit means.
//!
//! The helper is given the image to fetch and is told in which descriptor
//! slot its end of the channel sits. It is never restarted: when it exits in
//! any way but cleanly, the session has failed.

use crate::decimal::{decimal, decimal_text, signed_decimal, signed_decimal_text};
use crate::error::{Error, ErrorKind, ErrorView, Method};
use vstd::prelude::*;

verus! {

/// How a process ended: by exiting with a code, or by a signal.
#[derive(Clone, Copy, Debug, PartialEq, Eq, Structural)]
pub enum ExitStatus {
    Code(i32),
    Signal(i32),
}

/// A verdict as mathematical values.
pub open spec fn verdict_view(verdict: Result<(), Error>) -> Result<(), ErrorView> {
    match verdict {
        Ok(_) => Ok(()),
        Err(error) => Err(error@),
    }
}

/// The complaint about a helper that did not exit cleanly.
pub open spec fn exit_complaint(status: ExitStatus) -> Seq<char> {
    match status {
        ExitStatus::Code(code) => "helper exited with status "@ + signed_decimal(code as int),
        ExitStatus::Signal(signal) => "helper terminated by signal "@ + signed_decimal(
            signal as int,
        ),
    }
}

/// The meaning of the helper's exit: exit code 0 is success, every other
/// code and every signal is a process error.
pub open spec fn exit_verdict(status: ExitStatus) -> Result<(), ErrorView> {
    if status == ExitStatus::Code(0) {
        Ok(())
    } else {
        Err(
            ErrorView {
                kind: ErrorKind::Process,
                method: Method::Shutdown,
                message: exit_complaint(status),
            },
        )
    }
}

/// Judges the helper's exit.
pub fn judge_exit(status: ExitStatus) -> (verdict: Result<(), Error>)
    ensures
        verdict_view(verdict) == exit_verdict(status),
        verdict is Ok <==> status == ExitStatus::Code(0),
        verdict matches Err(error) ==> error.kind == ErrorKind::Process,
{
    match status {
        ExitStatus::Code(code) => {
            if code == 0 {
                Ok(())
            } else {
                let mut message = String::from_str("helper exited with status ");
                let number = signed_decimal_text(code as i64);
                message.append(number.as_str());
                Err(Error::new(ErrorKind::Process, Method::Shutdown, message))
            }
        },
        ExitStatus::Signal(signal) => {
            let mut message = String::from_str("helper terminated by signal ");
            let number = signed_decimal_text(signal as i64);
            message.append(number.as_str());
            Err(Error::new(ErrorKind::Process, Method::Shutdown, message))
        },
    }
}

/// The descriptor slot in which the helper finds its end of the channel: its
/// standard input.
pub const HELPER_SLOT: u32 = 0;

/// The option that tells the helper in which descriptor slot its end of the
/// channel sits.
pub open spec fn slot_option(slot: u32) -> Seq<char> {
    "--sockfd="@ + decimal(slot as nat)
}

/// The arguments with which the helper is started: the slot of its end of
/// the channel, then the image to fetch.
pub fn helper_arguments(slot: u32, image: String) -> (arguments: Vec<String>)
    ensures
        arguments@.len() == 2,
        arguments@[0]@ == slot_option(slot),
        arguments@[1]@ == image@,
{
    let mut option = String::from_str("--sockfd=");
    let number = decimal_text(slot as u64);
    option.append(number.as_str());
    let mut arguments: Vec<String> = Vec::new();
    arguments.push(option);
    arguments.push(image);
    arguments
}

} // verus!
