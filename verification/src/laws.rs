//! What holds of every reply and of every step of a session.
//!
//! Each law is stated over the functions that define the protocol
//! ([`reply_outcome`], [`advance`]) and proved from their definitions.

use crate::codec::{finish_pipe_call, reply_of_text};
use crate::descriptor::{Descriptor, PipeHandle};
use crate::error::{ErrorKind, ErrorView, Method};
use crate::reply::{reply_outcome, PayloadView, ReceivedView};
use crate::session::{
    accepts, advance, draining, event_descriptor, ActionView, CompletionView, EventView,
    PhaseView, StepView,
};
use crate::supervisor::ExitStatus;
use vstd::prelude::*;

verus! {

/// A reply names a pipe if and only if a descriptor came with it, or it is
/// turned down as a protocol error: a reply with pipe identifier 0 beside a
/// descriptor, and a reply with another pipe identifier beside none. The
/// descriptor, if there was one, is handed back to be closed.
pub proof fn pairing_is_enforced(method: Method, message: Seq<u8>, descriptor: Descriptor)
    requires
        message.len() > 0,
        reply_of_text(message) is Ok,
        (reply_of_text(message)->Ok_0.pipe_id == 0) == descriptor.is_owned(),
    ensures
        reply_outcome(method, message, descriptor) is Err,
        reply_outcome(method, message, descriptor)->Err_0.error.kind == ErrorKind::Protocol,
        reply_outcome(method, message, descriptor)->Err_0.error.method == method,
        reply_outcome(method, message, descriptor)->Err_0.release == descriptor,
{
}

/// A reply that is well paired and reports a failure ends in a remote error
/// that carries the helper's words unchanged, whatever the method; the
/// descriptor, if there was one, is handed back to be closed.
pub proof fn reported_failure_is_remote_error(
    method: Method,
    message: Seq<u8>,
    descriptor: Descriptor,
)
    requires
        message.len() > 0,
        reply_of_text(message) is Ok,
        (reply_of_text(message)->Ok_0.pipe_id != 0) == descriptor.is_owned(),
        !reply_of_text(message)->Ok_0.success,
    ensures
        reply_outcome(method, message, descriptor) is Err,
        reply_outcome(method, message, descriptor)->Err_0.error == (ErrorView {
            kind: ErrorKind::Remote,
            method,
            message: reply_of_text(message)->Ok_0.error,
        }),
        reply_outcome(method, message, descriptor)->Err_0.release == descriptor,
{
}

/// No message, however it is judged, makes a descriptor disappear: the
/// descriptor beside it is either the pipe of the reply that was let through
/// or the descriptor that the rejection hands back.
pub proof fn reply_keeps_descriptor(method: Method, message: Seq<u8>, descriptor: Descriptor)
    ensures
        event_descriptor(EventView::Reply(reply_outcome(method, message, descriptor)))
            == descriptor,
{
}

/// The session keeps no descriptor. One that an event brings leaves in the
/// action that answers the event, and in one way only: it is closed, or it is
/// handed on to be read to its end. An action that answers an event without a
/// descriptor disposes of none.
pub proof fn descriptor_is_handed_on(phase: PhaseView, event: EventView)
    requires
        accepts(phase, event),
    ensures
        advance(phase, event).1.next is DrainAndSend ==> advance(phase, event).1.release
            is NoDescriptor && event_descriptor(event) == Descriptor::OwnedDescriptor(
            advance(phase, event).1.next->source,
        ),
        !(advance(phase, event).1.next is DrainAndSend) ==> advance(phase, event).1.release
            == event_descriptor(event),
{
}

/// A call that fails on a reply closes the descriptor that the reply
/// brought: the action that completes the call with an error releases it.
pub proof fn failed_call_closes_descriptor(phase: PhaseView, event: EventView)
    requires
        accepts(phase, event),
        advance(phase, event).1.next is Complete,
        advance(phase, event).1.next->Complete_0 is Err,
    ensures
        advance(phase, event).1.release == event_descriptor(event),
{
}

/// Once a pipe has been handed on to be read, the call does not complete
/// before the reading has been joined: until then every step leads to
/// another phase of the same transfer, and only the end of the reading
/// completes the call, whether the acknowledgement succeeded or not.
pub proof fn transfer_is_joined_before_completion(phase: PhaseView, event: EventView)
    requires
        accepts(phase, event),
        draining(phase),
    ensures
        advance(phase, event).1.next is Complete <==> phase is Joining,
        !(phase is Joining) ==> draining(advance(phase, event).0),
        phase is Joining ==> advance(phase, event).0 is Idle,
        phase is Joining ==> event is Drained || event is DrainFailed,
{
}

/// The reply that brings the pipe is answered at once by handing the pipe on
/// to be read and sending `FinishPipe` with the pipe's identifier. The
/// reading is started by that step, and not waited for.
pub proof fn pipe_is_acknowledged_at_once(digest: Seq<char>, pipe: PipeHandle)
    ensures
        advance(
            PhaseView::ManifestReceiving,
            EventView::Reply(
                Ok(ReceivedView { payload: PayloadView::Text(digest), pipe: Some(pipe) }),
            ),
        ) == (
            PhaseView::HandshakeSending { digest },
            ActionView {
                release: Descriptor::NoDescriptor,
                next: StepView::DrainAndSend {
                    source: pipe.token,
                    call: finish_pipe_call(pipe.pipe_id),
                },
            },
        ),
{
}

/// The acknowledgement of a pipe is never held back by the reading of it.
/// While the acknowledgement is under way the session accepts no result of
/// the reading, and it asks for that result only in the step that ends the
/// acknowledgement.
pub proof fn acknowledgement_does_not_wait_for_reading(phase: PhaseView, event: EventView)
    requires
        accepts(phase, event),
    ensures
        phase is HandshakeSending || phase is HandshakeReceiving ==> !(event is Drained),
        phase is HandshakeSending || phase is HandshakeReceiving ==> !(event is DrainFailed),
        advance(phase, event).1.next is Join ==> phase is HandshakeSending
            || phase is HandshakeReceiving,
        advance(phase, event).1.next is Join ==> advance(phase, event).0 is Joining,
{
}

/// One call at a time. A step completes the call exactly when it leaves the
/// session idle or closed, and only an idle session starts a call; no step
/// sends the request of a new call, and the one request that a step does
/// send, the acknowledgement of a pipe, answers the reply that brought the
/// pipe.
pub proof fn one_call_at_a_time(phase: PhaseView, event: EventView)
    requires
        accepts(phase, event),
    ensures
        advance(phase, event).1.next is Complete <==> advance(phase, event).0 is Idle
            || advance(phase, event).0 is Closed,
        !(advance(phase, event).1.next is Send),
        advance(phase, event).1.next is DrainAndSend ==> phase is ManifestReceiving,
        advance(phase, event).1.next is DrainAndSend ==> event is Reply,
        !accepts(PhaseView::Idle, event),
{
}

/// The end of the helper decides the shutdown: exit code 0 completes it,
/// every other exit fails it with a process error. Either way the session is
/// closed.
pub proof fn exit_decides_shutdown(status: ExitStatus)
    ensures
        advance(PhaseView::ShutdownWaiting, EventView::Exited(status)).0 is Closed,
        advance(PhaseView::ShutdownWaiting, EventView::Exited(status)).1.release is NoDescriptor,
        advance(PhaseView::ShutdownWaiting, EventView::Exited(status)).1.next is Complete,
        status == ExitStatus::Code(0) ==> advance(
            PhaseView::ShutdownWaiting,
            EventView::Exited(status),
        ).1.next->Complete_0 == Ok::<CompletionView, ErrorView>(CompletionView::Done),
        status != ExitStatus::Code(0) ==> advance(
            PhaseView::ShutdownWaiting,
            EventView::Exited(status),
        ).1.next->Complete_0 is Err && advance(
            PhaseView::ShutdownWaiting,
            EventView::Exited(status),
        ).1.next->Complete_0->Err_0.kind == ErrorKind::Process,
{
}

/// A session that has begun to shut down never takes another call: every
/// step leads on towards the closed session or into it, and a closed session
/// accepts nothing.
pub proof fn shutdown_is_final(phase: PhaseView, event: EventView)
    requires
        accepts(phase, event),
        phase is ShutdownSending || phase is ShutdownReceiving || phase is ShutdownWaiting,
    ensures
        advance(phase, event).0 is ShutdownReceiving || advance(phase, event).0 is ShutdownWaiting
            || advance(phase, event).0 is Closed,
        !(advance(phase, event).0 is Idle),
        !accepts(PhaseView::Closed, event),
{
}

} // verus!
