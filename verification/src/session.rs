//! The session with the helper, as a state machine.
//!
//! A session does no I/O. It tells its driver what to do next (send a
//! request, wait for a reply, read a pipe, wait for the helper to exit) and
//! is told what came of it. Calls are strictly sequential: a new call can be
//! started only when the session is idle, and the session is idle again only
//! when the call before has completed, its pipe read and acknowledged.
//!
//! The session never keeps a descriptor. One that arrives with a reply
//! leaves in the very action that answers the reply, either to be read to its
//! end or to be closed.

use crate::codec::{
    finish_pipe_call, get_manifest_call, shutdown_call, Call, CallView, Rejected, RejectedView,
};
use crate::descriptor::{pipe_descriptor, Descriptor, DescriptorToken};
use crate::error::{Error, ErrorKind, ErrorView, Method};
use crate::reply::{
    get_reply, outcome_view, reply_outcome, Payload, PayloadView, Received, ReceivedView,
};
use crate::supervisor::{exit_verdict, judge_exit, verdict_view, ExitStatus};
use crate::transfer::{
    drained_view, join_transfer, joined_transfer, transfer_view, ManifestResult,
    ManifestResultView,
};
use vstd::prelude::*;

verus! {

/// What a completed call gave.
#[derive(Debug, PartialEq, Eq)]
pub enum Completion {
    /// `GetManifest`: the manifest.
    Manifest(ManifestResult),
    /// `FinishPipe` and `Shutdown`: nothing but the fact.
    Done,
}

/// The mathematical value of a [`Completion`].
pub enum CompletionView {
    Manifest(ManifestResultView),
    Done,
}

impl View for Completion {
    type V = CompletionView;

    open spec fn view(&self) -> CompletionView {
        match self {
            Completion::Manifest(manifest) => CompletionView::Manifest(manifest@),
            Completion::Done => CompletionView::Done,
        }
    }
}

/// The result of a call, as mathematical values.
pub open spec fn result_view(result: Result<Completion, Error>) -> Result<
    CompletionView,
    ErrorView,
> {
    match result {
        Ok(completion) => Ok(completion@),
        Err(error) => Err(error@),
    }
}

/// What the driver is to do next.
#[derive(Debug, PartialEq, Eq)]
pub enum Step {
    /// Send this request, and report how many bytes were written.
    Send(Call),
    /// Wait for one message, and report it with the descriptor beside it.
    Receive,
    /// Start reading `source` to its end on a path of its own; then, without
    /// waiting for that, send this request.
    DrainAndSend { source: DescriptorToken, call: Call },
    /// Wait for the reading to end, and report what was read.
    Join,
    /// Wait for the helper to exit, and report how it ended.
    Wait,
    /// The call is over: hand this result to the caller.
    Complete(Result<Completion, Error>),
}

/// The mathematical value of a [`Step`].
pub enum StepView {
    Send(CallView),
    Receive,
    DrainAndSend { source: DescriptorToken, call: CallView },
    Join,
    Wait,
    Complete(Result<CompletionView, ErrorView>),
}

impl View for Step {
    type V = StepView;

    open spec fn view(&self) -> StepView {
        match self {
            Step::Send(call) => StepView::Send(call@),
            Step::Receive => StepView::Receive,
            Step::DrainAndSend { source, call } => StepView::DrainAndSend {
                source: *source,
                call: call@,
            },
            Step::Join => StepView::Join,
            Step::Wait => StepView::Wait,
            Step::Complete(result) => StepView::Complete(result_view(*result)),
        }
    }
}

/// The session's answer to an event: first close `release`, if it holds a
/// descriptor; then do `next`.
#[derive(Debug, PartialEq, Eq)]
pub struct Action {
    pub release: Descriptor,
    pub next: Step,
}

/// The mathematical value of an [`Action`].
pub struct ActionView {
    pub release: Descriptor,
    pub next: StepView,
}

impl View for Action {
    type V = ActionView;

    open spec fn view(&self) -> ActionView {
        ActionView { release: self.release, next: self.next@ }
    }
}

/// What came of the step that the session asked for.
#[derive(Debug, PartialEq, Eq)]
pub enum Event {
    /// The transport took `written` bytes of a request of `length` bytes.
    Sent { written: usize, length: usize },
    /// The transport could not send the request.
    SendFailed(String),
    /// A message arrived and was examined (see [`crate::reply::get_reply`]).
    Reply(Result<Received, Rejected>),
    /// The transport could not receive a message.
    ReceiveFailed(String),
    /// The pipe was read to its end; these are its bytes.
    Drained(Vec<u8>),
    /// Reading the pipe failed.
    DrainFailed(String),
    /// The helper exited.
    Exited(ExitStatus),
    /// Waiting for the helper failed.
    WaitFailed(String),
}

/// The mathematical value of an [`Event`].
pub enum EventView {
    Sent { written: usize, length: usize },
    SendFailed(Seq<char>),
    Reply(Result<ReceivedView, RejectedView>),
    ReceiveFailed(Seq<char>),
    Drained(Seq<u8>),
    DrainFailed(Seq<char>),
    Exited(ExitStatus),
    WaitFailed(Seq<char>),
}

impl View for Event {
    type V = EventView;

    open spec fn view(&self) -> EventView {
        match self {
            Event::Sent { written, length } => EventView::Sent {
                written: *written,
                length: *length,
            },
            Event::SendFailed(cause) => EventView::SendFailed(cause@),
            Event::Reply(outcome) => EventView::Reply(outcome_view(*outcome)),
            Event::ReceiveFailed(cause) => EventView::ReceiveFailed(cause@),
            Event::Drained(content) => EventView::Drained(content@),
            Event::DrainFailed(cause) => EventView::DrainFailed(cause@),
            Event::Exited(status) => EventView::Exited(*status),
            Event::WaitFailed(cause) => EventView::WaitFailed(cause@),
        }
    }
}

/// Where a session stands.
#[derive(Debug, PartialEq, Eq)]
pub enum Phase {
    /// No call is in progress.
    Idle,
    /// `GetManifest` has been handed to the transport.
    ManifestSending,
    /// The reply to `GetManifest` is awaited.
    ManifestReceiving,
    /// The pipe is being read; its `FinishPipe` has been handed to the
    /// transport.
    HandshakeSending { digest: String },
    /// The pipe is being read; the reply to its `FinishPipe` is awaited.
    HandshakeReceiving { digest: String },
    /// The acknowledgement has ended as `handshake` says; the end of the
    /// reading is awaited.
    Joining { digest: String, handshake: Result<(), Error> },
    /// A `FinishPipe` of its own has been handed to the transport.
    FinishSending,
    /// The reply to a `FinishPipe` of its own is awaited.
    FinishReceiving,
    /// `Shutdown` has been handed to the transport.
    ShutdownSending,
    /// The reply to `Shutdown` is awaited.
    ShutdownReceiving,
    /// The helper's exit is awaited.
    ShutdownWaiting,
    /// The session has been shut down and takes no further calls.
    Closed,
}

/// The mathematical value of a [`Phase`].
pub enum PhaseView {
    Idle,
    ManifestSending,
    ManifestReceiving,
    HandshakeSending { digest: Seq<char> },
    HandshakeReceiving { digest: Seq<char> },
    Joining { digest: Seq<char>, handshake: Result<(), ErrorView> },
    FinishSending,
    FinishReceiving,
    ShutdownSending,
    ShutdownReceiving,
    ShutdownWaiting,
    Closed,
}

impl View for Phase {
    type V = PhaseView;

    open spec fn view(&self) -> PhaseView {
        match self {
            Phase::Idle => PhaseView::Idle,
            Phase::ManifestSending => PhaseView::ManifestSending,
            Phase::ManifestReceiving => PhaseView::ManifestReceiving,
            Phase::HandshakeSending { digest } => PhaseView::HandshakeSending { digest: digest@ },
            Phase::HandshakeReceiving { digest } => PhaseView::HandshakeReceiving {
                digest: digest@,
            },
            Phase::Joining { digest, handshake } => PhaseView::Joining {
                digest: digest@,
                handshake: verdict_view(*handshake),
            },
            Phase::FinishSending => PhaseView::FinishSending,
            Phase::FinishReceiving => PhaseView::FinishReceiving,
            Phase::ShutdownSending => PhaseView::ShutdownSending,
            Phase::ShutdownReceiving => PhaseView::ShutdownReceiving,
            Phase::ShutdownWaiting => PhaseView::ShutdownWaiting,
            Phase::Closed => PhaseView::Closed,
        }
    }
}

/// Whether a request is with the transport.
pub open spec fn sending(phase: PhaseView) -> bool {
    phase is ManifestSending || phase is HandshakeSending || phase is FinishSending
        || phase is ShutdownSending
}

/// Whether a reply is awaited.
pub open spec fn receiving(phase: PhaseView) -> bool {
    phase is ManifestReceiving || phase is HandshakeReceiving || phase is FinishReceiving
        || phase is ShutdownReceiving
}

/// Whether a pipe is being read on a path of its own.
pub open spec fn draining(phase: PhaseView) -> bool {
    phase is HandshakeSending || phase is HandshakeReceiving || phase is Joining
}

/// Whether `event` is one that a session in `phase` has asked for.
pub open spec fn accepts(phase: PhaseView, event: EventView) -> bool {
    if sending(phase) {
        event is Sent || event is SendFailed
    } else if receiving(phase) {
        event is Reply || event is ReceiveFailed
    } else if phase is Joining {
        event is Drained || event is DrainFailed
    } else if phase is ShutdownWaiting {
        event is Exited || event is WaitFailed
    } else {
        false
    }
}

/// The call that a session in `phase` is sending or awaiting the reply to.
pub open spec fn method_in_flight(phase: PhaseView) -> Method {
    match phase {
        PhaseView::ManifestSending | PhaseView::ManifestReceiving => Method::GetManifest,
        PhaseView::ShutdownSending | PhaseView::ShutdownReceiving | PhaseView::ShutdownWaiting
        | PhaseView::Closed => Method::Shutdown,
        _ => Method::FinishPipe,
    }
}

/// A failure of `kind` during `method`.
pub open spec fn failure(kind: ErrorKind, method: Method, message: Seq<char>) -> ErrorView {
    ErrorView { kind, method, message }
}

/// An action that closes nothing.
pub open spec fn just(next: StepView) -> ActionView {
    ActionView { release: Descriptor::NoDescriptor, next }
}

/// What came of sending a request: it went out whole, or the transport
/// failed. A request that went out in part counts as failed.
pub open spec fn send_verdict(method: Method, event: EventView) -> Result<(), ErrorView> {
    match event {
        EventView::Sent { written, length } => if written == length {
            Ok(())
        } else {
            Err(failure(ErrorKind::Transport, method, "partial write"@))
        },
        EventView::SendFailed(cause) => Err(failure(ErrorKind::Transport, method, cause)),
        _ => arbitrary(),
    }
}

/// The descriptor that an event brings with it.
pub open spec fn event_descriptor(event: EventView) -> Descriptor {
    match event {
        EventView::Reply(Ok(received)) => pipe_descriptor(received.pipe),
        EventView::Reply(Err(rejected)) => rejected.release,
        _ => Descriptor::NoDescriptor,
    }
}

/// What the reply to a call that transfers nothing amounts to. Such a reply
/// must come without a descriptor; one that brings a descriptor is a
/// protocol error. The descriptor that the event brought is to be closed.
pub open spec fn acknowledgement(method: Method, event: EventView) -> Result<(), ErrorView> {
    match event {
        EventView::ReceiveFailed(cause) => Err(failure(ErrorKind::Transport, method, cause)),
        EventView::Reply(Err(rejected)) => Err(rejected.error),
        EventView::Reply(Ok(received)) => if received.pipe is Some {
            Err(failure(ErrorKind::Protocol, method, "unexpected descriptor"@))
        } else {
            Ok(())
        },
        _ => arbitrary(),
    }
}

/// What reading the pipe came to.
pub open spec fn drain_outcome(event: EventView) -> Result<Seq<u8>, ErrorView> {
    match event {
        EventView::Drained(content) => Ok(content),
        EventView::DrainFailed(cause) => Err(
            failure(ErrorKind::Transport, Method::GetManifest, cause),
        ),
        _ => arbitrary(),
    }
}

/// What waiting for the helper came to.
pub open spec fn wait_verdict(event: EventView) -> Result<(), ErrorView> {
    match event {
        EventView::Exited(status) => exit_verdict(status),
        EventView::WaitFailed(cause) => Err(failure(ErrorKind::Process, Method::Shutdown, cause)),
        _ => arbitrary(),
    }
}

/// The result of a call that gives nothing but the fact.
pub open spec fn done(verdict: Result<(), ErrorView>) -> Result<CompletionView, ErrorView> {
    match verdict {
        Ok(_) => Ok(CompletionView::Done),
        Err(error) => Err(error),
    }
}

/// The result of a call that gives a manifest.
pub open spec fn delivered(result: Result<ManifestResultView, ErrorView>) -> Result<
    CompletionView,
    ErrorView,
> {
    match result {
        Ok(manifest) => Ok(CompletionView::Manifest(manifest)),
        Err(error) => Err(error),
    }
}

/// The step after the reply to `GetManifest`. The reply must hold the digest
/// and bring the pipe with the manifest's content. The pipe is handed on to
/// be read at once, together with the `FinishPipe` that acknowledges it: the
/// reading is started, not awaited, before that request goes out.
pub open spec fn after_manifest_reply(event: EventView) -> (PhaseView, ActionView) {
    match event {
        EventView::ReceiveFailed(cause) => (
            PhaseView::Idle,
            just(
                StepView::Complete(
                    Err(failure(ErrorKind::Transport, Method::GetManifest, cause)),
                ),
            ),
        ),
        EventView::Reply(Err(rejected)) => (
            PhaseView::Idle,
            ActionView { release: rejected.release, next: StepView::Complete(Err(rejected.error)) },
        ),
        EventView::Reply(Ok(received)) => match received.payload {
            PayloadView::Unit => (
                PhaseView::Idle,
                ActionView {
                    release: pipe_descriptor(received.pipe),
                    next: StepView::Complete(
                        Err(failure(ErrorKind::Decode, Method::GetManifest, "missing digest"@)),
                    ),
                },
            ),
            PayloadView::Text(digest) => match received.pipe {
                None => (
                    PhaseView::Idle,
                    just(
                        StepView::Complete(
                            Err(
                                failure(
                                    ErrorKind::Protocol,
                                    Method::GetManifest,
                                    "missing descriptor"@,
                                ),
                            ),
                        ),
                    ),
                ),
                Some(pipe) => (
                    PhaseView::HandshakeSending { digest },
                    just(
                        StepView::DrainAndSend {
                            source: pipe.token,
                            call: finish_pipe_call(pipe.pipe_id),
                        },
                    ),
                ),
            },
        },
        _ => arbitrary(),
    }
}

/// The transition of the session: the phase after `event`, and what the
/// driver is to do next. Defined for the events that the phase accepts.
pub open spec fn advance(phase: PhaseView, event: EventView) -> (PhaseView, ActionView) {
    match phase {
        PhaseView::ManifestSending => match send_verdict(Method::GetManifest, event) {
            Ok(_) => (PhaseView::ManifestReceiving, just(StepView::Receive)),
            Err(error) => (PhaseView::Idle, just(StepView::Complete(Err(error)))),
        },
        PhaseView::ManifestReceiving => after_manifest_reply(event),
        PhaseView::HandshakeSending { digest } => match send_verdict(Method::FinishPipe, event) {
            Ok(_) => (PhaseView::HandshakeReceiving { digest }, just(StepView::Receive)),
            Err(error) => (
                PhaseView::Joining { digest, handshake: Err(error) },
                just(StepView::Join),
            ),
        },
        PhaseView::HandshakeReceiving { digest } => (
            PhaseView::Joining { digest, handshake: acknowledgement(Method::FinishPipe, event) },
            ActionView { release: event_descriptor(event), next: StepView::Join },
        ),
        PhaseView::Joining { digest, handshake } => (
            PhaseView::Idle,
            just(
                StepView::Complete(
                    delivered(joined_transfer(digest, handshake, drain_outcome(event))),
                ),
            ),
        ),
        PhaseView::FinishSending => match send_verdict(Method::FinishPipe, event) {
            Ok(_) => (PhaseView::FinishReceiving, just(StepView::Receive)),
            Err(error) => (PhaseView::Idle, just(StepView::Complete(Err(error)))),
        },
        PhaseView::FinishReceiving => (
            PhaseView::Idle,
            ActionView {
                release: event_descriptor(event),
                next: StepView::Complete(done(acknowledgement(Method::FinishPipe, event))),
            },
        ),
        PhaseView::ShutdownSending => match send_verdict(Method::Shutdown, event) {
            Ok(_) => (PhaseView::ShutdownReceiving, just(StepView::Receive)),
            Err(error) => (PhaseView::Closed, just(StepView::Complete(Err(error)))),
        },
        PhaseView::ShutdownReceiving => match acknowledgement(Method::Shutdown, event) {
            Ok(_) => (
                PhaseView::ShutdownWaiting,
                ActionView { release: event_descriptor(event), next: StepView::Wait },
            ),
            Err(error) => (
                PhaseView::Closed,
                ActionView {
                    release: event_descriptor(event),
                    next: StepView::Complete(Err(error)),
                },
            ),
        },
        PhaseView::ShutdownWaiting => (
            PhaseView::Closed,
            just(StepView::Complete(done(wait_verdict(event)))),
        ),
        PhaseView::Idle | PhaseView::Closed => arbitrary(),
    }
}

/// A session with the helper: the phase it is in, and nothing else.
#[derive(Debug, PartialEq, Eq)]
pub struct Proxy {
    pub phase: Phase,
}

impl View for Proxy {
    type V = PhaseView;

    open spec fn view(&self) -> PhaseView {
        self.phase@
    }
}

fn transport_failure(method: Method, cause: String) -> (error: Error)
    ensures
        error@ == failure(ErrorKind::Transport, method, cause@),
{
    Error::new(ErrorKind::Transport, method, cause)
}

fn just_do(next: Step) -> (action: Action)
    ensures
        action@ == just(next@),
{
    Action { release: Descriptor::NoDescriptor, next }
}

fn fail(error: Error) -> (action: Action)
    ensures
        action@ == just(StepView::Complete(Err(error@))),
{
    just_do(Step::Complete(Err(error)))
}

fn judge_send(method: Method, event: Event) -> (verdict: Result<(), Error>)
    requires
        event@ is Sent || event@ is SendFailed,
    ensures
        verdict_view(verdict) == send_verdict(method, event@),
{
    match event {
        Event::Sent { written, length } => {
            if written == length {
                Ok(())
            } else {
                Err(Error::described(ErrorKind::Transport, method, "partial write"))
            }
        },
        Event::SendFailed(cause) => Err(transport_failure(method, cause)),
        _ => unreached(),
    }
}

fn acknowledge(method: Method, event: Event) -> (judged: (Result<(), Error>, Descriptor))
    requires
        event@ is Reply || event@ is ReceiveFailed,
    ensures
        verdict_view(judged.0) == acknowledgement(method, event@),
        judged.1 == event_descriptor(event@),
{
    match event {
        Event::ReceiveFailed(cause) => (
            Err(transport_failure(method, cause)),
            Descriptor::NoDescriptor,
        ),
        Event::Reply(Err(rejected)) => (Err(rejected.error), rejected.release),
        Event::Reply(Ok(received)) => match received.pipe {
            Some(pipe) => (
                Err(Error::described(ErrorKind::Protocol, method, "unexpected descriptor")),
                Descriptor::OwnedDescriptor(pipe.token),
            ),
            None => (Ok(()), Descriptor::NoDescriptor),
        },
        _ => unreached(),
    }
}

fn judge_drain(event: Event) -> (drained: Result<Vec<u8>, Error>)
    requires
        event@ is Drained || event@ is DrainFailed,
    ensures
        drained_view(drained) == drain_outcome(event@),
{
    match event {
        Event::Drained(content) => Ok(content),
        Event::DrainFailed(cause) => Err(transport_failure(Method::GetManifest, cause)),
        _ => unreached(),
    }
}

fn judge_wait(event: Event) -> (verdict: Result<(), Error>)
    requires
        event@ is Exited || event@ is WaitFailed,
    ensures
        verdict_view(verdict) == wait_verdict(event@),
{
    match event {
        Event::Exited(status) => judge_exit(status),
        Event::WaitFailed(cause) => Err(Error::new(ErrorKind::Process, Method::Shutdown, cause)),
        _ => unreached(),
    }
}

fn finish(verdict: Result<(), Error>) -> (result: Result<Completion, Error>)
    ensures
        result_view(result) == done(verdict_view(verdict)),
{
    match verdict {
        Ok(_) => Ok(Completion::Done),
        Err(error) => Err(error),
    }
}

fn deliver(transfer: Result<ManifestResult, Error>) -> (result: Result<Completion, Error>)
    ensures
        result_view(result) == delivered(transfer_view(transfer)),
{
    match transfer {
        Ok(manifest) => Ok(Completion::Manifest(manifest)),
        Err(error) => Err(error),
    }
}

fn manifest_replied(event: Event) -> (out: (Proxy, Action))
    requires
        event@ is Reply || event@ is ReceiveFailed,
    ensures
        (out.0@, out.1@) == after_manifest_reply(event@),
{
    let idle = Proxy { phase: Phase::Idle };
    match event {
        Event::ReceiveFailed(cause) => (idle, fail(transport_failure(Method::GetManifest, cause))),
        Event::Reply(Err(rejected)) => (
            idle,
            Action { release: rejected.release, next: Step::Complete(Err(rejected.error)) },
        ),
        Event::Reply(Ok(received)) => {
            let Received { payload, pipe } = received;
            match payload {
                Payload::Unit => {
                    let release = match pipe {
                        Some(handle) => Descriptor::OwnedDescriptor(handle.token),
                        None => Descriptor::NoDescriptor,
                    };
                    let error = Error::described(
                        ErrorKind::Decode,
                        Method::GetManifest,
                        "missing digest",
                    );
                    (idle, Action { release, next: Step::Complete(Err(error)) })
                },
                Payload::Text(digest) => match pipe {
                    None => (
                        idle,
                        fail(
                            Error::described(
                                ErrorKind::Protocol,
                                Method::GetManifest,
                                "missing descriptor",
                            ),
                        ),
                    ),
                    Some(handle) => (
                        Proxy { phase: Phase::HandshakeSending { digest } },
                        just_do(
                            Step::DrainAndSend {
                                source: handle.token,
                                call: Call::finish_pipe(handle.pipe_id),
                            },
                        ),
                    ),
                },
            }
        },
        _ => unreached(),
    }
}

impl Proxy {
    /// A session on which no call has been made yet.
    pub fn new() -> (proxy: Proxy)
        ensures
            proxy@ is Idle,
    {
        Proxy { phase: Phase::Idle }
    }

    /// Whether a call can be started.
    pub fn is_idle(&self) -> (idle: bool)
        ensures
            idle == (self@ is Idle),
    {
        match self.phase {
            Phase::Idle => true,
            _ => false,
        }
    }

    /// Whether the session has been shut down.
    pub fn is_closed(&self) -> (closed: bool)
        ensures
            closed == (self@ is Closed),
    {
        match self.phase {
            Phase::Closed => true,
            _ => false,
        }
    }

    /// Starts the call that fetches the manifest.
    pub fn get_manifest(self) -> (out: (Proxy, Action))
        requires
            self@ is Idle,
        ensures
            out.0@ is ManifestSending,
            out.1@ == just(StepView::Send(get_manifest_call())),
    {
        (Proxy { phase: Phase::ManifestSending }, just_do(Step::Send(Call::get_manifest())))
    }

    /// Starts the call that acknowledges the pipe `pipe_id`.
    pub fn finish_pipe(self, pipe_id: u32) -> (out: (Proxy, Action))
        requires
            self@ is Idle,
        ensures
            out.0@ is FinishSending,
            out.1@ == just(StepView::Send(finish_pipe_call(pipe_id))),
    {
        (Proxy { phase: Phase::FinishSending }, just_do(Step::Send(Call::finish_pipe(pipe_id))))
    }

    /// Starts the call that ends the session. Whatever comes of it, the
    /// session takes no further calls.
    pub fn shutdown(self) -> (out: (Proxy, Action))
        requires
            self@ is Idle,
        ensures
            out.0@ is ShutdownSending,
            out.1@ == just(StepView::Send(shutdown_call())),
    {
        (Proxy { phase: Phase::ShutdownSending }, just_do(Step::Send(Call::shutdown())))
    }

    /// Whether `event` is one that the session has asked for.
    pub fn expects(&self, event: &Event) -> (expected: bool)
        ensures
            expected == accepts(self@, event@),
    {
        match self.phase {
            Phase::ManifestSending
            | Phase::HandshakeSending { .. }
            | Phase::FinishSending
            | Phase::ShutdownSending => match event {
                Event::Sent { .. } | Event::SendFailed(_) => true,
                _ => false,
            },
            Phase::ManifestReceiving
            | Phase::HandshakeReceiving { .. }
            | Phase::FinishReceiving
            | Phase::ShutdownReceiving => match event {
                Event::Reply(_) | Event::ReceiveFailed(_) => true,
                _ => false,
            },
            Phase::Joining { .. } => match event {
                Event::Drained(_) | Event::DrainFailed(_) => true,
                _ => false,
            },
            Phase::ShutdownWaiting => match event {
                Event::Exited(_) | Event::WaitFailed(_) => true,
                _ => false,
            },
            Phase::Idle | Phase::Closed => false,
        }
    }

    /// The call whose reply is awaited, if one is.
    pub fn awaited_reply(&self) -> (method: Option<Method>)
        ensures
            method is Some <==> receiving(self@),
            method matches Some(method) ==> method == method_in_flight(self@),
    {
        match self.phase {
            Phase::ManifestReceiving => Some(Method::GetManifest),
            Phase::HandshakeReceiving { .. } | Phase::FinishReceiving => Some(Method::FinishPipe),
            Phase::ShutdownReceiving => Some(Method::Shutdown),
            _ => None,
        }
    }

    /// Takes the session one step on: `event` is what came of the step that
    /// the session asked for last.
    pub fn step(self, event: Event) -> (out: (Proxy, Action))
        requires
            accepts(self@, event@),
        ensures
            (out.0@, out.1@) == advance(self@, event@),
    {
        match self.phase {
            Phase::ManifestSending => match judge_send(Method::GetManifest, event) {
                Ok(_) => (Proxy { phase: Phase::ManifestReceiving }, just_do(Step::Receive)),
                Err(error) => (Proxy { phase: Phase::Idle }, fail(error)),
            },
            Phase::ManifestReceiving => manifest_replied(event),
            Phase::HandshakeSending { digest } => match judge_send(Method::FinishPipe, event) {
                Ok(_) => (
                    Proxy { phase: Phase::HandshakeReceiving { digest } },
                    just_do(Step::Receive),
                ),
                Err(error) => (
                    Proxy { phase: Phase::Joining { digest, handshake: Err(error) } },
                    just_do(Step::Join),
                ),
            },
            Phase::HandshakeReceiving { digest } => {
                let (handshake, release) = acknowledge(Method::FinishPipe, event);
                (
                    Proxy { phase: Phase::Joining { digest, handshake } },
                    Action { release, next: Step::Join },
                )
            },
            Phase::Joining { digest, handshake } => {
                let drained = judge_drain(event);
                (
                    Proxy { phase: Phase::Idle },
                    just_do(Step::Complete(deliver(join_transfer(digest, handshake, drained)))),
                )
            },
            Phase::FinishSending => match judge_send(Method::FinishPipe, event) {
                Ok(_) => (Proxy { phase: Phase::FinishReceiving }, just_do(Step::Receive)),
                Err(error) => (Proxy { phase: Phase::Idle }, fail(error)),
            },
            Phase::FinishReceiving => {
                let (verdict, release) = acknowledge(Method::FinishPipe, event);
                (Proxy { phase: Phase::Idle }, Action { release, next: Step::Complete(finish(verdict)) })
            },
            Phase::ShutdownSending => match judge_send(Method::Shutdown, event) {
                Ok(_) => (Proxy { phase: Phase::ShutdownReceiving }, just_do(Step::Receive)),
                Err(error) => (Proxy { phase: Phase::Closed }, fail(error)),
            },
            Phase::ShutdownReceiving => {
                let (verdict, release) = acknowledge(Method::Shutdown, event);
                match verdict {
                    Ok(_) => (
                        Proxy { phase: Phase::ShutdownWaiting },
                        Action { release, next: Step::Wait },
                    ),
                    Err(error) => (
                        Proxy { phase: Phase::Closed },
                        Action { release, next: Step::Complete(Err(error)) },
                    ),
                }
            },
            Phase::ShutdownWaiting => {
                let verdict = judge_wait(event);
                (Proxy { phase: Phase::Closed }, just_do(Step::Complete(finish(verdict))))
            },
            Phase::Idle | Phase::Closed => unreached(),
        }
    }

    /// Takes the session one step on with the message that arrived and the
    /// descriptor that came beside it.
    pub fn receive(self, message: &[u8], descriptor: Descriptor) -> (out: (Proxy, Action))
        requires
            receiving(self@),
        ensures
            (out.0@, out.1@) == advance(
                self@,
                EventView::Reply(reply_outcome(method_in_flight(self@), message@, descriptor)),
            ),
    {
        let method = match self.phase {
            Phase::ManifestReceiving => Method::GetManifest,
            Phase::ShutdownReceiving => Method::Shutdown,
            _ => Method::FinishPipe,
        };
        let outcome = get_reply(method, message, descriptor);
        self.step(Event::Reply(outcome))
    }
}

} // verus!
