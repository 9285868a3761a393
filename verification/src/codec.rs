//! The messages of the protocol and their form on the wire.
//!
//! A request is the JSON object `{"method": <string>, "args": [<value>, ...]}`.
//! A reply is the JSON object
//! `{"success": <bool>, "error": <string>, "pipeid": <uint32>, "value": <value>}`.
//! The channel keeps message boundaries, so neither carries a length.

use crate::decimal::{decimal, decimal_text};
use crate::descriptor::{pipe_descriptor, Descriptor, PipeHandle};
use crate::error::{method_name, Error, ErrorKind, ErrorView, Method};
use crate::json::{
    json_bool, json_object, json_quote, json_string, json_u32, members_view, parse_bool,
    parse_object, parse_string, parse_u32, quote, Member,
};
use vstd::prelude::*;
use vstd::utf8::encode_utf8;

verus! {

/// The room that the transport has to offer for one reply, in bytes. Replies
/// are structured text; bulk data travels through a transferred descriptor,
/// never inside a message.
pub const RECEIVE_BUFFER_SIZE: usize = 16384;

/// A JSON value kept as its text, for values that this crate passes on
/// without looking inside.
#[derive(Clone, Debug, PartialEq, Eq)]
pub struct RawJson {
    text: String,
}

impl View for RawJson {
    type V = Seq<char>;

    closed spec fn view(&self) -> Seq<char> {
        self.text@
    }
}

impl RawJson {
    /// The JSON number `n`.
    pub fn number(n: u32) -> (value: RawJson)
        ensures
            value@ == decimal(n as nat),
    {
        RawJson { text: decimal_text(n as u64) }
    }

    /// The JSON string that holds `text`.
    pub fn string(text: &str) -> (value: RawJson)
        ensures
            value@ == json_quote(text@),
    {
        RawJson { text: quote(text) }
    }

    /// The JSON value `null`.
    pub fn null() -> (value: RawJson)
        ensures
            value@ == "null"@,
    {
        RawJson { text: String::from_str("null") }
    }

    /// The text of the value.
    pub fn as_str(&self) -> (text: &str)
        ensures
            text@ == self@,
    {
        self.text.as_str()
    }
}

/// The texts of a sequence of values.
pub open spec fn values_view(values: Seq<RawJson>) -> Seq<Seq<char>> {
    values.map_values(|value: RawJson| value@)
}

/// A request: the name of a method and its arguments in order.
#[derive(Clone, Debug, PartialEq, Eq)]
pub struct Call {
    pub method: String,
    pub args: Vec<RawJson>,
}

/// The mathematical value of a [`Call`].
pub struct CallView {
    pub method: Seq<char>,
    pub args: Seq<Seq<char>>,
}

impl View for Call {
    type V = CallView;

    open spec fn view(&self) -> CallView {
        CallView { method: self.method@, args: values_view(self.args@) }
    }
}

/// The call that asks for the manifest: no arguments.
pub open spec fn get_manifest_call() -> CallView {
    CallView { method: method_name(Method::GetManifest), args: Seq::empty() }
}

/// The call that acknowledges a transferred pipe: the pipe's identifier is
/// its only argument.
pub open spec fn finish_pipe_call(pipe_id: u32) -> CallView {
    CallView { method: method_name(Method::FinishPipe), args: seq![decimal(pipe_id as nat)] }
}

/// The call that asks the helper to exit: no arguments.
pub open spec fn shutdown_call() -> CallView {
    CallView { method: method_name(Method::Shutdown), args: Seq::empty() }
}

impl Call {
    /// A call of `method` with the given arguments.
    pub fn new(method: String, args: Vec<RawJson>) -> (call: Call)
        ensures
            call@ == (CallView { method: method@, args: values_view(args@) }),
    {
        Call { method, args }
    }

    /// The call that asks for the manifest.
    pub fn get_manifest() -> (call: Call)
        ensures
            call@ == get_manifest_call(),
    {
        let call = Call { method: String::from_str(Method::GetManifest.name()), args: Vec::new() };
        assert(values_view(call.args@) =~= Seq::empty());
        call
    }

    /// The call that acknowledges the pipe `pipe_id`.
    pub fn finish_pipe(pipe_id: u32) -> (call: Call)
        ensures
            call@ == finish_pipe_call(pipe_id),
    {
        let mut args: Vec<RawJson> = Vec::new();
        args.push(RawJson::number(pipe_id));
        let call = Call { method: String::from_str(Method::FinishPipe.name()), args };
        assert(values_view(call.args@) =~= seq![decimal(pipe_id as nat)]);
        call
    }

    /// The call that asks the helper to exit.
    pub fn shutdown() -> (call: Call)
        ensures
            call@ == shutdown_call(),
    {
        let call = Call { method: String::from_str(Method::Shutdown.name()), args: Vec::new() };
        assert(values_view(call.args@) =~= Seq::empty());
        call
    }
}

/// The texts of `args`, separated by commas.
pub open spec fn joined(args: Seq<Seq<char>>) -> Seq<char>
    decreases args.len(),
{
    if args.len() == 0 {
        Seq::empty()
    } else if args.len() == 1 {
        args[0]
    } else {
        joined(args.drop_last()) + ","@ + args.last()
    }
}

/// The text of a request whose method name has already been written as a
/// JSON string.
pub open spec fn framed(quoted_method: Seq<char>, args: Seq<Seq<char>>) -> Seq<char> {
    "{\"method\":"@ + quoted_method + ",\"args\":["@ + joined(args) + "]}"@
}

/// The bytes of a request on the wire: its text in UTF-8.
pub open spec fn call_bytes(call: CallView) -> Seq<u8> {
    encode_utf8(framed(json_quote(call.method), call.args))
}

/// Writes the arguments of a request, separated by commas.
pub fn join_args(args: &Vec<RawJson>) -> (text: String)
    ensures
        text@ == joined(values_view(args@)),
{
    let ghost texts = values_view(args@);
    let mut text = String::new();
    let mut i: usize = 0;
    while i < args.len()
        invariant
            i <= args.len(),
            texts == values_view(args@),
            text@ == joined(texts.take(i as int)),
        decreases args.len() - i,
    {
        if i > 0 {
            text.append(",");
        }
        text.append(args[i].as_str());
        proof {
            let next = texts.take(i + 1);
            assert(next.drop_last() =~= texts.take(i as int));
            assert(next.last() == args[i as int]@);
            if i == 0 {
                assert(text@ =~= next[0]);
            }
        }
        i += 1;
    }
    assert(texts.take(i as int) =~= texts);
    text
}

/// Frames a request around a method name that has already been written as a
/// JSON string.
pub fn frame_call(quoted_method: &str, args: &Vec<RawJson>) -> (bytes: Vec<u8>)
    ensures
        bytes@ == encode_utf8(framed(quoted_method@, values_view(args@))),
{
    let mut text = String::from_str("{\"method\":");
    text.append(quoted_method);
    text.append(",\"args\":[");
    let list = join_args(args);
    text.append(list.as_str());
    text.append("]}");
    text.as_str().as_bytes_vec()
}

/// Serializes a request for the transport.
pub fn encode_call(call: &Call) -> (bytes: Vec<u8>)
    ensures
        bytes@ == call_bytes(call@),
{
    let quoted = quote(call.method.as_str());
    frame_call(quoted.as_str(), &call.args)
}

/// A reply as it stands on the wire: whether the call succeeded, the helper's
/// complaint if it did not, the identifier of the pipe that comes with the
/// reply (0 for none), and the result of the call, not yet interpreted.
#[derive(Clone, Debug, PartialEq, Eq)]
pub struct Reply {
    pub success: bool,
    pub error: String,
    pub pipe_id: u32,
    pub value: RawJson,
}

/// The mathematical value of a [`Reply`].
pub struct ReplyView {
    pub success: bool,
    pub error: Seq<char>,
    pub pipe_id: u32,
    pub value: Seq<char>,
}

impl View for Reply {
    type V = ReplyView;

    open spec fn view(&self) -> ReplyView {
        ReplyView {
            success: self.success,
            error: self.error@,
            pipe_id: self.pipe_id,
            value: self.value@,
        }
    }
}

/// The value text of the first member called `name`, if there is one.
pub open spec fn member_text(members: Seq<(Seq<char>, Seq<char>)>, name: Seq<char>) -> Option<
    Seq<char>,
>
    decreases members.len(),
{
    if members.len() == 0 {
        None
    } else if members[0].0 == name {
        Some(members[0].1)
    } else {
        member_text(members.drop_first(), name)
    }
}

/// Looks a member up by name.
pub fn find_member<'a>(members: &'a Vec<Member>, name: &str) -> (found: Option<&'a String>)
    ensures
        match found {
            Some(text) => member_text(members_view(members@), name@) == Some(text@),
            None => member_text(members_view(members@), name@) is None,
        },
{
    let ghost all = members_view(members@);
    let key = String::from_str(name);
    let mut i: usize = 0;
    assert(all.skip(0) =~= all);
    while i < members.len()
        invariant
            i <= members.len(),
            all == members_view(members@),
            key@ == name@,
            member_text(all, name@) == member_text(all.skip(i as int), name@),
        decreases members.len() - i,
    {
        assert(all.skip(i as int)[0] == members[i as int]@);
        if members[i].name == key {
            return Some(&members[i].text);
        }
        assert(all.skip(i as int).drop_first() =~= all.skip(i + 1));
        i += 1;
    }
    None
}

/// The complaint about a reply that lacks the member `name`.
pub open spec fn missing_field(name: Seq<char>) -> Seq<char> {
    "missing field `"@ + name + "`"@
}

/// What was read of a member that has to be there: the outcome of reading
/// it, or a complaint that it is missing.
pub open spec fn required<T>(read: Option<Result<T, Seq<char>>>, name: Seq<char>) -> Result<
    T,
    Seq<char>,
> {
    match read {
        Some(outcome) => outcome,
        None => Err(missing_field(name)),
    }
}

/// The reply that four members make, each given as the outcome of reading it
/// where it was present. The first member, in the order `success`, `error`,
/// `pipeid`, `value`, that is missing or unreadable decides the complaint.
pub open spec fn assembled(
    success: Option<Result<bool, Seq<char>>>,
    error: Option<Result<Seq<char>, Seq<char>>>,
    pipe_id: Option<Result<u32, Seq<char>>>,
    value: Option<Seq<char>>,
) -> Result<ReplyView, Seq<char>> {
    match required(success, "success"@) {
        Err(complaint) => Err(complaint),
        Ok(success) => match required(error, "error"@) {
            Err(complaint) => Err(complaint),
            Ok(error) => match required(pipe_id, "pipeid"@) {
                Err(complaint) => Err(complaint),
                Ok(pipe_id) => match value {
                    None => Err(missing_field("value"@)),
                    Some(value) => Ok(ReplyView { success, error, pipe_id, value }),
                },
            },
        },
    }
}

/// The reply that the members of an object make.
pub open spec fn reply_of_members(members: Seq<(Seq<char>, Seq<char>)>) -> Result<
    ReplyView,
    Seq<char>,
> {
    assembled(
        match member_text(members, "success"@) {
            Some(text) => Some(json_bool(text)),
            None => None,
        },
        match member_text(members, "error"@) {
            Some(text) => Some(json_string(text)),
            None => None,
        },
        match member_text(members, "pipeid"@) {
            Some(text) => Some(json_u32(text)),
            None => None,
        },
        member_text(members, "value"@),
    )
}

/// The reply that a message holds, or the complaint about its structure.
pub open spec fn reply_of_text(message: Seq<u8>) -> Result<ReplyView, Seq<char>> {
    match json_object(message) {
        Err(complaint) => Err(complaint),
        Ok(members) => reply_of_members(members),
    }
}

/// The outcome of reading a member, complaints as mathematical text.
pub open spec fn read_view<T>(read: Option<Result<T, String>>) -> Option<Result<T, Seq<char>>> {
    match read {
        Some(Ok(value)) => Some(Ok(value)),
        Some(Err(complaint)) => Some(Err(complaint@)),
        None => None,
    }
}

/// The outcome of reading a textual member, as mathematical text.
pub open spec fn read_text_view(read: Option<Result<String, String>>) -> Option<
    Result<Seq<char>, Seq<char>>,
> {
    match read {
        Some(Ok(value)) => Some(Ok(value@)),
        Some(Err(complaint)) => Some(Err(complaint@)),
        None => None,
    }
}

/// The text of a value that may be absent.
pub open spec fn raw_view(value: Option<RawJson>) -> Option<Seq<char>> {
    match value {
        Some(value) => Some(value@),
        None => None,
    }
}

/// A parsed reply or the complaint about it, as mathematical values.
pub open spec fn parsed_view(parsed: Result<Reply, String>) -> Result<ReplyView, Seq<char>> {
    match parsed {
        Ok(reply) => Ok(reply@),
        Err(complaint) => Err(complaint@),
    }
}

fn missing(name: &str) -> (complaint: String)
    ensures
        complaint@ == missing_field(name@),
{
    let mut complaint = String::from_str("missing field `");
    complaint.append(name);
    complaint.append("`");
    complaint
}

/// Puts a reply together from what was read of its four members.
pub fn assemble_reply(
    success: Option<Result<bool, String>>,
    error: Option<Result<String, String>>,
    pipe_id: Option<Result<u32, String>>,
    value: Option<RawJson>,
) -> (parsed: Result<Reply, String>)
    ensures
        parsed_view(parsed) == assembled(
            read_view(success),
            read_text_view(error),
            read_view(pipe_id),
            raw_view(value),
        ),
{
    let success = match success {
        Some(Ok(success)) => success,
        Some(Err(complaint)) => { return Err(complaint); },
        None => { return Err(missing("success")); },
    };
    let error = match error {
        Some(Ok(error)) => error,
        Some(Err(complaint)) => { return Err(complaint); },
        None => { return Err(missing("error")); },
    };
    let pipe_id = match pipe_id {
        Some(Ok(pipe_id)) => pipe_id,
        Some(Err(complaint)) => { return Err(complaint); },
        None => { return Err(missing("pipeid")); },
    };
    match value {
        Some(value) => Ok(Reply { success, error, pipe_id, value }),
        None => Err(missing("value")),
    }
}

/// Reads a reply out of the members of an object.
pub fn reply_from_members(members: &Vec<Member>) -> (parsed: Result<Reply, String>)
    ensures
        parsed_view(parsed) == reply_of_members(members_view(members@)),
{
    let success = match find_member(members, "success") {
        Some(text) => Some(parse_bool(text.as_str())),
        None => None,
    };
    let error = match find_member(members, "error") {
        Some(text) => Some(parse_string(text.as_str())),
        None => None,
    };
    let pipe_id = match find_member(members, "pipeid") {
        Some(text) => Some(parse_u32(text.as_str())),
        None => None,
    };
    let value = match find_member(members, "value") {
        Some(text) => Some(RawJson { text: text.clone() }),
        None => None,
    };
    assemble_reply(success, error, pipe_id, value)
}

/// Parses a message as a reply.
pub fn parse_reply(message: &[u8]) -> (parsed: Result<Reply, String>)
    ensures
        parsed_view(parsed) == reply_of_text(message@),
{
    match parse_object(message) {
        Ok(members) => reply_from_members(&members),
        Err(complaint) => Err(complaint),
    }
}

/// A reply that has passed the checks on its structure, with the pipe that
/// came with it.
#[derive(Debug, PartialEq, Eq)]
pub struct Decoded {
    pub reply: Reply,
    pub pipe: Option<PipeHandle>,
}

/// The mathematical value of a [`Decoded`].
pub struct DecodedView {
    pub reply: ReplyView,
    pub pipe: Option<PipeHandle>,
}

impl View for Decoded {
    type V = DecodedView;

    open spec fn view(&self) -> DecodedView {
        DecodedView { reply: self.reply@, pipe: self.pipe }
    }
}

/// A reply that was turned down: why, and the descriptor that came with it,
/// which whoever gets this value has to close.
#[derive(Debug, PartialEq, Eq)]
pub struct Rejected {
    pub error: Error,
    pub release: Descriptor,
}

/// The mathematical value of a [`Rejected`].
pub struct RejectedView {
    pub error: ErrorView,
    pub release: Descriptor,
}

impl View for Rejected {
    type V = RejectedView;

    open spec fn view(&self) -> RejectedView {
        RejectedView { error: self.error@, release: self.release }
    }
}

/// The outcome of decoding, as mathematical values.
pub open spec fn decoded_view(outcome: Result<Decoded, Rejected>) -> Result<
    DecodedView,
    RejectedView,
> {
    match outcome {
        Ok(decoded) => Ok(decoded@),
        Err(rejected) => Err(rejected@),
    }
}

/// The complaint about a reply that names a pipe but came without one.
pub open spec fn no_descriptor_complaint(pipe_id: u32) -> Seq<char> {
    "pipe id "@ + decimal(pipe_id as nat) + " without descriptor"@
}

/// The rule that ties pipe identifiers to descriptors: a reply names a pipe
/// if and only if a descriptor came with it. A reply that breaks the rule is
/// turned down as a protocol error, and its descriptor handed back.
pub open spec fn paired(method: Method, reply: ReplyView, descriptor: Descriptor) -> Result<
    DecodedView,
    RejectedView,
> {
    match descriptor {
        Descriptor::OwnedDescriptor(token) => if reply.pipe_id == 0 {
            Err(
                RejectedView {
                    error: ErrorView {
                        kind: ErrorKind::Protocol,
                        method,
                        message: "descriptor without pipe id"@,
                    },
                    release: descriptor,
                },
            )
        } else {
            Ok(DecodedView { reply, pipe: Some(PipeHandle { token, pipe_id: reply.pipe_id }) })
        },
        Descriptor::NoDescriptor => if reply.pipe_id != 0 {
            Err(
                RejectedView {
                    error: ErrorView {
                        kind: ErrorKind::Protocol,
                        method,
                        message: no_descriptor_complaint(reply.pipe_id),
                    },
                    release: descriptor,
                },
            )
        } else {
            Ok(DecodedView { reply, pipe: None })
        },
    }
}

/// What decoding makes of a parsed message and the descriptor beside it: a
/// message that did not parse is a decode error, one that parsed is held to
/// the pairing rule.
pub open spec fn validated(
    method: Method,
    parsed: Result<ReplyView, Seq<char>>,
    descriptor: Descriptor,
) -> Result<DecodedView, RejectedView> {
    match parsed {
        Err(complaint) => Err(
            RejectedView {
                error: ErrorView { kind: ErrorKind::Decode, method, message: complaint },
                release: descriptor,
            },
        ),
        Ok(reply) => paired(method, reply, descriptor),
    }
}

/// Holds a parsed message to the rules on structure. `method` is the call
/// that the message answers.
///
/// Whatever is turned down hands its descriptor back; whatever is let through
/// carries the descriptor as its pipe.
pub fn validate(method: Method, parsed: Result<Reply, String>, descriptor: Descriptor) -> (outcome:
    Result<Decoded, Rejected>)
    ensures
        decoded_view(outcome) == validated(method, parsed_view(parsed), descriptor),
        parsed matches Ok(reply) && reply.pipe_id == 0 && descriptor.is_owned() ==> outcome is Err
            && outcome.unwrap_err().error.kind == ErrorKind::Protocol,
        parsed matches Ok(reply) && reply.pipe_id != 0 && !descriptor.is_owned() ==> outcome is Err
            && outcome.unwrap_err().error.kind == ErrorKind::Protocol,
        outcome matches Err(rejected) ==> rejected.release == descriptor,
        outcome matches Ok(decoded) ==> pipe_descriptor(decoded.pipe) == descriptor,
{
    let reply = match parsed {
        Ok(reply) => reply,
        Err(complaint) => {
            return Err(
                Rejected {
                    error: Error::new(ErrorKind::Decode, method, complaint),
                    release: descriptor,
                },
            );
        },
    };
    match descriptor {
        Descriptor::OwnedDescriptor(token) => {
            if reply.pipe_id == 0 {
                Err(
                    Rejected {
                        error: Error::described(
                            ErrorKind::Protocol,
                            method,
                            "descriptor without pipe id",
                        ),
                        release: Descriptor::OwnedDescriptor(token),
                    },
                )
            } else {
                let pipe_id = reply.pipe_id;
                Ok(Decoded { reply, pipe: Some(PipeHandle { token, pipe_id }) })
            }
        },
        Descriptor::NoDescriptor => {
            if reply.pipe_id != 0 {
                let mut message = String::from_str("pipe id ");
                let number = decimal_text(reply.pipe_id as u64);
                message.append(number.as_str());
                message.append(" without descriptor");
                Err(
                    Rejected {
                        error: Error::new(ErrorKind::Protocol, method, message),
                        release: Descriptor::NoDescriptor,
                    },
                )
            } else {
                Ok(Decoded { reply, pipe: None })
            }
        },
    }
}

/// Decodes a message that answers `method`, together with the descriptor
/// that came beside it.
pub fn decode_reply(method: Method, message: &[u8], descriptor: Descriptor) -> (outcome: Result<
    Decoded,
    Rejected,
>)
    ensures
        decoded_view(outcome) == validated(method, reply_of_text(message@), descriptor),
        outcome matches Err(rejected) ==> rejected.release == descriptor,
        outcome matches Ok(decoded) ==> pipe_descriptor(decoded.pipe) == descriptor,
{
    validate(method, parse_reply(message), descriptor)
}

} // verus!
