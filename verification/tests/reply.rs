use proxy_client::codec::{decode_reply, parse_reply, validate, Rejected, Reply};
use proxy_client::descriptor::{Descriptor, DescriptorToken, PipeHandle};
use proxy_client::error::{Error, ErrorKind, Method};
use proxy_client::reply::{accept, decode_payload, get_reply, Payload, Received};

fn owned(raw: i32) -> Descriptor {
    Descriptor::OwnedDescriptor(DescriptorToken { raw })
}

fn rejected(kind: ErrorKind, method: Method, message: &str, release: Descriptor) -> Rejected {
    Rejected { error: Error { kind, method, message: message.to_string() }, release }
}

const MANIFEST_REPLY: &[u8] =
    b"{\"success\":true,\"error\":\"\",\"pipeid\":7,\"value\":\"sha256:abc123\"}";
const PLAIN_REPLY: &[u8] = b"{\"success\":true,\"error\":\"\",\"pipeid\":0,\"value\":null}";
const FAILED_REPLY: &[u8] =
    b"{\"success\":false,\"error\":\"image not found\",\"pipeid\":0,\"value\":null}";

#[test]
fn reply_with_pipe_is_received() {
    let outcome = get_reply(Method::GetManifest, MANIFEST_REPLY, owned(5));
    assert_eq!(
        outcome,
        Ok(Received {
            payload: Payload::Text("sha256:abc123".to_string()),
            pipe: Some(PipeHandle { token: DescriptorToken { raw: 5 }, pipe_id: 7 }),
        })
    );
}

#[test]
fn reply_without_pipe_is_received() {
    let outcome = get_reply(Method::FinishPipe, PLAIN_REPLY, Descriptor::NoDescriptor);
    assert_eq!(outcome, Ok(Received { payload: Payload::Unit, pipe: None }));
}

#[test]
fn descriptor_without_pipe_id_is_a_protocol_error() {
    for method in [Method::GetManifest, Method::FinishPipe, Method::Shutdown] {
        let outcome = get_reply(method, PLAIN_REPLY, owned(9));
        assert_eq!(
            outcome,
            Err(rejected(ErrorKind::Protocol, method, "descriptor without pipe id", owned(9)))
        );
    }
}

#[test]
fn pipe_id_without_descriptor_is_a_protocol_error() {
    let outcome = get_reply(Method::GetManifest, MANIFEST_REPLY, Descriptor::NoDescriptor);
    assert_eq!(
        outcome,
        Err(rejected(
            ErrorKind::Protocol,
            Method::GetManifest,
            "pipe id 7 without descriptor",
            Descriptor::NoDescriptor
        ))
    );
    let big = b"{\"success\":true,\"error\":\"\",\"pipeid\":4294967295,\"value\":null}";
    let outcome = get_reply(Method::FinishPipe, big, Descriptor::NoDescriptor);
    assert_eq!(
        outcome,
        Err(rejected(
            ErrorKind::Protocol,
            Method::FinishPipe,
            "pipe id 4294967295 without descriptor",
            Descriptor::NoDescriptor
        ))
    );
}

#[test]
fn mispaired_reply_is_a_protocol_error_even_when_it_reports_failure() {
    let outcome = get_reply(Method::GetManifest, FAILED_REPLY, owned(4));
    assert_eq!(
        outcome,
        Err(rejected(
            ErrorKind::Protocol,
            Method::GetManifest,
            "descriptor without pipe id",
            owned(4)
        ))
    );
}

#[test]
fn reported_failure_is_a_remote_error_for_every_method() {
    for method in [Method::GetManifest, Method::FinishPipe, Method::Shutdown] {
        let outcome = get_reply(method, FAILED_REPLY, Descriptor::NoDescriptor);
        assert_eq!(
            outcome,
            Err(rejected(ErrorKind::Remote, method, "image not found", Descriptor::NoDescriptor))
        );
    }
}

#[test]
fn reported_failure_hands_the_descriptor_back() {
    let message = b"{\"success\":false,\"error\":\"boom\",\"pipeid\":3,\"value\":\"x\"}";
    let outcome = get_reply(Method::GetManifest, message, owned(11));
    assert_eq!(outcome, Err(rejected(ErrorKind::Remote, Method::GetManifest, "boom", owned(11))));
}

#[test]
fn reported_failure_comes_before_the_value_is_read() {
    let message = b"{\"success\":false,\"error\":\"no\",\"pipeid\":0,\"value\":{\"odd\":1}}";
    let outcome = get_reply(Method::GetManifest, message, Descriptor::NoDescriptor);
    assert_eq!(
        outcome,
        Err(rejected(ErrorKind::Remote, Method::GetManifest, "no", Descriptor::NoDescriptor))
    );
}

#[test]
fn empty_message_is_a_transport_error() {
    let outcome = get_reply(Method::Shutdown, b"", owned(2));
    assert_eq!(
        outcome,
        Err(rejected(ErrorKind::Transport, Method::Shutdown, "empty message", owned(2)))
    );
}

#[test]
fn malformed_message_is_a_decode_error() {
    let Rejected { error, release } =
        get_reply(Method::GetManifest, b"{\"success\":tru", owned(6)).unwrap_err();
    assert_eq!(error.kind, ErrorKind::Decode);
    assert_eq!(error.method, Method::GetManifest);
    assert!(!error.message.is_empty());
    assert_eq!(release, owned(6));

    let Rejected { error, release } = get_reply(
        Method::FinishPipe,
        b"{\"success\":true,\"error\":\"\",\"value\":null}",
        Descriptor::NoDescriptor,
    )
    .unwrap_err();
    assert_eq!(error.kind, ErrorKind::Decode);
    assert_eq!(error.message, "missing field `pipeid`");
    assert_eq!(release, Descriptor::NoDescriptor);
}

#[test]
fn value_of_the_wrong_shape_is_a_decode_error() {
    let digest_missing = b"{\"success\":true,\"error\":\"\",\"pipeid\":7,\"value\":null}";
    let Rejected { error, release } =
        get_reply(Method::GetManifest, digest_missing, owned(8)).unwrap_err();
    assert_eq!(error.kind, ErrorKind::Decode);
    assert_eq!(release, owned(8));

    let value_unexpected = b"{\"success\":true,\"error\":\"\",\"pipeid\":0,\"value\":\"x\"}";
    for method in [Method::FinishPipe, Method::Shutdown] {
        let Rejected { error, release } =
            get_reply(method, value_unexpected, Descriptor::NoDescriptor).unwrap_err();
        assert_eq!(error.kind, ErrorKind::Decode);
        assert_eq!(error.method, method);
        assert_eq!(release, Descriptor::NoDescriptor);
    }
}

#[test]
fn payload_is_read_by_method() {
    let digest = parse_reply(MANIFEST_REPLY).unwrap().value;
    assert_eq!(
        decode_payload(Method::GetManifest, &digest),
        Ok(Payload::Text("sha256:abc123".to_string()))
    );
    assert!(decode_payload(Method::FinishPipe, &digest).is_err());
    let nothing = parse_reply(PLAIN_REPLY).unwrap().value;
    assert_eq!(decode_payload(Method::FinishPipe, &nothing), Ok(Payload::Unit));
    assert_eq!(decode_payload(Method::Shutdown, &nothing), Ok(Payload::Unit));
    assert!(decode_payload(Method::GetManifest, &nothing).is_err());
}

#[test]
fn validate_passes_the_parser_s_complaint_on() {
    let outcome = validate(Method::Shutdown, Err("bad".to_string()), owned(1));
    assert_eq!(outcome, Err(rejected(ErrorKind::Decode, Method::Shutdown, "bad", owned(1))));
}

#[test]
fn decode_reply_pairs_descriptor_and_pipe_id() {
    let decoded = decode_reply(Method::GetManifest, MANIFEST_REPLY, owned(5)).unwrap();
    assert_eq!(decoded.pipe, Some(PipeHandle { token: DescriptorToken { raw: 5 }, pipe_id: 7 }));
    assert_eq!(decoded.reply.pipe_id, 7);
    let decoded = decode_reply(Method::FinishPipe, PLAIN_REPLY, Descriptor::NoDescriptor).unwrap();
    assert_eq!(decoded.pipe, None);
}

#[test]
fn accept_applies_the_shared_rule() {
    let reply: Reply = parse_reply(FAILED_REPLY).unwrap();
    let decoded = validate(Method::FinishPipe, Ok(reply), Descriptor::NoDescriptor).unwrap();
    let outcome = accept(Method::FinishPipe, decoded, Ok(Payload::Unit));
    assert_eq!(
        outcome,
        Err(rejected(
            ErrorKind::Remote,
            Method::FinishPipe,
            "image not found",
            Descriptor::NoDescriptor
        ))
    );

    let reply: Reply = parse_reply(MANIFEST_REPLY).unwrap();
    let decoded = validate(Method::GetManifest, Ok(reply), owned(5)).unwrap();
    let outcome = accept(Method::GetManifest, decoded, Err("not a string".to_string()));
    assert_eq!(
        outcome,
        Err(rejected(ErrorKind::Decode, Method::GetManifest, "not a string", owned(5)))
    );
}
