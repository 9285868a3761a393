use proxy_client::decimal::{decimal_text, signed_decimal_text};
use proxy_client::descriptor::{Descriptor, DescriptorToken};
use proxy_client::error::{Error, ErrorKind, Method};
use proxy_client::supervisor::{helper_arguments, judge_exit, ExitStatus, HELPER_SLOT};
use proxy_client::transfer::{join_transfer, ManifestResult};

#[test]
fn decimal_notation() {
    assert_eq!(decimal_text(0), "0");
    assert_eq!(decimal_text(7), "7");
    assert_eq!(decimal_text(10), "10");
    assert_eq!(decimal_text(137), "137");
    assert_eq!(decimal_text(4294967295), "4294967295");
    assert_eq!(decimal_text(u64::MAX), "18446744073709551615");
}

#[test]
fn signed_decimal_notation() {
    assert_eq!(signed_decimal_text(0), "0");
    assert_eq!(signed_decimal_text(-1), "-1");
    assert_eq!(signed_decimal_text(255), "255");
    assert_eq!(signed_decimal_text(i64::MAX), "9223372036854775807");
    assert_eq!(signed_decimal_text(i64::MIN), "-9223372036854775808");
}

#[test]
fn method_names_and_kind_labels() {
    assert_eq!(Method::GetManifest.name(), "GetManifest");
    assert_eq!(Method::FinishPipe.name(), "FinishPipe");
    assert_eq!(Method::Shutdown.name(), "Shutdown");
    assert_eq!(ErrorKind::Transport.label(), "transport error");
    assert_eq!(ErrorKind::Decode.label(), "decode error");
    assert_eq!(ErrorKind::Protocol.label(), "protocol error");
    assert_eq!(ErrorKind::Remote.label(), "remote error");
    assert_eq!(ErrorKind::Process.label(), "process error");
}

#[test]
fn error_text_names_method_kind_and_cause() {
    let error = Error::new(ErrorKind::Remote, Method::GetManifest, "image not found".to_string());
    assert_eq!(error.to_text(), "GetManifest: remote error: image not found");
    let error = Error::described(ErrorKind::Protocol, Method::FinishPipe, "unexpected descriptor");
    assert_eq!(error.to_text(), "FinishPipe: protocol error: unexpected descriptor");
    assert_eq!(error.kind, ErrorKind::Protocol);
    assert_eq!(error.method, Method::FinishPipe);
}

#[test]
fn descriptor_presence() {
    assert!(!Descriptor::NoDescriptor.attached());
    assert!(Descriptor::OwnedDescriptor(DescriptorToken { raw: 3 }).attached());
}

#[test]
fn exit_code_zero_is_success() {
    assert_eq!(judge_exit(ExitStatus::Code(0)), Ok(()));
}

#[test]
fn exit_code_137_is_a_process_error() {
    let error = judge_exit(ExitStatus::Code(137)).unwrap_err();
    assert_eq!(error.kind, ErrorKind::Process);
    assert_eq!(error.method, Method::Shutdown);
    assert_eq!(error.message, "helper exited with status 137");
}

#[test]
fn other_exits_are_process_errors() {
    let error = judge_exit(ExitStatus::Code(1)).unwrap_err();
    assert_eq!(error.message, "helper exited with status 1");
    let error = judge_exit(ExitStatus::Code(-1)).unwrap_err();
    assert_eq!(error.message, "helper exited with status -1");
    let error = judge_exit(ExitStatus::Signal(9)).unwrap_err();
    assert_eq!(error.kind, ErrorKind::Process);
    assert_eq!(error.message, "helper terminated by signal 9");
    let error = judge_exit(ExitStatus::Signal(0)).unwrap_err();
    assert_eq!(error.message, "helper terminated by signal 0");
}

#[test]
fn helper_is_told_its_slot_and_the_image() {
    assert_eq!(
        helper_arguments(0, "docker://example.com/image:latest".to_string()),
        vec!["--sockfd=0".to_string(), "docker://example.com/image:latest".to_string()]
    );
    assert_eq!(helper_arguments(12, String::new()), vec!["--sockfd=12".to_string(), String::new()]);
    assert_eq!(HELPER_SLOT, 0);
}

fn failure(kind: ErrorKind, message: &str) -> Error {
    Error { kind, method: Method::FinishPipe, message: message.to_string() }
}

#[test]
fn transfer_needs_both_paths() {
    assert_eq!(
        join_transfer("sha256:abc".to_string(), Ok(()), Ok(vec![1, 2, 3])),
        Ok(ManifestResult { digest: "sha256:abc".to_string(), content: vec![1, 2, 3] })
    );
    assert_eq!(
        join_transfer("d".to_string(), Err(failure(ErrorKind::Remote, "no")), Ok(vec![1])),
        Err(failure(ErrorKind::Remote, "no"))
    );
    assert_eq!(
        join_transfer("d".to_string(), Ok(()), Err(failure(ErrorKind::Transport, "read"))),
        Err(failure(ErrorKind::Transport, "read"))
    );
    assert_eq!(
        join_transfer(
            "d".to_string(),
            Err(failure(ErrorKind::Protocol, "first")),
            Err(failure(ErrorKind::Transport, "second"))
        ),
        Err(failure(ErrorKind::Protocol, "first"))
    );
}

#[test]
fn transfer_of_an_empty_manifest() {
    assert_eq!(
        join_transfer(String::new(), Ok(()), Ok(Vec::new())),
        Ok(ManifestResult { digest: String::new(), content: Vec::new() })
    );
}
