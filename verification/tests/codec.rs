use proxy_client::codec::{
    assemble_reply, encode_call, find_member, frame_call, join_args, parse_reply,
    reply_from_members, Call, RawJson, Reply, RECEIVE_BUFFER_SIZE,
};
use proxy_client::json::Member;

#[test]
fn get_manifest_request_on_the_wire() {
    let bytes = encode_call(&Call::get_manifest());
    assert_eq!(bytes, b"{\"method\":\"GetManifest\",\"args\":[]}".to_vec());
}

#[test]
fn finish_pipe_request_on_the_wire() {
    let bytes = encode_call(&Call::finish_pipe(7));
    assert_eq!(bytes, b"{\"method\":\"FinishPipe\",\"args\":[7]}".to_vec());
}

#[test]
fn request_with_several_arguments() {
    let call = Call::new(
        "Say \"hi\"".to_string(),
        vec![RawJson::number(4294967295), RawJson::string("a\\b"), RawJson::null()],
    );
    let bytes = encode_call(&call);
    assert_eq!(
        String::from_utf8(bytes).unwrap(),
        "{\"method\":\"Say \\\"hi\\\"\",\"args\":[4294967295,\"a\\\\b\",null]}"
    );
}

#[test]
fn reply_fields_are_read() {
    let reply = parse_reply(
        b" { \"success\" : true , \"error\" : \"\", \"pipeid\" : 7, \"value\" : \"sha256:abc123\" , \"extra\": [1, {\"a\": null}] } ",
    )
    .unwrap();
    assert!(reply.success);
    assert_eq!(reply.error, "");
    assert_eq!(reply.pipe_id, 7);
    assert_eq!(reply.value.as_str(), "\"sha256:abc123\"");
}

#[test]
fn reply_with_missing_member() {
    let complaint = parse_reply(b"{\"success\":true,\"error\":\"\",\"value\":null}").unwrap_err();
    assert_eq!(complaint, "missing field `pipeid`");
}

#[test]
fn reply_that_is_no_object() {
    assert!(parse_reply(b"[true,\"\",0,null]").is_err());
    assert!(parse_reply(b"").is_err());
    assert!(parse_reply(b"{\"success\":true").is_err());
}

#[test]
fn reply_with_ill_typed_member() {
    assert!(parse_reply(b"{\"success\":1,\"error\":\"\",\"pipeid\":0,\"value\":null}").is_err());
    assert!(parse_reply(b"{\"success\":true,\"error\":null,\"pipeid\":0,\"value\":null}").is_err());
    assert!(parse_reply(b"{\"success\":true,\"error\":\"\",\"pipeid\":-1,\"value\":null}").is_err());
    assert!(parse_reply(b"{\"success\":true,\"error\":\"\",\"pipeid\":7.0,\"value\":null}").is_err());
    assert!(
        parse_reply(b"{\"success\":true,\"error\":\"\",\"pipeid\":4294967296,\"value\":null}").is_err()
    );
}

#[test]
fn reply_strings_are_unescaped() {
    let reply = parse_reply(
        b"{\"success\":false,\"error\":\"no \\\"such\\\" image\\n\",\"pipeid\":0,\"value\":null}",
    )
    .unwrap();
    assert!(!reply.success);
    assert_eq!(reply.error, "no \"such\" image\n");
    assert_eq!(reply.value.as_str(), "null");
}

#[test]
fn reply_value_is_kept_as_written() {
    let reply = parse_reply(
        b"{\"value\":{\"a\": [1, 2.50, \"x\"]},\"pipeid\":0,\"error\":\"\",\"success\":true}",
    )
    .unwrap();
    assert_eq!(reply.value.as_str(), "{\"a\": [1, 2.50, \"x\"]}");
}

#[test]
fn shutdown_request_on_the_wire() {
    let bytes = encode_call(&Call::shutdown());
    assert_eq!(bytes, b"{\"method\":\"Shutdown\",\"args\":[]}".to_vec());
}

#[test]
fn raw_values_are_json_texts() {
    assert_eq!(RawJson::number(0).as_str(), "0");
    assert_eq!(RawJson::number(4294967295).as_str(), "4294967295");
    assert_eq!(RawJson::null().as_str(), "null");
    assert_eq!(RawJson::string("plain").as_str(), "\"plain\"");
    assert_eq!(RawJson::string("tab\there").as_str(), "\"tab\\there\"");
    assert_eq!(RawJson::string("").as_str(), "\"\"");
}

fn call_as_the_helper_reads_it(call: &Call) -> (String, Vec<serde_json::Value>) {
    let bytes = encode_call(call);
    let parsed: serde_json::Value = serde_json::from_slice(&bytes).unwrap();
    let object = parsed.as_object().unwrap();
    assert_eq!(object.len(), 2);
    let method = object.get("method").unwrap().as_str().unwrap().to_string();
    let args = object.get("args").unwrap().as_array().unwrap().clone();
    (method, args)
}

#[test]
fn encoded_calls_read_back_unchanged() {
    let (method, args) = call_as_the_helper_reads_it(&Call::get_manifest());
    assert_eq!(method, "GetManifest");
    assert!(args.is_empty());

    let (method, args) = call_as_the_helper_reads_it(&Call::finish_pipe(7));
    assert_eq!(method, "FinishPipe");
    assert_eq!(args, vec![serde_json::Value::from(7u32)]);

    let (method, args) = call_as_the_helper_reads_it(&Call::shutdown());
    assert_eq!(method, "Shutdown");
    assert!(args.is_empty());

    let odd = "M\u{e9}thod \"x\" \\ \n \u{1F600} \u{0}";
    let call = Call::new(
        odd.to_string(),
        vec![
            RawJson::string(odd),
            RawJson::number(4294967295),
            RawJson::null(),
            RawJson::number(0),
            RawJson::string(""),
        ],
    );
    let (method, args) = call_as_the_helper_reads_it(&call);
    assert_eq!(method, odd);
    assert_eq!(
        args,
        vec![
            serde_json::Value::from(odd),
            serde_json::Value::from(4294967295u32),
            serde_json::Value::Null,
            serde_json::Value::from(0u32),
            serde_json::Value::from(""),
        ]
    );
}

fn member(name: &str, text: &str) -> Member {
    Member { name: name.to_string(), text: text.to_string() }
}

#[test]
fn members_are_found_by_name() {
    let members = vec![member("a", "1"), member("b", "2"), member("a", "3")];
    assert_eq!(find_member(&members, "a"), Some(&"1".to_string()));
    assert_eq!(find_member(&members, "b"), Some(&"2".to_string()));
    assert_eq!(find_member(&members, "c"), None);
    assert_eq!(find_member(&Vec::new(), "a"), None);
}

#[test]
fn reply_is_read_out_of_members() {
    let members = vec![
        member("error", "\"e\""),
        member("pipeid", "12"),
        member("success", "false"),
        member("value", "[1]"),
    ];
    let reply = reply_from_members(&members).unwrap();
    assert!(!reply.success);
    assert_eq!(reply.error, "e");
    assert_eq!(reply.pipe_id, 12);
    assert_eq!(reply.value.as_str(), "[1]");
    assert_eq!(
        reply_from_members(&members[..3].to_vec()),
        Err("missing field `value`".to_string())
    );
    assert_eq!(
        reply_from_members(&members[1..].to_vec()),
        Err("missing field `error`".to_string())
    );
    assert_eq!(reply_from_members(&Vec::new()), Err("missing field `success`".to_string()));
}

#[test]
fn first_unreadable_member_decides_the_complaint() {
    let value = || Some(RawJson::null());
    assert_eq!(
        assemble_reply(Some(Ok(true)), Some(Ok("e".to_string())), Some(Ok(3)), value()),
        Ok(Reply { success: true, error: "e".to_string(), pipe_id: 3, value: RawJson::null() })
    );
    assert_eq!(
        assemble_reply(None, Some(Err("second".to_string())), None, None),
        Err("missing field `success`".to_string())
    );
    assert_eq!(
        assemble_reply(Some(Err("first".to_string())), None, None, None),
        Err("first".to_string())
    );
    assert_eq!(
        assemble_reply(Some(Ok(true)), Some(Err("second".to_string())), None, None),
        Err("second".to_string())
    );
    assert_eq!(
        assemble_reply(Some(Ok(true)), None, Some(Err("third".to_string())), None),
        Err("missing field `error`".to_string())
    );
    assert_eq!(
        assemble_reply(Some(Ok(false)), Some(Ok(String::new())), Some(Err("third".to_string())), None),
        Err("third".to_string())
    );
    assert_eq!(
        assemble_reply(Some(Ok(false)), Some(Ok(String::new())), None, value()),
        Err("missing field `pipeid`".to_string())
    );
    assert_eq!(
        assemble_reply(Some(Ok(false)), Some(Ok(String::new())), Some(Ok(0)), None),
        Err("missing field `value`".to_string())
    );
}

#[test]
fn arguments_are_separated_by_commas() {
    assert_eq!(join_args(&Vec::new()), "");
    assert_eq!(join_args(&vec![RawJson::number(1)]), "1");
    assert_eq!(join_args(&vec![RawJson::number(1), RawJson::null(), RawJson::number(30)]), "1,null,30");
}

#[test]
fn request_is_framed_around_a_quoted_method() {
    assert_eq!(
        frame_call("\"M\"", &vec![RawJson::number(5), RawJson::number(6)]),
        b"{\"method\":\"M\",\"args\":[5,6]}".to_vec()
    );
    assert_eq!(frame_call("\"\"", &Vec::new()), b"{\"method\":\"\",\"args\":[]}".to_vec());
}

#[test]
fn receive_buffer_holds_sixteen_kibibytes() {
    assert_eq!(RECEIVE_BUFFER_SIZE, 16 * 1024);
}
