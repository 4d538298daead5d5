use nexus_tool::digest::sha256_hex;
use nexus_tool::common::EnclaveError;
use nexus_tool::json::decimal;
use nexus_tool::walrus::read_json;

#[test]
fn sha256_hex_of_abc() {
    assert_eq!(
        sha256_hex(b"abc"),
        "sha256:ba7816bf8f01cfea414140de5dae2223b00361a396177a9cb410ff61f20015ad"
    );
}

#[test]
fn sha256_hex_of_empty_input() {
    let text = sha256_hex(b"");
    assert_eq!(
        text,
        "sha256:e3b0c44298fc1c149afbf4c8996fb92427ae41e4649b934ca495991b7852b855"
    );
    assert_eq!(text.len(), 71);
}

#[test]
fn sha256_hex_has_prefix_and_lowercase_digits() {
    let text = sha256_hex("hello TEE".as_bytes());
    assert!(text.starts_with("sha256:"));
    assert_eq!(text.len(), 71);
    assert!(text[7..].chars().all(|c| c.is_ascii_digit() || ('a'..='f').contains(&c)));
}

fn error_body(message: &str) -> String {
    EnclaveError::GenericError(message.to_string()).body_json()
}

#[test]
fn strings_are_quoted_and_escaped() {
    assert_eq!(error_body("plain"), "{\"error\":\"plain\"}");
    assert_eq!(error_body("say \"hi\"\n"), "{\"error\":\"say \\\"hi\\\"\\n\"}");
    assert_eq!(error_body(""), "{\"error\":\"\"}");
}

fn read_answer(raw: &str) -> String {
    read_json::outcome(Ok(raw.to_string())).to_json()
}

#[test]
fn parsed_documents_keep_member_order_in_compact_form() {
    assert_eq!(
        read_answer("{ \"b\": 1,\n \"a\": [1, 2, {\"z\": null}] }"),
        "{\"ok\":{\"json\":{\"b\":1,\"a\":[1,2,{\"z\":null}]}}}"
    );
    assert_eq!(read_answer(" \"text\" "), "{\"ok\":{\"json\":\"text\"}}");
}

#[test]
fn parse_errors_carry_the_parser_message() {
    match read_json::outcome(Ok("{\"a\":".to_string())) {
        read_json::Output::Error { reason, .. } => {
            assert!(reason.starts_with("Invalid JSON data: "));
            assert!(reason.contains("EOF"), "unexpected message: {reason}");
        }
        read_json::Output::Read { .. } => panic!("expected an error"),
    }
}

#[test]
fn decimal_writes_digits() {
    assert_eq!(decimal(0), "0");
    assert_eq!(decimal(7), "7");
    assert_eq!(decimal(305), "305");
    assert_eq!(decimal(u64::MAX), "18446744073709551615");
}

#[test]
fn digest_text_tells_inputs_apart() {
    assert_ne!(sha256_hex(b"result A"), sha256_hex(b"result B"));
    assert_eq!(sha256_hex(b"same"), sha256_hex(b"same"));
}
