use lovense_rust::error::{DecodeError, PairingError, SendError};
use lovense_rust::payload::WireValue;
use lovense_rust::request::Delivery;
use lovense_rust::server::{LovenseQrCodeResponse, LovenseServer};

const WELL_FORMED: &str = "{\"result\": true, \"code\": 0, \"message\": \"ok\", \"data\": {\"qrcode\": \"abc123\"}}";

fn text(s: &str) -> WireValue {
    WireValue::Text(s.to_string())
}

#[test]
fn test_create_qr_code() {
    let server = LovenseServer::new("a-token".to_string());
    let request = server.create_qr_code("123456789", "test");
    assert_eq!(request.url, "https://api.lovense.com/api/lan/getQrCode");
    assert_eq!(
        request.body.members().clone(),
        vec![
            ("token".to_string(), text("a-token")),
            ("uid".to_string(), text("123456789")),
            ("uname".to_string(), text("test")),
            ("v".to_string(), text("2")),
        ]
    );
}

#[test]
fn well_formed_reply_yields_the_qr_code() {
    let response = LovenseQrCodeResponse::decode(WELL_FORMED.as_bytes()).unwrap();
    assert_eq!(response.get("qrcode"), Some(&"abc123".to_string()));
    assert_eq!(response.result, true);
    assert_eq!(response.code, 0);
    assert_eq!(response.message, "ok");
    assert_eq!(response.data, vec![("qrcode".to_string(), "abc123".to_string())]);
    assert_eq!(response.get("other"), None);
}

#[test]
fn reply_is_read_whatever_the_status() {
    for status in [200, 400, 503] {
        let outcome = Delivery::Answered { status, body: WELL_FORMED.as_bytes().to_vec() };
        let response = LovenseServer::read_reply(outcome).unwrap();
        assert_eq!(response.get("qrcode"), Some(&"abc123".to_string()));
    }
}

#[test]
fn failed_transfer_is_a_send_error() {
    let outcome = Delivery::Failed { reason: "dns error".to_string() };
    assert_eq!(
        LovenseServer::read_reply(outcome),
        Err(PairingError::Send(SendError { reason: "dns error".to_string() }))
    );
}

#[test]
fn unreadable_reply_is_a_decode_error() {
    let outcome = Delivery::Answered { status: 200, body: b"<html>".to_vec() };
    assert_eq!(LovenseServer::read_reply(outcome), Err(PairingError::Decode(DecodeError::NotJson)));
    let outcome = Delivery::Answered { status: 200, body: b"{\"result\": 1}".to_vec() };
    assert_eq!(LovenseServer::read_reply(outcome), Err(PairingError::Decode(DecodeError::Result)));
}

#[test]
fn text_that_is_not_json_is_refused() {
    for body in ["", "{", "{\"result\": true,}", "nul", "{} {}", "{\"a\": 1} x"] {
        assert_eq!(LovenseQrCodeResponse::decode(body.as_bytes()), Err(DecodeError::NotJson));
    }
}

#[test]
fn bytes_that_are_no_text_are_refused() {
    let mut body = WELL_FORMED.as_bytes().to_vec();
    let at = WELL_FORMED.find("abc123").unwrap();
    body[at + 1] = 0xff;
    assert_eq!(LovenseQrCodeResponse::decode(&body), Err(DecodeError::NotJson));
    assert_eq!(LovenseQrCodeResponse::decode(&[0xc3, 0x28]), Err(DecodeError::NotJson));
}

#[test]
fn document_that_is_no_object_is_refused() {
    for body in ["null", "true", "12", "\"text\"", "[true, 0, \"ok\", {}]"] {
        assert_eq!(LovenseQrCodeResponse::decode(body.as_bytes()), Err(DecodeError::NotAnObject));
    }
}

#[test]
fn result_must_be_a_boolean() {
    for body in [
        "{}",
        "{\"code\": 0, \"message\": \"ok\", \"data\": {}}",
        "{\"result\": \"true\", \"code\": 0, \"message\": \"ok\", \"data\": {}}",
        "{\"result\": 1, \"code\": 0, \"message\": \"ok\", \"data\": {}}",
        "{\"result\": null, \"code\": 0, \"message\": \"ok\", \"data\": {}}",
    ] {
        assert_eq!(LovenseQrCodeResponse::decode(body.as_bytes()), Err(DecodeError::Result));
    }
}

#[test]
fn code_must_be_an_integer_of_32_bits() {
    for body in [
        "{\"result\": true, \"message\": \"ok\", \"data\": {}}",
        "{\"result\": true, \"code\": \"0\", \"message\": \"ok\", \"data\": {}}",
        "{\"result\": true, \"code\": 0.5, \"message\": \"ok\", \"data\": {}}",
        "{\"result\": true, \"code\": 1.0, \"message\": \"ok\", \"data\": {}}",
        "{\"result\": true, \"code\": 2147483648, \"message\": \"ok\", \"data\": {}}",
        "{\"result\": true, \"code\": -2147483649, \"message\": \"ok\", \"data\": {}}",
        "{\"result\": true, \"code\": 9223372036854775808, \"message\": \"ok\", \"data\": {}}",
        "{\"result\": true, \"code\": 18446744073709551615, \"message\": \"ok\", \"data\": {}}",
    ] {
        assert_eq!(LovenseQrCodeResponse::decode(body.as_bytes()), Err(DecodeError::Code));
    }
}

#[test]
fn code_is_read_over_the_whole_range() {
    for (written, code) in [("2147483647", i32::MAX), ("-2147483648", i32::MIN), ("-1", -1), ("400", 400)] {
        let body = format!("{{\"result\": false, \"code\": {}, \"message\": \"\", \"data\": {{}}}}", written);
        let response = LovenseQrCodeResponse::decode(body.as_bytes()).unwrap();
        assert_eq!(response.code, code);
        assert_eq!(response.result, false);
        assert_eq!(response.message, "");
        assert_eq!(response.data, vec![]);
    }
}

#[test]
fn message_must_be_a_string() {
    for body in [
        "{\"result\": true, \"code\": 0, \"data\": {}}",
        "{\"result\": true, \"code\": 0, \"message\": 3, \"data\": {}}",
        "{\"result\": true, \"code\": 0, \"message\": null, \"data\": {}}",
    ] {
        assert_eq!(LovenseQrCodeResponse::decode(body.as_bytes()), Err(DecodeError::Message));
    }
}

#[test]
fn data_must_be_an_object_of_strings() {
    for body in [
        "{\"result\": true, \"code\": 0, \"message\": \"ok\"}",
        "{\"result\": true, \"code\": 0, \"message\": \"ok\", \"data\": null}",
        "{\"result\": true, \"code\": 0, \"message\": \"ok\", \"data\": \"abc\"}",
        "{\"result\": true, \"code\": 0, \"message\": \"ok\", \"data\": [\"abc\"]}",
        "{\"result\": true, \"code\": 0, \"message\": \"ok\", \"data\": {\"qrcode\": 5}}",
        "{\"result\": true, \"code\": 0, \"message\": \"ok\", \"data\": {\"a\": \"x\", \"b\": {}}}",
    ] {
        assert_eq!(LovenseQrCodeResponse::decode(body.as_bytes()), Err(DecodeError::Data));
    }
}

#[test]
fn what_is_wrong_first_is_reported() {
    let body = "{\"result\": 0, \"code\": \"x\", \"message\": 1, \"data\": 2}";
    assert_eq!(LovenseQrCodeResponse::decode(body.as_bytes()), Err(DecodeError::Result));
    let body = "{\"result\": true, \"code\": \"x\", \"message\": 1, \"data\": 2}";
    assert_eq!(LovenseQrCodeResponse::decode(body.as_bytes()), Err(DecodeError::Code));
    let body = "{\"result\": true, \"code\": 7, \"message\": 1, \"data\": 2}";
    assert_eq!(LovenseQrCodeResponse::decode(body.as_bytes()), Err(DecodeError::Message));
}

#[test]
fn other_members_are_passed_over() {
    let body = "{\"extra\": [1, 2], \"data\": {\"qrcode\": \"q\", \"code\": \"c\"}, \"message\": \"Success\", \"code\": 200, \"result\": true}";
    let response = LovenseQrCodeResponse::decode(body.as_bytes()).unwrap();
    assert_eq!(response.code, 200);
    assert_eq!(response.message, "Success");
    assert_eq!(response.get("qrcode"), Some(&"q".to_string()));
    assert_eq!(response.get("code"), Some(&"c".to_string()));
    assert_eq!(response.data.len(), 2);
}

#[test]
fn strings_are_read_with_their_escapes() {
    let body = "{\"result\": true, \"code\": 0, \"message\": \"a\\\"b\\u00e9\\n\", \"data\": {\"k\\t\": \"\\\\\"}}";
    let response = LovenseQrCodeResponse::decode(body.as_bytes()).unwrap();
    assert_eq!(response.message, "a\"b\u{e9}\n");
    assert_eq!(response.get("k\t"), Some(&"\\".to_string()));
}

#[test]
fn document_is_read_as_well_as_text() {
    let doc: serde_json::Value = serde_json::from_str(WELL_FORMED).unwrap();
    assert_eq!(LovenseQrCodeResponse::from_json(&doc), LovenseQrCodeResponse::decode(WELL_FORMED.as_bytes()));
    let doc: serde_json::Value = serde_json::from_str("[1]").unwrap();
    assert_eq!(LovenseQrCodeResponse::from_json(&doc), Err(DecodeError::NotAnObject));
}

#[test]
fn every_member_of_data_is_found_once() {
    let body = "{\"result\": true, \"code\": 0, \"message\": \"ok\", \"data\": {\"b\": \"2\", \"a\": \"1\", \"b\": \"3\"}}";
    let response = LovenseQrCodeResponse::decode(body.as_bytes()).unwrap();
    let mut keys: Vec<&str> = response.data.iter().map(|m| m.0.as_str()).collect();
    keys.sort();
    assert_eq!(keys, ["a", "b"]);
    assert_eq!(response.get("a"), Some(&"1".to_string()));
    assert_eq!(response.get("b"), Some(&"3".to_string()));
}
