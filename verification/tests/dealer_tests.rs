use std::io::Read;

use base64::{prelude::BASE64_STANDARD, Engine};
use librespot::dealer::{
    gzip_outcome, handle_transfer_encoding, Headers, Message, MessagePayloadValue, Payload,
    PayloadValue, WebsocketMessage, WebsocketRequest,
};
use librespot::error::ErrorKind;
use librespot::request::{Command, GenericCommand, LoggingParams, PauseCommand, UnknownCommand};

const GZIP_HELLO: [u8; 25] = [
    31, 139, 8, 0, 0, 0, 0, 0, 2, 3, 203, 72, 205, 201, 201, 7, 0, 134, 166, 16, 54, 5, 0, 0, 0,
];

fn gzip_headers() -> Headers {
    let mut h = Headers::new();
    h.insert("Transfer-Encoding".to_string(), "gzip".to_string());
    h
}

fn message(headers: Headers, payloads: Vec<MessagePayloadValue>) -> WebsocketMessage {
    WebsocketMessage { headers, method: None, payloads, uri: "hm://m".to_string() }
}

fn no_logging() -> LoggingParams {
    LoggingParams {
        interaction_ids: None,
        device_identifier: None,
        command_initiated_time: None,
        page_instance_ids: None,
        command_id: None,
    }
}

#[test]
fn headers_insert_and_get() {
    let mut h = Headers::new();
    assert!(h.get("a").is_none());
    h.insert("a".to_string(), "1".to_string());
    h.insert("b".to_string(), "2".to_string());
    h.insert("a".to_string(), "3".to_string());
    assert_eq!(h.get("a").map(|s| s.as_str()), Some("3"));
    assert_eq!(h.get("b").map(|s| s.as_str()), Some("2"));
    assert!(h.get("c").is_none());
}

#[test]
fn transfer_encoding_absent_keeps_data() {
    let data = vec![1, 2, 3];
    assert_eq!(handle_transfer_encoding(&Headers::new(), data.clone()).unwrap(), data);
    let mut h = Headers::new();
    h.insert("Transfer-Encoding".to_string(), "identity".to_string());
    assert_eq!(handle_transfer_encoding(&h, GZIP_HELLO.to_vec()).unwrap(), GZIP_HELLO.to_vec());
}

#[test]
fn transfer_encoding_gzip_decompresses() {
    let out = handle_transfer_encoding(&gzip_headers(), GZIP_HELLO.to_vec()).unwrap();
    assert_eq!(out, b"hello".to_vec());
}

#[test]
fn transfer_encoding_bad_gzip_fails() {
    let e = handle_transfer_encoding(&gzip_headers(), vec![1, 2, 3]).unwrap_err();
    assert_eq!(e.kind, ErrorKind::FailedPrecondition);
    let mut out = Vec::new();
    let why = flate2::read::GzDecoder::new(&[1u8, 2, 3][..]).read_to_end(&mut out).unwrap_err();
    assert_eq!(e.error, format!("gzip decoding failed: {why}"));
}

#[test]
fn gzip_outcome_cases() {
    assert_eq!(gzip_outcome(Ok((2, vec![4, 5]))).unwrap(), vec![4, 5]);
    let e = gzip_outcome(Ok((3, vec![4, 5]))).unwrap_err();
    assert_eq!(e.kind, ErrorKind::FailedPrecondition);
    assert_eq!(e.error, "read bytes mismatched with expected bytes");
    let e = gzip_outcome(Err("bad header".to_string())).unwrap_err();
    assert_eq!(e.error, "gzip decoding failed: bad header");
}

#[test]
fn websocket_message_without_payload_is_empty() {
    let mut m = message(Headers::new(), vec![]);
    assert!(matches!(m.handle_payload(), Ok(PayloadValue::Empty)));
}

#[test]
fn websocket_message_with_two_payloads_fails() {
    let mut m = message(
        Headers::new(),
        vec![MessagePayloadValue::Bytes(vec![1]), MessagePayloadValue::Bytes(vec![2])],
    );
    let e = m.handle_payload().unwrap_err();
    assert_eq!(e.kind, ErrorKind::FailedPrecondition);
    assert_eq!(e.error, "payload had more then one value. had 2 values");
    assert_eq!(m.payloads.len(), 2);
}

#[test]
fn websocket_message_base64_string_payload() {
    let mut m = message(Headers::new(), vec![MessagePayloadValue::String("aGVsbG8=".to_string())]);
    match m.handle_payload() {
        Ok(PayloadValue::Raw(bytes)) => assert_eq!(bytes, b"hello".to_vec()),
        other => panic!("unexpected {:?}", other),
    }
    assert!(m.payloads.is_empty());
    assert_eq!(m.uri, "hm://m");
}

#[test]
fn websocket_message_gzip_bytes_payload() {
    let mut m = message(gzip_headers(), vec![MessagePayloadValue::Bytes(GZIP_HELLO.to_vec())]);
    match m.handle_payload() {
        Ok(PayloadValue::Raw(bytes)) => assert_eq!(bytes, b"hello".to_vec()),
        other => panic!("unexpected {:?}", other),
    }
}

#[test]
fn websocket_message_bad_base64_fails() {
    let mut m = message(Headers::new(), vec![MessagePayloadValue::String("!!!".to_string())]);
    let e = m.handle_payload().unwrap_err();
    assert_eq!(e.kind, ErrorKind::FailedPrecondition);
    let why = BASE64_STANDARD.decode("!!!").unwrap_err();
    assert_eq!(e.error, format!("base64 decoding failed: {why}"));
}

#[test]
fn websocket_message_json_payload_is_kept() {
    let mut m = message(gzip_headers(), vec![MessagePayloadValue::Json("{\"x\":1}".to_string())]);
    match m.handle_payload() {
        Ok(PayloadValue::Json(s)) => assert_eq!(s, "{\"x\":1}"),
        other => panic!("unexpected {:?}", other),
    }
}

#[test]
fn message_payload_accessors() {
    let json = Message { headers: Headers::new(), payload: PayloadValue::Json("{}".to_string()), uri: String::new() };
    assert_eq!(Message::json_payload(json.clone()).unwrap(), "{}");
    let e = Message::raw_payload(json.clone()).unwrap_err();
    assert_eq!(e.kind, ErrorKind::Unavailable);
    assert_eq!(e.error, format!("received unexpected data {:#?}", json.payload));
    assert_eq!(e.error, "received unexpected data Json(\n    \"{}\",\n)");
    let raw = Message { headers: Headers::new(), payload: PayloadValue::Raw(vec![1]), uri: String::new() };
    assert_eq!(Message::raw_payload(raw.clone()).unwrap(), vec![1]);
    let e = Message::json_payload(raw.clone()).unwrap_err();
    assert_eq!(e.kind, ErrorKind::Unavailable);
    assert_eq!(e.error, format!("received unexpected data {:#?}", raw.payload));
    assert_eq!(e.error, "received unexpected data Raw(\n    [\n        1,\n    ],\n)");
    let empty = Message { headers: Headers::new(), payload: PayloadValue::Empty, uri: String::new() };
    let e = Message::json_payload(empty).unwrap_err();
    assert_eq!(e.kind, ErrorKind::Unavailable);
    assert_eq!(e.error, "received unexpected data Empty");
    let empty_raw = PayloadValue::Raw(vec![]);
    assert_eq!(empty_raw.pretty_debug_text(), format!("{:#?}", empty_raw));
    let two = PayloadValue::Raw(vec![3, 200]);
    assert_eq!(two.pretty_debug_text(), format!("{:#?}", two));
}

#[test]
fn websocket_request_gzip_payload() {
    let r = WebsocketRequest {
        headers: gzip_headers(),
        message_ident: "hm://r".to_string(),
        key: "k".to_string(),
        payload: Payload { compressed: "H4sIAAAAAAACA6tWSlSyMqwFAK+sG1YHAAAA".to_string() },
    };
    assert_eq!(r.handle_payload().unwrap(), "{\"a\":1}");
}

#[test]
fn websocket_request_plain_payload() {
    let r = WebsocketRequest {
        headers: Headers::new(),
        message_ident: String::new(),
        key: String::new(),
        payload: Payload { compressed: "eyJiIjoyfQ==".to_string() },
    };
    assert_eq!(r.handle_payload().unwrap(), "{\"b\":2}");
}

#[test]
fn websocket_request_errors() {
    let bad_utf8 = WebsocketRequest {
        headers: Headers::new(),
        message_ident: String::new(),
        key: String::new(),
        payload: Payload { compressed: "//4=".to_string() },
    };
    let e = bad_utf8.handle_payload().unwrap_err();
    assert_eq!(e.kind, ErrorKind::FailedPrecondition);
    assert_eq!(e.error, String::from_utf8(vec![0xff, 0xfe]).unwrap_err().to_string());
    let bad_base64 = WebsocketRequest {
        headers: Headers::new(),
        message_ident: String::new(),
        key: String::new(),
        payload: Payload { compressed: "@@".to_string() },
    };
    let e = bad_base64.handle_payload().unwrap_err();
    let why = BASE64_STANDARD.decode("@@").unwrap_err();
    assert_eq!(e.error, format!("base64 decoding failed: {why}"));
    let bad_gzip = WebsocketRequest {
        headers: gzip_headers(),
        message_ident: String::new(),
        key: String::new(),
        payload: Payload { compressed: "eyJiIjoyfQ==".to_string() },
    };
    assert!(bad_gzip.handle_payload().unwrap_err().error.starts_with("gzip decoding failed: "));
}

#[test]
fn command_endpoints_and_text() {
    let pause = Command::Pause(PauseCommand { logging_params: no_logging() });
    assert_eq!(pause.endpoint(), "pause");
    assert_eq!(pause.to_string(), "endpoint: pause");
    let prev = Command::SkipPrev(GenericCommand { logging_params: no_logging() });
    assert_eq!(prev.to_string(), "endpoint: skip_prev");
    let unknown = Command::Unknown(UnknownCommand { endpoint: Some("foo".to_string()), json: "{}".to_string() });
    assert_eq!(unknown.endpoint(), "foo");
    assert_eq!(unknown.to_string(), "endpoint: unknown foo");
    let nameless = Command::Unknown(UnknownCommand { endpoint: None, json: "{}".to_string() });
    assert_eq!(nameless.to_string(), "endpoint: unknown ???");
}
