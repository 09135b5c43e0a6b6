use rover::value::{decode_frame, decode_received, decode_text, frame_of, payload_bytes, Frame, Value};

fn parse_json(s: &String) -> Option<serde_json::Value> {
    serde_json::from_str::<serde_json::Value>(s).ok()
}

fn render_json(v: &serde_json::Value) -> String {
    serde_json::to_string(v).unwrap()
}

#[test]
fn structured_json_object_is_structured() {
    let bytes = br#"{"level":"info","count":3}"#.to_vec();
    match decode_received(bytes, parse_json) {
        Value::StructuredString(v) => {
            assert_eq!(v["level"], serde_json::Value::String("info".to_string()));
            assert_eq!(v["count"], serde_json::Value::from(3));
        }
        _ => panic!("expected a structured record"),
    }
}

#[test]
fn valid_json_number_is_structured() {
    match decode_received(b"42".to_vec(), parse_json) {
        Value::StructuredString(v) => assert_eq!(v, serde_json::Value::from(42)),
        _ => panic!("expected a structured record"),
    }
}

#[test]
fn plain_text_stays_text() {
    match decode_received(b"hello world".to_vec(), parse_json) {
        Value::String(s) => assert_eq!(s, "hello world"),
        _ => panic!("expected text"),
    }
}

#[test]
fn multibyte_text_is_decoded() {
    let bytes = "grüße €".as_bytes().to_vec();
    match decode_received(bytes, parse_json) {
        Value::String(s) => assert_eq!(s, "grüße €"),
        _ => panic!("expected text"),
    }
}

#[test]
fn invalid_utf8_stays_bytes() {
    let bytes = vec![0xff, 0xfe, 0x41, 0x80];
    match decode_received(bytes.clone(), parse_json) {
        Value::Bytes(b) => assert_eq!(b, bytes),
        _ => panic!("expected bytes"),
    }
}

#[test]
fn truncated_multibyte_sequence_stays_bytes() {
    let bytes = vec![b'a', 0xe2, 0x82];
    match decode_received(bytes.clone(), parse_json) {
        Value::Bytes(b) => assert_eq!(b, bytes),
        _ => panic!("expected bytes"),
    }
}

#[test]
fn empty_input_is_empty_text() {
    match decode_received(Vec::new(), parse_json) {
        Value::String(s) => assert_eq!(s, ""),
        _ => panic!("expected text"),
    }
}

#[test]
fn decode_text_prefers_structured() {
    match decode_text("[1,2]".to_string(), parse_json) {
        Value::StructuredString(v) => assert_eq!(v, serde_json::Value::Array(vec![serde_json::Value::from(1), serde_json::Value::from(2)])),
        _ => panic!("expected a structured record"),
    }
}

#[test]
fn decode_text_falls_back_to_text() {
    match decode_text("{not json".to_string(), parse_json) {
        Value::String(s) => assert_eq!(s, "{not json"),
        _ => panic!("expected text"),
    }
}

#[test]
fn payload_of_text_is_its_utf8() {
    let v: Value<serde_json::Value> = Value::String("hello".to_string());
    assert_eq!(payload_bytes(&v, render_json), b"hello".to_vec());
}

#[test]
fn payload_of_bytes_is_unchanged() {
    let v: Value<serde_json::Value> = Value::Bytes(vec![1, 2, 3]);
    assert_eq!(payload_bytes(&v, render_json), vec![1, 2, 3]);
}

#[test]
fn payload_of_record_is_rendered_json() {
    let record = serde_json::from_str::<serde_json::Value>(r#"{"a":1}"#).unwrap();
    let v = Value::StructuredString(record);
    assert_eq!(payload_bytes(&v, render_json), br#"{"a":1}"#.to_vec());
}

#[test]
fn frames_carry_values() {
    let b: Value<serde_json::Value> = Value::Bytes(vec![9, 8]);
    assert!(matches!(frame_of(b, render_json), Frame::Binary(x) if x == vec![9, 8]));
    let t: Value<serde_json::Value> = Value::String("hi".to_string());
    assert!(matches!(frame_of(t, render_json), Frame::Text(x) if x == "hi"));
    let r = Value::StructuredString(serde_json::Value::Bool(true));
    assert!(matches!(frame_of(r, render_json), Frame::Text(x) if x == "true"));
}

#[test]
fn received_frames_are_classified() {
    match decode_frame(Frame::Text("{\"k\":null}".to_string()), parse_json) {
        Some(Value::StructuredString(v)) => assert_eq!(v["k"], serde_json::Value::Null),
        _ => panic!("expected a structured record"),
    }
    match decode_frame(Frame::Text("plain".to_string()), parse_json) {
        Some(Value::String(s)) => assert_eq!(s, "plain"),
        _ => panic!("expected text"),
    }
    // Binary frames are bytes even when they hold JSON text.
    match decode_frame(Frame::Binary(b"1".to_vec()), parse_json) {
        Some(Value::Bytes(b)) => assert_eq!(b, b"1".to_vec()),
        _ => panic!("expected bytes"),
    }
    assert!(decode_frame(Frame::Control, parse_json).is_none());
}
