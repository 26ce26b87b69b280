use descord::opcode::OpCode;
use descord::payload::Payload;
use descord::payloads::{heartbeat, identify, resume};

#[test]
fn opcode_numbers() {
    assert_eq!(OpCode::parse(0), Some(OpCode::Dispatch));
    assert_eq!(OpCode::parse(9), Some(OpCode::InvalidSession));
    assert_eq!(OpCode::parse(11), Some(OpCode::HeartbeatACK));
    assert_eq!(OpCode::parse(5), None);
    assert_eq!(OpCode::parse(12), None);
    assert_eq!(OpCode::Hello.code(), 10);
    for n in 0u8..=255 {
        if let Some(op) = OpCode::parse(n) {
            assert_eq!(op.code(), n);
        }
    }
}

#[test]
fn decode_dispatch_keeps_tag_and_sequence() {
    let p = Payload::parse(r#"{"op":0,"d":{"a":1},"s":42,"t":"MESSAGE_CREATE"}"#).unwrap();
    assert_eq!(p.operation_code, OpCode::Dispatch);
    assert_eq!(p.event_tag.as_deref(), Some("MESSAGE_CREATE"));
    assert_eq!(p.sequence, Some(42));
    assert_eq!(p.data, r#"{"a":1}"#);
}

#[test]
fn decode_non_dispatch_has_no_tag_or_sequence() {
    let p = Payload::parse(r#"{"op":10,"d":{"heartbeat_interval":41250},"s":3,"t":"X"}"#).unwrap();
    assert_eq!(p.operation_code, OpCode::Hello);
    assert_eq!(p.event_tag, None);
    assert_eq!(p.sequence, None);
    let p = Payload::parse(r#"{"op":11}"#).unwrap();
    assert_eq!(p.operation_code, OpCode::HeartbeatACK);
    assert_eq!(p.data, "null");
}

#[test]
fn decode_rejects_bad_frames() {
    assert!(Payload::parse("not json").is_none());
    assert!(Payload::parse(r#"{"d":1}"#).is_none());
    assert!(Payload::parse(r#"{"op":5}"#).is_none());
    assert!(Payload::parse(r#"{"op":300}"#).is_none());
    assert!(Payload::parse(r#"{"op":"1"}"#).is_none());
}

#[test]
fn heartbeat_frames() {
    assert_eq!(heartbeat(0), r#"{"op":1,"d":null}"#);
    assert_eq!(heartbeat(1234), r#"{"op":1,"d":1234}"#);
    let p = Payload::parse(&heartbeat(7)).unwrap();
    assert_eq!(p.operation_code, OpCode::Heartbeat);
    assert_eq!(p.data, "7");
}

#[test]
fn identify_frame() {
    let f = identify("tok", 513);
    assert_eq!(
        f,
        r#"{"op":2,"d":{"token":"tok","properties":{"os":"linux","browser":"descord","device":"descord"},"intents":513}}"#
    );
    let p = Payload::parse(&f).unwrap();
    assert_eq!(p.operation_code, OpCode::Identify);
    assert_eq!(p.event_tag, None);
    assert_eq!(
        p.data,
        r#"{"token":"tok","properties":{"os":"linux","browser":"descord","device":"descord"},"intents":513}"#
    );
}

#[test]
fn resume_frame_escapes_strings() {
    let f = resume("a\"b", "sess", 99);
    assert_eq!(f, r#"{"op":6,"d":{"token":"a\"b","seq":99,"session_id":"sess"}}"#);
    let p = Payload::parse(&f).unwrap();
    assert_eq!(p.operation_code, OpCode::Resume);
    assert_eq!(p.data, r#"{"token":"a\"b","seq":99,"session_id":"sess"}"#);
}
