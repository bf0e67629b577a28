use bytes::Bytes;
use dave_gateway::json::{message_envelope, object_with_number};
use dave_gateway::ws::{
    convert_tws_message, convert_ws_message, event_message, is_raw, message_opcode,
    opcode_message, route_text, ws_error_is_not_final, CloseFrame, Error, GatewayMessage, WsFrame,
};
use serde_json::Value;
use serenity_voice_model::payload::{Heartbeat, HeartbeatAck};
use serenity_voice_model::Event;
use tokio_tungstenite::tungstenite::Error as TungsteniteError;
use tokio_websockets::Error as TwsError;

fn text(s: &str) -> Option<WsFrame> {
    Some(WsFrame::Text(s.to_string()))
}

fn closed(code: u16) -> Error {
    Error::WsClosed(Some(CloseFrame { code, reason: String::new() }))
}

#[test]
fn control_messages_pass_unread() {
    for op in [4u8, 18, 20, 21, 22, 24, 31] {
        let sent = format!("{{\"op\":{op},\"d\":{{\"transition_id\":9}}}}");
        match convert_ws_message(text(&sent)) {
            Ok(Some(GatewayMessage::UnknownJson { op: seen, data })) => {
                assert_eq!(seen, op);
                assert_eq!(data.get("transition_id").and_then(Value::as_u64), Some(9));
            },
            other => panic!("unexpected {other:?}"),
        }
    }
}

#[test]
fn control_messages_pass_even_where_they_read_as_events() {
    let sent = "{\"op\":21,\"d\":{\"transition_id\":9,\"protocol_version\":1}}";
    assert!(serde_json::from_str::<Event>(sent).is_ok());
    let converted = convert_ws_message(text(sent));
    assert!(matches!(converted, Ok(Some(GatewayMessage::UnknownJson { op: 21, .. }))));
}

#[test]
fn missing_data_is_null() {
    match convert_ws_message(text("{\"op\":22}")) {
        Ok(Some(GatewayMessage::UnknownJson { op, data })) => {
            assert_eq!(op, 22);
            assert_eq!(data, Value::Null);
        },
        other => panic!("unexpected {other:?}"),
    }
}

#[test]
fn events_are_read() {
    let sent = "{\"op\":13,\"d\":{\"user_id\":\"42\"}}";
    match convert_ws_message(text(sent)) {
        Ok(Some(GatewayMessage::Json(Event::ClientDisconnect(ev)))) => {
            assert_eq!(ev.user_id.0, 42);
        },
        other => panic!("unexpected {other:?}"),
    }
}

#[test]
fn other_opcodes_pass_as_unknown() {
    match convert_ws_message(text("{\"op\":99,\"d\":[1]}")) {
        Ok(Some(GatewayMessage::UnknownJson { op, data })) => {
            assert_eq!(op, 99);
            assert_eq!(data, Value::from(vec![1u64]));
        },
        other => panic!("unexpected {other:?}"),
    }
}

#[test]
fn messages_without_an_opcode_say_nothing() {
    assert!(matches!(convert_ws_message(text("{\"d\":1}")), Ok(None)));
    assert!(matches!(convert_ws_message(text("{\"op\":256}")), Ok(None)));
    assert!(matches!(convert_ws_message(text("{\"op\":-1}")), Ok(None)));
    assert!(matches!(convert_ws_message(text("[]")), Ok(None)));
}

#[test]
fn text_that_is_not_json_is_an_error() {
    assert!(matches!(convert_ws_message(text("nonsense")), Err(Error::Json(_))));
    assert!(matches!(convert_ws_message(text("")), Err(Error::Json(_))));
    match convert_ws_message(text("{\"op\":1,}")) {
        Err(Error::Json(e)) => {
            let expected = serde_json::from_str::<Value>("{\"op\":1,}").expect_err("not JSON");
            assert_eq!(e.to_string(), expected.to_string());
        },
        other => panic!("unexpected {other:?}"),
    }
}

#[test]
fn binary_frames_pass() {
    let frame = Some(WsFrame::Binary(Bytes::from(vec![1u8, 2])));
    match convert_ws_message(frame) {
        Ok(Some(GatewayMessage::Binary(bytes))) => assert_eq!(bytes.as_ref(), &[1, 2]),
        other => panic!("unexpected {other:?}"),
    }
}

#[test]
fn a_close_with_a_frame_is_an_error() {
    let frame = CloseFrame { code: 4006, reason: "bye".to_string() };
    match convert_ws_message(Some(WsFrame::Close(Some(frame)))) {
        Err(Error::WsClosed(Some(frame))) => {
            assert_eq!(frame.code, 4006);
            assert_eq!(frame.reason, "bye");
        },
        other => panic!("unexpected {other:?}"),
    }
}

#[test]
fn frames_that_say_nothing() {
    assert!(matches!(convert_ws_message(None), Ok(None)));
    assert!(matches!(convert_ws_message(Some(WsFrame::Other)), Ok(None)));
    assert!(matches!(convert_ws_message(Some(WsFrame::Close(None))), Ok(None)));
}

#[test]
fn opcodes_fit_in_a_byte() {
    assert_eq!(message_opcode(&object_with_number("op", 255)), Some(255));
    assert_eq!(message_opcode(&object_with_number("op", 256)), None);
    assert_eq!(message_opcode(&object_with_number("d", 1)), None);
    assert_eq!(message_opcode(&Value::Null), None);
}

#[test]
fn raw_opcodes() {
    let raw: Vec<u8> = (0..=255u8).filter(|op| is_raw(*op)).collect();
    assert_eq!(raw, vec![4, 18, 20, 21, 22, 24, 31]);
}

#[test]
fn routing_prefers_events_to_unknown_opcodes() {
    let event = Event::from(HeartbeatAck { nonce: 5 });
    let message = object_with_number("op", 6);
    let routed = route_text(&message, Some(event.clone()));
    assert!(matches!(routed, Some(GatewayMessage::Json(Event::HeartbeatAck(_)))));
    assert!(matches!(
        route_text(&message, None),
        Some(GatewayMessage::UnknownJson { op: 6, data: Value::Null })
    ));
    assert!(matches!(
        route_text(&object_with_number("op", 24), Some(event.clone())),
        Some(GatewayMessage::UnknownJson { op: 24, .. })
    ));
    assert!(matches!(
        route_text(&Value::Null, Some(event)),
        Some(GatewayMessage::Json(Event::HeartbeatAck(_)))
    ));
    assert!(route_text(&Value::Null, None).is_none());
}

#[test]
fn events_are_written() {
    let event = Event::from(Heartbeat { nonce: 77 });
    let written = event_message(&event).expect("a text");
    match serde_json::from_str::<Event>(&written) {
        Ok(Event::Heartbeat(heartbeat)) => assert_eq!(heartbeat.nonce, 77),
        other => panic!("unexpected {other:?}"),
    }
}

#[test]
fn envelopes_are_written_and_read_back() {
    let data = object_with_number("transition_id", 7);
    let written = opcode_message(31, &data).expect("a text");
    let value: Value = serde_json::from_str(&written).expect("JSON");
    assert_eq!(value, message_envelope(31, &data));
    assert_eq!(value.get("op").and_then(Value::as_u64), Some(31));
    assert_eq!(value.get("d"), Some(&data));
    match convert_ws_message(text(&written)) {
        Ok(Some(GatewayMessage::UnknownJson { op, data: read })) => {
            assert_eq!(op, 31);
            assert_eq!(read, data);
        },
        other => panic!("unexpected {other:?}"),
    }
}

#[test]
fn deep_values_are_read_back_up_to_the_limit() {
    let mut data = Value::Null;
    for _ in 0..126 {
        data = Value::from(vec![data]);
    }
    let written = opcode_message(99, &data).expect("a text");
    assert!(serde_json::from_str::<Value>(&written).is_ok());
    let deeper = Value::from(vec![data]);
    let written = opcode_message(99, &deeper).expect("a text");
    assert!(matches!(convert_ws_message(text(&written)), Err(Error::Json(_))));
}

#[test]
fn integers_are_read_back() {
    let data = Value::from(vec![
        Value::from(i64::MIN),
        Value::from(-1),
        Value::from(0),
        Value::from(u64::MAX),
    ]);
    let written = opcode_message(99, &data).expect("a text");
    match convert_ws_message(text(&written)) {
        Ok(Some(GatewayMessage::UnknownJson { op: 99, data: read })) => assert_eq!(read, data),
        other => panic!("unexpected {other:?}"),
    }
    assert_eq!(message_opcode(&message_envelope(7, &Value::from(-1))), Some(7));
    assert!(matches!(convert_ws_message(text("{\"op\":1.5}")), Ok(None)));
}

#[test]
fn the_key_for_raw_text_is_taken_for_its_member() {
    let raw = object_with_number("$serde_json::private::RawValue", 5);
    let written = opcode_message(99, &raw).expect("a text");
    assert!(matches!(convert_ws_message(text(&written)), Err(Error::Json(_))));
    let sent = "{\"op\":99,\"d\":{\"$serde_json::private::RawValue\":\"5\"}}";
    match convert_ws_message(text(sent)) {
        Ok(Some(GatewayMessage::UnknownJson { op: 99, data })) => {
            assert_eq!(data, Value::from(5));
        },
        other => panic!("unexpected {other:?}"),
    }
}

#[test]
fn the_other_websocket_reports_every_close() {
    assert!(matches!(
        convert_tws_message(Some(WsFrame::Close(None))),
        Err(Error::WsClosed(None))
    ));
    let frame = CloseFrame { code: 4006, reason: String::new() };
    assert!(matches!(
        convert_tws_message(Some(WsFrame::Close(Some(frame)))),
        Err(Error::WsClosed(Some(CloseFrame { code: 4006, .. })))
    ));
    assert!(matches!(convert_tws_message(Some(WsFrame::Other)), Ok(None)));
    assert!(matches!(
        convert_tws_message(text("{\"op\":24,\"d\":1}")),
        Ok(Some(GatewayMessage::UnknownJson { op: 24, .. }))
    ));
}

#[test]
fn objects_with_a_number() {
    let value = object_with_number("transition_id", 12);
    assert_eq!(serde_json::to_string(&value).expect("a text"), "{\"transition_id\":12}");
}

#[test]
fn final_close_codes() {
    let final_codes = [
        4001, 4002, 4003, 4004, 4005, 4006, 4011, 4012, 4014, 4016, 4017, 4020, 4021, 4022,
    ];
    for code in 3990..=5010u16 {
        assert_eq!(ws_error_is_not_final(&closed(code)), !final_codes.contains(&code), "{code}");
    }
    assert!(ws_error_is_not_final(&closed(1000)));
    assert!(ws_error_is_not_final(&closed(u16::MAX)));
}

#[test]
fn other_errors_are_worth_another_attempt() {
    assert!(ws_error_is_not_final(&Error::WsClosed(None)));
    let json = serde_json::from_str::<Value>("?").expect_err("not JSON");
    assert!(ws_error_is_not_final(&Error::from(json)));
    let lost = Error::from(TungsteniteError::ConnectionClosed);
    assert!(matches!(lost, Error::Ws(_)));
    assert!(ws_error_is_not_final(&lost));
    let lost = Error::from(TwsError::AlreadyClosed);
    assert!(matches!(lost, Error::Tws(_)));
    assert!(ws_error_is_not_final(&lost));
}
