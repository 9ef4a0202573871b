use gestalt::websocket::{
    message_envelope_text, serialize_lua_command, ClientSendError, ClientSender, LuaCommand,
    MessageArgs, WsFrame,
};
use tokio::sync::mpsc::channel;

fn message(id: &str, text: &str) -> LuaCommand {
    LuaCommand::Message {
        id: String::from(id),
        args: MessageArgs { message: String::from(text) },
    }
}

#[test]
fn chat_message_keeps_the_text() {
    let LuaCommand::Message { id, args } = LuaCommand::chat_message(String::from("hello there"));
    assert_eq!(args.message, "hello there");
    assert_eq!(id.chars().count(), 36);
}

#[test]
fn chat_message_ids_are_hyphenated_hex() {
    let LuaCommand::Message { id, .. } = LuaCommand::chat_message(String::new());
    for (at, c) in id.chars().enumerate() {
        if at == 8 || at == 13 || at == 18 || at == 23 {
            assert_eq!(c, '-');
        } else {
            assert!(c.is_ascii_hexdigit() && !c.is_ascii_uppercase());
        }
    }
}

#[test]
fn chat_message_ids_are_fresh() {
    let LuaCommand::Message { id: first, .. } = LuaCommand::chat_message(String::from("a"));
    let LuaCommand::Message { id: second, .. } = LuaCommand::chat_message(String::from("a"));
    assert_ne!(first, second);
}

#[test]
fn command_is_written_as_a_tagged_object() {
    let text = serialize_lua_command(&message("abc", "hi")).unwrap();
    assert_eq!(text, r#"{"name":"message","id":"abc","args":{"message":"hi"}}"#);
}

#[test]
fn command_with_empty_fields() {
    let text = serialize_lua_command(&message("", "")).unwrap();
    assert_eq!(text, r#"{"name":"message","id":"","args":{"message":""}}"#);
}

#[test]
fn command_text_is_escaped_as_json() {
    let text = serialize_lua_command(&message("id\"1", "say \"hi\"\n\\ tab\there")).unwrap();
    assert_eq!(
        text,
        r#"{"name":"message","id":"id\"1","args":{"message":"say \"hi\"\n\\ tab\there"}}"#
    );
}

#[test]
fn command_control_characters_are_escaped() {
    let text = serialize_lua_command(&message("x", "\u{1}\u{8}\u{c}\r")).unwrap();
    assert_eq!(text, r#"{"name":"message","id":"x","args":{"message":"\u0001\b\f\r"}}"#);
}

#[test]
fn command_keeps_text_outside_ascii() {
    let text = serialize_lua_command(&message("x", "grüße 你好")).unwrap();
    assert_eq!(text, r#"{"name":"message","id":"x","args":{"message":"grüße 你好"}}"#);
}

#[test]
fn written_command_reads_back_as_json() {
    let original = "line one\nline \"two\" \\ {}[],:";
    let text = serialize_lua_command(&message("4f0c", original)).unwrap();
    let value: serde_json::Value = serde_json::from_str(&text).unwrap();
    assert_eq!(value.get("name").and_then(|v| v.as_str()), Some("message"));
    assert_eq!(value.get("id").and_then(|v| v.as_str()), Some("4f0c"));
    let args = value.get("args").unwrap();
    assert_eq!(args.get("message").and_then(|v| v.as_str()), Some(original));
    assert_eq!(value.as_object().unwrap().len(), 3);
    assert_eq!(args.as_object().unwrap().len(), 1);
}

#[test]
fn envelope_puts_the_quoted_fields_in_place() {
    assert_eq!(
        message_envelope_text("\"a\"", "\"b\""),
        r#"{"name":"message","id":"a","args":{"message":"b"}}"#
    );
    assert_eq!(message_envelope_text("", ""), r#"{"name":"message","id":,"args":{"message":}}"#);
}

#[test]
fn send_lua_command_addresses_a_text_frame() {
    let (tx, _rx) = channel::<WsFrame>(8);
    let sender = ClientSender::new(tx.clone());
    let delivery = sender.send_lua_command(&message("abc", "hi")).unwrap();
    assert!(delivery.sender.sender().same_channel(&tx));
    assert_eq!(delivery.target, None);
    assert!(matches!(
        &delivery.frame,
        WsFrame::Text(t) if t == r#"{"name":"message","id":"abc","args":{"message":"hi"}}"#
    ));
}

#[test]
fn send_text_and_send_message_address_the_frame_as_given() {
    let (tx, _rx) = channel::<WsFrame>(8);
    let sender = ClientSender::new(tx.clone());
    let delivery = sender.send_text(String::from("plain"));
    assert!(matches!(&delivery.frame, WsFrame::Text(t) if t == "plain"));
    assert_eq!(delivery.target, None);
    let delivery = sender.send_message(WsFrame::Binary(vec![1, 2, 3]));
    assert!(matches!(&delivery.frame, WsFrame::Binary(b) if b == &vec![1, 2, 3]));
    assert!(delivery.sender.sender().same_channel(&tx));
}

#[test]
fn frame_serialized_passes_the_writer_error_on() {
    let (tx, _rx) = channel::<WsFrame>(8);
    let sender = ClientSender::new(tx);
    let broken = serde_json::from_str::<serde_json::Value>("{").unwrap_err();
    let expected = broken.to_string();
    let refused = sender.frame_serialized(Err(broken));
    match refused {
        Err(ClientSendError::SerializeFailed(e)) => assert_eq!(e.to_string(), expected),
        _ => panic!("a writer error must come back as a serialize failure"),
    }
}

#[test]
fn send_failure_reads_send_failed_and_the_detail() {
    let error = ClientSendError::SendFailed(String::from("channel closed"));
    assert_eq!(error.to_string(), "send failed: channel closed");
}

#[test]
fn serialize_failure_reads_serialize_failed_and_the_writer_error() {
    let broken = serde_json::from_str::<serde_json::Value>("[1,").unwrap_err();
    let detail = broken.to_string();
    let error = ClientSendError::SerializeFailed(broken);
    assert_eq!(error.to_string(), format!("serialize failed: {detail}"));
}
