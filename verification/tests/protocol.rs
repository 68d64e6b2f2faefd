use simcore::protocol::{deserialize, serialize, Message};

#[test]
fn serde_ping() {
    let ping = Message::Ping;
    let serialized = serialize(ping).unwrap();
    let deserialized = deserialize(&serialized).unwrap();
    assert_eq!(deserialized, Message::Ping);
}

#[test]
fn serde_pong() {
    let serialized = serialize(Message::Pong).unwrap();
    assert_eq!(serialized, vec![1, 0, 0, 0]);
    assert_eq!(deserialize(&serialized).unwrap(), Message::Pong);
}

#[test]
fn ping_wire_format() {
    let serialized = serialize(Message::Ping).unwrap();
    assert_eq!(serialized, vec![0, 0, 0, 0]);
}

#[test]
fn chat_wire_format() {
    let serialized = serialize(Message::Chat("A".to_string())).unwrap();
    assert_eq!(serialized, vec![2, 0, 0, 0, 1, 0, 0, 0, 0, 0, 0, 0, 65]);
}

#[test]
fn serde_text_round_trips() {
    let chat = serialize(Message::Chat("hello there".to_string())).unwrap();
    assert_eq!(deserialize(&chat).unwrap(), Message::Chat("hello there".to_string()));
    let nick = serialize(Message::Nick("player one".to_string())).unwrap();
    assert_eq!(deserialize(&nick).unwrap(), Message::Nick("player one".to_string()));
    let me = serialize(Message::Me("waves".to_string())).unwrap();
    assert_eq!(deserialize(&me).unwrap(), Message::Me("waves".to_string()));
}

#[test]
fn serde_handles_multibyte_text() {
    let chat = serialize(Message::Chat("héllo ∞".to_string())).unwrap();
    assert_eq!(deserialize(&chat).unwrap(), Message::Chat("héllo ∞".to_string()));
}

#[test]
fn deserialize_rejects_short_buffer() {
    assert!(deserialize(&[]).is_err());
    assert!(deserialize(&[0, 0]).is_err());
    assert!(deserialize(&[2, 0, 0, 0]).is_err());
}

#[test]
fn deserialize_rejects_unknown_tag() {
    assert!(deserialize(&[9, 0, 0, 0]).is_err());
    assert!(deserialize(&[0, 1, 0, 0]).is_err());
}

#[test]
fn deserialize_rejects_trailing_bytes() {
    assert!(deserialize(&[0, 0, 0, 0, 7]).is_err());
}

#[test]
fn deserialize_rejects_wrong_length() {
    // Claims two payload bytes but carries one.
    assert!(deserialize(&[2, 0, 0, 0, 2, 0, 0, 0, 0, 0, 0, 0, 65]).is_err());
}

#[test]
fn deserialize_rejects_invalid_utf8() {
    assert!(deserialize(&[2, 0, 0, 0, 1, 0, 0, 0, 0, 0, 0, 0, 0xFF]).is_err());
}
