use base64::Engine;
use chatsync::dispatch::{
    apply_chat_event, apply_status_event, handle_frame, InboundEffect, InboundFrame,
    StatusApplied,
};
use chatsync::envelope::{decode_envelope, Envelope};
use chatsync::model::Message;
use chatsync::payload::decode_payload;
use chatsync::session::{ConnectionState, WebSocketState};
use chatsync::store::Store;

const KEY: &str = "hardcoded_key";

fn encode_payload_for_test(plain: &str) -> String {
    let key = KEY.as_bytes();
    let bytes: Vec<u8> = plain
        .as_bytes()
        .iter()
        .enumerate()
        .map(|(i, b)| b ^ key[i % key.len()])
        .collect();
    base64::engine::general_purpose::STANDARD.encode(bytes)
}

fn chat_envelope_text(message_id: &str, chat_id: &str, content_encoded: &str) -> String {
    format!(
        "{{\"type\":\"chat\",\"message\":{{\"message_id\":\"{}\",\"chat_id\":\"{}\",\"sender_id\":\"u2\",\"content\":\"{}\",\"sent_at\":\"2024-01-15T10:30:00Z\"}}}}",
        message_id, chat_id, content_encoded
    )
}

fn status_envelope_text(message_id: &str, status: &str) -> String {
    format!(
        "{{\"type\":\"message-status\",\"message\":{{\"message_id\":\"{}\",\"chat_id\":\"c1\",\"sender_id\":\"u2\",\"status\":\"{}\",\"timestamp\":\"2024-01-15T10:31:00Z\"}}}}",
        message_id, status
    )
}

fn stored_message(client_id: &str, server_id: Option<&str>) -> Message {
    Message {
        message_id: server_id.map(String::from),
        client_message_id: String::from(client_id),
        chat_id: String::from("c1"),
        sender_id: String::from("u1"),
        content: String::from("optimistic"),
        timestamp: 5,
        is_read: false,
        is_sent: false,
        is_delivered: false,
        is_failed: false,
        sender_username: None,
        reply_to_message_id: None,
    }
}

#[test]
fn payload_transform_round_trips() {
    let encoded = encode_payload_for_test("hello there");
    assert_eq!(decode_payload(&encoded), "hello there");
}

#[test]
fn payload_passes_through_when_not_base64() {
    assert_eq!(decode_payload("!!not base64!!"), "!!not base64!!");
    assert_eq!(decode_payload(""), "");
}

#[test]
fn chat_envelope_classifies_with_all_fields() {
    let text = chat_envelope_text("srv-1", "c1", "abc");
    match decode_envelope(&text) {
        Envelope::Chat { message_id, chat_id, sender_id, content, sent_at } => {
            assert_eq!(message_id, "srv-1");
            assert_eq!(chat_id, "c1");
            assert_eq!(sender_id, "u2");
            assert_eq!(content, "abc");
            assert_eq!(sent_at, "2024-01-15T10:30:00Z");
        }
        _ => panic!("expected a chat envelope"),
    }
}

#[test]
fn status_envelope_classifies_under_both_discriminants() {
    for kind in ["message-status", "status"] {
        let text = format!(
            "{{\"type\":\"{}\",\"message\":{{\"message_id\":\"srv-9\",\"chat_id\":\"c1\",\"sender_id\":\"u2\",\"status\":\"read\",\"timestamp\":\"t\"}}}}",
            kind
        );
        match decode_envelope(&text) {
            Envelope::Status { message_id, status, .. } => {
                assert_eq!(message_id.as_deref(), Some("srv-9"));
                assert_eq!(status, "read");
            }
            _ => panic!("expected a status envelope"),
        }
    }
}

#[test]
fn unknown_discriminant_is_unrecognized_not_fatal() {
    let text = "{\"type\":\"presence\",\"message\":{}}";
    assert!(matches!(decode_envelope(text), Envelope::Unrecognized));
}

#[test]
fn bad_json_and_missing_fields_are_malformed() {
    assert!(matches!(decode_envelope("{nope"), Envelope::Malformed));
    assert!(matches!(decode_envelope("{\"no_type\":1}"), Envelope::Malformed));
    // a chat envelope missing its content
    let text = "{\"type\":\"chat\",\"message\":{\"message_id\":\"m\",\"chat_id\":\"c\",\"sender_id\":\"s\",\"sent_at\":\"t\"}}";
    assert!(matches!(decode_envelope(text), Envelope::Malformed));
}

#[test]
fn inbound_chat_message_is_stored_decoded() {
    let mut store = Store::new();
    let mut session = WebSocketState::new(0);
    let encoded = encode_payload_for_test("secret hi");
    let text = chat_envelope_text("srv-1", "c1", &encoded);
    let effect = handle_frame(&mut store, &mut session, InboundFrame::Text(text), 42);
    match effect {
        InboundEffect::MessageStored { message_id, content, timestamp, duplicate, .. } => {
            assert_eq!(message_id, "srv-1");
            assert_eq!(content, "secret hi");
            assert!(!duplicate);
            // epoch seconds of 2024-01-15T10:30:00Z, as chrono reads it
            let expected = chrono::DateTime::parse_from_rfc3339("2024-01-15T10:30:00Z")
                .unwrap()
                .timestamp();
            assert_eq!(timestamp, expected);
        }
        _ => panic!("expected a stored message"),
    }
    let stored = store.get_messages_for_chat(&String::from("c1"));
    assert_eq!(stored.len(), 1);
    assert_eq!(stored[0].content, "secret hi");
    assert_eq!(stored[0].client_message_id, "srv-1");
    assert_eq!(stored[0].message_id.as_deref(), Some("srv-1"));
    assert!(stored[0].is_delivered && stored[0].is_sent && !stored[0].is_read);
    // inbound activity refreshed the liveness timestamp
    assert_eq!(session.last_heartbeat, 42);
}

#[test]
fn duplicate_server_id_does_not_create_a_second_record() {
    // duplicate suppression: a chat envelope whose message_id matches
    // an already-stored server id stores nothing new
    let mut store = Store::new();
    let mut session = WebSocketState::new(0);
    let text = chat_envelope_text("srv-1", "c1", &encode_payload_for_test("one"));
    handle_frame(&mut store, &mut session, InboundFrame::Text(text), 1);
    let again = chat_envelope_text("srv-1", "c1", &encode_payload_for_test("one"));
    let effect = handle_frame(&mut store, &mut session, InboundFrame::Text(again), 2);
    assert!(matches!(effect, InboundEffect::MessageStored { duplicate: true, .. }));
    assert_eq!(store.get_messages_for_chat(&String::from("c1")).len(), 1);
    // it also matches a correlated optimistic message's server id
    let mut store2 = Store::new();
    store2.insert_or_update_message(stored_message("client-7", Some("srv-2")));
    let inserted = apply_chat_event(
        &mut store2,
        &String::from("srv-2"),
        &String::from("c1"),
        &String::from("u2"),
        String::from("echo"),
        9,
    );
    assert!(!inserted);
    assert_eq!(store2.get_messages_for_chat(&String::from("c1")).len(), 1);
    assert_eq!(
        store2.get_message_by_client_id(&String::from("client-7")).unwrap().content,
        "optimistic"
    );
}

#[test]
fn status_read_sets_exactly_that_message() {
    // status correlation: status=read for srv-42 sets exactly that
    // message's read flag, everything else untouched
    let mut store = Store::new();
    let mut session = WebSocketState::new(0);
    store.insert_or_update_message(stored_message("a", Some("srv-42")));
    store.insert_or_update_message(stored_message("b", Some("srv-43")));
    let text = status_envelope_text("srv-42", "read");
    let effect = handle_frame(&mut store, &mut session, InboundFrame::Text(text), 3);
    assert!(matches!(
        effect,
        InboundEffect::StatusUpdated { applied: StatusApplied::Read, .. }
    ));
    let target = store.get_message_by_id(&String::from("srv-42")).unwrap();
    assert!(target.is_read);
    assert!(!target.is_sent && !target.is_delivered && !target.is_failed);
    assert_eq!(target.content, "optimistic");
    let other = store.get_message_by_id(&String::from("srv-43")).unwrap();
    assert!(!other.is_read && !other.is_sent && !other.is_delivered);
}

#[test]
fn each_status_value_advances_only_its_own_flag() {
    let mut store = Store::new();
    store.insert_or_update_message(stored_message("a", Some("srv-1")));
    let sid = String::from("srv-1");
    assert!(matches!(
        apply_status_event(&mut store, &sid, &String::from("sent")),
        StatusApplied::Sent
    ));
    let m = store.get_message_by_id(&sid).unwrap();
    assert!(m.is_sent && !m.is_delivered && !m.is_read);
    assert!(matches!(
        apply_status_event(&mut store, &sid, &String::from("delivered")),
        StatusApplied::Delivered
    ));
    let m = store.get_message_by_id(&sid).unwrap();
    assert!(m.is_sent && m.is_delivered && !m.is_read);
}

#[test]
fn unknown_status_value_is_ignored() {
    let mut store = Store::new();
    store.insert_or_update_message(stored_message("a", Some("srv-1")));
    let r = apply_status_event(&mut store, &String::from("srv-1"), &String::from("seen"));
    assert!(matches!(r, StatusApplied::Unknown));
    let m = store.get_message_by_id(&String::from("srv-1")).unwrap();
    assert!(!m.is_sent && !m.is_delivered && !m.is_read);
}

#[test]
fn blank_text_frame_is_ignored() {
    let mut store = Store::new();
    let mut session = WebSocketState::new(7);
    let effect = handle_frame(
        &mut store,
        &mut session,
        InboundFrame::Text(String::from("  \t\r\n")),
        99,
    );
    assert!(matches!(effect, InboundEffect::Ignored));
    // a skipped frame does not even refresh liveness
    assert_eq!(session.last_heartbeat, 7);
}

#[test]
fn malformed_text_frame_is_dropped_but_counts_as_activity() {
    let mut store = Store::new();
    let mut session = WebSocketState::new(0);
    let effect = handle_frame(
        &mut store,
        &mut session,
        InboundFrame::Text(String::from("{broken")),
        11,
    );
    assert!(matches!(effect, InboundEffect::MalformedFrame));
    assert_eq!(session.last_heartbeat, 11);
    assert!(store.get_all_chats().is_empty());
}

#[test]
fn unreadable_timestamp_drops_the_frame() {
    let mut store = Store::new();
    let mut session = WebSocketState::new(0);
    let text = "{\"type\":\"chat\",\"message\":{\"message_id\":\"m\",\"chat_id\":\"c\",\"sender_id\":\"s\",\"content\":\"x\",\"sent_at\":\"yesterday\"}}";
    let effect = handle_frame(
        &mut store,
        &mut session,
        InboundFrame::Text(String::from(text)),
        1,
    );
    assert!(matches!(effect, InboundEffect::MalformedFrame));
    assert!(store.get_messages_for_chat(&String::from("c")).is_empty());
}

#[test]
fn control_frames_refresh_liveness() {
    let mut store = Store::new();
    let mut session = WebSocketState::new(0);
    for (frame, at) in [
        (InboundFrame::Ping, 5u64),
        (InboundFrame::Pong, 6u64),
        (InboundFrame::Binary(vec![1, 2, 3]), 7u64),
    ] {
        let effect = handle_frame(&mut store, &mut session, frame, at);
        assert!(matches!(effect, InboundEffect::ControlActivity));
        assert_eq!(session.last_heartbeat, at);
    }
}

#[test]
fn close_frame_runs_the_disconnect_path() {
    let mut store = Store::new();
    let mut session = WebSocketState::new(0);
    session.connect_requested(String::from("tok"));
    session.handshake_succeeded(1);
    let effect = handle_frame(&mut store, &mut session, InboundFrame::Close, 2);
    assert!(matches!(effect, InboundEffect::CloseRequested));
    assert!(matches!(session.connection_state, ConnectionState::Disconnected));
    assert!(session.auth_token.is_none());
}
