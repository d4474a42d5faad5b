use chatsync::model::{Friend, Message, User, UserKeys};
use chatsync::outbound::{wire_frame_for, OutboundQueue, SubmitError, WireFrame};
use chatsync::store::Store;
use chatsync::util::{append_dec, parse_i64};

fn msg(client_id: &str, chat: &str, server_id: Option<&str>) -> Message {
    Message {
        message_id: server_id.map(String::from),
        client_message_id: String::from(client_id),
        chat_id: String::from(chat),
        sender_id: String::from("u1"),
        content: String::from("body"),
        timestamp: 3,
        is_read: false,
        is_sent: false,
        is_delivered: false,
        is_failed: false,
        sender_username: None,
        reply_to_message_id: None,
    }
}

#[test]
fn parse_i64_reads_exactly_std_values() {
    assert_eq!(parse_i64("123"), Some(123));
    assert_eq!(parse_i64("-45"), Some(-45));
    assert_eq!(parse_i64("+7"), Some(7));
    assert_eq!(parse_i64("0"), Some(0));
    assert_eq!(parse_i64("007"), Some(7));
    assert_eq!(parse_i64(""), None);
    assert_eq!(parse_i64("-"), None);
    assert_eq!(parse_i64("abc"), None);
    assert_eq!(parse_i64("12a"), None);
    assert_eq!(parse_i64(" 12"), None);
    assert_eq!(parse_i64("9223372036854775807"), Some(i64::MAX));
    assert_eq!(parse_i64("9223372036854775808"), None);
    assert_eq!(parse_i64("-9223372036854775808"), Some(i64::MIN));
    assert_eq!(parse_i64("-9223372036854775809"), None);
    assert_eq!(parse_i64("99999999999999999999999999"), None);
}

#[test]
fn append_dec_renders_decimal() {
    let mut s = String::from("n=");
    append_dec(&mut s, 0);
    assert_eq!(s, "n=0");
    let mut s = String::new();
    append_dec(&mut s, 120034);
    assert_eq!(s, "120034");
    let mut s = String::new();
    append_dec(&mut s, u64::MAX);
    assert_eq!(s, "18446744073709551615");
}

#[test]
fn message_flags_update_by_server_id_only() {
    let mut store = Store::new();
    store.insert_or_update_message(msg("a", "c1", Some("srv-1")));
    store.insert_or_update_message(msg("b", "c1", None));
    store.update_message_sent_status_by_server_id(&String::from("srv-1"), true);
    store.mark_message_delivered_by_server_id(&String::from("srv-1"));
    store.mark_message_read_by_server_id(&String::from("srv-1"));
    let a = store.get_message_by_client_id(&String::from("a")).unwrap();
    assert!(a.is_sent && a.is_delivered && a.is_read);
    let b = store.get_message_by_client_id(&String::from("b")).unwrap();
    assert!(!b.is_sent && !b.is_delivered && !b.is_read);
}

#[test]
fn server_id_correlates_back_to_the_client_id() {
    let mut store = Store::new();
    store.insert_or_update_message(msg("client-1", "c1", None));
    store.update_message_id_by_client(&String::from("client-1"), String::from("srv-9"));
    let m = store.get_message_by_client_id(&String::from("client-1")).unwrap();
    assert_eq!(m.message_id.as_deref(), Some("srv-9"));
    assert!(store.get_message_by_id(&String::from("srv-9")).is_some());
    assert!(store.message_exists(&String::from("nope"), &String::from("srv-9")));
}

#[test]
fn unread_counting_and_bulk_read() {
    let mut store = Store::new();
    store.insert_or_update_message(msg("a", "c1", None));
    store.insert_or_update_message(msg("b", "c1", None));
    store.insert_or_update_message(msg("c", "c2", None));
    assert_eq!(store.count_unread_messages(&String::from("c1")), 2);
    store.mark_messages_as_read(&String::from("c1"));
    assert_eq!(store.count_unread_messages(&String::from("c1")), 0);
    assert_eq!(store.count_unread_messages(&String::from("c2")), 1);
}

#[test]
fn chat_summary_fields_update_in_place() {
    let mut store = Store::new();
    let chat = chatsync::model::Chat {
        chat_id: String::from("c1"),
        name: None,
        created_at: 0,
        creator_id: None,
        is_group: false,
        group_name: None,
        description: None,
        unread_count: 0,
        last_message_content: None,
        last_message_timestamp: None,
    };
    store.insert_or_update_chat(chat);
    store.update_chat_unread_count(&String::from("c1"), 4);
    store.update_chat_last_message(&String::from("c1"), Some(String::from("latest")), Some(99));
    let c = store.get_chat_by_id(&String::from("c1")).unwrap();
    assert_eq!(c.unread_count, 4);
    assert_eq!(c.last_message_content.as_deref(), Some("latest"));
    assert_eq!(c.last_message_timestamp, Some(99));
    // updating a chat that is not cached is a no-op
    store.update_chat_unread_count(&String::from("missing"), 9);
    assert!(store.get_chat_by_id(&String::from("missing")).is_none());
}

#[test]
fn current_user_resolution_prefers_the_credential_match() {
    let mut store = Store::new();
    let user = |id: &str, token: Option<&str>, updated: i64| User {
        user_id: String::from(id),
        username: String::from(id),
        email: None,
        name: None,
        password: None,
        picture: None,
        role: None,
        token_hash: token.map(String::from),
        verified: false,
        created_at: 0,
        updated_at: updated,
        deleted_at: None,
        is_dark_mode: false,
        last_seen: 0,
        color_scheme: None,
    };
    assert!(store.get_current_user_id(&String::from("tok")).is_none());
    store.insert_or_update_user(user("newest", None, 100));
    store.insert_or_update_user(user("older", Some("tok"), 50));
    // the stored credential wins over recency
    assert_eq!(store.get_current_user_id(&String::from("tok")).as_deref(), Some("older"));
    // with no credential match, the most recently updated user stands in
    assert_eq!(store.get_current_user_id(&String::from("other")).as_deref(), Some("newest"));
}

#[test]
fn friend_records_update_and_delete() {
    let mut store = Store::new();
    let f = Friend {
        user_id: String::from("f1"),
        username: String::from("ann"),
        email: String::from("a@x"),
        name: String::from("Ann"),
        picture: None,
        created_at: None,
        updated_at: None,
        status: None,
        is_favorite: false,
    };
    store.insert_or_update_friend(f);
    store.update_friend_status(&String::from("f1"), String::from("inactive"));
    assert_eq!(
        store.get_friend_by_id(&String::from("f1")).unwrap().status.as_deref(),
        Some("inactive")
    );
    store.delete_friend(&String::from("f1"));
    assert!(store.get_friend_by_id(&String::from("f1")).is_none());
}

#[test]
fn key_material_round_trips() {
    let mut store = Store::new();
    let keys = UserKeys {
        user_id: String::from("u1"),
        key1: String::from("k1"),
        key2: String::from("k2"),
        key3: String::from("k3"),
        key4: String::from("k4"),
        private_key1: String::from("p1"),
        private_key2: String::from("p2"),
        private_key3: String::from("p3"),
        private_key4: String::from("p4"),
    };
    store.insert_or_update_user_keys(keys);
    let got = store.get_user_keys(&String::from("u1")).unwrap();
    assert_eq!(got.key2, "k2");
    assert_eq!(got.private_key4, "p4");
    assert!(store.get_user_keys(&String::from("u2")).is_none());
}

#[test]
fn outbound_queue_keeps_submission_order() {
    let mut q = OutboundQueue::new();
    assert!(matches!(
        q.submit(String::from("early")),
        Err(SubmitError::NotConnected)
    ));
    q.attach();
    q.submit(String::from("first")).unwrap();
    q.submit(String::from("second")).unwrap();
    q.submit_ping().unwrap();
    assert_eq!(q.take_next().as_deref(), Some("first"));
    assert_eq!(q.take_next().as_deref(), Some("second"));
    let ping = q.take_next().unwrap();
    assert!(matches!(wire_frame_for(ping), WireFrame::Ping));
    assert!(q.take_next().is_none());
    q.detach();
    assert!(matches!(
        q.submit(String::from("late")),
        Err(SubmitError::NotConnected)
    ));
}

#[test]
fn only_the_exact_sentinel_becomes_a_ping_frame() {
    match wire_frame_for(String::from("PINGx")) {
        WireFrame::Text(t) => assert_eq!(t, "PINGx"),
        WireFrame::Ping => panic!("not the sentinel"),
    }
    match wire_frame_for(String::from("{\"kind\":\"app\"}")) {
        WireFrame::Text(t) => assert_eq!(t, "{\"kind\":\"app\"}"),
        WireFrame::Ping => panic!("not the sentinel"),
    }
    assert!(matches!(wire_frame_for(String::from("PING")), WireFrame::Ping));
}
