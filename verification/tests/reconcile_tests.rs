use chatsync::api::ChatSnapshot;
use chatsync::model::{Chat, Message, Participant};
use chatsync::reconcile::{
    chats_delta_update, delete_chat_local, get_cached_chats_only_for_user, is_chat_creator,
};
use chatsync::store::Store;

fn snap(id: &str, name: Option<&str>, created_at: Option<&str>) -> ChatSnapshot {
    ChatSnapshot {
        chat_id: String::from(id),
        name: name.map(String::from),
        created_at: created_at.map(String::from),
        creator_id: Some(String::from("creator-1")),
        is_group: Some(false),
        participants: None,
    }
}

fn member(chat: &str, user: &str) -> Participant {
    Participant {
        participant_id: format!("{}_{}", chat, user),
        user_id: String::from(user),
        username: String::from(user),
        joined_at: 1,
        role: String::from("member"),
        chat_id: String::from(chat),
    }
}

fn msg(client_id: &str, chat: &str) -> Message {
    Message {
        message_id: Some(String::from(client_id)),
        client_message_id: String::from(client_id),
        chat_id: String::from(chat),
        sender_id: String::from("u2"),
        content: String::from("hi"),
        timestamp: 7,
        is_read: false,
        is_sent: true,
        is_delivered: true,
        is_failed: false,
        sender_username: None,
        reply_to_message_id: None,
    }
}

fn chat_ids(chats: &[Chat]) -> Vec<String> {
    chats.iter().map(|c| c.chat_id.clone()).collect()
}

#[test]
fn snapshot_inserts_updates_and_deletes() {
    let mut store = Store::new();
    let me = String::from("u1");
    // first pass: two conversations arrive
    let r = chats_delta_update(
        &mut store,
        &me,
        Some(vec![snap("c1", Some("one"), Some("100")), snap("c2", None, None)]),
        500,
    );
    let mut ids = chat_ids(&r.chats);
    ids.sort();
    assert_eq!(ids, vec![String::from("c1"), String::from("c2")]);
    let mut new_ids = r.new_chat_ids.clone();
    new_ids.sort();
    assert_eq!(new_ids, vec![String::from("c1"), String::from("c2")]);
    // parsed creation time, and the clock default for the absent one
    let c1 = store.get_chat_by_id(&String::from("c1")).unwrap();
    assert_eq!(c1.created_at, 100);
    assert_eq!(c1.name.as_deref(), Some("one"));
    let c2 = store.get_chat_by_id(&String::from("c2")).unwrap();
    assert_eq!(c2.created_at, 500);
    // second pass: c2 gone remotely, c1 renamed
    let r = chats_delta_update(
        &mut store,
        &me,
        Some(vec![snap("c1", Some("renamed"), Some("100"))]),
        600,
    );
    assert_eq!(chat_ids(&r.chats), vec![String::from("c1")]);
    assert!(r.new_chat_ids.is_empty());
    assert!(store.get_chat_by_id(&String::from("c2")).is_none());
    let c1 = store.get_chat_by_id(&String::from("c1")).unwrap();
    assert_eq!(c1.name.as_deref(), Some("renamed"));
}

#[test]
fn reconciling_twice_is_idempotent() {
    // idempotence: the second pass with unchanged remote and local
    // state leaves the cache exactly as the first pass did
    let mut store = Store::new();
    let me = String::from("u1");
    store.insert_or_update_message(msg("m-old", "gone"));
    store.insert_or_update_participant(member("gone", "u9"));
    store.add_local_delete(&String::from("tomb"), &me, false, 50);
    let remote = || {
        vec![
            snap("c1", Some("one"), Some("100")),
            snap("c2", None, None),
            snap("tomb", Some("zombie"), Some("7")),
        ]
    };
    chats_delta_update(&mut store, &me, Some(remote()), 500);
    let first_chats = store.get_all_chats();
    let first_msgs = store.get_messages_for_chat(&String::from("gone"));
    chats_delta_update(&mut store, &me, Some(remote()), 500);
    let second_chats = store.get_all_chats();
    assert_eq!(first_chats.len(), second_chats.len());
    for (a, b) in first_chats.iter().zip(second_chats.iter()) {
        assert_eq!(a.chat_id, b.chat_id);
        assert_eq!(a.name, b.name);
        assert_eq!(a.created_at, b.created_at);
        assert_eq!(a.creator_id, b.creator_id);
        assert_eq!(a.is_group, b.is_group);
        assert_eq!(a.group_name, b.group_name);
        assert_eq!(a.unread_count, b.unread_count);
        assert_eq!(a.last_message_content, b.last_message_content);
        assert_eq!(a.last_message_timestamp, b.last_message_timestamp);
    }
    assert_eq!(first_msgs.len(), store.get_messages_for_chat(&String::from("gone")).len());
    assert!(store.is_chat_locally_deleted(&String::from("tomb"), &me));
}

#[test]
fn tombstone_protects_against_reintroduction() {
    // tombstone protection: a locally deleted conversation still in
    // the remote snapshot must not come back
    let mut store = Store::new();
    let me = String::from("u1");
    chats_delta_update(&mut store, &me, Some(vec![snap("c1", Some("one"), None)]), 100);
    store.insert_or_update_message(msg("m1", "c1"));
    store.insert_or_update_participant(member("c1", "u2"));
    delete_chat_local(&mut store, &String::from("c1"), &me, true, 200);
    assert!(store.is_chat_locally_deleted(&String::from("c1"), &me));
    assert!(store.get_chat_by_id(&String::from("c1")).is_none());
    assert!(store.get_messages_for_chat(&String::from("c1")).is_empty());
    assert!(store.get_participants_for_chat(&String::from("c1")).is_empty());
    // the server still reports c1: the pass must not resurrect it
    let r = chats_delta_update(&mut store, &me, Some(vec![snap("c1", Some("one"), None)]), 300);
    assert!(store.get_chat_by_id(&String::from("c1")).is_none());
    assert!(r.chats.is_empty());
    assert!(r.new_chat_ids.is_empty());
    // and the tombstone survives, because the deletion is unconfirmed
    assert!(store.is_chat_locally_deleted(&String::from("c1"), &me));
}

#[test]
fn tombstone_cleaned_up_once_server_confirms() {
    // tombstone cleanup: once the snapshot no longer holds the
    // conversation, its tombstone goes
    let mut store = Store::new();
    let me = String::from("u1");
    delete_chat_local(&mut store, &String::from("c1"), &me, false, 10);
    assert!(store.is_chat_locally_deleted(&String::from("c1"), &me));
    chats_delta_update(&mut store, &me, Some(vec![snap("other", None, None)]), 20);
    assert!(!store.is_chat_locally_deleted(&String::from("c1"), &me));
    // other users' tombstones are untouched by my pass
    let other = String::from("u2");
    store.add_local_delete(&String::from("c9"), &other, false, 30);
    chats_delta_update(&mut store, &me, Some(vec![]), 40);
    assert!(store.is_chat_locally_deleted(&String::from("c9"), &other));
}

#[test]
fn fetch_failure_leaves_cache_untouched() {
    let mut store = Store::new();
    let me = String::from("u1");
    chats_delta_update(&mut store, &me, Some(vec![snap("c1", Some("one"), None)]), 100);
    let r = chats_delta_update(&mut store, &me, None, 200);
    assert_eq!(chat_ids(&r.chats), vec![String::from("c1")]);
    assert!(r.new_chat_ids.is_empty());
    assert!(store.get_chat_by_id(&String::from("c1")).is_some());
}

#[test]
fn empty_snapshot_clears_the_collection() {
    // absent/null remote data counts as an empty collection, not a
    // fetch failure: everything local is a deletion
    let mut store = Store::new();
    let me = String::from("u1");
    chats_delta_update(&mut store, &me, Some(vec![snap("c1", None, None)]), 100);
    store.insert_or_update_message(msg("m1", "c1"));
    let r = chats_delta_update(&mut store, &me, Some(vec![]), 200);
    assert!(r.chats.is_empty());
    assert!(store.get_all_chats().is_empty());
    assert!(store.get_messages_for_chat(&String::from("c1")).is_empty());
}

#[test]
fn dropped_chat_cascades_to_messages_and_members() {
    let mut store = Store::new();
    let me = String::from("u1");
    chats_delta_update(
        &mut store,
        &me,
        Some(vec![snap("keep", None, None), snap("drop", None, None)]),
        100,
    );
    store.insert_or_update_message(msg("m-keep", "keep"));
    store.insert_or_update_message(msg("m-drop", "drop"));
    store.insert_or_update_participant(member("keep", "u2"));
    store.insert_or_update_participant(member("drop", "u3"));
    chats_delta_update(&mut store, &me, Some(vec![snap("keep", None, None)]), 200);
    assert_eq!(store.get_messages_for_chat(&String::from("keep")).len(), 1);
    assert!(store.get_messages_for_chat(&String::from("drop")).is_empty());
    assert_eq!(store.get_participants_for_chat(&String::from("keep")).len(), 1);
    assert!(store.get_participants_for_chat(&String::from("drop")).is_empty());
}

#[test]
fn creator_check_drives_the_delete_or_leave_choice() {
    let mut store = Store::new();
    let me = String::from("creator-1");
    chats_delta_update(&mut store, &me, Some(vec![snap("c1", None, None)]), 100);
    assert!(is_chat_creator(&store, &String::from("c1"), &me));
    assert!(!is_chat_creator(&store, &String::from("c1"), &String::from("someone-else")));
    assert!(!is_chat_creator(&store, &String::from("missing"), &me));
}

#[test]
fn cached_list_filters_locally_deleted_chats() {
    let mut store = Store::new();
    let me = String::from("u1");
    chats_delta_update(
        &mut store,
        &me,
        Some(vec![snap("c1", None, None), snap("c2", None, None)]),
        100,
    );
    // a tombstone alone hides the conversation from this user's list
    store.add_local_delete(&String::from("c2"), &me, false, 150);
    let visible = get_cached_chats_only_for_user(&store, &me);
    assert_eq!(chat_ids(&visible), vec![String::from("c1")]);
    // the full table still holds both until a pass confirms
    assert_eq!(store.get_all_chats().len(), 2);
}

#[test]
fn group_flag_and_group_name_come_from_the_snapshot() {
    let mut store = Store::new();
    let me = String::from("u1");
    let group = ChatSnapshot {
        chat_id: String::from("g1"),
        name: Some(String::from("team")),
        created_at: None,
        creator_id: None,
        is_group: Some(true),
        participants: None,
    };
    chats_delta_update(&mut store, &me, Some(vec![group]), 100);
    let g = store.get_chat_by_id(&String::from("g1")).unwrap();
    assert!(g.is_group);
    assert_eq!(g.group_name.as_deref(), Some("team"));
    assert_eq!(g.creator_id, None);
    assert_eq!(g.unread_count, 0);
}
