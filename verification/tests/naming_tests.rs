use chatsync::api::{ApiParticipant, ApiUser, FriendSnapshot};
use chatsync::model::{Chat, Participant, User};
use chatsync::naming::{
    apply_resolved_name, build_group_name, resolve_chat_name, NameResolution,
};
use chatsync::reconcile::{friends_delta_update, sync_participants};
use chatsync::store::Store;

fn bare_chat(id: &str, is_group: bool, name: Option<&str>) -> Chat {
    Chat {
        chat_id: String::from(id),
        name: name.map(String::from),
        created_at: 0,
        creator_id: None,
        is_group,
        group_name: None,
        description: None,
        unread_count: 0,
        last_message_content: None,
        last_message_timestamp: None,
    }
}

fn member(chat: &str, user: &str, username: &str) -> Participant {
    Participant {
        participant_id: format!("{}_{}", chat, user),
        user_id: String::from(user),
        username: String::from(username),
        joined_at: 1,
        role: String::from("member"),
        chat_id: String::from(chat),
    }
}

fn cached_user(id: &str, username: &str) -> User {
    User {
        user_id: String::from(id),
        username: String::from(username),
        email: None,
        name: None,
        password: None,
        picture: None,
        role: None,
        token_hash: None,
        verified: false,
        created_at: 0,
        updated_at: 0,
        deleted_at: None,
        is_dark_mode: false,
        last_seen: 0,
        color_scheme: None,
    }
}

#[test]
fn direct_chat_named_after_the_other_participant() {
    // direct-chat naming: conversation {A, B}, current user A, name
    // resolves to B's username
    let mut store = Store::new();
    store.insert_or_update_chat(bare_chat("c1", false, None));
    store.insert_or_update_participant(member("c1", "uA", "alice"));
    store.insert_or_update_participant(member("c1", "uB", "bob"));
    store.insert_or_update_user(cached_user("uB", "bob"));
    let r = resolve_chat_name(&mut store, &String::from("c1"), &String::from("uA"));
    match r {
        NameResolution::Resolved(nm) => assert_eq!(nm, "bob"),
        _ => panic!("expected a resolved name"),
    }
    let c = store.get_chat_by_id(&String::from("c1")).unwrap();
    assert_eq!(c.name.as_deref(), Some("bob"));
}

#[test]
fn contacts_cache_is_the_second_source() {
    let mut store = Store::new();
    store.insert_or_update_chat(bare_chat("c1", false, None));
    store.insert_or_update_participant(member("c1", "uA", "alice"));
    store.insert_or_update_participant(member("c1", "uB", "bob"));
    // no user-cache entry; the contact list carries the username
    let contact = FriendSnapshot {
        user_id: String::from("uB"),
        username: String::from("bobby"),
        name: String::from("Bob"),
        email: String::from("b@x"),
        picture: None,
        status: None,
        is_favorite: None,
    };
    friends_delta_update(&mut store, Some(vec![contact]), 5);
    let r = resolve_chat_name(&mut store, &String::from("c1"), &String::from("uA"));
    match r {
        NameResolution::Resolved(nm) => assert_eq!(nm, "bobby"),
        _ => panic!("expected a resolved name"),
    }
}

#[test]
fn remote_lookup_requested_when_caches_miss() {
    let mut store = Store::new();
    store.insert_or_update_chat(bare_chat("c1", false, None));
    store.insert_or_update_participant(member("c1", "uA", "alice"));
    store.insert_or_update_participant(member("c1", "uB", "uB"));
    // a user-cache entry whose username merely echoes the id is unusable
    store.insert_or_update_user(cached_user("uB", "uB"));
    let r = resolve_chat_name(&mut store, &String::from("c1"), &String::from("uA"));
    match r {
        NameResolution::NeedsRemote(uid) => assert_eq!(uid, "uB"),
        _ => panic!("expected a remote lookup request"),
    }
    // the name stays unset until the caller hands the answer back
    assert!(store.get_chat_by_id(&String::from("c1")).unwrap().name.is_none());
    assert!(apply_resolved_name(&mut store, &String::from("c1"), String::from("bobbie")));
    assert_eq!(
        store.get_chat_by_id(&String::from("c1")).unwrap().name.as_deref(),
        Some("bobbie")
    );
}

#[test]
fn non_placeholder_name_skips_re_resolution() {
    let mut store = Store::new();
    store.insert_or_update_chat(bare_chat("c1", false, Some("kept")));
    let r = resolve_chat_name(&mut store, &String::from("c1"), &String::from("uA"));
    assert!(matches!(r, NameResolution::AlreadyNamed));
    // the generic placeholder does not count as resolved
    let mut store2 = Store::new();
    store2.insert_or_update_chat(bare_chat("g1", true, Some("Group Chat")));
    store2.insert_or_update_participant(member("g1", "u1", "ann"));
    let r = resolve_chat_name(&mut store2, &String::from("g1"), &String::from("me"));
    match r {
        NameResolution::Resolved(nm) => assert_eq!(nm, "ann"),
        _ => panic!("expected a resolved name"),
    }
}

#[test]
fn group_name_derived_from_first_three_members() {
    let mut store = Store::new();
    store.insert_or_update_chat(bare_chat("g1", true, None));
    for (uid, name) in [("u1", "ann"), ("u2", "ben"), ("u3", "cam"), ("u4", "dot"), ("u5", "eli")]
    {
        store.insert_or_update_participant(member("g1", uid, name));
    }
    let r = resolve_chat_name(&mut store, &String::from("g1"), &String::from("me"));
    match r {
        NameResolution::Resolved(nm) => assert_eq!(nm, "ann, ben, cam and 2 others"),
        _ => panic!("expected a resolved name"),
    }
    assert_eq!(
        store.get_chat_by_id(&String::from("g1")).unwrap().name.as_deref(),
        Some("ann, ben, cam and 2 others")
    );
}

#[test]
fn group_name_exact_forms() {
    let ms = vec![member("g", "u1", "ann")];
    assert_eq!(build_group_name(&ms), "ann");
    let ms = vec![member("g", "u1", "ann"), member("g", "u2", "ben")];
    assert_eq!(build_group_name(&ms), "ann, ben");
    let ms = vec![
        member("g", "u1", "ann"),
        member("g", "u2", "ben"),
        member("g", "u3", "cam"),
    ];
    assert_eq!(build_group_name(&ms), "ann, ben, cam");
    let ms = vec![
        member("g", "u1", "ann"),
        member("g", "u2", "ben"),
        member("g", "u3", "cam"),
        member("g", "u4", "dot"),
    ];
    assert_eq!(build_group_name(&ms), "ann, ben, cam and 1 others");
}

#[test]
fn degenerate_member_counts_are_reported() {
    let mut store = Store::new();
    let r = resolve_chat_name(&mut store, &String::from("nope"), &String::from("uA"));
    assert!(matches!(r, NameResolution::ChatNotFound));
    store.insert_or_update_chat(bare_chat("g1", true, None));
    let r = resolve_chat_name(&mut store, &String::from("g1"), &String::from("uA"));
    assert!(matches!(r, NameResolution::NoMembers));
    store.insert_or_update_chat(bare_chat("d1", false, None));
    store.insert_or_update_participant(member("d1", "u1", "ann"));
    let r = resolve_chat_name(&mut store, &String::from("d1"), &String::from("uA"));
    assert!(matches!(r, NameResolution::NotTwoMembers));
    store.insert_or_update_chat(bare_chat("d2", false, None));
    store.insert_or_update_participant(member("d2", "me", "me-one"));
    let mut second = member("d2", "me", "me-two");
    second.participant_id = String::from("d2_me-b");
    store.insert_or_update_participant(second);
    let r = resolve_chat_name(&mut store, &String::from("d2"), &String::from("me"));
    assert!(matches!(r, NameResolution::NoPeer));
}

#[test]
fn membership_sync_replaces_a_conversations_members() {
    let mut store = Store::new();
    store.insert_or_update_participant(member("c1", "old", "old-name"));
    store.insert_or_update_participant(member("c2", "other", "other-name"));
    let remote = vec![
        ApiParticipant {
            chat_id: String::from("c1"),
            is_admin: true,
            joined_at: String::from("2024-01-01T00:00:00Z"),
            user: ApiUser {
                user_id: String::from("uX"),
                name: String::from("Xavier"),
                email: String::from("x@x"),
                username: String::from("xav"),
            },
        },
    ];
    sync_participants(&mut store, &String::from("c1"), Some(remote), 77);
    let members = store.get_participants_for_chat(&String::from("c1"));
    assert_eq!(members.len(), 1);
    assert_eq!(members[0].participant_id, "c1_uX");
    assert_eq!(members[0].username, "xav");
    assert_eq!(members[0].role, "admin");
    assert_eq!(members[0].joined_at, 77);
    // other conversations' members untouched
    assert_eq!(store.get_participants_for_chat(&String::from("c2")).len(), 1);
    // a failed fetch changes nothing
    sync_participants(&mut store, &String::from("c1"), None, 99);
    assert_eq!(store.get_participants_for_chat(&String::from("c1")).len(), 1);
}

#[test]
fn contacts_sync_is_a_full_replace() {
    let mut store = Store::new();
    let fs = |id: &str, name: &str| FriendSnapshot {
        user_id: String::from(id),
        username: String::from(name),
        name: String::from(name),
        email: String::from("e"),
        picture: None,
        status: Some(String::from("active")),
        is_favorite: Some(true),
    };
    friends_delta_update(&mut store, Some(vec![fs("f1", "ann"), fs("f2", "ben")]), 10);
    assert_eq!(store.get_all_friends().len(), 2);
    let r = friends_delta_update(&mut store, Some(vec![fs("f2", "ben-renamed")]), 20);
    assert_eq!(r.len(), 1);
    assert_eq!(r[0].user_id, "f2");
    assert_eq!(r[0].username, "ben-renamed");
    assert!(r[0].is_favorite);
    assert_eq!(r[0].status.as_deref(), Some("active"));
    assert!(store.get_friend_by_id(&String::from("f1")).is_none());
    // failed fetch: last known good data
    let r = friends_delta_update(&mut store, None, 30);
    assert_eq!(r.len(), 1);
}
