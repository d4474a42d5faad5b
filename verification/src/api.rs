//! The shapes consumed from and produced for the remote service, and
//! their conversions into cache records.  The remote protocol itself
//! (transport, authentication, serialization) lives outside the library;
//! callers hand these plain values in.

use vstd::prelude::*;
use vstd::string::StringExecFns;
use crate::model::{User, Chat, Friend, Participant};
use crate::util::{parse_i64, parse_i64_spec};

verus! {

/// A successful login, reduced to its credential.
pub struct LoginResponse {
    pub access_token: String,
}

/// The remote service's description of a user.
pub struct UserData {
    pub user_id: String,
    pub username: String,
    pub name: String,
    pub email: String,
    pub picture: Option<String>,
    pub verified: bool,
    pub role: Option<String>,
    pub created_at: Option<String>,
    pub updated_at: Option<String>,
}

/// One entry of the remote conversation snapshot.  Every field beyond
/// the id may be absent.
pub struct ChatSnapshot {
    pub chat_id: String,
    pub name: Option<String>,
    pub created_at: Option<String>,
    pub creator_id: Option<String>,
    pub is_group: Option<bool>,
    pub participants: Option<Vec<String>>,
}

/// One entry of the remote contact snapshot.
pub struct FriendSnapshot {
    pub user_id: String,
    pub username: String,
    pub name: String,
    pub email: String,
    pub picture: Option<String>,
    pub status: Option<String>,
    pub is_favorite: Option<bool>,
}

/// A pending contact request.
pub struct FriendRequest {
    pub request_id: String,
    pub receiver_id: String,
    pub status: String,
    pub created_at: Option<String>,
    pub sender: FriendSnapshot,
}

/// One entry of the remote member snapshot of a conversation.
pub struct ApiParticipant {
    pub chat_id: String,
    pub is_admin: bool,
    pub joined_at: String,
    pub user: ApiUser,
}

/// The user inside a member snapshot entry.
pub struct ApiUser {
    pub user_id: String,
    pub name: String,
    pub email: String,
    pub username: String,
}

/// The remote member snapshot.
pub struct ParticipantResponse {
    pub data: Vec<ApiParticipant>,
}

/// A member reference sent when creating a conversation or adding
/// members.
pub struct ParticipantSimple {
    pub user_id: String,
    pub is_admin: Option<bool>,
}

/// A member reference with the admin flag required.
pub struct ChatMemberSimple {
    pub user_id: String,
    pub is_admin: bool,
}

/// A member as the service lists it.
pub struct ChatMember {
    pub user: FriendSnapshot,
    pub is_admin: bool,
    pub joined_at: String,
}

/// A page of members.
pub struct ChatMemberResponse {
    pub data: Vec<ChatMember>,
    pub limit: i32,
    pub offset: i32,
}

/// The body of an add-members call.
pub struct AddParticipantRequest {
    pub members: Vec<ParticipantSimple>,
}

/// The body of a send-message call.
pub struct SendMessageRequest {
    pub content: String,
    pub chat_id: String,
    pub reply_to_message_id: Option<String>,
}

/// What the service answers to a send-message call; the server id is
/// correlated back to the optimistic message's client id.
pub struct SendMessageResponse {
    pub message_id: String,
    pub timestamp: i64,
}

/// A message as the service lists it.
pub struct ChatMessage {
    pub message_id: String,
    pub chat_id: String,
    pub sender_id: String,
    pub content: String,
    pub timestamp: i64,
    pub sender_username: String,
    pub reply_to_message_id: Option<String>,
}

/// A dark-mode preference update.
pub struct UpdateDarkModeRequest {
    pub user_id: String,
    pub is_dark_mode: bool,
}

/// A colour-scheme preference update.
pub struct UpdateColorSchemeRequest {
    pub user_id: String,
    pub color_scheme: String,
}

/// The creation time a snapshot entry denotes: its decimal timestamp
/// when present and readable, else the current time.
pub open spec fn spec_created_at(o: Option<String>, now: i64) -> i64 {
    match o {
        Some(t) => match parse_i64_spec(t@) {
            Some(v) => v,
            None => now,
        },
        None => now,
    }
}

/// The cache record a conversation snapshot entry denotes.  Absent
/// fields take their defaults; local-only fields (unread counter,
/// last-message summary, description) start empty — the server is the
/// last writer for everything else.
pub open spec fn chat_record_of(s: ChatSnapshot, now: i64) -> Chat {
    Chat {
        chat_id: s.chat_id,
        name: s.name,
        created_at: spec_created_at(s.created_at, now),
        creator_id: s.creator_id,
        is_group: match s.is_group {
            Some(b) => b,
            None => false,
        },
        group_name: if (match s.is_group {
            Some(b) => b,
            None => false,
        }) {
            s.name
        } else {
            None
        },
        description: None,
        unread_count: 0,
        last_message_content: None,
        last_message_timestamp: None,
    }
}

/// Build the cache record for a conversation snapshot entry.
pub fn chat_from_snapshot(s: &ChatSnapshot, now: i64) -> (r: Chat)
    ensures
        r == chat_record_of(*s, now),
{
    let created_at: i64 = match &s.created_at {
        Some(t) => match parse_i64(t.as_str()) {
            Some(v) => v,
            None => now,
        },
        None => now,
    };
    let is_group = match s.is_group {
        Some(b) => b,
        None => false,
    };
    let name = match &s.name {
        Some(n) => Some(n.clone()),
        None => None,
    };
    let group_name = if is_group {
        match &s.name {
            Some(n) => Some(n.clone()),
            None => None,
        }
    } else {
        None
    };
    Chat {
        chat_id: s.chat_id.clone(),
        name,
        created_at,
        creator_id: match &s.creator_id {
            Some(c) => Some(c.clone()),
            None => None,
        },
        is_group,
        group_name,
        description: None,
        unread_count: 0,
        last_message_content: None,
        last_message_timestamp: None,
    }
}

/// The cache record a contact snapshot entry denotes, saved at `now`.
pub open spec fn friend_record_of(s: FriendSnapshot, now: i64) -> Friend {
    Friend {
        user_id: s.user_id,
        username: s.username,
        email: s.email,
        name: s.name,
        picture: s.picture,
        created_at: Some(now),
        updated_at: Some(now),
        status: s.status,
        is_favorite: match s.is_favorite {
            Some(b) => b,
            None => false,
        },
    }
}

/// Build the cache record for a contact snapshot entry.
pub fn friend_from_snapshot(s: &FriendSnapshot, now: i64) -> (r: Friend)
    ensures
        r == friend_record_of(*s, now),
{
    Friend {
        user_id: s.user_id.clone(),
        username: s.username.clone(),
        email: s.email.clone(),
        name: s.name.clone(),
        picture: match &s.picture {
            Some(p) => Some(p.clone()),
            None => None,
        },
        created_at: Some(now),
        updated_at: Some(now),
        status: match &s.status {
            Some(t) => Some(t.clone()),
            None => None,
        },
        is_favorite: match s.is_favorite {
            Some(b) => b,
            None => false,
        },
    }
}

/// The composite member id: conversation id, an underscore, user id.
pub open spec fn participant_key(chat: Seq<char>, user: Seq<char>) -> Seq<char> {
    chat + "_"@ + user
}

/// The role string a membership's admin flag denotes.
pub open spec fn spec_role(is_admin: bool) -> Seq<char> {
    if is_admin {
        "admin"@
    } else {
        "member"@
    }
}

/// Build the composite member id.
pub fn make_participant_id(chat_id: &String, user_id: &String) -> (r: String)
    ensures
        r@ == participant_key(chat_id@, user_id@),
{
    let mut id = chat_id.clone();
    id.append("_");
    id.append(user_id.as_str());
    proof {
        assert(id@ =~= participant_key(chat_id@, user_id@));
    }
    id
}

/// Build the member record for a member snapshot entry of conversation
/// `chat_id`, joined at `now`.
pub fn participant_from_api(p: &ApiParticipant, chat_id: &String, now: i64) -> (r: Participant)
    ensures
        r.participant_id@ == participant_key(chat_id@, p.user.user_id@),
        r.user_id == p.user.user_id,
        r.username == p.user.username,
        r.joined_at == now,
        r.role@ == spec_role(p.is_admin),
        r.chat_id == *chat_id,
{
    let role = if p.is_admin {
        String::from_str("admin")
    } else {
        String::from_str("member")
    };
    Participant {
        participant_id: make_participant_id(chat_id, &p.user.user_id),
        user_id: p.user.user_id.clone(),
        username: p.user.username.clone(),
        joined_at: now,
        role,
        chat_id: chat_id.clone(),
    }
}

/// Build a user cache record from the service's user description,
/// first seen at `now`.
pub fn user_from_user_data(d: &UserData, now: i64) -> (r: User)
    ensures
        r.user_id == d.user_id,
        r.username == d.username,
        r.email == Some(d.email),
        r.name == Some(d.name),
        r.password is None,
        r.picture == d.picture,
        r.role == d.role,
        r.token_hash is None,
        r.verified == d.verified,
        r.created_at == now,
        r.updated_at == now,
        r.deleted_at is None,
        !r.is_dark_mode,
        r.last_seen == now,
        r.color_scheme is None,
{
    User {
        user_id: d.user_id.clone(),
        username: d.username.clone(),
        email: Some(d.email.clone()),
        name: Some(d.name.clone()),
        password: None,
        picture: match &d.picture {
            Some(p) => Some(p.clone()),
            None => None,
        },
        role: match &d.role {
            Some(x) => Some(x.clone()),
            None => None,
        },
        token_hash: None,
        verified: d.verified,
        created_at: now,
        updated_at: now,
        deleted_at: None,
        is_dark_mode: false,
        last_seen: now,
        color_scheme: None,
    }
}

} // verus!
