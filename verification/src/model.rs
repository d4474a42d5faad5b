//! The records of the local cache: users, conversations, messages,
//! contacts, participants, key material, and tombstones.
//!
//! Each stored record carries its own key; conversation membership lives
//! in the participant table, keyed by the composite participant id.

use vstd::prelude::*;
use crate::kv::Keyed;

verus! {

/// A cached user record.
pub struct User {
    pub user_id: String,
    pub username: String,
    pub email: Option<String>,
    pub name: Option<String>,
    pub password: Option<String>,
    pub picture: Option<String>,
    pub role: Option<String>,
    pub token_hash: Option<String>,
    pub verified: bool,
    pub created_at: i64,
    pub updated_at: i64,
    pub deleted_at: Option<i64>,
    pub is_dark_mode: bool,
    pub last_seen: i64,
    pub color_scheme: Option<String>,
}

/// A cached conversation.  Membership is kept in the participant table.
pub struct Chat {
    pub chat_id: String,
    /// Display name; may be absent until resolved.
    pub name: Option<String>,
    pub created_at: i64,
    pub creator_id: Option<String>,
    pub is_group: bool,
    pub group_name: Option<String>,
    pub description: Option<String>,
    pub unread_count: i32,
    pub last_message_content: Option<String>,
    pub last_message_timestamp: Option<i64>,
}

/// A cached message.  The client id is always present and unique per
/// store; the server id arrives later for optimistic sends.
pub struct Message {
    /// Server-assigned id, when known.
    pub message_id: Option<String>,
    /// Client-generated id; the only safe join key until a server id
    /// exists.
    pub client_message_id: String,
    pub chat_id: String,
    pub sender_id: String,
    pub content: String,
    pub timestamp: i64,
    pub is_read: bool,
    pub is_sent: bool,
    pub is_delivered: bool,
    pub is_failed: bool,
    pub sender_username: Option<String>,
    pub reply_to_message_id: Option<String>,
}

/// A cached contact.
pub struct Friend {
    pub user_id: String,
    pub username: String,
    pub email: String,
    pub name: String,
    pub picture: Option<String>,
    pub created_at: Option<i64>,
    pub updated_at: Option<i64>,
    pub status: Option<String>,
    pub is_favorite: bool,
}

/// A conversation member.  The participant id is the composite of the
/// conversation id and the user id.
pub struct Participant {
    pub participant_id: String,
    pub user_id: String,
    pub username: String,
    pub joined_at: i64,
    /// `"admin"` or `"member"`.
    pub role: String,
    pub chat_id: String,
}

/// Key material stored for a user.
pub struct UserKeys {
    pub user_id: String,
    pub key1: String,
    pub key2: String,
    pub key3: String,
    pub key4: String,
    pub private_key1: String,
    pub private_key2: String,
    pub private_key3: String,
    pub private_key4: String,
}

/// A record of a local conversation delete, kept until the server's
/// snapshot confirms the conversation is gone.
pub struct Tombstone {
    pub chat_id: String,
    pub user_id: String,
    pub deleted_at: i64,
    pub is_creator: bool,
}

/// An optional string, seen as an optional character sequence.
pub open spec fn opt_view(o: Option<String>) -> Option<Seq<char>> {
    match o {
        Some(s) => Some(s@),
        None => None,
    }
}

/// `r` equals `*o`, as a fresh value.
fn clone_opt_string(o: &Option<String>) -> (r: Option<String>)
    ensures
        r == *o,
{
    match o {
        Some(s) => Some(s.clone()),
        None => None,
    }
}

impl Keyed for User {
    open spec fn key(&self) -> Seq<char> {
        self.user_id@
    }

    fn key_ref(&self) -> (k: &String) {
        &self.user_id
    }
}

impl Keyed for Chat {
    open spec fn key(&self) -> Seq<char> {
        self.chat_id@
    }

    fn key_ref(&self) -> (k: &String) {
        &self.chat_id
    }
}

impl Keyed for Message {
    open spec fn key(&self) -> Seq<char> {
        self.client_message_id@
    }

    fn key_ref(&self) -> (k: &String) {
        &self.client_message_id
    }
}

impl Keyed for Friend {
    open spec fn key(&self) -> Seq<char> {
        self.user_id@
    }

    fn key_ref(&self) -> (k: &String) {
        &self.user_id
    }
}

impl Keyed for Participant {
    open spec fn key(&self) -> Seq<char> {
        self.participant_id@
    }

    fn key_ref(&self) -> (k: &String) {
        &self.participant_id
    }
}

impl Keyed for UserKeys {
    open spec fn key(&self) -> Seq<char> {
        self.user_id@
    }

    fn key_ref(&self) -> (k: &String) {
        &self.user_id
    }
}

impl Clone for User {
    fn clone(&self) -> (r: Self)
        ensures
            r == *self,
    {
        User {
            user_id: self.user_id.clone(),
            username: self.username.clone(),
            email: clone_opt_string(&self.email),
            name: clone_opt_string(&self.name),
            password: clone_opt_string(&self.password),
            picture: clone_opt_string(&self.picture),
            role: clone_opt_string(&self.role),
            token_hash: clone_opt_string(&self.token_hash),
            verified: self.verified,
            created_at: self.created_at,
            updated_at: self.updated_at,
            deleted_at: self.deleted_at,
            is_dark_mode: self.is_dark_mode,
            last_seen: self.last_seen,
            color_scheme: clone_opt_string(&self.color_scheme),
        }
    }
}

impl Clone for Chat {
    fn clone(&self) -> (r: Self)
        ensures
            r == *self,
    {
        Chat {
            chat_id: self.chat_id.clone(),
            name: clone_opt_string(&self.name),
            created_at: self.created_at,
            creator_id: clone_opt_string(&self.creator_id),
            is_group: self.is_group,
            group_name: clone_opt_string(&self.group_name),
            description: clone_opt_string(&self.description),
            unread_count: self.unread_count,
            last_message_content: clone_opt_string(&self.last_message_content),
            last_message_timestamp: self.last_message_timestamp,
        }
    }
}

impl Clone for Message {
    fn clone(&self) -> (r: Self)
        ensures
            r == *self,
    {
        Message {
            message_id: clone_opt_string(&self.message_id),
            client_message_id: self.client_message_id.clone(),
            chat_id: self.chat_id.clone(),
            sender_id: self.sender_id.clone(),
            content: self.content.clone(),
            timestamp: self.timestamp,
            is_read: self.is_read,
            is_sent: self.is_sent,
            is_delivered: self.is_delivered,
            is_failed: self.is_failed,
            sender_username: clone_opt_string(&self.sender_username),
            reply_to_message_id: clone_opt_string(&self.reply_to_message_id),
        }
    }
}

impl Clone for Friend {
    fn clone(&self) -> (r: Self)
        ensures
            r == *self,
    {
        Friend {
            user_id: self.user_id.clone(),
            username: self.username.clone(),
            email: self.email.clone(),
            name: self.name.clone(),
            picture: clone_opt_string(&self.picture),
            created_at: self.created_at,
            updated_at: self.updated_at,
            status: clone_opt_string(&self.status),
            is_favorite: self.is_favorite,
        }
    }
}

impl Clone for Participant {
    fn clone(&self) -> (r: Self)
        ensures
            r == *self,
    {
        Participant {
            participant_id: self.participant_id.clone(),
            user_id: self.user_id.clone(),
            username: self.username.clone(),
            joined_at: self.joined_at,
            role: self.role.clone(),
            chat_id: self.chat_id.clone(),
        }
    }
}

impl Clone for UserKeys {
    fn clone(&self) -> (r: Self)
        ensures
            r == *self,
    {
        UserKeys {
            user_id: self.user_id.clone(),
            key1: self.key1.clone(),
            key2: self.key2.clone(),
            key3: self.key3.clone(),
            key4: self.key4.clone(),
            private_key1: self.private_key1.clone(),
            private_key2: self.private_key2.clone(),
            private_key3: self.private_key3.clone(),
            private_key4: self.private_key4.clone(),
        }
    }
}

impl Clone for Tombstone {
    fn clone(&self) -> (r: Self)
        ensures
            r == *self,
    {
        Tombstone {
            chat_id: self.chat_id.clone(),
            user_id: self.user_id.clone(),
            deleted_at: self.deleted_at,
            is_creator: self.is_creator,
        }
    }
}

} // verus!
