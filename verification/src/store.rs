//! The local cache: a keyed table store for users, conversations,
//! messages, contacts, participants and key material, together with the
//! tombstone store.  Every operation is specified against the tables'
//! map views; per-key operations leave every other table untouched.

use vstd::prelude::*;
use crate::kv::{KvVec, restrict_values, lemma_map_of_take_next, lemma_filter_take_next, map_of,
    Keyed};
use crate::model::{User, Chat, Message, Friend, Participant, UserKeys, Tombstone, opt_view};
use crate::tombstone::TombstoneStore;

verus! {

/// The message carries this server id.
pub open spec fn has_server_id(m: Message, sid: Seq<char>) -> bool {
    opt_view(m.message_id) == Some(sid)
}

/// The local cache.
pub struct Store {
    pub users: KvVec<User>,
    pub chats: KvVec<Chat>,
    pub messages: KvVec<Message>,
    pub participants: KvVec<Participant>,
    pub friends: KvVec<Friend>,
    pub user_keys: KvVec<UserKeys>,
    pub tombstones: TombstoneStore,
}

impl Store {
    /// Every table keeps its keys unique.
    pub open spec fn wf(&self) -> bool {
        &&& self.users.wf()
        &&& self.chats.wf()
        &&& self.messages.wf()
        &&& self.participants.wf()
        &&& self.friends.wf()
        &&& self.user_keys.wf()
        &&& self.tombstones.wf()
    }

    /// A local delete of conversation `chat` is on record for `user`.
    pub open spec fn tombstoned(&self, chat: Seq<char>, user: Seq<char>) -> bool {
        self.tombstones.tombstoned(chat, user)
    }

    pub fn new() -> (s: Self)
        ensures
            s.wf(),
            s.users@ == Seq::<User>::empty(),
            s.chats@ == Seq::<Chat>::empty(),
            s.messages@ == Seq::<Message>::empty(),
            s.participants@ == Seq::<Participant>::empty(),
            s.friends@ == Seq::<Friend>::empty(),
            s.user_keys@ == Seq::<UserKeys>::empty(),
            s.tombstones@ == Seq::<Tombstone>::empty(),
            s.chats.m() =~= Map::<Seq<char>, Chat>::empty(),
            s.messages.m() =~= Map::<Seq<char>, Message>::empty(),
            s.participants.m() =~= Map::<Seq<char>, Participant>::empty(),
            s.friends.m() =~= Map::<Seq<char>, Friend>::empty(),
            s.users.m() =~= Map::<Seq<char>, User>::empty(),
            s.tombstones.m() =~= Map::<(Seq<char>, Seq<char>), Tombstone>::empty(),
    {
        Store {
            users: KvVec::new(),
            chats: KvVec::new(),
            messages: KvVec::new(),
            participants: KvVec::new(),
            friends: KvVec::new(),
            user_keys: KvVec::new(),
            tombstones: TombstoneStore::new(),
        }
    }

    // ---- users ----

    pub fn insert_or_update_user(&mut self, user: User)
        requires
            old(self).wf(),
        ensures
            final(self).wf(),
            *final(self) == (Store { users: final(self).users, ..*old(self) }),
            final(self).users.m() =~= old(self).users.m().insert(user.user_id@, user),
    {
        self.users.upsert(user);
    }

    pub fn get_user_by_id(&self, user_id: &String) -> (r: Option<&User>)
        requires
            self.wf(),
        ensures
            match r {
                Some(u) => self.users.m().dom().contains(user_id@) && *u
                    == self.users.m()[user_id@],
                None => !self.users.m().dom().contains(user_id@),
            },
    {
        self.users.get(user_id)
    }

    /// The user record holding this credential, if any.
    pub fn get_user_by_token(&self, token: &String) -> (r: Option<&User>)
        requires
            self.wf(),
        ensures
            match r {
                Some(u) => self.users@.contains(*u) && opt_view(u.token_hash) == Some(token@),
                None => forall|i: int|
                    0 <= i < self.users@.len() ==> opt_view(#[trigger] self.users@[i].token_hash)
                        != Some(token@),
            },
    {
        let n = self.users.len();
        let mut i: usize = 0;
        while i < n
            invariant
                n == self.users@.len(),
                i <= n,
                self.wf(),
                forall|j: int| 0 <= j < i ==> opt_view(#[trigger] self.users@[j].token_hash)
                    != Some(token@),
            decreases n - i,
        {
            let u = self.users.get_at(i);
            let matches = match &u.token_hash {
                Some(h) => *h == *token,
                None => false,
            };
            if matches {
                return Some(u);
            }
            i = i + 1;
        }
        None
    }

    /// The most recently updated user record, if any.
    pub fn get_most_recent_user(&self) -> (r: Option<&User>)
        requires
            self.wf(),
        ensures
            match r {
                Some(u) => self.users@.contains(*u) && forall|i: int|
                    0 <= i < self.users@.len() ==> #[trigger] self.users@[i].updated_at
                        <= u.updated_at,
                None => self.users@.len() == 0,
            },
    {
        let n = self.users.len();
        if n == 0 {
            return None;
        }
        let mut best: usize = 0;
        let mut i: usize = 1;
        while i < n
            invariant
                n == self.users@.len(),
                0 < n,
                best < i <= n,
                self.wf(),
                forall|j: int| 0 <= j < i ==> #[trigger] self.users@[j].updated_at
                    <= self.users@[best as int].updated_at,
            decreases n - i,
        {
            if self.users.get_at(i).updated_at > self.users.get_at(best).updated_at {
                best = i;
            }
            i = i + 1;
        }
        Some(self.users.get_at(best))
    }

    /// Who the current user is, from the local cache: the user holding
    /// this credential if cached, else the most recently updated user.
    /// `None` only with an empty user cache and no credential match —
    /// then the caller has to ask the remote service.
    pub fn get_current_user_id(&self, token: &String) -> (r: Option<String>)
        requires
            self.wf(),
        ensures
            (exists|i: int|
                0 <= i < self.users@.len() && opt_view(#[trigger] self.users@[i].token_hash)
                    == Some(token@)) ==> (r matches Some(uid) && exists|i: int|
                0 <= i < self.users@.len() && opt_view(#[trigger] self.users@[i].token_hash)
                    == Some(token@) && uid == self.users@[i].user_id),
            !(exists|i: int|
                0 <= i < self.users@.len() && opt_view(#[trigger] self.users@[i].token_hash)
                    == Some(token@)) && self.users@.len() > 0 ==> (r matches Some(uid)
                && exists|i: int|
                0 <= i < self.users@.len() && uid == (#[trigger] self.users@[i]).user_id
                    && forall|j: int|
                    0 <= j < self.users@.len() ==> #[trigger] self.users@[j].updated_at
                        <= self.users@[i].updated_at),
            self.users@.len() == 0 ==> r is None,
    {
        match self.get_user_by_token(token) {
            Some(u) => {
                let uid = u.user_id.clone();
                proof {
                    let i = choose|i: int|
                        0 <= i < self.users@.len() && self.users@[i] == *u;
                }
                Some(uid)
            },
            None => match self.get_most_recent_user() {
                Some(u) => {
                    let uid = u.user_id.clone();
                    proof {
                        let i = choose|i: int|
                            0 <= i < self.users@.len() && self.users@[i] == *u;
                    }
                    Some(uid)
                },
                None => None,
            },
        }
    }

    // ---- conversations ----

    pub fn insert_or_update_chat(&mut self, chat: Chat)
        requires
            old(self).wf(),
        ensures
            final(self).wf(),
            *final(self) == (Store { chats: final(self).chats, ..*old(self) }),
            final(self).chats.m() =~= old(self).chats.m().insert(chat.chat_id@, chat),
    {
        self.chats.upsert(chat);
    }

    pub fn get_chat_by_id(&self, chat_id: &String) -> (r: Option<&Chat>)
        requires
            self.wf(),
        ensures
            match r {
                Some(c) => self.chats.m().dom().contains(chat_id@) && *c
                    == self.chats.m()[chat_id@],
                None => !self.chats.m().dom().contains(chat_id@),
            },
    {
        self.chats.get(chat_id)
    }

    /// All cached conversations, in table order.
    pub fn get_all_chats(&self) -> (r: Vec<Chat>)
        requires
            self.wf(),
        ensures
            r@ == self.chats@,
    {
        let n = self.chats.len();
        let mut out: Vec<Chat> = Vec::new();
        let mut i: usize = 0;
        while i < n
            invariant
                n == self.chats@.len(),
                i <= n,
                self.wf(),
                out@ == self.chats@.take(i as int),
            decreases n - i,
        {
            out.push(self.chats.get_at(i).clone());
            proof {
                assert(out@ =~= self.chats@.take(i + 1 as int));
            }
            i = i + 1;
        }
        proof {
            assert(self.chats@.take(n as int) =~= self.chats@);
        }
        out
    }

    pub fn delete_chat(&mut self, chat_id: &String)
        requires
            old(self).wf(),
        ensures
            final(self).wf(),
            *final(self) == (Store { chats: final(self).chats, ..*old(self) }),
            final(self).chats.m() =~= old(self).chats.m().remove(chat_id@),
    {
        self.chats.remove_key(chat_id);
    }

    pub fn update_chat_unread_count(&mut self, chat_id: &String, unread_count: i32)
        requires
            old(self).wf(),
        ensures
            final(self).wf(),
            *final(self) == (Store { chats: final(self).chats, ..*old(self) }),
            old(self).chats.m().dom().contains(chat_id@) ==> final(self).chats.m()
                =~= old(self).chats.m().insert(chat_id@, Chat {
                unread_count,
                ..old(self).chats.m()[chat_id@]
            }),
            !old(self).chats.m().dom().contains(chat_id@) ==> *final(self) == *old(self),
    {
        let found = match self.chats.get(chat_id) {
            Some(c) => Some(c.clone()),
            None => None,
        };
        match found {
            Some(c) => {
                self.chats.upsert(Chat { unread_count, ..c });
            },
            None => (),
        }
    }

    pub fn update_chat_last_message(
        &mut self,
        chat_id: &String,
        content: Option<String>,
        timestamp: Option<i64>,
    )
        requires
            old(self).wf(),
        ensures
            final(self).wf(),
            *final(self) == (Store { chats: final(self).chats, ..*old(self) }),
            old(self).chats.m().dom().contains(chat_id@) ==> final(self).chats.m()
                =~= old(self).chats.m().insert(chat_id@, Chat {
                last_message_content: content,
                last_message_timestamp: timestamp,
                ..old(self).chats.m()[chat_id@]
            }),
            !old(self).chats.m().dom().contains(chat_id@) ==> *final(self) == *old(self),
    {
        let found = match self.chats.get(chat_id) {
            Some(c) => Some(c.clone()),
            None => None,
        };
        match found {
            Some(c) => {
                self.chats.upsert(Chat {
                    last_message_content: content,
                    last_message_timestamp: timestamp,
                    ..c
                });
            },
            None => (),
        }
    }

    // ---- contacts ----

    pub fn insert_or_update_friend(&mut self, friend: Friend)
        requires
            old(self).wf(),
        ensures
            final(self).wf(),
            *final(self) == (Store { friends: final(self).friends, ..*old(self) }),
            final(self).friends.m() =~= old(self).friends.m().insert(friend.user_id@, friend),
    {
        self.friends.upsert(friend);
    }

    pub fn get_friend_by_id(&self, user_id: &String) -> (r: Option<&Friend>)
        requires
            self.wf(),
        ensures
            match r {
                Some(f) => self.friends.m().dom().contains(user_id@) && *f
                    == self.friends.m()[user_id@],
                None => !self.friends.m().dom().contains(user_id@),
            },
    {
        self.friends.get(user_id)
    }

    pub fn get_all_friends(&self) -> (r: Vec<Friend>)
        requires
            self.wf(),
        ensures
            r@ == self.friends@,
    {
        let n = self.friends.len();
        let mut out: Vec<Friend> = Vec::new();
        let mut i: usize = 0;
        while i < n
            invariant
                n == self.friends@.len(),
                i <= n,
                self.wf(),
                out@ == self.friends@.take(i as int),
            decreases n - i,
        {
            out.push(self.friends.get_at(i).clone());
            proof {
                assert(out@ =~= self.friends@.take(i + 1 as int));
            }
            i = i + 1;
        }
        proof {
            assert(self.friends@.take(n as int) =~= self.friends@);
        }
        out
    }

    pub fn delete_friend(&mut self, user_id: &String)
        requires
            old(self).wf(),
        ensures
            final(self).wf(),
            *final(self) == (Store { friends: final(self).friends, ..*old(self) }),
            final(self).friends.m() =~= old(self).friends.m().remove(user_id@),
    {
        self.friends.remove_key(user_id);
    }

    pub fn update_friend_status(&mut self, user_id: &String, status: String)
        requires
            old(self).wf(),
        ensures
            final(self).wf(),
            *final(self) == (Store { friends: final(self).friends, ..*old(self) }),
            old(self).friends.m().dom().contains(user_id@) ==> final(self).friends.m()
                =~= old(self).friends.m().insert(user_id@, Friend {
                status: Some(status),
                ..old(self).friends.m()[user_id@]
            }),
            !old(self).friends.m().dom().contains(user_id@) ==> *final(self) == *old(self),
    {
        let found = match self.friends.get(user_id) {
            Some(f) => Some(f.clone()),
            None => None,
        };
        match found {
            Some(f) => {
                self.friends.upsert(Friend { status: Some(status), ..f });
            },
            None => (),
        }
    }

    // ---- key material ----

    pub fn insert_or_update_user_keys(&mut self, keys: UserKeys)
        requires
            old(self).wf(),
        ensures
            final(self).wf(),
            *final(self) == (Store { user_keys: final(self).user_keys, ..*old(self) }),
            final(self).user_keys.m() =~= old(self).user_keys.m().insert(keys.user_id@, keys),
    {
        self.user_keys.upsert(keys);
    }

    pub fn get_user_keys(&self, user_id: &String) -> (r: Option<&UserKeys>)
        requires
            self.wf(),
        ensures
            match r {
                Some(k) => self.user_keys.m().dom().contains(user_id@) && *k
                    == self.user_keys.m()[user_id@],
                None => !self.user_keys.m().dom().contains(user_id@),
            },
    {
        self.user_keys.get(user_id)
    }

    // ---- messages ----

    pub fn insert_or_update_message(&mut self, message: Message)
        requires
            old(self).wf(),
        ensures
            final(self).wf(),
            *final(self) == (Store { messages: final(self).messages, ..*old(self) }),
            final(self).messages.m() =~= old(self).messages.m().insert(
                message.client_message_id@,
                message,
            ),
    {
        self.messages.upsert(message);
    }

    pub fn get_message_by_client_id(&self, client_message_id: &String) -> (r: Option<&Message>)
        requires
            self.wf(),
        ensures
            match r {
                Some(m) => self.messages.m().dom().contains(client_message_id@) && *m
                    == self.messages.m()[client_message_id@],
                None => !self.messages.m().dom().contains(client_message_id@),
            },
    {
        self.messages.get(client_message_id)
    }

    /// The message carrying this server id, if any.
    pub fn get_message_by_id(&self, message_id: &String) -> (r: Option<&Message>)
        requires
            self.wf(),
        ensures
            match r {
                Some(m) => self.messages@.contains(*m) && has_server_id(*m, message_id@),
                None => forall|i: int|
                    0 <= i < self.messages@.len() ==> !has_server_id(
                        #[trigger] self.messages@[i],
                        message_id@,
                    ),
            },
    {
        let n = self.messages.len();
        let mut i: usize = 0;
        while i < n
            invariant
                n == self.messages@.len(),
                i <= n,
                self.wf(),
                forall|j: int| 0 <= j < i ==> !has_server_id(
                    #[trigger] self.messages@[j],
                    message_id@,
                ),
            decreases n - i,
        {
            let m = self.messages.get_at(i);
            let matches = match &m.message_id {
                Some(sid) => *sid == *message_id,
                None => false,
            };
            if matches {
                return Some(m);
            }
            i = i + 1;
        }
        None
    }

    /// Whether a message with this client id or this server id is
    /// already stored: the duplicate check for inbound chat events.
    pub fn message_exists(&self, client_message_id: &String, server_message_id: &String) -> (r:
        bool)
        requires
            self.wf(),
        ensures
            r == (self.messages.m().dom().contains(client_message_id@) || exists|i: int|
                0 <= i < self.messages@.len() && has_server_id(
                    #[trigger] self.messages@[i],
                    server_message_id@,
                )),
    {
        if self.messages.contains_key(client_message_id) {
            return true;
        }
        match self.get_message_by_id(server_message_id) {
            Some(m) => {
                proof {
                    let j = choose|j: int|
                        0 <= j < self.messages@.len() && self.messages@[j] == *m;
                    assert(has_server_id(self.messages@[j], server_message_id@));
                }
                true
            },
            None => false,
        }
    }

    /// Set the sent flag on every message carrying this server id.
    pub fn update_message_sent_status_by_server_id(&mut self, server_id: &String, is_sent: bool)
        requires
            old(self).wf(),
        ensures
            final(self).wf(),
            *final(self) == (Store { messages: final(self).messages, ..*old(self) }),
            final(self).messages@.len() == old(self).messages@.len(),
            forall|i: int|
                0 <= i < old(self).messages@.len() ==> final(self).messages@[i] == (
                if has_server_id(#[trigger] old(self).messages@[i], server_id@) {
                    Message { is_sent, ..old(self).messages@[i] }
                } else {
                    old(self).messages@[i]
                }),
    {
        let n = self.messages.len();
        let mut i: usize = 0;
        while i < n
            invariant
                n == old(self).messages@.len(),
                i <= n,
                self.wf(),
                *self == (Store { messages: self.messages, ..*old(self) }),
                self.messages@.len() == n,
                forall|j: int| i <= j < n ==> self.messages@[j] == old(self).messages@[j],
                forall|j: int|
                    0 <= j < i ==> self.messages@[j] == (
                    if has_server_id(#[trigger] old(self).messages@[j], server_id@) {
                        Message { is_sent, ..old(self).messages@[j] }
                    } else {
                        old(self).messages@[j]
                    }),
            decreases n - i,
        {
            let m = self.messages.get_at(i);
            let matches = match &m.message_id {
                Some(sid) => *sid == *server_id,
                None => false,
            };
            if matches {
                let updated = Message { is_sent, ..m.clone() };
                self.messages.set_at(i, updated);
            }
            i = i + 1;
        }
    }

    /// Mark the message carrying this server id delivered.
    pub fn mark_message_delivered_by_server_id(&mut self, server_id: &String)
        requires
            old(self).wf(),
        ensures
            final(self).wf(),
            *final(self) == (Store { messages: final(self).messages, ..*old(self) }),
            final(self).messages@.len() == old(self).messages@.len(),
            forall|i: int|
                0 <= i < old(self).messages@.len() ==> final(self).messages@[i] == (
                if has_server_id(#[trigger] old(self).messages@[i], server_id@) {
                    Message { is_delivered: true, ..old(self).messages@[i] }
                } else {
                    old(self).messages@[i]
                }),
    {
        let n = self.messages.len();
        let mut i: usize = 0;
        while i < n
            invariant
                n == old(self).messages@.len(),
                i <= n,
                self.wf(),
                *self == (Store { messages: self.messages, ..*old(self) }),
                self.messages@.len() == n,
                forall|j: int| i <= j < n ==> self.messages@[j] == old(self).messages@[j],
                forall|j: int|
                    0 <= j < i ==> self.messages@[j] == (
                    if has_server_id(#[trigger] old(self).messages@[j], server_id@) {
                        Message { is_delivered: true, ..old(self).messages@[j] }
                    } else {
                        old(self).messages@[j]
                    }),
            decreases n - i,
        {
            let m = self.messages.get_at(i);
            let matches = match &m.message_id {
                Some(sid) => *sid == *server_id,
                None => false,
            };
            if matches {
                let updated = Message { is_delivered: true, ..m.clone() };
                self.messages.set_at(i, updated);
            }
            i = i + 1;
        }
    }

    /// Mark the message carrying this server id read.
    pub fn mark_message_read_by_server_id(&mut self, server_id: &String)
        requires
            old(self).wf(),
        ensures
            final(self).wf(),
            *final(self) == (Store { messages: final(self).messages, ..*old(self) }),
            final(self).messages@.len() == old(self).messages@.len(),
            forall|i: int|
                0 <= i < old(self).messages@.len() ==> final(self).messages@[i] == (
                if has_server_id(#[trigger] old(self).messages@[i], server_id@) {
                    Message { is_read: true, ..old(self).messages@[i] }
                } else {
                    old(self).messages@[i]
                }),
    {
        let n = self.messages.len();
        let mut i: usize = 0;
        while i < n
            invariant
                n == old(self).messages@.len(),
                i <= n,
                self.wf(),
                *self == (Store { messages: self.messages, ..*old(self) }),
                self.messages@.len() == n,
                forall|j: int| i <= j < n ==> self.messages@[j] == old(self).messages@[j],
                forall|j: int|
                    0 <= j < i ==> self.messages@[j] == (
                    if has_server_id(#[trigger] old(self).messages@[j], server_id@) {
                        Message { is_read: true, ..old(self).messages@[j] }
                    } else {
                        old(self).messages@[j]
                    }),
            decreases n - i,
        {
            let m = self.messages.get_at(i);
            let matches = match &m.message_id {
                Some(sid) => *sid == *server_id,
                None => false,
            };
            if matches {
                let updated = Message { is_read: true, ..m.clone() };
                self.messages.set_at(i, updated);
            }
            i = i + 1;
        }
    }

    /// Attach a freshly learned server id to an optimistic message.
    pub fn update_message_id_by_client(&mut self, client_message_id: &String, server_id: String)
        requires
            old(self).wf(),
        ensures
            final(self).wf(),
            *final(self) == (Store { messages: final(self).messages, ..*old(self) }),
            old(self).messages.m().dom().contains(client_message_id@) ==> final(self).messages.m()
                =~= old(self).messages.m().insert(client_message_id@, Message {
                message_id: Some(server_id),
                ..old(self).messages.m()[client_message_id@]
            }),
            !old(self).messages.m().dom().contains(client_message_id@) ==> *final(self)
                == *old(self),
    {
        let found = match self.messages.get(client_message_id) {
            Some(m) => Some(m.clone()),
            None => None,
        };
        match found {
            Some(m) => {
                self.messages.upsert(Message { message_id: Some(server_id), ..m });
            },
            None => (),
        }
    }

    /// The cached messages of a conversation, in table order.
    pub fn get_messages_for_chat(&self, chat_id: &String) -> (r: Vec<Message>)
        requires
            self.wf(),
        ensures
            r@ == self.messages@.filter(|m: Message| m.chat_id@ == chat_id@),
    {
        let ghost pred = |m: Message| m.chat_id@ == chat_id@;
        let n = self.messages.len();
        let mut out: Vec<Message> = Vec::new();
        let mut i: usize = 0;
        while i < n
            invariant
                n == self.messages@.len(),
                i <= n,
                self.wf(),
                pred == (|m: Message| m.chat_id@ == chat_id@),
                out@ == self.messages@.take(i as int).filter(pred),
            decreases n - i,
        {
            proof {
                lemma_filter_take_next(self.messages@, i as int, pred);
            }
            let m = self.messages.get_at(i);
            if m.chat_id == *chat_id {
                out.push(m.clone());
            }
            i = i + 1;
        }
        proof {
            assert(self.messages@.take(n as int) =~= self.messages@);
        }
        out
    }

    /// How many messages of the conversation are unread.
    pub fn count_unread_messages(&self, chat_id: &String) -> (r: usize)
        requires
            self.wf(),
        ensures
            r == self.messages@.filter(
                |m: Message| m.chat_id@ == chat_id@ && !m.is_read,
            ).len(),
    {
        let ghost pred = |m: Message| m.chat_id@ == chat_id@ && !m.is_read;
        let n = self.messages.len();
        let mut count: usize = 0;
        let mut i: usize = 0;
        while i < n
            invariant
                n == self.messages@.len(),
                i <= n,
                count <= i,
                self.wf(),
                pred == (|m: Message| m.chat_id@ == chat_id@ && !m.is_read),
                count == self.messages@.take(i as int).filter(pred).len(),
            decreases n - i,
        {
            proof {
                lemma_filter_take_next(self.messages@, i as int, pred);
            }
            let m = self.messages.get_at(i);
            if m.chat_id == *chat_id && !m.is_read {
                count = count + 1;
            }
            i = i + 1;
        }
        proof {
            assert(self.messages@.take(n as int) =~= self.messages@);
        }
        count
    }

    /// Mark every message of the conversation read.
    pub fn mark_messages_as_read(&mut self, chat_id: &String)
        requires
            old(self).wf(),
        ensures
            final(self).wf(),
            *final(self) == (Store { messages: final(self).messages, ..*old(self) }),
            final(self).messages@.len() == old(self).messages@.len(),
            forall|i: int|
                0 <= i < old(self).messages@.len() ==> final(self).messages@[i] == (
                if old(self).messages@[i].chat_id@ == chat_id@ {
                    Message { is_read: true, ..#[trigger] old(self).messages@[i] }
                } else {
                    old(self).messages@[i]
                }),
    {
        let n = self.messages.len();
        let mut i: usize = 0;
        while i < n
            invariant
                n == old(self).messages@.len(),
                i <= n,
                self.wf(),
                *self == (Store { messages: self.messages, ..*old(self) }),
                self.messages@.len() == n,
                forall|j: int| i <= j < n ==> self.messages@[j] == old(self).messages@[j],
                forall|j: int|
                    0 <= j < i ==> self.messages@[j] == (
                    if old(self).messages@[j].chat_id@ == chat_id@ {
                        Message { is_read: true, ..#[trigger] old(self).messages@[j] }
                    } else {
                        old(self).messages@[j]
                    }),
            decreases n - i,
        {
            let m = self.messages.get_at(i);
            if m.chat_id == *chat_id {
                let updated = Message { is_read: true, ..m.clone() };
                self.messages.set_at(i, updated);
            }
            i = i + 1;
        }
    }

    /// Drop every message of the conversation.
    pub fn clear_messages_for_chat(&mut self, chat_id: &String)
        requires
            old(self).wf(),
        ensures
            final(self).wf(),
            *final(self) == (Store { messages: final(self).messages, ..*old(self) }),
            final(self).messages.m() =~= restrict_values(
                old(self).messages.m(),
                |m: Message| m.chat_id@ != chat_id@,
            ),
    {
        let ghost s0 = self.messages@;
        let ghost keep = |m: Message| m.chat_id@ != chat_id@;
        let mut kept: KvVec<Message> = KvVec::new();
        let n = self.messages.len();
        let mut i: usize = 0;
        while i < n
            invariant
                n == s0.len(),
                self.messages@ == s0,
                self.messages.wf(),
                i <= n,
                kept.wf(),
                keep == (|m: Message| m.chat_id@ != chat_id@),
                kept.m() =~= restrict_values(map_of(s0.take(i as int)), keep),
            decreases n - i,
        {
            proof {
                lemma_map_of_take_next(s0, i as int);
            }
            let m = self.messages.get_at(i);
            if !(m.chat_id == *chat_id) {
                proof {
                    if kept.m().dom().contains(s0[i as int].key()) {
                        assert(map_of(s0.take(i as int)).dom().contains(s0[i as int].key()));
                    }
                }
                kept.push_fresh(m.clone());
            }
            proof {
                assert(kept.m() =~= restrict_values(map_of(s0.take(i + 1 as int)), keep));
            }
            i = i + 1;
        }
        proof {
            assert(s0.take(n as int) =~= s0);
        }
        self.messages = kept;
    }

    // ---- participants ----

    pub fn insert_or_update_participant(&mut self, participant: Participant)
        requires
            old(self).wf(),
        ensures
            final(self).wf(),
            *final(self) == (Store { participants: final(self).participants, ..*old(self) }),
            final(self).participants.m() =~= old(self).participants.m().insert(
                participant.participant_id@,
                participant,
            ),
    {
        self.participants.upsert(participant);
    }

    /// The cached members of a conversation, in table order.
    pub fn get_participants_for_chat(&self, chat_id: &String) -> (r: Vec<Participant>)
        requires
            self.wf(),
        ensures
            r@ == self.participants@.filter(|p: Participant| p.chat_id@ == chat_id@),
    {
        let ghost pred = |p: Participant| p.chat_id@ == chat_id@;
        let n = self.participants.len();
        let mut out: Vec<Participant> = Vec::new();
        let mut i: usize = 0;
        while i < n
            invariant
                n == self.participants@.len(),
                i <= n,
                self.wf(),
                pred == (|p: Participant| p.chat_id@ == chat_id@),
                out@ == self.participants@.take(i as int).filter(pred),
            decreases n - i,
        {
            proof {
                lemma_filter_take_next(self.participants@, i as int, pred);
            }
            let p = self.participants.get_at(i);
            if p.chat_id == *chat_id {
                out.push(p.clone());
            }
            i = i + 1;
        }
        proof {
            assert(self.participants@.take(n as int) =~= self.participants@);
        }
        out
    }

    pub fn delete_participant(&mut self, participant_id: &String)
        requires
            old(self).wf(),
        ensures
            final(self).wf(),
            *final(self) == (Store { participants: final(self).participants, ..*old(self) }),
            final(self).participants.m() =~= old(self).participants.m().remove(participant_id@),
    {
        self.participants.remove_key(participant_id);
    }

    pub fn update_participant_role(&mut self, participant_id: &String, role: String)
        requires
            old(self).wf(),
        ensures
            final(self).wf(),
            *final(self) == (Store { participants: final(self).participants, ..*old(self) }),
            old(self).participants.m().dom().contains(participant_id@)
                ==> final(self).participants.m() =~= old(self).participants.m().insert(
                participant_id@,
                Participant { role, ..old(self).participants.m()[participant_id@] },
            ),
            !old(self).participants.m().dom().contains(participant_id@)
                ==> *final(self) == *old(self),
    {
        let found = match self.participants.get(participant_id) {
            Some(p) => Some(p.clone()),
            None => None,
        };
        match found {
            Some(p) => {
                self.participants.upsert(Participant { role, ..p });
            },
            None => (),
        }
    }

    /// Drop every member record of the conversation.
    pub fn remove_all_participants_for_chat(&mut self, chat_id: &String)
        requires
            old(self).wf(),
        ensures
            final(self).wf(),
            *final(self) == (Store { participants: final(self).participants, ..*old(self) }),
            final(self).participants.m() =~= restrict_values(
                old(self).participants.m(),
                |p: Participant| p.chat_id@ != chat_id@,
            ),
    {
        let ghost s0 = self.participants@;
        let ghost keep = |p: Participant| p.chat_id@ != chat_id@;
        let mut kept: KvVec<Participant> = KvVec::new();
        let n = self.participants.len();
        let mut i: usize = 0;
        while i < n
            invariant
                n == s0.len(),
                self.participants@ == s0,
                self.participants.wf(),
                i <= n,
                kept.wf(),
                keep == (|p: Participant| p.chat_id@ != chat_id@),
                kept.m() =~= restrict_values(map_of(s0.take(i as int)), keep),
            decreases n - i,
        {
            proof {
                lemma_map_of_take_next(s0, i as int);
            }
            let p = self.participants.get_at(i);
            if !(p.chat_id == *chat_id) {
                proof {
                    if kept.m().dom().contains(s0[i as int].key()) {
                        assert(map_of(s0.take(i as int)).dom().contains(s0[i as int].key()));
                    }
                }
                kept.push_fresh(p.clone());
            }
            proof {
                assert(kept.m() =~= restrict_values(map_of(s0.take(i + 1 as int)), keep));
            }
            i = i + 1;
        }
        proof {
            assert(s0.take(n as int) =~= s0);
        }
        self.participants = kept;
    }

    // ---- tombstones ----

    /// Record a local delete of `chat_id` for `user_id`, at time `now`.
    /// This happens the instant the delete is requested, before any
    /// remote confirmation.
    pub fn add_local_delete(
        &mut self,
        chat_id: &String,
        user_id: &String,
        is_creator: bool,
        now: i64,
    )
        requires
            old(self).wf(),
        ensures
            final(self).wf(),
            *final(self) == (Store { tombstones: final(self).tombstones, ..*old(self) }),
            final(self).tombstones.m() =~= old(self).tombstones.m().insert(
                (chat_id@, user_id@),
                Tombstone {
                    chat_id: *chat_id,
                    user_id: *user_id,
                    deleted_at: now,
                    is_creator,
                },
            ),
            final(self).tombstoned(chat_id@, user_id@),
    {
        self.tombstones.upsert(Tombstone {
            chat_id: chat_id.clone(),
            user_id: user_id.clone(),
            deleted_at: now,
            is_creator,
        });
    }

    pub fn is_chat_locally_deleted(&self, chat_id: &String, user_id: &String) -> (r: bool)
        requires
            self.wf(),
        ensures
            r == self.tombstoned(chat_id@, user_id@),
    {
        self.tombstones.contains(chat_id, user_id)
    }

    pub fn remove_local_delete(&mut self, chat_id: &String, user_id: &String)
        requires
            old(self).wf(),
        ensures
            final(self).wf(),
            *final(self) == (Store { tombstones: final(self).tombstones, ..*old(self) }),
            final(self).tombstones.m() =~= old(self).tombstones.m().remove((chat_id@, user_id@)),
    {
        self.tombstones.remove(chat_id, user_id);
    }

    /// Drop `user_id`'s tombstones for conversations that the server no
    /// longer reports: their deletion is confirmed.
    pub fn cleanup_local_deletes(&mut self, server_chat_ids: &Vec<String>, user_id: &String)
        requires
            old(self).wf(),
        ensures
            final(self).wf(),
            *final(self) == (Store { tombstones: final(self).tombstones, ..*old(self) }),
            final(self).tombstones.m() =~= Map::<(Seq<char>, Seq<char>), Tombstone>::new(
                |k: (Seq<char>, Seq<char>)| old(self).tombstones.m().dom().contains(k)
                    && (k.1 != user_id@ || crate::tombstone::id_set(server_chat_ids@).contains(
                    k.0,
                )),
                |k: (Seq<char>, Seq<char>)| old(self).tombstones.m()[k],
            ),
    {
        self.tombstones.cleanup_confirmed(user_id, server_chat_ids);
    }
}

} // verus!
