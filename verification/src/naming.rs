//! Display-name resolution for conversations.
//!
//! A direct (two-member) conversation is named after the member who is
//! not the current user, looked up first in the local user cache, then
//! in the contacts cache; only when both miss does the caller have to
//! ask the remote service and hand the answer back.  A group
//! conversation without an explicit name is named after up to its first
//! three members, with "and N others" appended when more exist.
//! Re-resolution is skipped while a non-placeholder name is stored.

use vstd::prelude::*;
use vstd::string::{StrSliceExecFns, StringExecFns};
use crate::kv::lemma_m_value_key;
use crate::model::{Chat, Participant};
use crate::store::Store;
use crate::util::{dec_str, append_dec};

verus! {

/// A stored name that does not count as resolved: absent, empty, or the
/// generic group placeholder.
pub open spec fn placeholder_name(n: Option<String>) -> bool {
    match n {
        None => true,
        Some(s) => s@.len() == 0 || s@ == "Group Chat"@,
    }
}

/// The cached members of conversation `c`, in table order.
pub open spec fn members_of(store: Store, c: Seq<char>) -> Seq<Participant> {
    store.participants@.filter(|p: Participant| p.chat_id@ == c)
}

/// The members' usernames.
pub open spec fn usernames_of(ps: Seq<Participant>) -> Seq<Seq<char>> {
    ps.map_values(|p: Participant| p.username@)
}

/// The names joined with a comma and a space.
pub open spec fn join_commas(names: Seq<Seq<char>>) -> Seq<char>
    decreases names.len(),
{
    if names.len() == 0 {
        Seq::empty()
    } else if names.len() == 1 {
        names[0]
    } else {
        join_commas(names.drop_last()) + ", "@ + names.last()
    }
}

/// The derived group name: up to the first three usernames, and a count
/// of the rest when more exist.
pub open spec fn group_name_of(names: Seq<Seq<char>>) -> Seq<char> {
    if names.len() <= 3 {
        join_commas(names)
    } else {
        join_commas(names.take(3)) + " and "@ + dec_str(names.len() - 3) + " others"@
    }
}

/// A cached username that actually identifies someone: non-empty and
/// not just the user id echoed back.
pub open spec fn usable_username(name: Seq<char>, uid: Seq<char>) -> bool {
    name.len() > 0 && name != uid
}

/// The member of a two-member conversation who is not `me` (the first
/// one, when neither is).
pub open spec fn direct_peer(ms: Seq<Participant>, me: Seq<char>) -> Participant
    recommends
        ms.len() == 2,
{
    if ms[0].user_id@ != me {
        ms[0]
    } else {
        ms[1]
    }
}

/// What a name-resolution request decided.
pub enum NameResolution {
    /// No conversation with this id is cached.
    ChatNotFound,
    /// A non-placeholder name is already stored; nothing to do.
    AlreadyNamed,
    /// A group with no cached members: nothing to derive from.
    NoMembers,
    /// A direct conversation without exactly two cached members.
    NotTwoMembers,
    /// Both members are the current user: no peer to name after.
    NoPeer,
    /// The name was resolved and stored.
    Resolved(String),
    /// Local caches miss: the caller must look this user id up remotely
    /// and hand the username to `apply_resolved_name`.
    NeedsRemote(String),
}

fn is_placeholder(n: &Option<String>) -> (r: bool)
    ensures
        r == placeholder_name(*n),
{
    match n {
        None => true,
        Some(s) => s.as_str().is_empty() || *s == String::from_str("Group Chat"),
    }
}

/// Build the derived group name from the member list.
pub fn build_group_name(members: &Vec<Participant>) -> (r: String)
    ensures
        r@ == group_name_of(usernames_of(members@)),
{
    let ghost names = usernames_of(members@);
    let mut s = String::new();
    let total = members.len();
    let count: usize = if total < 3 {
        total
    } else {
        3
    };
    let mut j: usize = 0;
    while j < count
        invariant
            j <= count,
            total == members@.len(),
            count == if total < 3 { total as int } else { 3int },
            names == usernames_of(members@),
            names.len() == total,
            s@ == join_commas(names.take(j as int)),
        decreases count - j,
    {
        if j > 0 {
            s.append(", ");
        }
        s.append(members[j].username.as_str());
        proof {
            assert(names[j as int] == members@[j as int].username@);
            assert(names.take(j + 1 as int).drop_last() =~= names.take(j as int));
            assert(names.take(j + 1 as int).last() == names[j as int]);
            if j == 0 {
                assert(s@ =~= join_commas(names.take(1)));
            } else {
                assert(s@ =~= join_commas(names.take(j + 1 as int)));
            }
        }
        j = j + 1;
    }
    if total > 3 {
        s.append(" and ");
        append_dec(&mut s, (total - 3) as u64);
        s.append(" others");
        proof {
            assert(s@ =~= group_name_of(names));
        }
    } else {
        proof {
            assert(names.take(count as int) =~= names);
        }
    }
    s
}

/// Store `name` as the conversation's display name; a no-op when the
/// conversation is not cached.  This is also how a remotely looked-up
/// username is handed back after `NeedsRemote`.
pub fn apply_resolved_name(store: &mut Store, chat_id: &String, name: String) -> (applied: bool)
    requires
        old(store).wf(),
    ensures
        final(store).wf(),
        applied == old(store).chats.m().dom().contains(chat_id@),
        applied ==> {
            &&& *final(store) == (Store { chats: final(store).chats, ..*old(store) })
            &&& final(store).chats.m() == old(store).chats.m().insert(
                chat_id@,
                Chat { name: Some(name), ..old(store).chats.m()[chat_id@] },
            )
        },
        !applied ==> *final(store) == *old(store),
{
    let found = match store.get_chat_by_id(chat_id) {
        Some(c) => Some(c.clone()),
        None => None,
    };
    match found {
        Some(c) => {
            proof {
                lemma_m_value_key(store.chats@, chat_id@);
            }
            store.insert_or_update_chat(Chat { name: Some(name), ..c });
            true
        },
        None => false,
    }
}

/// Resolve the display name of conversation `chat_id` for the current
/// user, from the local caches alone.  Every case is reported; only
/// `Resolved` writes, and `NeedsRemote` tells the caller which user to
/// look up remotely.
pub fn resolve_chat_name(store: &mut Store, chat_id: &String, current_user_id: &String) -> (r:
    NameResolution)
    requires
        old(store).wf(),
    ensures
        final(store).wf(),
        !(r is Resolved) ==> *final(store) == *old(store),
        (r is ChatNotFound) == !old(store).chats.m().dom().contains(chat_id@),
        (r is AlreadyNamed) == (old(store).chats.m().dom().contains(chat_id@)
            && !placeholder_name(old(store).chats.m()[chat_id@].name)),
        (r matches NameResolution::Resolved(nm) ==> {
            &&& old(store).chats.m().dom().contains(chat_id@)
            &&& *final(store) == (Store { chats: final(store).chats, ..*old(store) })
            &&& final(store).chats.m() == old(store).chats.m().insert(
                chat_id@,
                Chat { name: Some(nm), ..old(store).chats.m()[chat_id@] },
            )
        }),
        old(store).chats.m().dom().contains(chat_id@) && placeholder_name(
            old(store).chats.m()[chat_id@].name,
        ) && old(store).chats.m()[chat_id@].is_group ==> {
            let ms = members_of(*old(store), chat_id@);
            if ms.len() == 0 {
                r is NoMembers
            } else {
                r matches NameResolution::Resolved(nm) && nm@ == group_name_of(usernames_of(ms))
            }
        },
        old(store).chats.m().dom().contains(chat_id@) && placeholder_name(
            old(store).chats.m()[chat_id@].name,
        ) && !old(store).chats.m()[chat_id@].is_group ==> {
            let ms = members_of(*old(store), chat_id@);
            if ms.len() != 2 {
                r is NotTwoMembers
            } else if ms[0].user_id@ == current_user_id@ && ms[1].user_id@ == current_user_id@ {
                r is NoPeer
            } else {
                let peer = direct_peer(ms, current_user_id@);
                let users = old(store).users.m();
                let friends = old(store).friends.m();
                if users.dom().contains(peer.user_id@) && usable_username(
                    users[peer.user_id@].username@,
                    peer.user_id@,
                ) {
                    r matches NameResolution::Resolved(nm) && nm@
                        == users[peer.user_id@].username@
                } else if friends.dom().contains(peer.user_id@) && usable_username(
                    friends[peer.user_id@].username@,
                    peer.user_id@,
                ) {
                    r matches NameResolution::Resolved(nm) && nm@
                        == friends[peer.user_id@].username@
                } else {
                    r matches NameResolution::NeedsRemote(uid) && uid@ == peer.user_id@
                }
            }
        },
{
    let placeholder = match store.get_chat_by_id(chat_id) {
        None => {
            return NameResolution::ChatNotFound;
        },
        Some(c) => is_placeholder(&c.name),
    };
    if !placeholder {
        return NameResolution::AlreadyNamed;
    }
    let is_group = match store.get_chat_by_id(chat_id) {
        Some(c) => c.is_group,
        None => false,
    };
    let members = store.get_participants_for_chat(chat_id);
    if is_group {
        if members.len() == 0 {
            return NameResolution::NoMembers;
        }
        let nm = build_group_name(&members);
        let applied = apply_resolved_name(store, chat_id, nm.clone());
        proof {
            assert(applied);
        }
        NameResolution::Resolved(nm)
    } else {
        if members.len() != 2 {
            return NameResolution::NotTwoMembers;
        }
        let peer_idx: usize = if !(members[0].user_id == *current_user_id) {
            0
        } else if !(members[1].user_id == *current_user_id) {
            1
        } else {
            return NameResolution::NoPeer;
        };
        let peer_user_id = members[peer_idx].user_id.clone();
        let from_users: Option<String> = match store.get_user_by_id(&peer_user_id) {
            Some(u) => {
                if !u.username.as_str().is_empty() && !(u.username == peer_user_id) {
                    Some(u.username.clone())
                } else {
                    None
                }
            },
            None => None,
        };
        match from_users {
            Some(nm) => {
                let applied = apply_resolved_name(store, chat_id, nm.clone());
                proof {
                    assert(applied);
                }
                return NameResolution::Resolved(nm);
            },
            None => (),
        }
        let from_friends: Option<String> = match store.get_friend_by_id(&peer_user_id) {
            Some(f) => {
                if !f.username.as_str().is_empty() && !(f.username == peer_user_id) {
                    Some(f.username.clone())
                } else {
                    None
                }
            },
            None => None,
        };
        match from_friends {
            Some(nm) => {
                let applied = apply_resolved_name(store, chat_id, nm.clone());
                proof {
                    assert(applied);
                }
                return NameResolution::Resolved(nm);
            },
            None => NameResolution::NeedsRemote(peer_user_id),
        }
    }
}

} // verus!
