//! The delta reconciler: merge an authoritative remote snapshot of a
//! collection — conversations, contacts, or a conversation's members —
//! into the local cache.
//!
//! For conversations the merge is tombstone-protected: snapshot entries
//! whose id is tombstoned for the current user are ignored, so a local
//! delete that has not yet reached the server is not undone; and
//! tombstones whose conversation the (unfiltered) snapshot no longer
//! contains are garbage-collected, the deletion being confirmed.
//!
//! A failed fetch is handed in as `None` and leaves the cache untouched:
//! reconciliation degrades to last known good data, never to a wipe.

use vstd::prelude::*;
use crate::api::{ChatSnapshot, chat_record_of, chat_from_snapshot, FriendSnapshot,
    friend_record_of, friend_from_snapshot, ApiParticipant, participant_from_api,
    participant_key, spec_role};
use crate::kv::{restrict_values, lemma_filter_take_next, Keyed, KvVec};
use crate::model::{Chat, Message, Participant, Friend};
use crate::store::Store;
use crate::tombstone::{id_set, contains_id};
use crate::model::Tombstone;

verus! {

/// The conversation ids a snapshot holds.
pub open spec fn snapshot_ids(rs: Seq<ChatSnapshot>) -> Set<Seq<char>> {
    Set::new(|k: Seq<char>| exists|i: int| 0 <= i < rs.len() && #[trigger] rs[i].chat_id@ == k)
}

/// The snapshot as a map from conversation id to the cache record it
/// denotes; a later entry wins over an earlier one with the same id.
pub open spec fn remote_chats_map(rs: Seq<ChatSnapshot>, now: i64) -> Map<Seq<char>, Chat>
    decreases rs.len(),
{
    if rs.len() == 0 {
        Map::empty()
    } else {
        remote_chats_map(rs.drop_last(), now).insert(
            rs.last().chat_id@,
            chat_record_of(rs.last(), now),
        )
    }
}

/// A conversation the pass removes from the cache: locally present, but
/// absent from the tombstone-filtered snapshot.
pub open spec fn chat_dropped(pre: Store, rs: Seq<ChatSnapshot>, u: Seq<char>, c: Seq<char>) -> bool {
    pre.chats.m().dom().contains(c) && !(snapshot_ids(rs).contains(c) && !pre.tombstoned(c, u))
}

/// How one conversation reconciliation pass relates the cache before
/// (`pre`) to the cache after (`post`), for user `u`, snapshot `rs` and
/// clock reading `now`:
/// the conversations afterwards are exactly the tombstone-filtered
/// snapshot, with the records the snapshot denotes; messages and
/// members of dropped conversations are gone and all others untouched;
/// `u`'s tombstones for conversations outside the unfiltered snapshot
/// are gone, everything else in the tombstone store untouched; and the
/// remaining tables are untouched.
pub open spec fn chats_reconciled(
    pre: Store,
    post: Store,
    rs: Seq<ChatSnapshot>,
    u: Seq<char>,
    now: i64,
) -> bool {
    &&& post.chats.m() == Map::new(
        |k: Seq<char>| snapshot_ids(rs).contains(k) && !pre.tombstoned(k, u),
        |k: Seq<char>| remote_chats_map(rs, now)[k],
    )
    &&& post.messages.m() == restrict_values(
        pre.messages.m(),
        |m: Message| !chat_dropped(pre, rs, u, m.chat_id@),
    )
    &&& post.participants.m() == restrict_values(
        pre.participants.m(),
        |p: Participant| !chat_dropped(pre, rs, u, p.chat_id@),
    )
    &&& post.tombstones.m() == Map::new(
        |k: (Seq<char>, Seq<char>)| pre.tombstones.m().dom().contains(k) && (k.1 != u
            || snapshot_ids(rs).contains(k.0)),
        |k: (Seq<char>, Seq<char>)| pre.tombstones.m()[k],
    )
    &&& post.users == pre.users
    &&& post.friends == pre.friends
    &&& post.user_keys == pre.user_keys
}

/// Does the snapshot contain this conversation id?
fn remote_contains(remote: &Vec<ChatSnapshot>, id: &String) -> (r: bool)
    ensures
        r == snapshot_ids(remote@).contains(id@),
{
    let n = remote.len();
    let mut i: usize = 0;
    while i < n
        invariant
            n == remote@.len(),
            i <= n,
            forall|j: int| 0 <= j < i ==> remote@[j].chat_id@ != id@,
        decreases n - i,
    {
        if remote[i].chat_id == *id {
            proof {
                assert(remote@[i as int].chat_id@ == id@);
            }
            return true;
        }
        i = i + 1;
    }
    proof {
        if snapshot_ids(remote@).contains(id@) {
            let j = choose|j: int| 0 <= j < remote@.len() && #[trigger] remote@[j].chat_id@ == id@;
        }
    }
    false
}

/// Every conversation id the snapshot holds, for tombstone cleanup.
fn collect_snapshot_ids(remote: &Vec<ChatSnapshot>) -> (ids: Vec<String>)
    ensures
        id_set(ids@) =~= snapshot_ids(remote@),
{
    let n = remote.len();
    let mut ids: Vec<String> = Vec::new();
    let mut i: usize = 0;
    while i < n
        invariant
            n == remote@.len(),
            i <= n,
            id_set(ids@) =~= snapshot_ids(remote@.take(i as int)),
        decreases n - i,
    {
        let ghost pre_ids = ids@;
        ids.push(remote[i].chat_id.clone());
        proof {
            assert forall|k: Seq<char>| #[trigger] id_set(ids@).contains(k)
                <==> snapshot_ids(remote@.take(i + 1 as int)).contains(k) by {
                if id_set(ids@).contains(k) {
                    let j = choose|j: int| 0 <= j < ids@.len() && #[trigger] ids@[j]@ == k;
                    if j < ids@.len() - 1 {
                        assert(pre_ids[j]@ == k);
                        assert(id_set(pre_ids).contains(k));
                        assert(snapshot_ids(remote@.take(i as int)).contains(k));
                        let jj = choose|jj: int|
                            0 <= jj < remote@.take(i as int).len()
                                && #[trigger] remote@.take(i as int)[jj].chat_id@ == k;
                        assert(remote@.take(i + 1 as int)[jj].chat_id@ == k);
                    } else {
                        assert(remote@.take(i + 1 as int)[i as int].chat_id@ == k);
                    }
                }
                if snapshot_ids(remote@.take(i + 1 as int)).contains(k) {
                    let jj = choose|jj: int|
                        0 <= jj < remote@.take(i + 1 as int).len()
                            && #[trigger] remote@.take(i + 1 as int)[jj].chat_id@ == k;
                    if jj < i {
                        assert(remote@.take(i as int)[jj].chat_id@ == k);
                        assert(snapshot_ids(remote@.take(i as int)).contains(k));
                        assert(id_set(pre_ids).contains(k));
                        let j = choose|j: int|
                            0 <= j < pre_ids.len() && #[trigger] pre_ids[j]@ == k;
                        assert(ids@[j]@ == k);
                    } else {
                        assert(ids@[ids@.len() - 1]@ == k);
                    }
                }
            }
        }
        i = i + 1;
    }
    proof {
        assert(remote@.take(n as int) =~= remote@);
    }
    ids
}

/// The locally cached conversations that the filtered snapshot no
/// longer contains: the pass's deletions.
fn collect_dropped(store: &Store, remote: &Vec<ChatSnapshot>, user_id: &String) -> (ids: Vec<
    String,
>)
    requires
        store.wf(),
    ensures
        forall|k: Seq<char>| #[trigger] id_set(ids@).contains(k) <==> chat_dropped(
            *store,
            remote@,
            user_id@,
            k,
        ),
{
    let n = store.chats.len();
    let mut ids: Vec<String> = Vec::new();
    let mut i: usize = 0;
    while i < n
        invariant
            n == store.chats@.len(),
            i <= n,
            store.wf(),
            forall|k: Seq<char>| #[trigger] id_set(ids@).contains(k) <==> ((exists|j: int|
                0 <= j < i && #[trigger] store.chats@[j].chat_id@ == k) && !(snapshot_ids(
                remote@,
            ).contains(k) && !store.tombstoned(k, user_id@))),
        decreases n - i,
    {
        let c = store.chats.get_at(i);
        let in_remote = remote_contains(remote, &c.chat_id);
        let tombed = store.is_chat_locally_deleted(&c.chat_id, user_id);
        if !(in_remote && !tombed) {
            let ghost pre_ids = ids@;
            ids.push(c.chat_id.clone());
            proof {
                assert forall|k: Seq<char>| #[trigger] id_set(ids@).contains(k)
                    <==> (id_set(pre_ids).contains(k) || k == store.chats@[i as int].chat_id@) by {
                    if id_set(ids@).contains(k) {
                        let j = choose|j: int| 0 <= j < ids@.len() && #[trigger] ids@[j]@ == k;
                        if j < ids@.len() - 1 {
                            assert(pre_ids[j]@ == k);
                        }
                    }
                    if id_set(pre_ids).contains(k) {
                        let j = choose|j: int|
                            0 <= j < pre_ids.len() && #[trigger] pre_ids[j]@ == k;
                        assert(ids@[j]@ == k);
                    }
                    if k == store.chats@[i as int].chat_id@ {
                        assert(ids@[ids@.len() - 1]@ == k);
                    }
                }
            }
        }
        proof {
            assert forall|k: Seq<char>| #[trigger] id_set(ids@).contains(k) <==> ((exists|j: int|
                0 <= j < i + 1 && #[trigger] store.chats@[j].chat_id@ == k) && !(snapshot_ids(
                remote@,
            ).contains(k) && !store.tombstoned(k, user_id@))) by {
                if (exists|j: int| 0 <= j < i + 1 && #[trigger] store.chats@[j].chat_id@ == k)
                    && !(snapshot_ids(remote@).contains(k) && !store.tombstoned(k, user_id@)) {
                    let j = choose|j: int|
                        0 <= j < i + 1 && #[trigger] store.chats@[j].chat_id@ == k;
                }
            }
        }
        i = i + 1;
    }
    proof {
        assert forall|k: Seq<char>| #[trigger] id_set(ids@).contains(k) <==> chat_dropped(
            *store,
            remote@,
            user_id@,
            k,
        ) by {
            if store.chats.m().dom().contains(k) {
                let j = crate::kv::index_of_key(store.chats@, k);
                assert(0 <= j < store.chats@.len() && store.chats@[j].key() == k);
                assert(store.chats@[j].chat_id@ == k);
            }
            if exists|j: int| 0 <= j < n && #[trigger] store.chats@[j].chat_id@ == k {
                let j = choose|j: int| 0 <= j < n && #[trigger] store.chats@[j].chat_id@ == k;
                crate::kv::lemma_map_of_index(store.chats@, j);
            }
        }
    }
    ids
}

/// Remove these conversations from the cache, with their messages and
/// member records.
fn drop_chats(store: &mut Store, ids: &Vec<String>)
    requires
        old(store).wf(),
    ensures
        final(store).wf(),
        *final(store) == (Store {
            chats: final(store).chats,
            messages: final(store).messages,
            participants: final(store).participants,
            ..*old(store)
        }),
        final(store).chats.m() == Map::<Seq<char>, Chat>::new(
            |k: Seq<char>| old(store).chats.m().dom().contains(k) && !id_set(ids@).contains(k),
            |k: Seq<char>| old(store).chats.m()[k],
        ),
        final(store).messages.m() == restrict_values(
            old(store).messages.m(),
            |m: Message| !id_set(ids@).contains(m.chat_id@),
        ),
        final(store).participants.m() == restrict_values(
            old(store).participants.m(),
            |p: Participant| !id_set(ids@).contains(p.chat_id@),
        ),
{
    let n = ids.len();
    let mut i: usize = 0;
    while i < n
        invariant
            n == ids@.len(),
            i <= n,
            store.wf(),
            *store == (Store {
                chats: store.chats,
                messages: store.messages,
                participants: store.participants,
                ..*old(store)
            }),
            store.chats.m() =~= Map::<Seq<char>, Chat>::new(
                |k: Seq<char>| old(store).chats.m().dom().contains(k) && !id_set(
                    ids@.take(i as int),
                ).contains(k),
                |k: Seq<char>| old(store).chats.m()[k],
            ),
            store.messages.m() =~= restrict_values(
                old(store).messages.m(),
                |m: Message| !id_set(ids@.take(i as int)).contains(m.chat_id@),
            ),
            store.participants.m() =~= restrict_values(
                old(store).participants.m(),
                |p: Participant| !id_set(ids@.take(i as int)).contains(p.chat_id@),
            ),
        decreases n - i,
    {
        let id = &ids[i];
        proof {
            assert forall|k: Seq<char>| #[trigger] id_set(ids@.take(i + 1 as int)).contains(k)
                <==> (id_set(ids@.take(i as int)).contains(k) || k == ids@[i as int]@) by {
                if id_set(ids@.take(i + 1 as int)).contains(k) {
                    let j = choose|j: int|
                        0 <= j < ids@.take(i + 1 as int).len() && #[trigger] ids@.take(
                            i + 1 as int,
                        )[j]@ == k;
                    if j < i {
                        assert(ids@.take(i as int)[j]@ == k);
                    }
                }
                if id_set(ids@.take(i as int)).contains(k) {
                    let j = choose|j: int|
                        0 <= j < ids@.take(i as int).len() && #[trigger] ids@.take(
                            i as int,
                        )[j]@ == k;
                    assert(ids@.take(i + 1 as int)[j]@ == k);
                }
                if k == ids@[i as int]@ {
                    assert(ids@.take(i + 1 as int)[i as int]@ == k);
                }
            }
        }
        store.clear_messages_for_chat(id);
        store.remove_all_participants_for_chat(id);
        store.delete_chat(id);
        proof {
            assert(store.chats.m() =~= Map::<Seq<char>, Chat>::new(
                |k: Seq<char>| old(store).chats.m().dom().contains(k) && !id_set(
                    ids@.take(i + 1 as int),
                ).contains(k),
                |k: Seq<char>| old(store).chats.m()[k],
            ));
            assert(store.messages.m() =~= restrict_values(
                old(store).messages.m(),
                |m: Message| !id_set(ids@.take(i + 1 as int)).contains(m.chat_id@),
            ));
            assert(store.participants.m() =~= restrict_values(
                old(store).participants.m(),
                |p: Participant| !id_set(ids@.take(i + 1 as int)).contains(p.chat_id@),
            ));
        }
        i = i + 1;
    }
    proof {
        assert(ids@.take(n as int) =~= ids@);
        assert(store.chats.m() =~= Map::<Seq<char>, Chat>::new(
            |k: Seq<char>| old(store).chats.m().dom().contains(k) && !id_set(ids@).contains(k),
            |k: Seq<char>| old(store).chats.m()[k],
        ));
        assert(store.messages.m() =~= restrict_values(
            old(store).messages.m(),
            |m: Message| !id_set(ids@).contains(m.chat_id@),
        ));
        assert(store.participants.m() =~= restrict_values(
            old(store).participants.m(),
            |p: Participant| !id_set(ids@).contains(p.chat_id@),
        ));
    }
}

/// Write every non-tombstoned snapshot entry into the cache: inserts
/// and last-writer-wins updates in one pass.
fn upsert_snapshots(store: &mut Store, remote: &Vec<ChatSnapshot>, user_id: &String, now: i64)
    requires
        old(store).wf(),
        forall|k: Seq<char>| #[trigger] old(store).chats.m().dom().contains(k) ==> snapshot_ids(
            remote@,
        ).contains(k) && !old(store).tombstoned(k, user_id@),
    ensures
        final(store).wf(),
        *final(store) == (Store { chats: final(store).chats, ..*old(store) }),
        final(store).chats.m() == Map::<Seq<char>, Chat>::new(
            |k: Seq<char>| snapshot_ids(remote@).contains(k) && !old(store).tombstoned(
                k,
                user_id@,
            ),
            |k: Seq<char>| remote_chats_map(remote@, now)[k],
        ),
{
    let n = remote.len();
    let mut i: usize = 0;
    while i < n
        invariant
            n == remote@.len(),
            i <= n,
            store.wf(),
            *store == (Store { chats: store.chats, ..*old(store) }),
            forall|k: Seq<char>| #[trigger] old(store).chats.m().dom().contains(k)
                ==> snapshot_ids(remote@).contains(k) && !old(store).tombstoned(k, user_id@),
            store.chats.m() =~= Map::<Seq<char>, Chat>::new(
                |k: Seq<char>| old(store).chats.m().dom().contains(k) || (snapshot_ids(
                    remote@.take(i as int),
                ).contains(k) && !old(store).tombstoned(k, user_id@)),
                |k: Seq<char>| if snapshot_ids(remote@.take(i as int)).contains(k) && !old(
                    store,
                ).tombstoned(k, user_id@) {
                    remote_chats_map(remote@.take(i as int), now)[k]
                } else {
                    old(store).chats.m()[k]
                },
            ),
        decreases n - i,
    {
        let s = &remote[i];
        proof {
            assert(remote@.take(i + 1 as int).drop_last() =~= remote@.take(i as int));
            assert(remote@.take(i + 1 as int).last() == remote@[i as int]);
            assert(remote_chats_map(remote@.take(i + 1 as int), now) == remote_chats_map(
                remote@.take(i as int),
                now,
            ).insert(remote@[i as int].chat_id@, chat_record_of(remote@[i as int], now)));
            assert forall|k: Seq<char>| #[trigger] snapshot_ids(remote@.take(i + 1 as int)).contains(
                k,
            ) <==> (snapshot_ids(remote@.take(i as int)).contains(k) || k
                == remote@[i as int].chat_id@) by {
                if snapshot_ids(remote@.take(i + 1 as int)).contains(k) {
                    let j = choose|j: int|
                        0 <= j < remote@.take(i + 1 as int).len() && #[trigger] remote@.take(
                            i + 1 as int,
                        )[j].chat_id@ == k;
                    if j < i {
                        assert(remote@.take(i as int)[j].chat_id@ == k);
                    }
                }
                if snapshot_ids(remote@.take(i as int)).contains(k) {
                    let j = choose|j: int|
                        0 <= j < remote@.take(i as int).len() && #[trigger] remote@.take(
                            i as int,
                        )[j].chat_id@ == k;
                    assert(remote@.take(i + 1 as int)[j].chat_id@ == k);
                }
                if k == remote@[i as int].chat_id@ {
                    assert(remote@.take(i + 1 as int)[i as int].chat_id@ == k);
                }
            }
        }
        let tombed = store.is_chat_locally_deleted(&s.chat_id, user_id);
        if !tombed {
            let record = chat_from_snapshot(s, now);
            store.insert_or_update_chat(record);
        }
        proof {
            assert(store.chats.m() =~= Map::<Seq<char>, Chat>::new(
                |k: Seq<char>| old(store).chats.m().dom().contains(k) || (snapshot_ids(
                    remote@.take(i + 1 as int),
                ).contains(k) && !old(store).tombstoned(k, user_id@)),
                |k: Seq<char>| if snapshot_ids(remote@.take(i + 1 as int)).contains(k) && !old(
                    store,
                ).tombstoned(k, user_id@) {
                    remote_chats_map(remote@.take(i + 1 as int), now)[k]
                } else {
                    old(store).chats.m()[k]
                },
            ));
        }
        i = i + 1;
    }
    proof {
        assert(remote@.take(n as int) =~= remote@);
        assert(store.chats.m() =~= Map::<Seq<char>, Chat>::new(
            |k: Seq<char>| snapshot_ids(remote@).contains(k) && !old(store).tombstoned(
                k,
                user_id@,
            ),
            |k: Seq<char>| remote_chats_map(remote@, now)[k],
        ));
    }
}

/// The snapshot entries that will enter the cache as new conversations:
/// not tombstoned, not yet cached.  The caller resolves their names and
/// syncs their members once the pass is done.
fn collect_new_ids(store: &Store, remote: &Vec<ChatSnapshot>, user_id: &String) -> (ids: Vec<
    String,
>)
    requires
        store.wf(),
    ensures
        forall|k: Seq<char>| #[trigger] id_set(ids@).contains(k) <==> (snapshot_ids(
            remote@,
        ).contains(k) && !store.tombstoned(k, user_id@) && !store.chats.m().dom().contains(k)),
{
    let n = remote.len();
    let mut ids: Vec<String> = Vec::new();
    let mut i: usize = 0;
    while i < n
        invariant
            n == remote@.len(),
            i <= n,
            store.wf(),
            forall|k: Seq<char>| #[trigger] id_set(ids@).contains(k) <==> (snapshot_ids(
                remote@.take(i as int),
            ).contains(k) && !store.tombstoned(k, user_id@) && !store.chats.m().dom().contains(
                k,
            )),
        decreases n - i,
    {
        let s = &remote[i];
        proof {
            assert forall|k: Seq<char>| #[trigger] snapshot_ids(remote@.take(i + 1 as int)).contains(
                k,
            ) <==> (snapshot_ids(remote@.take(i as int)).contains(k) || k
                == remote@[i as int].chat_id@) by {
                if snapshot_ids(remote@.take(i + 1 as int)).contains(k) {
                    let j = choose|j: int|
                        0 <= j < remote@.take(i + 1 as int).len() && #[trigger] remote@.take(
                            i + 1 as int,
                        )[j].chat_id@ == k;
                    if j < i {
                        assert(remote@.take(i as int)[j].chat_id@ == k);
                    }
                }
                if snapshot_ids(remote@.take(i as int)).contains(k) {
                    let j = choose|j: int|
                        0 <= j < remote@.take(i as int).len() && #[trigger] remote@.take(
                            i as int,
                        )[j].chat_id@ == k;
                    assert(remote@.take(i + 1 as int)[j].chat_id@ == k);
                }
                if k == remote@[i as int].chat_id@ {
                    assert(remote@.take(i + 1 as int)[i as int].chat_id@ == k);
                }
            }
        }
        let tombed = store.is_chat_locally_deleted(&s.chat_id, user_id);
        let cached = store.chats.contains_key(&s.chat_id);
        let already = contains_id(&ids, &s.chat_id);
        if !tombed && !cached && !already {
            let ghost pre_ids = ids@;
            ids.push(s.chat_id.clone());
            proof {
                assert forall|k: Seq<char>| #[trigger] id_set(ids@).contains(k)
                    <==> (id_set(pre_ids).contains(k) || k == remote@[i as int].chat_id@) by {
                    if id_set(ids@).contains(k) {
                        let j = choose|j: int| 0 <= j < ids@.len() && #[trigger] ids@[j]@ == k;
                        if j < ids@.len() - 1 {
                            assert(pre_ids[j]@ == k);
                        }
                    }
                    if id_set(pre_ids).contains(k) {
                        let j = choose|j: int|
                            0 <= j < pre_ids.len() && #[trigger] pre_ids[j]@ == k;
                        assert(ids@[j]@ == k);
                    }
                    if k == remote@[i as int].chat_id@ {
                        assert(ids@[ids@.len() - 1]@ == k);
                    }
                }
            }
        }
        i = i + 1;
    }
    proof {
        assert(remote@.take(n as int) =~= remote@);
    }
    ids
}

/// The cached conversations, leaving out those locally deleted by this
/// user.
pub fn get_cached_chats_only_for_user(store: &Store, user_id: &String) -> (r: Vec<Chat>)
    requires
        store.wf(),
    ensures
        r@ == store.chats@.filter(|c: Chat| !store.tombstoned(c.chat_id@, user_id@)),
{
    let ghost pred = |c: Chat| !store.tombstoned(c.chat_id@, user_id@);
    let n = store.chats.len();
    let mut out: Vec<Chat> = Vec::new();
    let mut i: usize = 0;
    while i < n
        invariant
            n == store.chats@.len(),
            i <= n,
            store.wf(),
            pred == (|c: Chat| !store.tombstoned(c.chat_id@, user_id@)),
            out@ == store.chats@.take(i as int).filter(pred),
        decreases n - i,
    {
        proof {
            lemma_filter_take_next(store.chats@, i as int, pred);
        }
        let c = store.chats.get_at(i);
        if !store.is_chat_locally_deleted(&c.chat_id, user_id) {
            out.push(c.clone());
        }
        i = i + 1;
    }
    proof {
        assert(store.chats@.take(n as int) =~= store.chats@);
    }
    out
}

/// What one conversation reconciliation pass hands back: the updated
/// cached list, and the ids of the conversations it newly inserted,
/// whose names and members the caller still has to resolve.
pub struct ChatsDeltaOutcome {
    pub chats: Vec<Chat>,
    pub new_chat_ids: Vec<String>,
}

/// One conversation reconciliation pass for `current_user_id`.
///
/// `fetched` is the remote snapshot, or `None` when the fetch failed —
/// then the cache is left untouched and the last known good list comes
/// back.  Otherwise the pass merges the snapshot as `chats_reconciled`
/// states: tombstone-filtered inserts, updates and deletes, cascaded
/// removal of dropped conversations' messages and members, and
/// tombstone garbage collection against the unfiltered snapshot.
pub fn chats_delta_update(
    store: &mut Store,
    current_user_id: &String,
    fetched: Option<Vec<ChatSnapshot>>,
    now: i64,
) -> (r: ChatsDeltaOutcome)
    requires
        old(store).wf(),
    ensures
        final(store).wf(),
        fetched is None ==> {
            &&& *final(store) == *old(store)
            &&& r.chats@ == old(store).chats@.filter(
                |c: Chat| !old(store).tombstoned(c.chat_id@, current_user_id@),
            )
            &&& r.new_chat_ids@ == Seq::<String>::empty()
        },
        (fetched matches Some(remote) ==> {
                &&& chats_reconciled(
                    *old(store),
                    *final(store),
                    remote@,
                    current_user_id@,
                    now,
                )
                &&& r.chats@ == final(store).chats@
                &&& (forall|k: Seq<char>| #[trigger] id_set(r.new_chat_ids@).contains(k) <==> (
                    snapshot_ids(remote@).contains(k) && !old(store).tombstoned(
                        k,
                        current_user_id@,
                    ) && !old(store).chats.m().dom().contains(k)))
        }),
{
    match fetched {
        None => {
            let chats = get_cached_chats_only_for_user(store, current_user_id);
            ChatsDeltaOutcome { chats, new_chat_ids: Vec::new() }
        },
        Some(remote) => {
            let new_chat_ids = collect_new_ids(store, &remote, current_user_id);
            let dropped = collect_dropped(store, &remote, current_user_id);
            drop_chats(store, &dropped);
            proof {
                assert forall|k: Seq<char>| #[trigger] store.chats.m().dom().contains(k)
                    implies snapshot_ids(remote@).contains(k) && !store.tombstoned(
                    k,
                    current_user_id@,
                ) by {}
            }
            upsert_snapshots(store, &remote, current_user_id, now);
            let all_ids = collect_snapshot_ids(&remote);
            store.cleanup_local_deletes(&all_ids, current_user_id);
            let chats = store.get_all_chats();
            proof {
                assert(store.chats.m() =~= Map::<Seq<char>, Chat>::new(
                    |k: Seq<char>| snapshot_ids(remote@).contains(k) && !old(store).tombstoned(
                        k,
                        current_user_id@,
                    ),
                    |k: Seq<char>| remote_chats_map(remote@, now)[k],
                ));
                assert(store.messages.m() =~= restrict_values(
                    old(store).messages.m(),
                    |m: Message| !chat_dropped(*old(store), remote@, current_user_id@, m.chat_id@),
                ));
                assert(store.participants.m() =~= restrict_values(
                    old(store).participants.m(),
                    |p: Participant| !chat_dropped(
                        *old(store),
                        remote@,
                        current_user_id@,
                        p.chat_id@,
                    ),
                ));
                assert(store.tombstones.m() =~= Map::<(Seq<char>, Seq<char>), Tombstone>::new(
                    |k: (Seq<char>, Seq<char>)| old(store).tombstones.m().dom().contains(k) && (
                    k.1 != current_user_id@ || snapshot_ids(remote@).contains(k.0)),
                    |k: (Seq<char>, Seq<char>)| old(store).tombstones.m()[k],
                ));
            }
            ChatsDeltaOutcome { chats, new_chat_ids }
        },
    }
}

/// Law: reconciliation is idempotent.  Running a second pass with the
/// same snapshot and clock against the state the first pass produced
/// leaves every table of the cache as the first pass left it.
pub proof fn lemma_reconcile_idempotent(
    s0: Store,
    s1: Store,
    s2: Store,
    rs: Seq<ChatSnapshot>,
    u: Seq<char>,
    now: i64,
)
    requires
        chats_reconciled(s0, s1, rs, u, now),
        chats_reconciled(s1, s2, rs, u, now),
    ensures
        s2.chats.m() == s1.chats.m(),
        s2.messages.m() == s1.messages.m(),
        s2.participants.m() == s1.participants.m(),
        s2.tombstones.m() == s1.tombstones.m(),
        s2.users == s1.users,
        s2.friends == s1.friends,
        s2.user_keys == s1.user_keys,
{
    assert forall|k: Seq<char>| snapshot_ids(rs).contains(k) implies (s1.tombstoned(k, u)
        <==> s0.tombstoned(k, u)) by {}
    assert(s2.chats.m() =~= s1.chats.m());
    assert forall|c: Seq<char>| !(#[trigger] chat_dropped(s1, rs, u, c)) by {
        if s1.chats.m().dom().contains(c) {
            assert(snapshot_ids(rs).contains(c) && !s0.tombstoned(c, u));
        }
    }
    assert(s2.messages.m() =~= s1.messages.m());
    assert(s2.participants.m() =~= s1.participants.m());
    assert(s2.tombstones.m() =~= s1.tombstones.m());
}

/// Every entry of the snapshot carries a readable creation time, so no
/// record depends on the clock.
pub open spec fn snapshot_timestamps_readable(rs: Seq<ChatSnapshot>) -> bool {
    forall|i: int|
        0 <= i < rs.len() ==> match #[trigger] rs[i].created_at {
            Some(t) => crate::util::parse_i64_spec(t@) is Some,
            None => false,
        }
}

proof fn lemma_remote_map_clock_independent(rs: Seq<ChatSnapshot>, now1: i64, now2: i64)
    requires
        snapshot_timestamps_readable(rs),
    ensures
        remote_chats_map(rs, now1) == remote_chats_map(rs, now2),
    decreases rs.len(),
{
    if rs.len() > 0 {
        let p = rs.drop_last();
        assert(forall|i: int| 0 <= i < p.len() ==> p[i] == rs[i]);
        lemma_remote_map_clock_independent(p, now1, now2);
        assert(chat_record_of(rs.last(), now1) == chat_record_of(rs.last(), now2));
    }
}

/// Law: reconciliation is idempotent even across clock readings, as
/// long as every snapshot entry carries a readable creation time — the
/// clock only ever stands in for an unreadable or absent one.
pub proof fn lemma_reconcile_idempotent_any_clock(
    s0: Store,
    s1: Store,
    s2: Store,
    rs: Seq<ChatSnapshot>,
    u: Seq<char>,
    now1: i64,
    now2: i64,
)
    requires
        chats_reconciled(s0, s1, rs, u, now1),
        chats_reconciled(s1, s2, rs, u, now2),
        snapshot_timestamps_readable(rs),
    ensures
        s2.chats.m() == s1.chats.m(),
        s2.messages.m() == s1.messages.m(),
        s2.participants.m() == s1.participants.m(),
        s2.tombstones.m() == s1.tombstones.m(),
        s2.users == s1.users,
        s2.friends == s1.friends,
        s2.user_keys == s1.user_keys,
{
    lemma_remote_map_clock_independent(rs, now1, now2);
    assert forall|k: Seq<char>| snapshot_ids(rs).contains(k) implies (s1.tombstoned(k, u)
        <==> s0.tombstoned(k, u)) by {}
    assert(s2.chats.m() =~= s1.chats.m());
    assert forall|c: Seq<char>| !(#[trigger] chat_dropped(s1, rs, u, c)) by {
        if s1.chats.m().dom().contains(c) {
            assert(snapshot_ids(rs).contains(c) && !s0.tombstoned(c, u));
        }
    }
    assert(s2.messages.m() =~= s1.messages.m());
    assert(s2.participants.m() =~= s1.participants.m());
    assert(s2.tombstones.m() =~= s1.tombstones.m());
}

/// Law: tombstone protection.  While a local delete of conversation `c`
/// for user `u` is on record, a reconciliation pass never reintroduces
/// `c` into `u`'s cache, however long the snapshot keeps reporting it.
pub proof fn lemma_tombstone_protection(
    s0: Store,
    s1: Store,
    rs: Seq<ChatSnapshot>,
    u: Seq<char>,
    now: i64,
    c: Seq<char>,
)
    requires
        chats_reconciled(s0, s1, rs, u, now),
        s0.tombstoned(c, u),
    ensures
        !s1.chats.m().dom().contains(c),
        snapshot_ids(rs).contains(c) ==> s1.tombstoned(c, u),
{
}

/// Law: tombstone cleanup.  Once the (unfiltered) snapshot no longer
/// contains conversation `c`, the pass removes `c`'s tombstone for `u`:
/// the server has confirmed the deletion.
pub proof fn lemma_tombstone_cleanup(
    s0: Store,
    s1: Store,
    rs: Seq<ChatSnapshot>,
    u: Seq<char>,
    now: i64,
    c: Seq<char>,
)
    requires
        chats_reconciled(s0, s1, rs, u, now),
        !snapshot_ids(rs).contains(c),
    ensures
        !s1.tombstoned(c, u),
{
}

/// Whether this user created the conversation, from the cache: the
/// deleting side removes the whole conversation remotely when they are
/// the creator, and merely leaves it otherwise.
pub fn is_chat_creator(store: &Store, chat_id: &String, user_id: &String) -> (r: bool)
    requires
        store.wf(),
    ensures
        r == (store.chats.m().dom().contains(chat_id@) && crate::model::opt_view(
            store.chats.m()[chat_id@].creator_id,
        ) == Some(user_id@)),
{
    match store.get_chat_by_id(chat_id) {
        Some(c) => match &c.creator_id {
            Some(creator) => *creator == *user_id,
            None => false,
        },
        None => false,
    }
}

/// The local half of deleting a conversation: record the tombstone the
/// instant the delete is requested — before and independent of any
/// remote confirmation — and clear the conversation, its messages and
/// its member records from the cache.
pub fn delete_chat_local(
    store: &mut Store,
    chat_id: &String,
    user_id: &String,
    is_creator: bool,
    now: i64,
)
    requires
        old(store).wf(),
    ensures
        final(store).wf(),
        final(store).tombstoned(chat_id@, user_id@),
        final(store).tombstones.m() == old(store).tombstones.m().insert(
            (chat_id@, user_id@),
            Tombstone { chat_id: *chat_id, user_id: *user_id, deleted_at: now, is_creator },
        ),
        final(store).chats.m() == old(store).chats.m().remove(chat_id@),
        final(store).messages.m() == restrict_values(
            old(store).messages.m(),
            |m: Message| m.chat_id@ != chat_id@,
        ),
        final(store).participants.m() == restrict_values(
            old(store).participants.m(),
            |p: Participant| p.chat_id@ != chat_id@,
        ),
        final(store).users == old(store).users,
        final(store).friends == old(store).friends,
        final(store).user_keys == old(store).user_keys,
{
    store.add_local_delete(chat_id, user_id, is_creator, now);
    store.clear_messages_for_chat(chat_id);
    store.remove_all_participants_for_chat(chat_id);
    store.delete_chat(chat_id);
}

// ---- contacts ----

/// The contact snapshot as a map from user id to the cache record it
/// denotes, saved at `now`; a later entry wins.
pub open spec fn remote_friends_map(rs: Seq<FriendSnapshot>, now: i64) -> Map<Seq<char>, Friend>
    decreases rs.len(),
{
    if rs.len() == 0 {
        Map::empty()
    } else {
        remote_friends_map(rs.drop_last(), now).insert(
            rs.last().user_id@,
            friend_record_of(rs.last(), now),
        )
    }
}

/// How one contact reconciliation pass relates the cache before to the
/// cache after: afterwards the contacts are exactly the snapshot —
/// inserts, last-writer-wins updates, and deletions of contacts the
/// snapshot no longer holds — and every other table is untouched.
pub open spec fn friends_reconciled(
    pre: Store,
    post: Store,
    rs: Seq<FriendSnapshot>,
    now: i64,
) -> bool {
    &&& post.friends.m() == remote_friends_map(rs, now)
    &&& post.users == pre.users
    &&& post.chats == pre.chats
    &&& post.messages == pre.messages
    &&& post.participants == pre.participants
    &&& post.user_keys == pre.user_keys
    &&& post.tombstones == pre.tombstones
}

/// One contact reconciliation pass.  `fetched` is the remote snapshot,
/// or `None` when the fetch failed — then the cache is untouched and
/// the last known good list comes back.
pub fn friends_delta_update(
    store: &mut Store,
    fetched: Option<Vec<FriendSnapshot>>,
    now: i64,
) -> (r: Vec<Friend>)
    requires
        old(store).wf(),
    ensures
        final(store).wf(),
        fetched is None ==> *final(store) == *old(store) && r@ == old(store).friends@,
        (fetched matches Some(remote) ==> {
            &&& friends_reconciled(*old(store), *final(store), remote@, now)
            &&& r@ == final(store).friends@
        }),
{
    match fetched {
        None => store.get_all_friends(),
        Some(remote) => {
            let n = remote.len();
            let mut fresh: KvVec<Friend> = KvVec::new();
            let mut i: usize = 0;
            while i < n
                invariant
                    n == remote@.len(),
                    i <= n,
                    fresh.wf(),
                    fresh.m() =~= remote_friends_map(remote@.take(i as int), now),
                decreases n - i,
            {
                proof {
                    assert(remote@.take(i + 1 as int).drop_last() =~= remote@.take(i as int));
                    assert(remote@.take(i + 1 as int).last() == remote@[i as int]);
                }
                let record = friend_from_snapshot(&remote[i], now);
                fresh.upsert(record);
                i = i + 1;
            }
            proof {
                assert(remote@.take(n as int) =~= remote@);
            }
            store.friends = fresh;
            store.get_all_friends()
        },
    }
}

/// Law: contact reconciliation is idempotent: a second pass with the
/// same snapshot and clock changes nothing.
pub proof fn lemma_friends_reconcile_idempotent(
    s0: Store,
    s1: Store,
    s2: Store,
    rs: Seq<FriendSnapshot>,
    now: i64,
)
    requires
        friends_reconciled(s0, s1, rs, now),
        friends_reconciled(s1, s2, rs, now),
    ensures
        s2.friends.m() == s1.friends.m(),
        s2.users == s1.users,
        s2.chats == s1.chats,
        s2.messages == s1.messages,
        s2.participants == s1.participants,
        s2.user_keys == s1.user_keys,
        s2.tombstones == s1.tombstones,
{
}

// ---- members ----

/// A member record reduced to what its fields denote.
pub struct ParticipantView {
    pub participant_id: Seq<char>,
    pub user_id: Seq<char>,
    pub username: Seq<char>,
    pub joined_at: i64,
    pub role: Seq<char>,
    pub chat_id: Seq<char>,
}

/// A member record's fields, as sequences.
pub open spec fn pview(p: Participant) -> ParticipantView {
    ParticipantView {
        participant_id: p.participant_id@,
        user_id: p.user_id@,
        username: p.username@,
        joined_at: p.joined_at,
        role: p.role@,
        chat_id: p.chat_id@,
    }
}

/// The member record a member snapshot entry denotes for conversation
/// `chat`, joined at `now`.
pub open spec fn member_view(e: ApiParticipant, chat: Seq<char>, now: i64) -> ParticipantView {
    ParticipantView {
        participant_id: participant_key(chat, e.user.user_id@),
        user_id: e.user.user_id@,
        username: e.user.username@,
        joined_at: now,
        role: spec_role(e.is_admin),
        chat_id: chat,
    }
}

/// The member snapshot as a map from composite member id to the record
/// it denotes; a later entry wins.
pub open spec fn remote_members_vm(
    rs: Seq<ApiParticipant>,
    chat: Seq<char>,
    now: i64,
) -> Map<Seq<char>, ParticipantView>
    decreases rs.len(),
{
    if rs.len() == 0 {
        Map::empty()
    } else {
        remote_members_vm(rs.drop_last(), chat, now).insert(
            participant_key(chat, rs.last().user.user_id@),
            member_view(rs.last(), chat, now),
        )
    }
}

/// How one membership sync relates the cache before to the cache
/// after: conversation `chat`'s members are replaced by the snapshot's;
/// members of other conversations are untouched, as is every other
/// table.
pub open spec fn members_synced(
    pre: Store,
    post: Store,
    rs: Seq<ApiParticipant>,
    chat: Seq<char>,
    now: i64,
) -> bool {
    let vm = remote_members_vm(rs, chat, now);
    &&& (forall|k: Seq<char>| #[trigger] post.participants.m().dom().contains(k) <==> ((
        pre.participants.m().dom().contains(k) && pre.participants.m()[k].chat_id@ != chat)
        || vm.dom().contains(k)))
    &&& (forall|k: Seq<char>| #[trigger] vm.dom().contains(k)
        ==> post.participants.m().dom().contains(k) && pview(post.participants.m()[k]) == vm[k])
    &&& (forall|k: Seq<char>| #[trigger] pre.participants.m().dom().contains(k)
        && pre.participants.m()[k].chat_id@ != chat && !vm.dom().contains(k)
        ==> post.participants.m().dom().contains(k) && post.participants.m()[k]
        == pre.participants.m()[k])
    &&& post.users == pre.users
    &&& post.chats == pre.chats
    &&& post.messages == pre.messages
    &&& post.friends == pre.friends
    &&& post.user_keys == pre.user_keys
    &&& post.tombstones == pre.tombstones
}

/// One membership sync for conversation `chat_id`.  `fetched` is the
/// remote member snapshot, or `None` when the fetch failed — then the
/// cache is untouched.
pub fn sync_participants(
    store: &mut Store,
    chat_id: &String,
    fetched: Option<Vec<ApiParticipant>>,
    now: i64,
)
    requires
        old(store).wf(),
    ensures
        final(store).wf(),
        fetched is None ==> *final(store) == *old(store),
        (fetched matches Some(remote) ==> members_synced(
            *old(store),
            *final(store),
            remote@,
            chat_id@,
            now,
        )),
{
    match fetched {
        None => (),
        Some(remote) => {
            store.remove_all_participants_for_chat(chat_id);
            let ghost base = store.participants.m();
            let n = remote.len();
            let mut i: usize = 0;
            while i < n
                invariant
                    n == remote@.len(),
                    i <= n,
                    store.wf(),
                    *store == (Store { participants: store.participants, ..*old(store) }),
                    base == restrict_values(
                        old(store).participants.m(),
                        |p: Participant| p.chat_id@ != chat_id@,
                    ),
                    forall|k: Seq<char>| #[trigger] store.participants.m().dom().contains(k)
                        <==> (base.dom().contains(k) || remote_members_vm(
                        remote@.take(i as int),
                        chat_id@,
                        now,
                    ).dom().contains(k)),
                    forall|k: Seq<char>|
                        #[trigger] remote_members_vm(
                            remote@.take(i as int),
                            chat_id@,
                            now,
                        ).dom().contains(k) ==> pview(store.participants.m()[k])
                            == remote_members_vm(remote@.take(i as int), chat_id@, now)[k],
                    forall|k: Seq<char>| #[trigger] base.dom().contains(k) && !remote_members_vm(
                        remote@.take(i as int),
                        chat_id@,
                        now,
                    ).dom().contains(k) ==> store.participants.m()[k] == base[k],
                decreases n - i,
            {
                proof {
                    assert(remote@.take(i + 1 as int).drop_last() =~= remote@.take(i as int));
                    assert(remote@.take(i + 1 as int).last() == remote@[i as int]);
                }
                let record = participant_from_api(&remote[i], chat_id, now);
                store.insert_or_update_participant(record);
                i = i + 1;
            }
            proof {
                assert(remote@.take(n as int) =~= remote@);
                let vm = remote_members_vm(remote@, chat_id@, now);
                assert(vm == remote_members_vm(remote@.take(n as int), chat_id@, now));
                assert forall|k: Seq<char>| #[trigger] base.dom().contains(k) <==> (old(
                    store,
                ).participants.m().dom().contains(k) && old(store).participants.m()[k].chat_id@
                    != chat_id@) by {}
                assert forall|k: Seq<char>| #[trigger] store.participants.m().dom().contains(k)
                    <==> ((old(store).participants.m().dom().contains(k) && old(
                    store,
                ).participants.m()[k].chat_id@ != chat_id@) || vm.dom().contains(k)) by {}
                assert forall|k: Seq<char>| #[trigger] vm.dom().contains(k)
                    implies store.participants.m().dom().contains(k) && pview(
                    store.participants.m()[k],
                ) == vm[k] by {}
                assert forall|k: Seq<char>| #[trigger] old(
                    store,
                ).participants.m().dom().contains(k) && old(store).participants.m()[k].chat_id@
                    != chat_id@ && !vm.dom().contains(k)
                    implies store.participants.m().dom().contains(k) && store.participants.m()[k]
                    == old(store).participants.m()[k] by {
                    assert(base.dom().contains(k));
                    assert(base[k] == old(store).participants.m()[k]);
                }
            }
        },
    }
}

/// Law: membership sync is idempotent: a second sync with the same
/// snapshot and clock leaves the member table with the same keys and
/// the same field contents, and every other table untouched.
pub proof fn lemma_members_sync_idempotent(
    s0: Store,
    s1: Store,
    s2: Store,
    rs: Seq<ApiParticipant>,
    chat: Seq<char>,
    now: i64,
)
    requires
        members_synced(s0, s1, rs, chat, now),
        members_synced(s1, s2, rs, chat, now),
    ensures
        forall|k: Seq<char>| #[trigger] s2.participants.m().dom().contains(k)
            <==> s1.participants.m().dom().contains(k),
        forall|k: Seq<char>| #[trigger] s1.participants.m().dom().contains(k) ==> pview(
            s2.participants.m()[k],
        ) == pview(s1.participants.m()[k]),
        s2.users == s1.users,
        s2.chats == s1.chats,
        s2.messages == s1.messages,
        s2.friends == s1.friends,
        s2.user_keys == s1.user_keys,
        s2.tombstones == s1.tombstones,
{
    let vm = remote_members_vm(rs, chat, now);
    assert forall|k: Seq<char>| #[trigger] s2.participants.m().dom().contains(k)
        <==> s1.participants.m().dom().contains(k) by {
        if vm.dom().contains(k) {
            assert(s1.participants.m().dom().contains(k));
            assert(s2.participants.m().dom().contains(k));
        }
    }
    assert forall|k: Seq<char>| #[trigger] s1.participants.m().dom().contains(k) implies pview(
        s2.participants.m()[k],
    ) == pview(s1.participants.m()[k]) by {
        if vm.dom().contains(k) {
            assert(pview(s1.participants.m()[k]) == vm[k]);
            assert(pview(s2.participants.m()[k]) == vm[k]);
        } else {
            assert(s1.participants.m()[k].chat_id@ != chat);
            assert(s2.participants.m()[k] == s1.participants.m()[k]);
        }
    }
}

} // verus!
