//! The tombstone store: locally deleted conversation ids, per user.
//!
//! A tombstone is created the instant a local delete is requested and
//! removed only when a reconciliation pass finds the conversation absent
//! from the authoritative snapshot.  While it exists, it keeps the
//! reconciler from reintroducing the conversation into that user's cache.

use vstd::prelude::*;
use crate::model::Tombstone;

verus! {

/// A tombstone's key: the conversation id and the user id.
pub open spec fn tomb_key(t: Tombstone) -> (Seq<char>, Seq<char>) {
    (t.chat_id@, t.user_id@)
}

/// No two tombstones share a (conversation, user) pair.
pub open spec fn tomb_keys_unique(s: Seq<Tombstone>) -> bool {
    forall|i: int, j: int|
        0 <= i < s.len() && 0 <= j < s.len() && i != j ==> tomb_key(s[i]) != tomb_key(s[j])
}

/// Some tombstone in `s` has key `k`.
pub open spec fn has_tomb(s: Seq<Tombstone>, k: (Seq<char>, Seq<char>)) -> bool {
    exists|i: int| 0 <= i < s.len() && #[trigger] tomb_key(s[i]) == k
}

/// An index of a tombstone with key `k`, when one exists.
pub open spec fn index_of_tomb(s: Seq<Tombstone>, k: (Seq<char>, Seq<char>)) -> int {
    choose|i: int| 0 <= i < s.len() && #[trigger] tomb_key(s[i]) == k
}

/// The tombstones of `s` as a map from (conversation, user) to record.
pub open spec fn map_of_tombs(s: Seq<Tombstone>) -> Map<(Seq<char>, Seq<char>), Tombstone> {
    Map::new(
        |k: (Seq<char>, Seq<char>)| has_tomb(s, k),
        |k: (Seq<char>, Seq<char>)| s[index_of_tomb(s, k)],
    )
}

/// The set of ids held by a list of id strings.
pub open spec fn id_set(ids: Seq<String>) -> Set<Seq<char>> {
    Set::new(|k: Seq<char>| exists|i: int| 0 <= i < ids.len() && #[trigger] ids[i]@ == k)
}

proof fn lemma_tomb_index(s: Seq<Tombstone>, i: int)
    requires
        tomb_keys_unique(s),
        0 <= i < s.len(),
    ensures
        map_of_tombs(s).dom().contains(tomb_key(s[i])),
        map_of_tombs(s)[tomb_key(s[i])] == s[i],
{
    assert(has_tomb(s, tomb_key(s[i])));
    let j = index_of_tomb(s, tomb_key(s[i]));
    assert(0 <= j < s.len() && tomb_key(s[j]) == tomb_key(s[i]));
    assert(j == i);
}

proof fn lemma_tomb_push(s: Seq<Tombstone>, v: Tombstone)
    requires
        tomb_keys_unique(s),
        !has_tomb(s, tomb_key(v)),
    ensures
        tomb_keys_unique(s.push(v)),
        map_of_tombs(s.push(v)) =~= map_of_tombs(s).insert(tomb_key(v), v),
{
    let t = s.push(v);
    assert forall|i: int, j: int|
        0 <= i < t.len() && 0 <= j < t.len() && i != j implies tomb_key(t[i]) != tomb_key(t[j]) by {
        if i < s.len() && j < s.len() {
            assert(t[i] == s[i] && t[j] == s[j]);
        } else if i < s.len() {
            assert(t[j] == v && t[i] == s[i]);
            if tomb_key(s[i]) == tomb_key(v) {
                assert(has_tomb(s, tomb_key(v)));
            }
        } else {
            assert(t[i] == v && t[j] == s[j]);
            if tomb_key(s[j]) == tomb_key(v) {
                assert(has_tomb(s, tomb_key(v)));
            }
        }
    }
    assert forall|k: (Seq<char>, Seq<char>)| #[trigger] map_of_tombs(t).dom().contains(k)
        <==> map_of_tombs(s).insert(tomb_key(v), v).dom().contains(k) by {
        if has_tomb(t, k) {
            let i = index_of_tomb(t, k);
            if i < s.len() {
                assert(tomb_key(s[i]) == k);
                assert(has_tomb(s, k));
            } else {
                assert(t[i] == v);
            }
        }
        if k == tomb_key(v) {
            assert(tomb_key(t[s.len() as int]) == k);
            assert(has_tomb(t, k));
        }
        if has_tomb(s, k) {
            let i = index_of_tomb(s, k);
            assert(tomb_key(t[i]) == k);
            assert(has_tomb(t, k));
        }
    }
    assert forall|k: (Seq<char>, Seq<char>)| map_of_tombs(t).dom().contains(k)
        implies #[trigger] map_of_tombs(t)[k] == map_of_tombs(s).insert(tomb_key(v), v)[k] by {
        let i = index_of_tomb(t, k);
        assert(0 <= i < t.len() && tomb_key(t[i]) == k);
        if k == tomb_key(v) {
            if i < s.len() {
                assert(tomb_key(s[i]) == k);
                assert(has_tomb(s, k));
            }
            assert(i == s.len());
        } else {
            assert(i < s.len());
            assert(tomb_key(s[i]) == k);
            lemma_tomb_index(s, i);
            lemma_tomb_index(t, i);
        }
    }
}

proof fn lemma_tomb_update(s: Seq<Tombstone>, i: int, v: Tombstone)
    requires
        tomb_keys_unique(s),
        0 <= i < s.len(),
        tomb_key(s[i]) == tomb_key(v),
    ensures
        tomb_keys_unique(s.update(i, v)),
        map_of_tombs(s.update(i, v)) =~= map_of_tombs(s).insert(tomb_key(v), v),
{
    let t = s.update(i, v);
    assert(forall|j: int| 0 <= j < s.len() ==> tomb_key(t[j]) == tomb_key(s[j]));
    assert forall|k: (Seq<char>, Seq<char>)| #[trigger] has_tomb(t, k) <==> has_tomb(s, k) by {
        if has_tomb(t, k) {
            let j = index_of_tomb(t, k);
            assert(tomb_key(s[j]) == k);
            assert(has_tomb(s, k));
        }
        if has_tomb(s, k) {
            let j = index_of_tomb(s, k);
            assert(tomb_key(t[j]) == k);
            assert(has_tomb(t, k));
        }
    }
    assert forall|k: (Seq<char>, Seq<char>)| map_of_tombs(t).dom().contains(k)
        implies #[trigger] map_of_tombs(t)[k] == map_of_tombs(s).insert(tomb_key(v), v)[k] by {
        let j = index_of_tomb(t, k);
        assert(0 <= j < t.len() && tomb_key(t[j]) == k);
        if k == tomb_key(v) {
            assert(j == i);
        } else {
            assert(j != i);
            assert(t[j] == s[j]);
            lemma_tomb_index(s, j);
        }
    }
    assert(map_of_tombs(t) =~= map_of_tombs(s).insert(tomb_key(v), v));
}

proof fn lemma_tomb_remove(s: Seq<Tombstone>, i: int)
    requires
        tomb_keys_unique(s),
        0 <= i < s.len(),
    ensures
        tomb_keys_unique(s.remove(i)),
        map_of_tombs(s.remove(i)) =~= map_of_tombs(s).remove(tomb_key(s[i])),
{
    let t = s.remove(i);
    assert(forall|j: int| 0 <= j < i ==> t[j] == s[j]);
    assert(forall|j: int| i <= j < t.len() ==> t[j] == s[j + 1]);
    assert forall|a: int, b: int|
        0 <= a < t.len() && 0 <= b < t.len() && a != b implies tomb_key(t[a]) != tomb_key(t[b]) by {
        let sa: int = if a < i { a } else { a + 1 };
        let sb: int = if b < i { b } else { b + 1 };
        assert(t[a] == s[sa] && t[b] == s[sb]);
    }
    assert forall|k: (Seq<char>, Seq<char>)| #[trigger] map_of_tombs(t).dom().contains(k)
        <==> map_of_tombs(s).remove(tomb_key(s[i])).dom().contains(k) by {
        if has_tomb(t, k) {
            let j = index_of_tomb(t, k);
            let sj: int = if j < i { j } else { j + 1 };
            assert(tomb_key(s[sj]) == k);
            assert(has_tomb(s, k));
            assert(k != tomb_key(s[i]));
        }
        if has_tomb(s, k) && k != tomb_key(s[i]) {
            let j = index_of_tomb(s, k);
            assert(j != i);
            let tj: int = if j < i { j } else { j - 1 };
            assert(tomb_key(t[tj]) == k);
            assert(has_tomb(t, k));
        }
    }
    assert forall|k: (Seq<char>, Seq<char>)| map_of_tombs(t).dom().contains(k)
        implies #[trigger] map_of_tombs(t)[k] == map_of_tombs(s).remove(tomb_key(s[i]))[k] by {
        let j = index_of_tomb(t, k);
        assert(0 <= j < t.len() && tomb_key(t[j]) == k);
        let sj: int = if j < i { j } else { j + 1 };
        assert(t[j] == s[sj]);
        lemma_tomb_index(s, sj);
        assert(k != tomb_key(s[i]));
    }
    assert(map_of_tombs(t) =~= map_of_tombs(s).remove(tomb_key(s[i])));
}

proof fn lemma_tomb_take_next(s: Seq<Tombstone>, i: int)
    requires
        tomb_keys_unique(s),
        0 <= i < s.len(),
    ensures
        tomb_keys_unique(s.take(i)),
        !has_tomb(s.take(i), tomb_key(s[i])),
        map_of_tombs(s.take(i + 1)) =~= map_of_tombs(s.take(i)).insert(tomb_key(s[i]), s[i]),
{
    let p = s.take(i);
    assert(forall|j: int| 0 <= j < i ==> p[j] == s[j]);
    if has_tomb(p, tomb_key(s[i])) {
        let j = index_of_tomb(p, tomb_key(s[i]));
        assert(tomb_key(s[j]) == tomb_key(s[i]));
    }
    assert(s.take(i + 1) =~= p.push(s[i]));
    lemma_tomb_push(p, s[i]);
}

/// The tombstone store.  Seen abstractly as the sequence of its records,
/// or through `m()` as a map keyed by (conversation id, user id).
pub struct TombstoneStore {
    items: Vec<Tombstone>,
}

impl View for TombstoneStore {
    type V = Seq<Tombstone>;

    closed spec fn view(&self) -> Seq<Tombstone> {
        self.items@
    }
}

impl TombstoneStore {
    pub open spec fn m(&self) -> Map<(Seq<char>, Seq<char>), Tombstone> {
        map_of_tombs(self@)
    }

    pub open spec fn wf(&self) -> bool {
        tomb_keys_unique(self@)
    }

    /// A tombstone for conversation `chat` is on record for user `user`.
    pub open spec fn tombstoned(&self, chat: Seq<char>, user: Seq<char>) -> bool {
        self.m().dom().contains((chat, user))
    }

    pub fn new() -> (t: Self)
        ensures
            t@ == Seq::<Tombstone>::empty(),
            t.wf(),
            t.m() =~= Map::<(Seq<char>, Seq<char>), Tombstone>::empty(),
    {
        let t = TombstoneStore { items: Vec::new() };
        proof {
            assert(t.m() =~= Map::<(Seq<char>, Seq<char>), Tombstone>::empty());
        }
        t
    }

    fn index_of(&self, chat_id: &String, user_id: &String) -> (r: Option<usize>)
        requires
            self.wf(),
        ensures
            match r {
                Some(i) => i < self@.len() && tomb_key(self@[i as int]) == (chat_id@, user_id@)
                    && self.tombstoned(chat_id@, user_id@),
                None => !self.tombstoned(chat_id@, user_id@),
            },
    {
        let n = self.items.len();
        let mut i: usize = 0;
        while i < n
            invariant
                n == self@.len(),
                i <= n,
                self.wf(),
                forall|j: int| 0 <= j < i ==> tomb_key(self@[j]) != (chat_id@, user_id@),
            decreases n - i,
        {
            if self.items[i].chat_id == *chat_id && self.items[i].user_id == *user_id {
                proof {
                    lemma_tomb_index(self@, i as int);
                }
                return Some(i);
            }
            i = i + 1;
        }
        proof {
            if self.tombstoned(chat_id@, user_id@) {
                let j = index_of_tomb(self@, (chat_id@, user_id@));
                assert(0 <= j < self@.len() && tomb_key(self@[j]) == (chat_id@, user_id@));
            }
        }
        None
    }

    /// Is a local delete of `chat_id` on record for `user_id`?
    pub fn contains(&self, chat_id: &String, user_id: &String) -> (r: bool)
        requires
            self.wf(),
        ensures
            r == self.tombstoned(chat_id@, user_id@),
    {
        match self.index_of(chat_id, user_id) {
            Some(_) => true,
            None => false,
        }
    }

    /// Record a local delete, replacing any record for the same pair.
    pub fn upsert(&mut self, t: Tombstone)
        requires
            old(self).wf(),
        ensures
            final(self).wf(),
            final(self).m() =~= old(self).m().insert(tomb_key(t), t),
    {
        let found = self.index_of(&t.chat_id, &t.user_id);
        match found {
            Some(i) => {
                proof {
                    lemma_tomb_update(self@, i as int, t);
                }
                self.items[i] = t;
            },
            None => {
                proof {
                    lemma_tomb_push(self@, t);
                }
                self.items.push(t);
            },
        }
    }

    /// Drop the record for this pair, if any.
    pub fn remove(&mut self, chat_id: &String, user_id: &String)
        requires
            old(self).wf(),
        ensures
            final(self).wf(),
            final(self).m() =~= old(self).m().remove((chat_id@, user_id@)),
    {
        match self.index_of(chat_id, user_id) {
            Some(i) => {
                proof {
                    lemma_tomb_remove(self@, i as int);
                }
                self.items.remove(i);
            },
            None => {
                proof {
                    assert(old(self).m().remove((chat_id@, user_id@)) =~= old(self).m());
                }
            },
        }
    }

    /// Garbage-collect after a reconciliation pass: for `user_id`, keep
    /// only the tombstones whose conversation the server still reports in
    /// `remote_ids`; a conversation absent from the snapshot is a
    /// confirmed deletion, so its tombstone's job is done.  Other users'
    /// tombstones are untouched.
    pub fn cleanup_confirmed(&mut self, user_id: &String, remote_ids: &Vec<String>)
        requires
            old(self).wf(),
        ensures
            final(self).wf(),
            final(self).m() =~= Map::<(Seq<char>, Seq<char>), Tombstone>::new(
                |k: (Seq<char>, Seq<char>)| old(self).m().dom().contains(k)
                    && (k.1 != user_id@ || id_set(remote_ids@).contains(k.0)),
                |k: (Seq<char>, Seq<char>)| old(self).m()[k],
            ),
    {
        let ghost s0 = self@;
        let ghost keep = |k: (Seq<char>, Seq<char>)| k.1 != user_id@
            || id_set(remote_ids@).contains(k.0);
        let mut kept: Vec<Tombstone> = Vec::new();
        let n = self.items.len();
        let mut i: usize = 0;
        while i < n
            invariant
                n == s0.len(),
                self@ == s0,
                tomb_keys_unique(s0),
                i <= n,
                tomb_keys_unique(kept@),
                keep == (|k: (Seq<char>, Seq<char>)| k.1 != user_id@
                    || id_set(remote_ids@).contains(k.0)),
                map_of_tombs(kept@) =~= Map::<(Seq<char>, Seq<char>), Tombstone>::new(
                    |k: (Seq<char>, Seq<char>)| map_of_tombs(s0.take(i as int)).dom().contains(k)
                        && keep(k),
                    |k: (Seq<char>, Seq<char>)| map_of_tombs(s0.take(i as int))[k],
                ),
            decreases n - i,
        {
            proof {
                lemma_tomb_take_next(s0, i as int);
            }
            let t = &self.items[i];
            let keep_this = t.user_id != *user_id || contains_id(remote_ids, &t.chat_id);
            proof {
                assert(keep_this == keep(tomb_key(s0[i as int])));
                if map_of_tombs(kept@).dom().contains(tomb_key(s0[i as int])) {
                    assert(map_of_tombs(s0.take(i as int)).dom().contains(tomb_key(s0[i as int])));
                }
            }
            if keep_this {
                let copy = t.clone();
                proof {
                    lemma_tomb_push(kept@, copy);
                }
                kept.push(copy);
            }
            proof {
                assert(map_of_tombs(kept@) =~= Map::<(Seq<char>, Seq<char>), Tombstone>::new(
                    |k: (Seq<char>, Seq<char>)| map_of_tombs(s0.take(i + 1 as int)).dom().contains(k)
                        && keep(k),
                    |k: (Seq<char>, Seq<char>)| map_of_tombs(s0.take(i + 1 as int))[k],
                ));
            }
            i = i + 1;
        }
        proof {
            assert(s0.take(n as int) =~= s0);
        }
        self.items = kept;
    }
}

/// Whether `ids` holds the string `id`.
pub fn contains_id(ids: &Vec<String>, id: &String) -> (r: bool)
    ensures
        r == id_set(ids@).contains(id@),
{
    let n = ids.len();
    let mut i: usize = 0;
    while i < n
        invariant
            n == ids@.len(),
            i <= n,
            forall|j: int| 0 <= j < i ==> ids@[j]@ != id@,
        decreases n - i,
    {
        if ids[i] == *id {
            proof {
                assert(ids@[i as int]@ == id@);
            }
            return true;
        }
        i = i + 1;
    }
    proof {
        if id_set(ids@).contains(id@) {
            let j = choose|j: int| 0 <= j < ids@.len() && #[trigger] ids@[j]@ == id@;
        }
    }
    false
}

} // verus!
