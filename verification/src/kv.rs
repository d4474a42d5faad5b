//! A keyed table backed by a vector: the building block for the local
//! cache.  Each record carries its own string key; the table keeps keys
//! unique and is specified through a map from keys to records.

use vstd::prelude::*;

verus! {

/// A record stored under a string key drawn from its own fields.
pub trait Keyed: Sized {
    /// The record's key.
    spec fn key(&self) -> Seq<char>;

    /// The field holding the key.
    fn key_ref(&self) -> (k: &String)
        ensures
            k@ == self.key(),
    ;
}

/// No two records share a key.
pub open spec fn keys_unique<T: Keyed>(s: Seq<T>) -> bool {
    forall|i: int, j: int|
        0 <= i < s.len() && 0 <= j < s.len() && i != j ==> s[i].key() != s[j].key()
}

/// Some record in `s` has key `k`.
pub open spec fn has_key<T: Keyed>(s: Seq<T>, k: Seq<char>) -> bool {
    exists|i: int| 0 <= i < s.len() && #[trigger] s[i].key() == k
}

/// An index of a record with key `k`, when one exists.
pub open spec fn index_of_key<T: Keyed>(s: Seq<T>, k: Seq<char>) -> int {
    choose|i: int| 0 <= i < s.len() && #[trigger] s[i].key() == k
}

/// The records of `s` as a map from key to record.
pub open spec fn map_of<T: Keyed>(s: Seq<T>) -> Map<Seq<char>, T> {
    Map::new(|k: Seq<char>| has_key(s, k), |k: Seq<char>| s[index_of_key(s, k)])
}

/// `m` with only the entries whose record satisfies `pred`.
pub open spec fn restrict_values<T>(
    m: Map<Seq<char>, T>,
    pred: spec_fn(T) -> bool,
) -> Map<Seq<char>, T> {
    Map::new(|k: Seq<char>| m.dom().contains(k) && pred(m[k]), |k: Seq<char>| m[k])
}

/// With unique keys, the record at index `i` is what the map holds under
/// its key.
pub proof fn lemma_map_of_index<T: Keyed>(s: Seq<T>, i: int)
    requires
        keys_unique(s),
        0 <= i < s.len(),
    ensures
        map_of(s).dom().contains(s[i].key()),
        map_of(s)[s[i].key()] == s[i],
{
    assert(has_key(s, s[i].key()));
    let j = index_of_key(s, s[i].key());
    assert(0 <= j < s.len() && s[j].key() == s[i].key());
    assert(j == i);
}

/// Appending a record with a fresh key inserts it into the map.
pub proof fn lemma_map_of_push<T: Keyed>(s: Seq<T>, v: T)
    requires
        keys_unique(s),
        !has_key(s, v.key()),
    ensures
        keys_unique(s.push(v)),
        map_of(s.push(v)) =~= map_of(s).insert(v.key(), v),
{
    let t = s.push(v);
    assert forall|i: int, j: int|
        0 <= i < t.len() && 0 <= j < t.len() && i != j implies t[i].key() != t[j].key() by {
        if i < s.len() && j < s.len() {
            assert(t[i] == s[i] && t[j] == s[j]);
        } else if i < s.len() {
            assert(t[j] == v && t[i] == s[i]);
            assert(!(s[i].key() == v.key())) by {
                if s[i].key() == v.key() {
                    assert(has_key(s, v.key()));
                }
            }
        } else {
            assert(t[i] == v && t[j] == s[j]);
            assert(!(s[j].key() == v.key())) by {
                if s[j].key() == v.key() {
                    assert(has_key(s, v.key()));
                }
            }
        }
    }
    assert forall|k: Seq<char>| #[trigger] map_of(t).dom().contains(k)
        <==> map_of(s).insert(v.key(), v).dom().contains(k) by {
        if has_key(t, k) {
            let i = index_of_key(t, k);
            if i < s.len() {
                assert(s[i].key() == k);
                assert(has_key(s, k));
            } else {
                assert(t[i] == v);
            }
        }
        if k == v.key() {
            assert(t[s.len() as int].key() == k);
            assert(has_key(t, k));
        }
        if has_key(s, k) {
            let i = index_of_key(s, k);
            assert(t[i].key() == k);
            assert(has_key(t, k));
        }
    }
    assert forall|k: Seq<char>| map_of(t).dom().contains(k)
        implies #[trigger] map_of(t)[k] == map_of(s).insert(v.key(), v)[k] by {
        let i = index_of_key(t, k);
        assert(0 <= i < t.len() && t[i].key() == k);
        if k == v.key() {
            assert(i == s.len()) by {
                if i < s.len() {
                    assert(s[i].key() == k);
                    assert(has_key(s, k));
                }
            }
            assert(map_of(t)[k] == v);
        } else {
            assert(i < s.len());
            assert(s[i].key() == k);
            lemma_map_of_index(s, i);
            lemma_map_of_index(t, i);
        }
    }
}

/// Replacing the record at `i` by one with the same key updates the map
/// entry under that key.
pub proof fn lemma_map_of_update<T: Keyed>(s: Seq<T>, i: int, v: T)
    requires
        keys_unique(s),
        0 <= i < s.len(),
        s[i].key() == v.key(),
    ensures
        keys_unique(s.update(i, v)),
        map_of(s.update(i, v)) =~= map_of(s).insert(v.key(), v),
{
    let t = s.update(i, v);
    assert(forall|j: int| 0 <= j < s.len() ==> t[j].key() == s[j].key());
    assert forall|k: Seq<char>| #[trigger] has_key(t, k) <==> has_key(s, k) by {
        if has_key(t, k) {
            let j = index_of_key(t, k);
            assert(s[j].key() == k);
            assert(has_key(s, k));
        }
        if has_key(s, k) {
            let j = index_of_key(s, k);
            assert(t[j].key() == k);
            assert(has_key(t, k));
        }
    }
    assert forall|k: Seq<char>| map_of(t).dom().contains(k)
        implies #[trigger] map_of(t)[k] == map_of(s).insert(v.key(), v)[k] by {
        let j = index_of_key(t, k);
        assert(0 <= j < t.len() && t[j].key() == k);
        if k == v.key() {
            assert(j == i);
            assert(map_of(t)[k] == v);
        } else {
            assert(j != i);
            assert(t[j] == s[j]);
            lemma_map_of_index(s, j);
        }
    }
    assert(map_of(t) =~= map_of(s).insert(v.key(), v));
}

/// Removing the record at `i` removes its key from the map.
pub proof fn lemma_map_of_remove<T: Keyed>(s: Seq<T>, i: int)
    requires
        keys_unique(s),
        0 <= i < s.len(),
    ensures
        keys_unique(s.remove(i)),
        map_of(s.remove(i)) =~= map_of(s).remove(s[i].key()),
{
    let t = s.remove(i);
    assert(forall|j: int| 0 <= j < i ==> t[j] == s[j]);
    assert(forall|j: int| i <= j < t.len() ==> t[j] == s[j + 1]);
    assert forall|a: int, b: int|
        0 <= a < t.len() && 0 <= b < t.len() && a != b implies t[a].key() != t[b].key() by {
        let sa: int = if a < i { a } else { a + 1 };
        let sb: int = if b < i { b } else { b + 1 };
        assert(t[a] == s[sa] && t[b] == s[sb]);
    }
    assert forall|k: Seq<char>| #[trigger] map_of(t).dom().contains(k)
        <==> map_of(s).remove(s[i].key()).dom().contains(k) by {
        if has_key(t, k) {
            let j = index_of_key(t, k);
            let sj: int = if j < i { j } else { j + 1 };
            assert(s[sj].key() == k);
            assert(has_key(s, k));
            assert(k != s[i].key());
        }
        if has_key(s, k) && k != s[i].key() {
            let j = index_of_key(s, k);
            assert(j != i);
            let tj: int = if j < i { j } else { j - 1 };
            assert(t[tj].key() == k);
            assert(has_key(t, k));
        }
    }
    assert forall|k: Seq<char>| map_of(t).dom().contains(k)
        implies #[trigger] map_of(t)[k] == map_of(s).remove(s[i].key())[k] by {
        let j = index_of_key(t, k);
        assert(0 <= j < t.len() && t[j].key() == k);
        let sj: int = if j < i { j } else { j + 1 };
        assert(t[j] == s[sj]);
        lemma_map_of_index(s, sj);
        assert(k != s[i].key());
    }
    assert(map_of(t) =~= map_of(s).remove(s[i].key()));
}

/// A record looked up under key `k` carries that key.
pub proof fn lemma_m_value_key<T: Keyed>(s: Seq<T>, k: Seq<char>)
    requires
        map_of(s).dom().contains(k),
    ensures
        map_of(s)[k].key() == k,
{
    let j = index_of_key(s, k);
    assert(0 <= j < s.len() && s[j].key() == k);
}

/// Walking a unique-keyed sequence from the front: the record at `i` is
/// fresh for the prefix before it, and extends the prefix's map.
pub proof fn lemma_map_of_take_next<T: Keyed>(s: Seq<T>, i: int)
    requires
        keys_unique(s),
        0 <= i < s.len(),
    ensures
        keys_unique(s.take(i)),
        !has_key(s.take(i), s[i].key()),
        map_of(s.take(i + 1)) =~= map_of(s.take(i)).insert(s[i].key(), s[i]),
{
    let p = s.take(i);
    assert(forall|j: int| 0 <= j < i ==> p[j] == s[j]);
    if has_key(p, s[i].key()) {
        let j = index_of_key(p, s[i].key());
        assert(s[j].key() == s[i].key());
    }
    assert(s.take(i + 1) =~= p.push(s[i]));
    lemma_map_of_push(p, s[i]);
}

/// Walking a sequence from the front, one step of `filter`.
pub proof fn lemma_filter_take_next<T>(s: Seq<T>, i: int, pred: spec_fn(T) -> bool)
    requires
        0 <= i < s.len(),
    ensures
        s.take(i + 1).filter(pred) == if pred(s[i]) {
            s.take(i).filter(pred).push(s[i])
        } else {
            s.take(i).filter(pred)
        },
{
    reveal(Seq::filter);
    let p = s.take(i);
    let q = s.take(i + 1);
    assert(q.drop_last() =~= p);
    assert(q.last() == s[i]);
}

/// A keyed table: a vector of records with pairwise distinct keys, seen
/// abstractly as the sequence of its records, or as a map through `m()`.
pub struct KvVec<T> {
    items: Vec<T>,
}

impl<T: Keyed> View for KvVec<T> {
    type V = Seq<T>;

    closed spec fn view(&self) -> Seq<T> {
        self.items@
    }
}

impl<T: Keyed> KvVec<T> {
    /// The table's records, keyed.
    pub open spec fn m(&self) -> Map<Seq<char>, T> {
        map_of(self@)
    }

    /// Keys are pairwise distinct.
    pub open spec fn wf(&self) -> bool {
        keys_unique(self@)
    }

    pub fn new() -> (t: Self)
        ensures
            t@ == Seq::<T>::empty(),
            t.wf(),
            t.m() =~= Map::<Seq<char>, T>::empty(),
    {
        let t = KvVec { items: Vec::new() };
        proof {
            assert(t.m() =~= Map::<Seq<char>, T>::empty());
        }
        t
    }

    pub fn len(&self) -> (n: usize)
        ensures
            n == self@.len(),
    {
        self.items.len()
    }

    pub fn get_at(&self, i: usize) -> (r: &T)
        requires
            i < self@.len(),
        ensures
            *r == self@[i as int],
    {
        &self.items[i]
    }

    /// The index holding key `k`, when the table has it.
    pub fn index_of(&self, k: &String) -> (r: Option<usize>)
        requires
            self.wf(),
        ensures
            match r {
                Some(i) => i < self@.len() && self@[i as int].key() == k@
                    && self.m().dom().contains(k@) && self.m()[k@] == self@[i as int],
                None => !self.m().dom().contains(k@),
            },
    {
        let n = self.items.len();
        let mut i: usize = 0;
        while i < n
            invariant
                n == self@.len(),
                i <= n,
                self.wf(),
                forall|j: int| 0 <= j < i ==> self@[j].key() != k@,
            decreases n - i,
        {
            if *self.items[i].key_ref() == *k {
                proof {
                    lemma_map_of_index(self@, i as int);
                }
                return Some(i);
            }
            i = i + 1;
        }
        proof {
            if self.m().dom().contains(k@) {
                let j = index_of_key(self@, k@);
                assert(0 <= j < self@.len() && self@[j].key() == k@);
            }
        }
        None
    }

    /// Look a record up by key.
    pub fn get(&self, k: &String) -> (r: Option<&T>)
        requires
            self.wf(),
        ensures
            match r {
                Some(v) => self.m().dom().contains(k@) && *v == self.m()[k@],
                None => !self.m().dom().contains(k@),
            },
    {
        match self.index_of(k) {
            Some(i) => Some(&self.items[i]),
            None => None,
        }
    }

    pub fn contains_key(&self, k: &String) -> (r: bool)
        requires
            self.wf(),
        ensures
            r == self.m().dom().contains(k@),
    {
        match self.index_of(k) {
            Some(_) => true,
            None => false,
        }
    }

    /// Insert the record, replacing any record that shares its key.
    pub fn upsert(&mut self, v: T)
        requires
            old(self).wf(),
        ensures
            final(self).wf(),
            final(self).m() =~= old(self).m().insert(v.key(), v),
    {
        let ghost key = v.key();
        let n = self.items.len();
        let mut i: usize = 0;
        while i < n
            invariant
                n == self@.len(),
                i <= n,
                self.wf(),
                self@ == old(self)@,
                key == v.key(),
                forall|j: int| 0 <= j < i ==> self@[j].key() != key,
            decreases n - i,
        {
            if *self.items[i].key_ref() == *v.key_ref() {
                proof {
                    lemma_map_of_update(self@, i as int, v);
                }
                self.items[i] = v;
                return ;
            }
            i = i + 1;
        }
        proof {
            if has_key(self@, key) {
                let j = index_of_key(self@, key);
                assert(0 <= j < self@.len() && self@[j].key() == key);
            }
            lemma_map_of_push(self@, v);
        }
        self.items.push(v);
    }

    /// Remove the record under key `k`, if any.
    pub fn remove_key(&mut self, k: &String) -> (removed: bool)
        requires
            old(self).wf(),
        ensures
            final(self).wf(),
            removed == old(self).m().dom().contains(k@),
            final(self).m() =~= old(self).m().remove(k@),
    {
        match self.index_of(k) {
            Some(i) => {
                proof {
                    lemma_map_of_remove(self@, i as int);
                }
                self.items.remove(i);
                true
            },
            None => {
                proof {
                    assert(old(self).m().remove(k@) =~= old(self).m());
                }
                false
            },
        }
    }

    /// Replace the record at `i` by one with the same key.
    pub fn set_at(&mut self, i: usize, v: T)
        requires
            old(self).wf(),
            i < old(self)@.len(),
            old(self)@[i as int].key() == v.key(),
        ensures
            final(self).wf(),
            final(self)@ == old(self)@.update(i as int, v),
            final(self).m() =~= old(self).m().insert(v.key(), v),
    {
        proof {
            lemma_map_of_update(self@, i as int, v);
        }
        self.items[i] = v;
    }

    /// Append a record whose key is fresh.
    pub fn push_fresh(&mut self, v: T)
        requires
            old(self).wf(),
            !old(self).m().dom().contains(v.key()),
        ensures
            final(self).wf(),
            final(self)@ == old(self)@.push(v),
            final(self).m() =~= old(self).m().insert(v.key(), v),
    {
        proof {
            if has_key(self@, v.key()) {
                lemma_map_of_index(self@, index_of_key(self@, v.key()));
            }
            lemma_map_of_push(self@, v);
        }
        self.items.push(v);
    }
}

} // verus!
