//! The sequential storage engine: a recency-ordered map from keys to
//! entries, with LRU eviction on insertion of a new key and lazy expiry.
//!
//! A store is seen as the sequence of its (key, entry) pairs. The front of
//! the sequence is the least recently used pair, the back the most recently
//! used one. No key occurs twice, and with a capacity `c` there are never
//! more than `c` pairs.

use crate::entry::{bytes_content, Entry, EntryView};
use crate::ordered_map::{
    keys_of, map_clear, map_clone, map_entries, map_entry_at, map_entry_mut_at, map_first_key,
    map_index_of, map_insert, map_len, map_move_index, map_new, map_retain_live, map_shift_remove,
};
use bytes::Bytes;
use indexmap::IndexMap;
use vstd::prelude::*;

verus! {

/// The (key, entry) pairs of a store, least recently used first.
pub type Contents = Seq<(Seq<char>, EntryView)>;

/// Whether key `k` occurs in `s`.
pub open spec fn has_key(s: Contents, k: Seq<char>) -> bool {
    keys_of(s).contains(k)
}

/// The position of key `k` in `s` (meaningful where `has_key(s, k)`).
pub open spec fn position(s: Contents, k: Seq<char>) -> int {
    keys_of(s).index_of(k)
}

/// The entry of key `k` in `s` (meaningful where `has_key(s, k)`).
pub open spec fn entry_of(s: Contents, k: Seq<char>) -> EntryView {
    s[position(s, k)].1
}

/// What every store holds to: keys are unique, and a capacity, where there
/// is one, is positive and bounds the number of pairs.
pub open spec fn valid(s: Contents, cap: Option<usize>) -> bool {
    &&& keys_of(s).no_duplicates()
    &&& match cap {
        Some(c) => c > 0 && s.len() <= c,
        None => true,
    }
}

/// The value that a read of `k` at `now` returns: that of a live entry.
pub open spec fn found(s: Contents, k: Seq<char>, now: u64) -> Option<Seq<u8>> {
    if has_key(s, k) && !entry_of(s, k).expired_at(now) {
        Some(entry_of(s, k).value)
    } else {
        None
    }
}

/// How many pairs an insertion of a new key into `len` pairs evicts.
pub open spec fn evict_count(len: int, cap: Option<usize>) -> int {
    match cap {
        Some(c) => if len >= c { len - c + 1 } else { 0 },
        None => 0,
    }
}

/// The contents after setting `k` to `e`: a present key takes the new entry
/// in its place; a new key first evicts from the front until there is room,
/// then goes last.
pub open spec fn set_result(s: Contents, cap: Option<usize>, k: Seq<char>, e: EntryView) -> Contents {
    if has_key(s, k) {
        s.update(position(s, k), (k, e))
    } else {
        s.subrange(evict_count(s.len() as int, cap), s.len() as int).push((k, e))
    }
}

/// The contents after `k` is read at `now`: the entry moves last, touched.
pub open spec fn touch_result(s: Contents, k: Seq<char>, now: u64) -> Contents {
    if has_key(s, k) {
        s.remove(position(s, k)).push((k, entry_of(s, k).touched(now)))
    } else {
        s
    }
}

/// The contents after `k` is removed.
pub open spec fn remove_result(s: Contents, k: Seq<char>) -> Contents {
    if has_key(s, k) {
        s.remove(position(s, k))
    } else {
        s
    }
}

/// The contents after the entry of `k` is removed if it has expired at `now`.
pub open spec fn expire_result(s: Contents, k: Seq<char>, now: u64) -> Contents {
    if has_key(s, k) && entry_of(s, k).expired_at(now) {
        s.remove(position(s, k))
    } else {
        s
    }
}

/// The contents after a full read of `k` at `now`: an expired entry is
/// removed, a live one is touched and moved last.
pub open spec fn get_result(s: Contents, k: Seq<char>, now: u64) -> Contents {
    if has_key(s, k) && entry_of(s, k).expired_at(now) {
        remove_result(s, k)
    } else {
        touch_result(s, k, now)
    }
}

/// The contents after every entry expired at `now` is removed.
pub open spec fn cleanup_result(s: Contents, now: u64) -> Contents {
    s.filter(|p: (Seq<char>, EntryView)| !p.1.expired_at(now))
}

/// What a read of a key finds.
#[derive(Debug)]
pub enum Lookup {
    /// The key is not present.
    Missing,
    /// The key is present, but its entry has expired.
    Expired,
    /// The key is present and live; this is its value.
    Live(Bytes),
}

/// What a set did besides storing the entry.
#[derive(Clone, Copy, Debug, PartialEq, Eq, Structural)]
pub struct SetOutcome {
    /// How many least recently used entries were evicted.
    pub evicted: usize,
    /// Whether the key was present, so that its entry was replaced.
    pub replaced: bool,
}

/// The recency-ordered entries of one cache, with its capacity.
#[derive(Debug)]
pub struct Store {
    entries: IndexMap<String, Entry>,
    max_capacity: Option<usize>,
}

impl View for Store {
    type V = Contents;

    closed spec fn view(&self) -> Contents {
        map_entries(self.entries)
    }
}

/// Where `s` has no duplicate keys and `s[i]` has key `k`, `i` is the
/// position of `k`.
pub(crate) proof fn lemma_position(s: Contents, k: Seq<char>, i: int)
    requires
        keys_of(s).no_duplicates(),
        0 <= i < s.len(),
        s[i].0 == k,
    ensures
        has_key(s, k),
        position(s, k) == i,
{
    assert(keys_of(s)[i] == k);
    assert(keys_of(s).contains(k));
    let j = position(s, k);
    assert(0 <= j < keys_of(s).len() && keys_of(s)[j] == k);
}

/// Removing the pair at `i` keeps the keys unique and drops key `s[i].0`.
pub(crate) proof fn lemma_remove_keys(s: Contents, i: int)
    requires
        keys_of(s).no_duplicates(),
        0 <= i < s.len(),
    ensures
        keys_of(s.remove(i)) == keys_of(s).remove(i),
        keys_of(s.remove(i)).no_duplicates(),
        !keys_of(s.remove(i)).contains(s[i].0),
        forall|k: Seq<char>| k != s[i].0 ==> (has_key(s.remove(i), k) == has_key(s, k)),
{
    let t = s.remove(i);
    let ks = keys_of(s);
    assert(keys_of(t) =~= ks.remove(i));
    assert forall|a: int, b: int| 0 <= a < b < keys_of(t).len() implies keys_of(t)[a] != keys_of(t)[b] by {
        let a2 = if a < i { a } else { a + 1 };
        let b2 = if b < i { b } else { b + 1 };
        assert(keys_of(t)[a] == ks[a2]);
        assert(keys_of(t)[b] == ks[b2]);
    }
    if keys_of(t).contains(s[i].0) {
        let j = choose|j: int| 0 <= j < keys_of(t).len() && keys_of(t)[j] == s[i].0;
        let j2 = if j < i { j } else { j + 1 };
        assert(ks[j2] == ks[i]);
    }
    assert forall|k: Seq<char>| k != s[i].0 implies (has_key(t, k) == has_key(s, k)) by {
        if has_key(s, k) {
            let j = choose|j: int| 0 <= j < ks.len() && ks[j] == k;
            assert(j != i);
            let j2 = if j < i { j } else { j - 1 };
            assert(keys_of(t)[j2] == k);
        }
        if has_key(t, k) {
            let j = choose|j: int| 0 <= j < keys_of(t).len() && keys_of(t)[j] == k;
            let j2 = if j < i { j } else { j + 1 };
            assert(ks[j2] == k);
        }
    }
}

/// Appending a pair with a new key keeps the keys unique.
pub(crate) proof fn lemma_push_keys(s: Contents, p: (Seq<char>, EntryView))
    requires
        keys_of(s).no_duplicates(),
        !keys_of(s).contains(p.0),
    ensures
        keys_of(s.push(p)) == keys_of(s).push(p.0),
        keys_of(s.push(p)).no_duplicates(),
        forall|k: Seq<char>| has_key(s.push(p), k) == (has_key(s, k) || k == p.0),
{
    let ks = keys_of(s);
    assert(keys_of(s.push(p)) =~= ks.push(p.0));
    assert forall|k: Seq<char>| has_key(s.push(p), k) == (has_key(s, k) || k == p.0) by {
        if has_key(s, k) {
            let j = choose|j: int| 0 <= j < ks.len() && ks[j] == k;
            assert(ks.push(p.0)[j] == k);
        }
        if k == p.0 {
            assert(ks.push(p.0)[ks.len() as int] == k);
        }
        if has_key(s.push(p), k) {
            let j = choose|j: int| 0 <= j < ks.push(p.0).len() && ks.push(p.0)[j] == k;
            if j < ks.len() {
                assert(ks[j] == k);
            }
        }
    }
}

/// Replacing the entry at a key's own position leaves the keys as they are.
pub(crate) proof fn lemma_update_keys(s: Contents, i: int, e: EntryView)
    requires
        0 <= i < s.len(),
    ensures
        keys_of(s.update(i, (s[i].0, e))) == keys_of(s),
{
    assert(keys_of(s.update(i, (s[i].0, e))) =~= keys_of(s));
}

/// A suffix of unique keys has unique keys.
pub(crate) proof fn lemma_suffix_keys(s: Contents, a: int)
    requires
        keys_of(s).no_duplicates(),
        0 <= a <= s.len(),
    ensures
        keys_of(s.subrange(a, s.len() as int)) == keys_of(s).subrange(a, s.len() as int),
        keys_of(s.subrange(a, s.len() as int)).no_duplicates(),
        forall|k: Seq<char>| has_key(s.subrange(a, s.len() as int), k) ==> has_key(s, k),
{
    let ks = keys_of(s);
    let t = s.subrange(a, s.len() as int);
    assert(keys_of(t) =~= ks.subrange(a, s.len() as int));
    assert forall|x: int, y: int| 0 <= x < y < keys_of(t).len() implies keys_of(t)[x] != keys_of(t)[y] by {
        assert(keys_of(t)[x] == ks[x + a]);
        assert(keys_of(t)[y] == ks[y + a]);
    }
    assert forall|k: Seq<char>| has_key(t, k) implies has_key(s, k) by {
        let j = choose|j: int| 0 <= j < keys_of(t).len() && keys_of(t)[j] == k;
        assert(ks[j + a] == k);
    }
}

/// Dropping the last pair keeps the keys unique, and the last key is not
/// among the others.
proof fn lemma_drop_last_keys(s: Contents)
    requires
        keys_of(s).no_duplicates(),
        s.len() > 0,
    ensures
        keys_of(s.drop_last()).no_duplicates(),
        !keys_of(s.drop_last()).contains(s.last().0),
{
    lemma_remove_keys(s, s.len() - 1);
    assert(s.remove(s.len() - 1) =~= s.drop_last());
}

/// Keeping the live pairs keeps the keys unique, and keeps no other key.
proof fn lemma_filter_keys(s: Contents, now: u64)
    requires
        keys_of(s).no_duplicates(),
    ensures
        keys_of(cleanup_result(s, now)).no_duplicates(),
        cleanup_result(s, now).len() <= s.len(),
        forall|k: Seq<char>| has_key(cleanup_result(s, now), k) ==> has_key(s, k),
    decreases s.len(),
{
    reveal(Seq::filter);
    if s.len() == 0 {
        assert(cleanup_result(s, now) =~= s);
    } else {
        let d = s.drop_last();
        lemma_drop_last_keys(s);
        lemma_filter_keys(d, now);
        assert(cleanup_result(s, now) == if !s.last().1.expired_at(now) {
            cleanup_result(d, now).push(s.last())
        } else {
            cleanup_result(d, now)
        });
        assert forall|k: Seq<char>| has_key(d, k) implies has_key(s, k) by {
            let j = choose|j: int| 0 <= j < keys_of(d).len() && keys_of(d)[j] == k;
            assert(keys_of(s)[j] == k);
        }
        assert(has_key(s, s.last().0)) by {
            assert(keys_of(s)[s.len() - 1] == s.last().0);
        }
        if !s.last().1.expired_at(now) {
            assert(!has_key(d, s.last().0));
            assert(!has_key(cleanup_result(d, now), s.last().0));
            lemma_push_keys(cleanup_result(d, now), s.last());
        }
    }
}

/// Dropping the first pair leaves the rest.
proof fn lemma_remove_first(s: Contents)
    requires
        s.len() > 0,
    ensures
        s.remove(0) == s.subrange(1, s.len() as int),
{
    assert(s.remove(0) =~= s.subrange(1, s.len() as int));
}

/// Removes the least recently used pair, if any.
fn evict_front(m: &mut IndexMap<String, Entry>) -> (r: bool)
    requires
        keys_of(map_entries(*old(m))).no_duplicates(),
    ensures
        r == (map_entries(*old(m)).len() > 0),
        r ==> map_entries(*final(m)) == map_entries(*old(m)).subrange(
            1,
            map_entries(*old(m)).len() as int,
        ),
        !r ==> map_entries(*final(m)) == map_entries(*old(m)),
{
    let ghost s = map_entries(*m);
    match map_first_key(m) {
        None => false,
        Some(k) => {
            let key = k.clone();
            assert(s[0].0 == key@);
            map_shift_remove(m, key.as_str());
            proof {
                lemma_remove_first(s);
            }
            true
        },
    }
}

impl Store {
    /// The capacity this store was made with.
    pub closed spec fn capacity(&self) -> Option<usize> {
        self.max_capacity
    }

    #[verifier::type_invariant]
    spec fn inv(self) -> bool {
        valid(map_entries(self.entries), self.max_capacity)
    }

    /// An empty store; a capacity of zero means no bound.
    pub fn new(max_capacity: Option<usize>) -> (r: Store)
        ensures
            r@ == Seq::<(Seq<char>, EntryView)>::empty(),
            valid(r@, r.capacity()),
            r.capacity() == (match max_capacity {
                Some(c) => if c == 0 { None } else { Some(c) },
                None => None,
            }),
    {
        let cap = match max_capacity {
            Some(c) => if c == 0 { None } else { Some(c) },
            None => None,
        };
        Store { entries: map_new(), max_capacity: cap }
    }

    /// The number of entries, expired ones included.
    pub fn len(&self) -> (r: usize)
        ensures
            r == self@.len(),
    {
        map_len(&self.entries)
    }

    /// Whether the store holds no entry.
    pub fn is_empty(&self) -> (r: bool)
        ensures
            r == (self@.len() == 0),
    {
        map_len(&self.entries) == 0
    }

    /// The capacity, if bounded.
    pub fn max_capacity(&self) -> (r: Option<usize>)
        ensures
            r == self.capacity(),
    {
        self.max_capacity
    }

    /// Finds `key` at the instant `now`, without changing recency.
    pub fn lookup(&self, key: &str, now: u64) -> (r: Lookup)
        ensures
            match r {
                Lookup::Missing => !has_key(self@, key@),
                Lookup::Expired => has_key(self@, key@) && entry_of(self@, key@).expired_at(now),
                Lookup::Live(v) => found(self@, key@, now) == Some(bytes_content(v)),
            },
    {
        proof {
            use_type_invariant(self);
        }
        match map_index_of(&self.entries, key) {
            None => Lookup::Missing,
            Some(i) => {
                proof {
                    lemma_position(self@, key@, i as int);
                }
                let e = map_entry_at(&self.entries, i);
                if e.is_expired_at(now) {
                    Lookup::Expired
                } else {
                    Lookup::Live(e.value().clone())
                }
            },
        }
    }

    /// Moves the entries out, leaving the store empty.
    fn take_entries(&mut self) -> (m: IndexMap<String, Entry>)
        ensures
            map_entries(m) == old(self)@,
            valid(map_entries(m), old(self).capacity()),
            final(self)@ == Seq::<(Seq<char>, EntryView)>::empty(),
            final(self).capacity() == old(self).capacity(),
    {
        proof {
            use_type_invariant(&*self);
        }
        let mut m = map_new();
        std::mem::swap(&mut self.entries, &mut m);
        m
    }

    /// Records an access of `key` at `now` and moves its entry to the most
    /// recently used place; does nothing where `key` is absent.
    pub fn touch(&mut self, key: &str, now: u64) -> (r: bool)
        ensures
            r == has_key(old(self)@, key@),
            final(self)@ == touch_result(old(self)@, key@, now),
            final(self).capacity() == old(self).capacity(),
            valid(final(self)@, final(self).capacity()),
    {
        let mut m = self.take_entries();
        let ghost s = map_entries(m);
        let r = match map_index_of(&m, key) {
            None => false,
            Some(i) => {
                proof {
                    lemma_position(s, key@, i as int);
                }
                let e = map_entry_mut_at(&mut m, i);
                e.touch_at(now);
                let last = map_len(&m) - 1;
                map_move_index(&mut m, i, last);
                proof {
                    let t = s.update(i as int, (key@, s[i as int].1.touched(now)));
                    assert(map_entries(m) == t.remove(i as int).insert(last as int, t[i as int]));
                    assert(map_entries(m) =~= s.remove(i as int).push((key@, s[i as int].1.touched(now))));
                    lemma_remove_keys(s, i as int);
                    lemma_push_keys(s.remove(i as int), (key@, s[i as int].1.touched(now)));
                }
                true
            },
        };
        self.entries = m;
        r
    }
    /// Sets `key` to `entry`. A present key keeps its place and takes the
    /// new entry, with no eviction. A new key first evicts least recently
    /// used entries until there is room for it, then goes last.
    pub fn insert(&mut self, key: String, entry: Entry) -> (r: SetOutcome)
        ensures
            final(self)@ == set_result(old(self)@, old(self).capacity(), key@, entry@),
            final(self).capacity() == old(self).capacity(),
            valid(final(self)@, final(self).capacity()),
            r.replaced == has_key(old(self)@, key@),
            r.evicted == (if r.replaced {
                0
            } else {
                evict_count(old(self)@.len() as int, old(self).capacity())
            }),
    {
        let cap = self.max_capacity;
        let mut m = self.take_entries();
        let ghost s = map_entries(m);
        let mut evicted: usize = 0;
        match map_index_of(&m, key.as_str()) {
            Some(i) => {
                proof {
                    lemma_position(s, key@, i as int);
                    assert(map_entries(m)[i as int].0 == key@);
                    lemma_update_keys(s, i as int, entry@);
                }
                map_insert(&mut m, key, entry);
                self.entries = m;
                SetOutcome { evicted: 0, replaced: true }
            },
            None => {
                if let Some(c) = cap {
                    while map_len(&m) >= c
                        invariant
                            cap == Some(c),
                            valid(s, cap),
                            !has_key(s, key@),
                            evicted <= evict_count(s.len() as int, cap),
                            map_entries(m) == s.subrange(evicted as int, s.len() as int),
                        decreases map_entries(m).len(),
                    {
                        proof {
                            lemma_suffix_keys(s, evicted as int);
                        }
                        evict_front(&mut m);
                        evicted = evicted + 1;
                        assert(map_entries(m) =~= s.subrange(evicted as int, s.len() as int));
                    }
                }
                proof {
                    lemma_suffix_keys(s, evicted as int);
                    lemma_push_keys(map_entries(m), (key@, entry@));
                }
                map_insert(&mut m, key, entry);
                self.entries = m;
                SetOutcome { evicted, replaced: false }
            },
        }
    }

    /// Removes `key`; says whether it was present.
    pub fn remove(&mut self, key: &str) -> (r: bool)
        ensures
            r == has_key(old(self)@, key@),
            final(self)@ == remove_result(old(self)@, key@),
            final(self).capacity() == old(self).capacity(),
            valid(final(self)@, final(self).capacity()),
    {
        let mut m = self.take_entries();
        let ghost s = map_entries(m);
        let r = match map_index_of(&m, key) {
            None => false,
            Some(i) => {
                proof {
                    lemma_position(s, key@, i as int);
                    assert(map_entries(m)[i as int].0 == key@);
                    lemma_remove_keys(s, i as int);
                }
                map_shift_remove(&mut m, key);
                true
            },
        };
        self.entries = m;
        r
    }

    /// Removes `key` if its entry has expired at `now`; says whether it did.
    pub fn remove_expired(&mut self, key: &str, now: u64) -> (r: bool)
        ensures
            r == (has_key(old(self)@, key@) && entry_of(old(self)@, key@).expired_at(now)),
            final(self)@ == expire_result(old(self)@, key@, now),
            final(self).capacity() == old(self).capacity(),
            valid(final(self)@, final(self).capacity()),
    {
        let mut m = self.take_entries();
        let ghost s = map_entries(m);
        let r = match map_index_of(&m, key) {
            None => false,
            Some(i) => {
                proof {
                    lemma_position(s, key@, i as int);
                    assert(map_entries(m)[i as int].0 == key@);
                    lemma_remove_keys(s, i as int);
                }
                if map_entry_at(&m, i).is_expired_at(now) {
                    map_shift_remove(&mut m, key);
                    true
                } else {
                    false
                }
            },
        };
        self.entries = m;
        r
    }

    /// Reads `key` at `now`: an expired entry is removed, a live one is
    /// touched and becomes the most recently used.
    pub fn get(&mut self, key: &str, now: u64) -> (r: Lookup)
        ensures
            match r {
                Lookup::Missing => !has_key(old(self)@, key@),
                Lookup::Expired => has_key(old(self)@, key@) && entry_of(old(self)@, key@).expired_at(now),
                Lookup::Live(v) => found(old(self)@, key@, now) == Some(bytes_content(v)),
            },
            final(self)@ == get_result(old(self)@, key@, now),
            final(self).capacity() == old(self).capacity(),
            valid(final(self)@, final(self).capacity()),
    {
        proof {
            use_type_invariant(&*self);
        }
        let r = self.lookup(key, now);
        match r {
            Lookup::Missing => {},
            Lookup::Expired => {
                self.remove(key);
            },
            Lookup::Live(_) => {
                self.touch(key, now);
            },
        }
        r
    }

    /// Removes every entry that has expired at `now`; returns how many.
    pub fn cleanup_expired(&mut self, now: u64) -> (r: usize)
        ensures
            final(self)@ == cleanup_result(old(self)@, now),
            r == old(self)@.len() - final(self)@.len(),
            final(self).capacity() == old(self).capacity(),
            valid(final(self)@, final(self).capacity()),
    {
        let mut m = self.take_entries();
        let ghost s = map_entries(m);
        let before = map_len(&m);
        map_retain_live(&mut m, now);
        proof {
            lemma_filter_keys(s, now);
        }
        let after = map_len(&m);
        self.entries = m;
        before - after
    }

    /// Removes every entry.
    pub fn clear(&mut self)
        ensures
            final(self)@ == Seq::<(Seq<char>, EntryView)>::empty(),
            final(self).capacity() == old(self).capacity(),
            valid(final(self)@, final(self).capacity()),
    {
        let mut m = self.take_entries();
        map_clear(&mut m);
        self.entries = m;
    }

    /// A deep copy: the same entries in the same order, the same capacity.
    pub fn duplicate(&self) -> (r: Store)
        ensures
            r@ == self@,
            r.capacity() == self.capacity(),
            valid(r@, r.capacity()),
    {
        proof {
            use_type_invariant(self);
        }
        Store { entries: map_clone(&self.entries), max_capacity: self.max_capacity }
    }
}

} // verus!
