//! The insertion-ordered map that holds a store's entries, and what this
//! library relies on of it.
//!
//! The map is `indexmap::IndexMap`. Its contents are seen as a sequence of
//! (key, entry) pairs in the map's order; every function below states how a
//! call changes that sequence.

use crate::entry::{Entry, EntryView};
use indexmap::IndexMap;
use vstd::prelude::*;

verus! {

/// `indexmap::IndexMap`, seen through `map_entries`.
#[verifier::external_type_specification]
#[verifier::external_body]
#[verifier::reject_recursive_types(K)]
#[verifier::reject_recursive_types(V)]
#[verifier::reject_recursive_types(S)]
pub struct ExIndexMap<K, V, S>(IndexMap<K, V, S>);

/// The pairs of a map from keys to entries, in the map's order.
pub uninterp spec fn map_entries(m: IndexMap<String, Entry>) -> Seq<(Seq<char>, EntryView)>;

/// The keys of a sequence of pairs, in order.
pub open spec fn keys_of(s: Seq<(Seq<char>, EntryView)>) -> Seq<Seq<char>> {
    s.map_values(|p: (Seq<char>, EntryView)| p.0)
}

/// Relies on `IndexMap::new`: a new map is empty.
#[verifier::external_body]
pub(crate) fn map_new() -> (r: IndexMap<String, Entry>)
    ensures
        map_entries(r) == Seq::<(Seq<char>, EntryView)>::empty(),
{
    IndexMap::new()
}

/// Relies on `IndexMap::len`: the number of pairs.
#[verifier::external_body]
pub(crate) fn map_len(m: &IndexMap<String, Entry>) -> (r: usize)
    ensures
        r == map_entries(*m).len(),
{
    m.len()
}

/// Relies on `IndexMap::get_index_of`: the position of `key`, if present.
#[verifier::external_body]
pub(crate) fn map_index_of(m: &IndexMap<String, Entry>, key: &str) -> (r: Option<usize>)
    ensures
        match r {
            Some(i) => i < map_entries(*m).len() && map_entries(*m)[i as int].0 == key@,
            None => !keys_of(map_entries(*m)).contains(key@),
        },
{
    m.get_index_of(key)
}

/// Relies on `IndexMap`'s `Index<usize>`: the entry at position `i`.
#[verifier::external_body]
pub(crate) fn map_entry_at(m: &IndexMap<String, Entry>, i: usize) -> (r: &Entry)
    requires
        i < map_entries(*m).len(),
    ensures
        r@ == map_entries(*m)[i as int].1,
{
    &m[i]
}

/// Relies on `IndexMap`'s `IndexMut<usize>`: the entry at position `i`, to
/// change in place.
#[verifier::external_body]
pub(crate) fn map_entry_mut_at(m: &mut IndexMap<String, Entry>, i: usize) -> (r: &mut Entry)
    requires
        i < map_entries(*old(m)).len(),
    ensures
        r@ == map_entries(*old(m))[i as int].1,
        map_entries(*final(m)) == map_entries(*old(m)).update(
            i as int,
            (map_entries(*old(m))[i as int].0, final(r)@),
        ),
{
    &mut m[i]
}

/// Relies on `IndexMap::move_index`: the pair at `from` moves to `to`, the
/// pairs between them shift by one.
#[verifier::external_body]
pub(crate) fn map_move_index(m: &mut IndexMap<String, Entry>, from: usize, to: usize)
    requires
        from < map_entries(*old(m)).len(),
        to < map_entries(*old(m)).len(),
    ensures
        map_entries(*final(m)) == map_entries(*old(m)).remove(from as int).insert(
            to as int,
            map_entries(*old(m))[from as int],
        ),
{
    m.move_index(from, to)
}

/// Relies on `IndexMap::insert`: a present key keeps its place and takes the
/// new entry; a new key goes last.
#[verifier::external_body]
pub(crate) fn map_insert(m: &mut IndexMap<String, Entry>, key: String, e: Entry) -> (r: Option<
    Entry,
>)
    ensures
        forall|i: int|
            0 <= i < map_entries(*old(m)).len() && map_entries(*old(m))[i].0 == key@ ==> {
                &&& map_entries(*final(m)) == map_entries(*old(m)).update(i, (key@, e@))
                &&& r.is_some()
                &&& r.unwrap()@ == map_entries(*old(m))[i].1
            },
        !keys_of(map_entries(*old(m))).contains(key@) ==> {
            &&& map_entries(*final(m)) == map_entries(*old(m)).push((key@, e@))
            &&& r.is_none()
        },
{
    m.insert(key, e)
}

/// Relies on `IndexMap::shift_remove`: the pair of `key` goes, the pairs
/// after it keep their order.
#[verifier::external_body]
pub(crate) fn map_shift_remove(m: &mut IndexMap<String, Entry>, key: &str) -> (r: Option<Entry>)
    ensures
        forall|i: int|
            0 <= i < map_entries(*old(m)).len() && map_entries(*old(m))[i].0 == key@ ==> {
                &&& map_entries(*final(m)) == map_entries(*old(m)).remove(i)
                &&& r.is_some()
                &&& r.unwrap()@ == map_entries(*old(m))[i].1
            },
        !keys_of(map_entries(*old(m))).contains(key@) ==> {
            &&& map_entries(*final(m)) == map_entries(*old(m))
            &&& r.is_none()
        },
{
    m.shift_remove(key)
}

/// Relies on `IndexMap::first`: the key of the first pair, if any.
#[verifier::external_body]
pub(crate) fn map_first_key(m: &IndexMap<String, Entry>) -> (r: Option<&String>)
    ensures
        map_entries(*m).len() == 0 ==> r.is_none(),
        map_entries(*m).len() > 0 ==> r.is_some() && r.unwrap()@ == map_entries(*m)[0].0,
{
    m.first().map(|(k, _)| k)
}

/// Relies on `IndexMap::clear`: no pair is left.
#[verifier::external_body]
pub(crate) fn map_clear(m: &mut IndexMap<String, Entry>)
    ensures
        map_entries(*final(m)) == Seq::<(Seq<char>, EntryView)>::empty(),
{
    m.clear()
}

/// Relies on `IndexMap::retain`: keeps, in order, the pairs whose entry has
/// not expired at `now`.
#[verifier::external_body]
pub(crate) fn map_retain_live(m: &mut IndexMap<String, Entry>, now: u64)
    ensures
        map_entries(*final(m)) == map_entries(*old(m)).filter(
            |p: (Seq<char>, EntryView)| !p.1.expired_at(now),
        ),
{
    m.retain(|_, e| !e.is_expired_at(now))
}

/// Relies on `IndexMap::clone`: the copy holds the same pairs in the same
/// order (an entry's clone refers to the same bytes).
#[verifier::external_body]
pub(crate) fn map_clone(m: &IndexMap<String, Entry>) -> (r: IndexMap<String, Entry>)
    ensures
        map_entries(r) == map_entries(*m),
{
    m.clone()
}

} // verus!
