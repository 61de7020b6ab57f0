//! Properties of the storage engine that relate several operations.
//!
//! Each is stated over the contents of a store (see `store`), which the
//! exact contracts of the store's operations speak of.

use crate::entry::EntryView;
use crate::ordered_map::keys_of;
use crate::store::{
    Contents, entry_of, evict_count, found, get_result, has_key, lemma_position,
    lemma_push_keys, lemma_remove_keys, lemma_suffix_keys, lemma_update_keys, position,
    remove_result, set_result, touch_result, valid,
};
use vstd::prelude::*;

verus! {

/// After a set, the key is present with exactly the entry that was set, and
/// the store stays valid.
pub proof fn lemma_set_then_entry(s: Contents, cap: Option<usize>, k: Seq<char>, e: EntryView)
    requires
        valid(s, cap),
    ensures
        valid(set_result(s, cap, k, e), cap),
        has_key(set_result(s, cap, k, e), k),
        entry_of(set_result(s, cap, k, e), k) == e,
{
    let r = set_result(s, cap, k, e);
    if has_key(s, k) {
        let i = position(s, k);
        lemma_update_keys(s, i, e);
        assert(s[i].0 == k);
        lemma_position(r, k, i);
    } else {
        let n = evict_count(s.len() as int, cap);
        let t = s.subrange(n, s.len() as int);
        lemma_suffix_keys(s, n);
        assert(!has_key(t, k));
        lemma_push_keys(t, (k, e));
        lemma_position(r, k, t.len() as int);
    }
}

/// A set followed at once by a read of the same key returns exactly the
/// value that was set, as long as the entry has not expired by then.
pub proof fn lemma_set_then_get(s: Contents, cap: Option<usize>, k: Seq<char>, e: EntryView, now: u64)
    requires
        valid(s, cap),
        !e.expired_at(now),
    ensures
        found(set_result(s, cap, k, e), k, now) == Some(e.value),
{
    lemma_set_then_entry(s, cap, k, e);
}

/// An entry set to expire at `expires` is returned by every read before
/// that instant; from that instant on a read finds nothing and removes it.
pub proof fn lemma_ttl(
    s: Contents,
    cap: Option<usize>,
    k: Seq<char>,
    e: EntryView,
    expires: u64,
    now: u64,
)
    requires
        valid(s, cap),
        e.expires_at == Some(expires),
    ensures
        now < expires ==> found(set_result(s, cap, k, e), k, now) == Some(e.value),
        now >= expires ==> {
            &&& found(set_result(s, cap, k, e), k, now) == None::<Seq<u8>>
            &&& entry_of(set_result(s, cap, k, e), k).expired_at(now)
            &&& !has_key(get_result(set_result(s, cap, k, e), k, now), k)
        },
{
    let r = set_result(s, cap, k, e);
    lemma_set_then_entry(s, cap, k, e);
    if now >= expires {
        lemma_delete_twice(r, cap, k);
    }
}

/// Overwriting a present key changes neither the number of entries nor the
/// keys or their order: nothing is evicted.
pub proof fn lemma_overwrite(s: Contents, cap: Option<usize>, k: Seq<char>, e: EntryView)
    requires
        valid(s, cap),
        has_key(s, k),
    ensures
        set_result(s, cap, k, e).len() == s.len(),
        keys_of(set_result(s, cap, k, e)) == keys_of(s),
{
    let i = position(s, k);
    assert(s[i].0 == k);
    lemma_update_keys(s, i, e);
}

/// Deleting a key twice: the first delete says whether the key was there,
/// the second finds nothing and changes nothing.
pub proof fn lemma_delete_twice(s: Contents, cap: Option<usize>, k: Seq<char>)
    requires
        valid(s, cap),
    ensures
        !has_key(remove_result(s, k), k),
        remove_result(remove_result(s, k), k) == remove_result(s, k),
        valid(remove_result(s, k), cap),
{
    if has_key(s, k) {
        let i = position(s, k);
        assert(s[i].0 == k);
        lemma_remove_keys(s, i);
    }
}

/// The contents after setting each pair of `ps` in turn, without reads in
/// between.
pub open spec fn set_all(s: Contents, cap: Option<usize>, ps: Contents) -> Contents
    decreases ps.len(),
{
    if ps.len() == 0 {
        s
    } else {
        let r = set_all(s, cap, ps.drop_last());
        set_result(r, cap, ps.last().0, ps.last().1)
    }
}

/// The smaller of `a` and `b`.
pub open spec fn min_int(a: int, b: int) -> int {
    if a <= b { a } else { b }
}

/// Setting new keys, all distinct, into a store of capacity `c`: the store
/// ends up holding exactly the last `c` pairs of what it held followed by
/// what was set, in that order. So it never holds more than `c` entries,
/// and the entries evicted are the earliest inserted ones.
pub proof fn lemma_capacity_bound(s: Contents, c: usize, ps: Contents)
    requires
        valid(s, Some(c)),
        keys_of(s + ps).no_duplicates(),
    ensures
        set_all(s, Some(c), ps) == (s + ps).subrange(
            (s + ps).len() - min_int((s + ps).len() as int, c as int),
            (s + ps).len() as int,
        ),
        set_all(s, Some(c), ps).len() <= c,
    decreases ps.len(),
{
    let t = s + ps;
    let n = t.len() as int;
    if ps.len() == 0 {
        assert(t =~= s);
        assert(t.subrange(0, n) =~= t);
    } else {
        let d = ps.drop_last();
        let p = ps.last();
        assert(s + d =~= t.drop_last());
        assert(keys_of(s + d) =~= keys_of(t).drop_last());
        assert(keys_of(t).drop_last().no_duplicates()) by {
            assert forall|x: int, y: int|
                0 <= x < y < keys_of(t).drop_last().len() implies keys_of(t).drop_last()[x]
                != keys_of(t).drop_last()[y] by {
                assert(keys_of(t).drop_last()[x] == keys_of(t)[x]);
                assert(keys_of(t).drop_last()[y] == keys_of(t)[y]);
            }
        }
        lemma_capacity_bound(s, c, d);
        let r = set_all(s, Some(c), d);
        let m = min_int(n - 1, c as int);
        assert(r == t.drop_last().subrange(n - 1 - m, n - 1));
        assert(r =~= t.subrange(n - 1 - m, n - 1));
        assert(p == t[n - 1]);
        assert(!has_key(r, p.0)) by {
            if has_key(r, p.0) {
                let j = choose|j: int| 0 <= j < keys_of(r).len() && keys_of(r)[j] == p.0;
                assert(keys_of(t)[n - 1 - m + j] == keys_of(t)[n - 1]);
            }
        }
        if n - 1 >= c {
            assert(evict_count(r.len() as int, Some(c)) == 1);
            assert(r.subrange(1, r.len() as int).push(p) =~= t.subrange(n - c, n));
        } else {
            assert(evict_count(r.len() as int, Some(c)) == 0);
            assert(r.subrange(0, r.len() as int).push(p) =~= t.subrange(0, n));
        }
    }
}

/// With capacity three: after setting `a`, `b` and `c`, reading `a` and
/// setting `d`, the store holds `c`, `a` and `d` in that order: `b`, the
/// least recently used, was evicted, and `a`, read after it, was kept.
pub proof fn lemma_recency(
    a: Seq<char>,
    b: Seq<char>,
    c: Seq<char>,
    d: Seq<char>,
    ea: EntryView,
    eb: EntryView,
    ec: EntryView,
    ed: EntryView,
    now: u64,
)
    requires
        a != b && a != c && a != d && b != c && b != d && c != d,
        !ea.expired_at(now),
    ensures
        ({
            let cap = Some(3usize);
            let s0 = Seq::<(Seq<char>, EntryView)>::empty();
            let s3 = set_result(set_result(set_result(s0, cap, a, ea), cap, b, eb), cap, c, ec);
            let s5 = set_result(get_result(s3, a, now), cap, d, ed);
            &&& keys_of(s5) == seq![c, a, d]
            &&& has_key(s5, a) && !has_key(s5, b) && has_key(s5, c) && has_key(s5, d)
            &&& s5.len() == 3
        }),
{
    let cap = Some(3usize);
    let s0 = Seq::<(Seq<char>, EntryView)>::empty();
    assert(!has_key(s0, a));
    let s1 = set_result(s0, cap, a, ea);
    assert(s1 =~= seq![(a, ea)]);
    assert(keys_of(s1) =~= seq![a]);
    assert(!has_key(s1, b)) by {
        assert(keys_of(s1)[0] != b);
    }
    let s2 = set_result(s1, cap, b, eb);
    assert(s2 =~= seq![(a, ea), (b, eb)]);
    assert(keys_of(s2) =~= seq![a, b]);
    assert(!has_key(s2, c)) by {
        assert(keys_of(s2)[0] != c && keys_of(s2)[1] != c);
    }
    let s3 = set_result(s2, cap, c, ec);
    assert(s3 =~= seq![(a, ea), (b, eb), (c, ec)]);
    assert(keys_of(s3) =~= seq![a, b, c]);
    assert(keys_of(s3)[0] == a);
    assert(has_key(s3, a));
    lemma_position(s3, a, 0);
    assert(entry_of(s3, a) == ea);
    let s4 = get_result(s3, a, now);
    assert(s4 == touch_result(s3, a, now));
    assert(s4 =~= seq![(b, eb), (c, ec), (a, ea.touched(now))]);
    assert(keys_of(s4) =~= seq![b, c, a]);
    assert(!has_key(s4, d)) by {
        assert(keys_of(s4)[0] != d && keys_of(s4)[1] != d && keys_of(s4)[2] != d);
    }
    let s5 = set_result(s4, cap, d, ed);
    assert(s5 =~= seq![(c, ec), (a, ea.touched(now)), (d, ed)]);
    assert(keys_of(s5) =~= seq![c, a, d]);
    assert(keys_of(s5)[1] == a && keys_of(s5)[0] == c && keys_of(s5)[2] == d);
    assert(!has_key(s5, b)) by {
        assert(keys_of(s5)[0] != b && keys_of(s5)[1] != b && keys_of(s5)[2] != b);
    }
}

} // verus!
