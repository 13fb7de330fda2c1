//! Stable sorting by a text key.

use vstd::prelude::*;

use crate::order::{
    before, lemma_before_irreflexive, lemma_before_transitive, place, Place,
};

verus! {

/// A value with a text by which it is ordered.
pub trait Keyed: Sized {
    /// The text by which the value is ordered.
    spec fn key_of(&self) -> Seq<char>;

    /// The text by which the value is ordered.
    fn key(&self) -> (r: &str)
        ensures
            r@ == self.key_of(),
    ;
}

/// The first position from `i` on whose key comes after `key`.
pub open spec fn slot_after<T: Keyed>(s: Seq<T>, key: Seq<char>, i: int) -> int
    decreases s.len() - i,
{
    if i < 0 || i >= s.len() || before(key, s[i].key_of()) {
        i
    } else {
        slot_after(s, key, i + 1)
    }
}

/// The first `n` values of a list by ascending key, values with the same key in their order.
pub open spec fn sorted<T: Keyed>(s: Seq<T>, n: int) -> Seq<T>
    decreases n,
{
    if n <= 0 {
        Seq::empty()
    } else {
        let rest = sorted(s, n - 1);
        rest.insert(slot_after(rest, s[n - 1].key_of(), 0), s[n - 1])
    }
}

/// No key comes before an earlier one.
pub open spec fn keys_ascend<T: Keyed>(s: Seq<T>) -> bool {
    forall|i: int, j: int|
        0 <= i < j < s.len() ==> !before((#[trigger] s[j]).key_of(), (#[trigger] s[i]).key_of())
}

proof fn lemma_slot<T: Keyed>(s: Seq<T>, key: Seq<char>, i: int)
    requires
        0 <= i <= s.len(),
    ensures
        i <= slot_after(s, key, i) <= s.len(),
        forall|k: int| i <= k < slot_after(s, key, i) ==> !before(key, (#[trigger] s[k]).key_of()),
        slot_after(s, key, i) < s.len() ==> before(key, s[slot_after(s, key, i)].key_of()),
    decreases s.len() - i,
{
    if i < s.len() && !before(key, s[i].key_of()) {
        lemma_slot(s, key, i + 1);
    }
}

/// Sorting orders the values by key and neither drops nor adds one.
pub proof fn law_sorted<T: Keyed>(s: Seq<T>, n: int)
    requires
        0 <= n <= s.len(),
    ensures
        sorted(s, n).len() == n,
        keys_ascend(sorted(s, n)),
        sorted(s, n).to_multiset() == s.subrange(0, n).to_multiset(),
    decreases n,
{
    if n > 0 {
        law_sorted(s, n - 1);
        let rest = sorted(s, n - 1);
        let x = s[n - 1];
        lemma_slot(rest, x.key_of(), 0);
        let at = slot_after(rest, x.key_of(), 0);
        let all = sorted(s, n);
        assert(all == rest.insert(at, x));
        assert forall|i: int, j: int| 0 <= i < j < all.len() implies !before(
            (#[trigger] all[j]).key_of(),
            (#[trigger] all[i]).key_of(),
        ) by {
            let a = if i < at {
                i
            } else {
                i - 1
            };
            let b = if j < at {
                j
            } else {
                j - 1
            };
            if i == at {
                assert(all[j] == rest[b]);
                if before(rest[b].key_of(), x.key_of()) {
                    lemma_before_transitive(rest[b].key_of(), x.key_of(), rest[at].key_of());
                    lemma_before_irreflexive(rest[at].key_of());
                    if b > at {
                        assert(!before(rest[b].key_of(), rest[at].key_of()));
                    }
                }
            } else if j == at {
                assert(all[i] == rest[a]);
            } else {
                assert(all[i] == rest[a] && all[j] == rest[b]);
            }
        }
        assert(s.subrange(0, n) =~= s.subrange(0, n - 1).push(x));
        vstd::seq_lib::to_multiset_insert(rest, at, x);
        vstd::seq_lib::to_multiset_build(s.subrange(0, n - 1), x);
    } else {
        assert(sorted(s, 0) =~= s.subrange(0, 0));
    }
}

/// Values with the same key stay in their order.
pub proof fn law_equal_keys_stay_in_order<T: Keyed>(s: Seq<T>, n: int, key: Seq<char>)
    requires
        0 <= n <= s.len(),
    ensures
        sorted(s, n).filter(|x: T| x.key_of() == key) == s.subrange(0, n).filter(
            |x: T| x.key_of() == key,
        ),
    decreases n,
{
    let keep = |x: T| x.key_of() == key;
    if n > 0 {
        law_equal_keys_stay_in_order(s, n - 1, key);
        law_sorted(s, n - 1);
        let rest = sorted(s, n - 1);
        let x = s[n - 1];
        lemma_slot(rest, x.key_of(), 0);
        let at = slot_after(rest, x.key_of(), 0);
        let head = rest.subrange(0, at);
        let tail = rest.subrange(at, rest.len() as int);
        assert(sorted(s, n) =~= (head + seq![x]) + tail);
        assert(rest =~= head + tail);
        Seq::filter_distributes_over_add(head + seq![x], tail, keep);
        Seq::filter_distributes_over_add(head, seq![x], keep);
        Seq::filter_distributes_over_add(head, tail, keep);
        assert(s.subrange(0, n) =~= s.subrange(0, n - 1) + seq![x]);
        Seq::filter_distributes_over_add(s.subrange(0, n - 1), seq![x], keep);
        reveal(Seq::filter);
        let one = seq![x];
        assert(one.drop_last() =~= Seq::empty());
        assert(one.drop_last().filter(keep) =~= Seq::empty());
        if keep(x) {
            assert forall|k: int| 0 <= k < tail.len() implies !keep(#[trigger] tail[k]) by {
                assert(tail[k] == rest[at + k]);
                if tail[k].key_of() == key {
                    lemma_before_irreflexive(key);
                    if k > 0 {
                        assert(!before(rest[at + k].key_of(), rest[at].key_of()));
                    }
                }
            }
            tail.lemma_all_neg_filter_empty(keep);
            assert(one.filter(keep) =~= seq![x]);
            assert(sorted(s, n).filter(keep) =~= rest.filter(keep) + seq![x]);
        } else {
            assert(one.filter(keep) =~= Seq::empty());
            assert(sorted(s, n).filter(keep) =~= rest.filter(keep));
        }
    } else {
        assert(sorted(s, 0) =~= s.subrange(0, 0));
    }
}

fn find_slot<T: Keyed>(v: &Vec<T>, key: &str) -> (r: usize)
    ensures
        r == slot_after(v@, key@, 0),
        r <= v@.len(),
{
    let mut i: usize = 0;
    while i < v.len()
        invariant
            i <= v@.len(),
            slot_after(v@, key@, 0) == slot_after(v@, key@, i as int),
        decreases v@.len() - i,
    {
        if place(key, v[i].key()) == Place::Before {
            return i;
        }
        i = i + 1;
    }
    i
}

/// Sorts a list by ascending key; values with the same key stay in their order.
pub fn sort_by_key<T: Keyed>(items: Vec<T>) -> (r: Vec<T>)
    ensures
        r@ == sorted(items@, items@.len() as int),
{
    let ghost all = items@;
    let mut rest = items;
    let mut r: Vec<T> = Vec::new();
    let ghost mut done: int = 0;
    assert(rest@ =~= all.subrange(0, all.len() as int));
    while rest.len() > 0
        invariant
            0 <= done <= all.len(),
            rest@ == all.subrange(done, all.len() as int),
            r@ == sorted(all, done),
        decreases rest@.len(),
    {
        let ghost before_step = rest@;
        let item = rest.remove(0);
        let slot = find_slot(&r, item.key());
        r.insert(slot, item);
        proof {
            assert(before_step[0] == all[done]);
            assert(rest@ =~= all.subrange(done + 1, all.len() as int));
            done = done + 1;
        }
    }
    r
}

} // verus!
