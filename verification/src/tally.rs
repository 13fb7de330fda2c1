//! Counting equal texts.

use vstd::prelude::*;

use crate::text::texts;
use crate::text_map::{ascending, has_key, lemma_unique_key, position, TextMap};

verus! {

/// How often a text stands among the first `n` of a list.
pub open spec fn occurrences(items: Seq<Seq<char>>, x: Seq<char>, n: int) -> nat
    decreases n,
{
    if n <= 0 {
        0
    } else {
        occurrences(items, x, n - 1) + (if items[n - 1] == x {
            1nat
        } else {
            0
        })
    }
}

/// The entries of a table that counts the texts of a list: each text that occurs, in ascending
/// order, with how often it does.
pub open spec fn counts(p: Seq<(Seq<char>, usize)>, items: Seq<Seq<char>>) -> bool {
    &&& ascending(p)
    &&& forall|k: int|
        0 <= k < p.len() ==> (#[trigger] p[k]).1 == occurrences(items, p[k].0, items.len() as int)
            && p[k].1 > 0
    &&& forall|i: int| 0 <= i < items.len() ==> has_key(p, #[trigger] items[i])
}

/// The sum of the first `m` values.
pub open spec fn value_sum(p: Seq<(Seq<char>, usize)>, m: int) -> nat
    decreases m,
{
    if m <= 0 {
        0
    } else {
        value_sum(p, m - 1) + p[m - 1].1 as nat
    }
}

/// How many of the first `n` texts are the key of one of the first `m` entries.
spec fn covered(items: Seq<Seq<char>>, p: Seq<(Seq<char>, usize)>, m: int, n: int) -> nat
    decreases n,
{
    if n <= 0 {
        0
    } else {
        covered(items, p, m, n - 1) + (if has_key(p.subrange(0, m), items[n - 1]) {
            1nat
        } else {
            0
        })
    }
}

/// A text occurs where it is counted, and at most as often as there are texts.
pub proof fn lemma_occurrences(items: Seq<Seq<char>>, x: Seq<char>, n: int)
    requires
        0 <= n <= items.len(),
    ensures
        occurrences(items, x, n) <= n,
        occurrences(items, x, n) > 0 <==> exists|i: int| 0 <= i < n && #[trigger] items[i] == x,
    decreases n,
{
    if n > 0 {
        lemma_occurrences(items, x, n - 1);
        if items[n - 1] == x {
            assert(items[n - 1] == x);
        }
    }
}

proof fn lemma_covered_step(items: Seq<Seq<char>>, p: Seq<(Seq<char>, usize)>, m: int, n: int)
    requires
        ascending(p),
        0 < m <= p.len(),
        0 <= n <= items.len(),
    ensures
        covered(items, p, m, n) == covered(items, p, m - 1, n) + occurrences(items, p[m - 1].0, n),
    decreases n,
{
    if n > 0 {
        lemma_covered_step(items, p, m, n - 1);
        let a = p.subrange(0, m - 1);
        let b = p.subrange(0, m);
        let s = items[n - 1];
        if has_key(b, s) {
            let i = position(b, s);
            if i < m - 1 {
                assert(a[i].0 == s);
                assert(has_key(a, s));
            }
        }
        if has_key(a, s) {
            let i = position(a, s);
            assert(b[i].0 == s);
            if s == p[m - 1].0 {
                lemma_unique_key(p, i);
                lemma_unique_key(p, m - 1);
                assert(p[i].0 == s);
            }
        }
        if s == p[m - 1].0 {
            assert(b[m - 1].0 == s);
        }
    }
}

proof fn lemma_covered_bound(items: Seq<Seq<char>>, p: Seq<(Seq<char>, usize)>, m: int, n: int)
    ensures
        covered(items, p, m, n) <= (if n <= 0 {
            0
        } else {
            n
        }),
    decreases n,
{
    if n > 0 {
        lemma_covered_bound(items, p, m, n - 1);
    }
}

proof fn lemma_covered_none(items: Seq<Seq<char>>, p: Seq<(Seq<char>, usize)>, n: int)
    ensures
        covered(items, p, 0, n) == 0,
    decreases n,
{
    if n > 0 {
        lemma_covered_none(items, p, n - 1);
    }
}

proof fn lemma_covered_all(items: Seq<Seq<char>>, p: Seq<(Seq<char>, usize)>, n: int)
    requires
        0 <= n <= items.len(),
        forall|i: int| 0 <= i < items.len() ==> has_key(p, #[trigger] items[i]),
    ensures
        covered(items, p, p.len() as int, n) == n,
    decreases n,
{
    assert(p.subrange(0, p.len() as int) =~= p);
    if n > 0 {
        lemma_covered_all(items, p, n - 1);
    }
}

proof fn lemma_value_sum(p: Seq<(Seq<char>, usize)>, items: Seq<Seq<char>>, m: int)
    requires
        counts(p, items),
        0 <= m <= p.len(),
    ensures
        value_sum(p, m) == covered(items, p, m, items.len() as int),
        value_sum(p, m) <= items.len(),
    decreases m,
{
    let n = items.len() as int;
    lemma_covered_bound(items, p, m, n);
    if m > 0 {
        lemma_value_sum(p, items, m - 1);
        lemma_covered_step(items, p, m, n);
    } else {
        lemma_covered_none(items, p, n);
    }
}

/// The counts of a list add up to its length.
pub proof fn law_counts_add_up(p: Seq<(Seq<char>, usize)>, items: Seq<Seq<char>>)
    requires
        counts(p, items),
    ensures
        value_sum(p, p.len() as int) == items.len(),
{
    lemma_value_sum(p, items, p.len() as int);
    lemma_covered_all(items, p, items.len() as int);
}

/// A table counts the first `n` texts.
spec fn tallies(table: Map<Seq<char>, usize>, items: Seq<Seq<char>>, n: int) -> bool {
    forall|s: Seq<char>|
        {
            &&& #[trigger] table.dom().contains(s) <==> occurrences(items, s, n) > 0
            &&& table.dom().contains(s) ==> table[s] == occurrences(items, s, n)
        }
}

fn count_one(table: &mut TextMap<usize>, items: &Vec<String>, n: usize)
    requires
        n < items@.len(),
        tallies(old(table)@, texts(items@), n as int),
    ensures
        tallies(final(table)@, texts(items@), n + 1),
{
    let ghost views = texts(items@);
    let total: usize = items.len();
    let item = &items[n];
    proof {
        lemma_occurrences(views, item@, n as int);
    }
    assert(old(table)@.dom().contains(item@) <==> occurrences(views, item@, n as int) > 0);
    let count: usize = match table.get(item) {
        Some(count) => *count,
        None => 0,
    };
    table.insert(item.clone(), count + 1);
    assert forall|s: Seq<char>|
        {
            &&& #[trigger] table@.dom().contains(s) <==> occurrences(views, s, n + 1) > 0
            &&& table@.dom().contains(s) ==> table@[s] == occurrences(views, s, n + 1)
        } by {
        assert(old(table)@.dom().contains(s) <==> occurrences(views, s, n as int) > 0);
    }
}

/// Counts the texts of a list.
pub fn count_texts(items: &Vec<String>) -> (r: TextMap<usize>)
    ensures
        counts(r.pairs(), texts(items@)),
        forall|s: Seq<char>|
            #[trigger] r@.dom().contains(s) <==> exists|i: int|
                0 <= i < items@.len() && #[trigger] texts(items@)[i] == s,
{
    let ghost views = texts(items@);
    let mut table: TextMap<usize> = TextMap::new();
    let total: usize = items.len();
    let mut i: usize = 0;
    while i < total
        invariant
            i <= total == items@.len(),
            views == texts(items@),
            tallies(table@, views, i as int),
        decreases total - i,
    {
        count_one(&mut table, items, i);
        i = i + 1;
    }
    let entries: usize = table.len();
    proof {
        let p = table.pairs();
        let n = views.len() as int;
        assert forall|k: int| 0 <= k < p.len() implies (#[trigger] p[k]).1 == occurrences(
            views,
            p[k].0,
            n,
        ) && p[k].1 > 0 by {
            lemma_unique_key(p, k);
            assert(table@.dom().contains(p[k].0));
        }
        assert forall|k: int| 0 <= k < views.len() implies has_key(p, #[trigger] views[k]) by {
            lemma_occurrences(views, views[k], n);
            assert(table@.dom().contains(views[k]));
        }
        assert forall|s: Seq<char>|
            #[trigger] table@.dom().contains(s) <==> exists|i: int|
                0 <= i < items@.len() && #[trigger] texts(items@)[i] == s by {
            lemma_occurrences(views, s, n);
        }
    }
    table
}

/// The sum of the counts of a list.
pub fn sum_counts(table: &TextMap<usize>, items: &Vec<String>) -> (r: usize)
    requires
        counts(table.pairs(), texts(items@)),
    ensures
        r == items@.len(),
{
    let ghost views = texts(items@);
    let n: usize = table.len();
    let total: usize = items.len();
    let mut sum: usize = 0;
    let mut i: usize = 0;
    while i < n
        invariant
            i <= n == table.pairs().len(),
            views.len() == total,
            counts(table.pairs(), views),
            sum == value_sum(table.pairs(), i as int),
        decreases n - i,
    {
        proof {
            lemma_value_sum(table.pairs(), views, i + 1);
        }
        sum = sum + *table.value(i);
        i = i + 1;
    }
    proof {
        law_counts_add_up(table.pairs(), views);
    }
    sum
}

} // verus!
