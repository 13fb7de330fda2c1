//! The order of texts and maps keyed by text.

use vstd::prelude::*;

use crate::text::chars_of;

verus! {

/// Lexicographic order of texts by the code points of their characters.
pub open spec fn before(a: Seq<char>, b: Seq<char>) -> bool
    decreases a.len(),
{
    if b.len() == 0 {
        false
    } else if a.len() == 0 {
        true
    } else if a[0] != b[0] {
        (a[0] as int) < (b[0] as int)
    } else {
        before(a.subrange(1, a.len() as int), b.subrange(1, b.len() as int))
    }
}

/// No text comes before itself.
pub proof fn lemma_before_irreflexive(a: Seq<char>)
    ensures
        !before(a, a),
    decreases a.len(),
{
    if a.len() > 0 {
        lemma_before_irreflexive(a.subrange(1, a.len() as int));
    }
}

/// The order of texts is transitive.
pub proof fn lemma_before_transitive(a: Seq<char>, b: Seq<char>, c: Seq<char>)
    requires
        before(a, b),
        before(b, c),
    ensures
        before(a, c),
    decreases a.len(),
{
    if a.len() > 0 && a[0] == b[0] && b[0] == c[0] {
        lemma_before_transitive(
            a.subrange(1, a.len() as int),
            b.subrange(1, b.len() as int),
            c.subrange(1, c.len() as int),
        );
    }
}

/// Of two different texts one comes before the other.
pub proof fn lemma_before_total(a: Seq<char>, b: Seq<char>)
    ensures
        a == b || before(a, b) || before(b, a),
    decreases a.len(),
{
    if a.len() > 0 && b.len() > 0 && a[0] == b[0] {
        let x = a.subrange(1, a.len() as int);
        let y = b.subrange(1, b.len() as int);
        lemma_before_total(x, y);
        if x == y {
            assert(a == seq![a[0]] + x);
            assert(b == seq![b[0]] + y);
        }
    } else if a.len() == 0 && b.len() == 0 {
        assert(a == b);
    }
}

/// Where one text stands relative to another.
#[derive(Debug, Clone, Copy, PartialEq, Eq, Structural)]
pub enum Place {
    Before,
    Same,
    After,
}

fn code_point(c: char) -> (n: u32)
    ensures
        n == c as int,
{
    c as u32
}

/// Where `a` stands relative to `b`.
pub fn place(a: &str, b: &str) -> (r: Place)
    ensures
        r == Place::Before <==> before(a@, b@),
        r == Place::After <==> before(b@, a@),
        r == Place::Same <==> a@ == b@,
{
    let x = chars_of(a);
    let y = chars_of(b);
    let n: usize = x.len();
    let m: usize = y.len();
    let mut i: usize = 0;
    assert(x@.subrange(0, n as int) == x@);
    assert(y@.subrange(0, m as int) == y@);
    while i < n && i < m && x[i] == y[i]
        invariant
            i <= n == x@.len(),
            i <= m == y@.len(),
            x@ == a@,
            y@ == b@,
            x@.subrange(0, i as int) == y@.subrange(0, i as int),
            before(a@, b@) == before(x@.subrange(i as int, n as int), y@.subrange(i as int, m as int)),
            before(b@, a@) == before(y@.subrange(i as int, m as int), x@.subrange(i as int, n as int)),
        decreases n - i,
    {
        proof {
            let p = x@.subrange(i as int, n as int);
            let q = y@.subrange(i as int, m as int);
            assert(p.subrange(1, p.len() as int) == x@.subrange(i + 1, n as int));
            assert(q.subrange(1, q.len() as int) == y@.subrange(i + 1, m as int));
            assert(p[0] == q[0]);
            assert(x@.subrange(0, i + 1) == x@.subrange(0, i as int).push(x@[i as int]));
            assert(y@.subrange(0, i + 1) == y@.subrange(0, i as int).push(y@[i as int]));
        }
        i = i + 1;
    }
    proof {
        lemma_before_irreflexive(a@);
    }
    if i == n && i == m {
        assert(x@ == y@);
        Place::Same
    } else if i == n {
        Place::Before
    } else if i == m {
        Place::After
    } else {
        assert(a@[i as int] != b@[i as int]);
        assert(x@.subrange(i as int, n as int)[0] == x@[i as int]);
        assert(y@.subrange(i as int, m as int)[0] == y@[i as int]);
        if code_point(x[i]) < code_point(y[i]) {
            Place::Before
        } else {
            Place::After
        }
    }
}

} // verus!
