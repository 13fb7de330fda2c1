//! The order of paths by their components, and sets of paths as ascending lists.

use vstd::prelude::*;

use crate::order::{
    before, lemma_before_irreflexive, lemma_before_total, lemma_before_transitive, place, Place,
};
use crate::paths::{components, components_of, same};
use crate::text::{same_text, texts};

verus! {

// ---------------------------------------------------------------------------------------------
// The order
// ---------------------------------------------------------------------------------------------
/// The rank of a component: the root, a leading `.`, `..`, then names.
pub open spec fn rank(piece: Seq<char>) -> int {
    if piece == "/"@ {
        0
    } else if piece == "."@ {
        1
    } else if piece == ".."@ {
        2
    } else {
        3
    }
}

/// The order of components: by rank, names among themselves by their characters.
pub open spec fn piece_before(a: Seq<char>, b: Seq<char>) -> bool {
    rank(a) < rank(b) || (rank(a) == 3 && rank(b) == 3 && before(a, b))
}

/// Lexicographic order of lists of components.
pub open spec fn pieces_before(a: Seq<Seq<char>>, b: Seq<Seq<char>>) -> bool
    decreases a.len(),
{
    if b.len() == 0 {
        false
    } else if a.len() == 0 {
        true
    } else if a[0] != b[0] {
        piece_before(a[0], b[0])
    } else {
        pieces_before(a.subrange(1, a.len() as int), b.subrange(1, b.len() as int))
    }
}

/// The order of paths.
pub open spec fn path_before(a: Seq<char>, b: Seq<char>) -> bool {
    pieces_before(components(a), components(b))
}

proof fn lemma_piece_transitive(a: Seq<char>, b: Seq<char>, c: Seq<char>)
    requires
        piece_before(a, b),
        piece_before(b, c),
    ensures
        piece_before(a, c),
        a != c,
{
    if rank(a) == 3 {
        lemma_before_transitive(a, b, c);
        lemma_before_irreflexive(a);
    }
}

pub proof fn lemma_pieces_irreflexive(a: Seq<Seq<char>>)
    ensures
        !pieces_before(a, a),
    decreases a.len(),
{
    if a.len() > 0 {
        lemma_pieces_irreflexive(a.subrange(1, a.len() as int));
    }
}

proof fn lemma_pieces_transitive(a: Seq<Seq<char>>, b: Seq<Seq<char>>, c: Seq<Seq<char>>)
    requires
        pieces_before(a, b),
        pieces_before(b, c),
    ensures
        pieces_before(a, c),
    decreases a.len(),
{
    if a.len() > 0 {
        if a[0] == b[0] && b[0] == c[0] {
            lemma_pieces_transitive(
                a.subrange(1, a.len() as int),
                b.subrange(1, b.len() as int),
                c.subrange(1, c.len() as int),
            );
        } else if a[0] != b[0] && b[0] != c[0] {
            lemma_piece_transitive(a[0], b[0], c[0]);
        }
    }
}

proof fn lemma_pieces_total(a: Seq<Seq<char>>, b: Seq<Seq<char>>)
    ensures
        a == b || pieces_before(a, b) || pieces_before(b, a),
    decreases a.len(),
{
    if a.len() > 0 && b.len() > 0 {
        if a[0] == b[0] {
            let x = a.subrange(1, a.len() as int);
            let y = b.subrange(1, b.len() as int);
            lemma_pieces_total(x, y);
            if x == y {
                assert(a =~= seq![a[0]] + x);
                assert(b =~= seq![b[0]] + y);
            }
        } else {
            lemma_before_total(a[0], b[0]);
        }
    } else if a.len() == 0 && b.len() == 0 {
        assert(a =~= b);
    }
}

fn piece_rank(piece: &str) -> (r: u8)
    ensures
        r == rank(piece@),
{
    if same_text(piece, "/") {
        0
    } else if same_text(piece, ".") {
        1
    } else if same_text(piece, "..") {
        2
    } else {
        3
    }
}

fn piece_place(a: &str, b: &str) -> (r: Place)
    ensures
        r == Place::Before <==> a@ != b@ && piece_before(a@, b@),
        r == Place::After <==> a@ != b@ && piece_before(b@, a@),
        r == Place::Same <==> a@ == b@,
{
    proof {
        lemma_before_irreflexive(a@);
        lemma_before_irreflexive(b@);
        lemma_before_total(a@, b@);
    }
    let x = piece_rank(a);
    let y = piece_rank(b);
    if x < y {
        Place::Before
    } else if y < x {
        Place::After
    } else if x == 3 {
        place(a, b)
    } else {
        Place::Same
    }
}

/// Where the path `a` stands relative to `b`.
pub fn path_place(a: &str, b: &str) -> (r: Place)
    ensures
        r == Place::Before <==> path_before(a@, b@),
        r == Place::After <==> path_before(b@, a@),
        r == Place::Same <==> same(a@, b@),
{
    let x = components_of(a);
    let y = components_of(b);
    let ghost p = components(a@);
    let ghost q = components(b@);
    let n: usize = x.len();
    let m: usize = y.len();
    let mut i: usize = 0;
    assert(p.subrange(0, n as int) =~= p);
    assert(q.subrange(0, m as int) =~= q);
    assert(texts(x@).len() == x@.len() && texts(y@).len() == y@.len());
    while i < n && i < m
        invariant
            i <= n == x@.len(),
            i <= m == y@.len(),
            p == components(a@),
            q == components(b@),
            texts(x@) == p,
            texts(y@) == q,
            p.len() == n,
            q.len() == m,
            p.subrange(0, i as int) == q.subrange(0, i as int),
            pieces_before(p, q) == pieces_before(
                p.subrange(i as int, n as int),
                q.subrange(i as int, m as int),
            ),
            pieces_before(q, p) == pieces_before(
                q.subrange(i as int, m as int),
                p.subrange(i as int, n as int),
            ),
        decreases n - i,
    {
        let ghost u = p.subrange(i as int, n as int);
        let ghost v = q.subrange(i as int, m as int);
        assert(u[0] == x@[i as int]@ && v[0] == y@[i as int]@);
        match piece_place(&x[i], &y[i]) {
            Place::Before => {
                proof {
                    lemma_pieces_total(p, q);
                    assert(pieces_before(p, q));
                    if pieces_before(q, p) {
                        lemma_pieces_transitive(p, q, p);
                    }
                    lemma_pieces_irreflexive(p);
                }
                return Place::Before;
            },
            Place::After => {
                proof {
                    assert(pieces_before(q, p));
                    if pieces_before(p, q) {
                        lemma_pieces_transitive(p, q, p);
                    }
                    lemma_pieces_irreflexive(p);
                }
                return Place::After;
            },
            Place::Same => {},
        }
        proof {
            assert(u.subrange(1, u.len() as int) =~= p.subrange(i + 1, n as int));
            assert(v.subrange(1, v.len() as int) =~= q.subrange(i + 1, m as int));
            assert(p.subrange(0, i + 1) =~= p.subrange(0, i as int).push(p[i as int]));
            assert(q.subrange(0, i + 1) =~= q.subrange(0, i as int).push(q[i as int]));
        }
        i = i + 1;
    }
    proof {
        lemma_pieces_irreflexive(p);
    }
    if i == n && i == m {
        assert(p =~= q);
        Place::Same
    } else if i == n {
        Place::Before
    } else {
        Place::After
    }
}

// ---------------------------------------------------------------------------------------------
// Sets of paths
// ---------------------------------------------------------------------------------------------
/// Paths in strictly ascending order.
pub open spec fn ascending_paths(r: Seq<Seq<char>>) -> bool {
    forall|i: int, j: int| 0 <= i < j < r.len() ==> path_before(#[trigger] r[i], #[trigger] r[j])
}

/// No earlier path of the list is the same as the one at position `k`.
pub open spec fn first_of(paths: Seq<Seq<char>>, k: int) -> bool {
    forall|j: int| 0 <= j < k ==> !same(#[trigger] paths[j], paths[k])
}

/// Whether a list holds the same path.
pub open spec fn holds(r: Seq<Seq<char>>, path: Seq<char>) -> bool {
    exists|i: int| 0 <= i < r.len() && same(#[trigger] r[i], path)
}

/// Whether `p` is the first spelling of its path in a list.
pub open spec fn first_spelling(paths: Seq<Seq<char>>, p: Seq<char>) -> bool {
    exists|k: int| 0 <= k < paths.len() && #[trigger] paths[k] == p && first_of(paths, k)
}

/// The paths of a list in ascending order, each once, in its first spelling.
pub open spec fn path_set(paths: Seq<Seq<char>>, r: Seq<Seq<char>>) -> bool {
    &&& ascending_paths(r)
    &&& forall|i: int| 0 <= i < r.len() ==> first_spelling(paths, #[trigger] r[i])
    &&& forall|k: int| 0 <= k < paths.len() ==> holds(r, #[trigger] paths[k])
}

/// Whether a list holds the same path.
pub fn holds_path(v: &Vec<String>, path: &str) -> (r: bool)
    ensures
        r == holds(texts(v@), path@),
{
    let mut i: usize = 0;
    while i < v.len()
        invariant
            i <= v@.len(),
            forall|j: int| 0 <= j < i ==> !same(#[trigger] texts(v@)[j], path@),
        decreases v@.len() - i,
    {
        if path_place(&v[i], path) == Place::Same {
            assert(same(texts(v@)[i as int], path@));
            return true;
        }
        i = i + 1;
    }
    false
}

/// The position of the first path of an ascending list that does not come before `path`.
fn path_slot(v: &Vec<String>, path: &str) -> (r: usize)
    requires
        ascending_paths(texts(v@)),
        !holds(texts(v@), path@),
    ensures
        r <= v@.len(),
        forall|j: int| 0 <= j < r ==> path_before(#[trigger] texts(v@)[j], path@),
        forall|j: int| r <= j < v@.len() ==> path_before(path@, #[trigger] texts(v@)[j]),
{
    let mut i: usize = 0;
    while i < v.len()
        invariant
            i <= v@.len(),
            ascending_paths(texts(v@)),
            !holds(texts(v@), path@),
            forall|j: int| 0 <= j < i ==> path_before(#[trigger] texts(v@)[j], path@),
        decreases v@.len() - i,
    {
        match path_place(&v[i], path) {
            Place::Before => {},
            Place::Same => {
                assert(same(texts(v@)[i as int], path@));
            },
            Place::After => {
                assert forall|j: int| i <= j < v@.len() implies path_before(
                    path@,
                    #[trigger] texts(v@)[j],
                ) by {
                    if j > i {
                        lemma_pieces_transitive(
                            components(path@),
                            components(texts(v@)[i as int]),
                            components(texts(v@)[j]),
                        );
                    }
                }
                return i;
            },
        }
        i = i + 1;
    }
    i
}

/// The paths of a list in ascending order, each once, in its first spelling.
pub fn sorted_paths(paths: &Vec<String>) -> (r: Vec<String>)
    ensures
        path_set(texts(paths@), texts(r@)),
{
    let ghost all = texts(paths@);
    let mut r: Vec<String> = Vec::new();
    let mut k: usize = 0;
    while k < paths.len()
        invariant
            k <= paths@.len(),
            all == texts(paths@),
            ascending_paths(texts(r@)),
            forall|i: int| 0 <= i < r@.len() ==> first_spelling(all, #[trigger] texts(r@)[i]),
            forall|j: int| 0 <= j < k ==> holds(texts(r@), #[trigger] all[j]),
        decreases paths@.len() - k,
    {
        if !holds_path(&r, &paths[k]) {
            let ghost old_r = texts(r@);
            let ghost p = all[k as int];
            let slot = path_slot(&r, &paths[k]);
            r.insert(slot, paths[k].clone());
            proof {
                let new_r = texts(r@);
                assert(new_r =~= old_r.insert(slot as int, p));
                assert(first_of(all, k as int)) by {
                    assert forall|j: int| 0 <= j < k implies !same(#[trigger] all[j], p) by {
                        assert(holds(old_r, all[j]));
                        if same(all[j], p) {
                            let i = choose|i: int|
                                0 <= i < old_r.len() && same(#[trigger] old_r[i], all[j]);
                            assert(same(old_r[i], p));
                        }
                    }
                }
                assert(first_spelling(all, p));
                assert forall|i: int| 0 <= i < new_r.len() implies first_spelling(
                    all,
                    #[trigger] new_r[i],
                ) by {
                    if i < slot {
                        assert(new_r[i] == old_r[i]);
                    } else if i > slot {
                        assert(new_r[i] == old_r[i - 1]);
                    }
                }
                assert forall|i: int, j: int| 0 <= i < j < new_r.len() implies path_before(
                    #[trigger] new_r[i],
                    #[trigger] new_r[j],
                ) by {
                    let a = if i < slot {
                        i
                    } else {
                        i - 1
                    };
                    let b = if j < slot {
                        j
                    } else {
                        j - 1
                    };
                    if i == slot {
                        assert(new_r[j] == old_r[b]);
                    } else if j == slot {
                        assert(new_r[i] == old_r[a]);
                    } else {
                        assert(path_before(old_r[a], old_r[b]));
                    }
                }
                assert forall|j: int| 0 <= j < k + 1 implies holds(new_r, #[trigger] all[j]) by {
                    if j < k {
                        assert(holds(old_r, all[j]));
                        let i = choose|i: int|
                            0 <= i < old_r.len() && same(#[trigger] old_r[i], all[j]);
                        let at = if i < slot {
                            i
                        } else {
                            i + 1
                        };
                        assert(new_r[at] == old_r[i]);
                    } else {
                        assert(new_r[slot as int] == p);
                    }
                }
            }
        }
        k = k + 1;
    }
    r
}

/// Whether the paths of two lists are the same, one by one.
pub open spec fn same_lists(a: Seq<Seq<char>>, b: Seq<Seq<char>>) -> bool {
    a.len() == b.len() && forall|i: int| 0 <= i < a.len() ==> same(#[trigger] a[i], b[i])
}

/// The paths of one list that another does not hold.
pub open spec fn missing_from(a: Seq<Seq<char>>, b: Seq<Seq<char>>) -> Seq<Seq<char>> {
    a.filter(|p: Seq<char>| !holds(b, p))
}

/// The paths of one list that another does not hold, in the order of the first.
pub fn paths_not_in(a: &Vec<String>, b: &Vec<String>) -> (r: Vec<String>)
    ensures
        texts(r@) == missing_from(texts(a@), texts(b@)),
{
    let ghost x = texts(a@);
    let ghost y = texts(b@);
    let ghost keep = |p: Seq<char>| !holds(y, p);
    let mut r: Vec<String> = Vec::new();
    let mut i: usize = 0;
    reveal(Seq::filter);
    assert(x.subrange(0, 0) =~= Seq::empty());
    assert(texts(r@) =~= x.subrange(0, 0).filter(keep));
    while i < a.len()
        invariant
            i <= a@.len(),
            x == texts(a@),
            y == texts(b@),
            keep == (|p: Seq<char>| !holds(y, p)),
            texts(r@) == x.subrange(0, i as int).filter(keep),
        decreases a@.len() - i,
    {
        let ghost prior = texts(r@);
        proof {
            let s = x.subrange(0, i + 1);
            assert(s.drop_last() =~= x.subrange(0, i as int));
            assert(s.last() == x[i as int]);
            reveal(Seq::filter);
        }
        if !holds_path(b, &a[i]) {
            r.push(a[i].clone());
            assert(texts(r@) =~= prior.push(x[i as int]));
        }
        i = i + 1;
    }
    assert(x.subrange(0, x.len() as int) =~= x);
    r
}

/// Paths are ordered by their first components that differ; a path comes before those below it. The
/// root comes before a leading `.`, that before `..`, and that before all names.
pub proof fn law_paths_in_order(
    head: Seq<Seq<char>>,
    a: Seq<char>,
    b: Seq<char>,
    x: Seq<Seq<char>>,
    y: Seq<Seq<char>>,
)
    ensures
        pieces_before(head, head.push(b) + y),
        !pieces_before(head.push(b) + y, head),
        a != b && a == "/"@ ==> pieces_before(head.push(a) + x, head.push(b) + y),
        a == "."@ && b != "/"@ && b != "."@ ==> pieces_before(head.push(a) + x, head.push(b) + y),
        a == ".."@ && b != "/"@ && b != "."@ && b != ".."@ ==> pieces_before(
            head.push(a) + x,
            head.push(b) + y,
        ),
        a != b && a != "/"@ && a != "."@ && a != ".."@ && b != "/"@ && b != "."@ && b != ".."@ ==> (
        pieces_before(head.push(a) + x, head.push(b) + y) <==> before(a, b)),
    decreases head.len(),
{
    reveal_strlit("/");
    reveal_strlit(".");
    reveal_strlit("..");
    assert("/"@[0] != "."@[0]);
    assert("."@.len() == 1 && ".."@.len() == 2);
    let p = head.push(a) + x;
    let q = head.push(b) + y;
    if head.len() > 0 {
        let rest = head.subrange(1, head.len() as int);
        law_paths_in_order(rest, a, b, x, y);
        assert(p.subrange(1, p.len() as int) =~= rest.push(a) + x);
        assert(q.subrange(1, q.len() as int) =~= rest.push(b) + y);
        assert(p[0] == head[0] && q[0] == head[0]);
    } else {
        assert(p[0] == a && q[0] == b);
    }
}

/// The order of paths is that of their components.
pub proof fn law_paths_are_ordered_by_components(a: Seq<char>, b: Seq<char>)
    ensures
        path_before(a, b) <==> pieces_before(components(a), components(b)),
        !path_before(a, a),
        !same(a, b) ==> path_before(a, b) || path_before(b, a),
{
    lemma_pieces_irreflexive(components(a));
    lemma_pieces_total(components(a), components(b));
}

/// A list holds a path exactly where one of its paths is the same, and what is missing from it are
/// the paths that it does not hold.
pub proof fn law_missing_paths(a: Seq<Seq<char>>, b: Seq<Seq<char>>, p: Seq<char>)
    ensures
        holds(b, p) <==> exists|i: int|
            0 <= i < b.len() && components(#[trigger] b[i]) == components(p),
        missing_from(a, b).contains(p) <==> a.contains(p) && !holds(b, p),
{
    let keep = |q: Seq<char>| !holds(b, q);
    let r = missing_from(a, b);
    if a.contains(p) && !holds(b, p) {
        let i = choose|i: int| 0 <= i < a.len() && a[i] == p;
        a.lemma_filter_contains(keep, i);
    }
    if r.contains(p) {
        a.lemma_filter_contains_rev(keep, p);
        let i = choose|i: int| 0 <= i < r.len() && r[i] == p;
        a.lemma_filter_pred(keep, i);
    }
}

} // verus!
