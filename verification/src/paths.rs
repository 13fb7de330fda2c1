//! File system paths as `/`-separated text: components, parents, file stems, joining and order.

use vstd::prelude::*;

use crate::text::{chars_of, concat, concat3, text_range, texts};

verus! {

// ---------------------------------------------------------------------------------------------
// Components
// ---------------------------------------------------------------------------------------------
/// A path that starts at the root.
pub open spec fn absolute(s: Seq<char>) -> bool {
    s.len() > 0 && s[0] == '/'
}

/// A path that starts with a `.` component.
pub open spec fn starts_here(s: Seq<char>) -> bool {
    s.len() > 0 && s[0] == '.' && (s.len() == 1 || s[1] == '/')
}

/// Where the body of a path starts, behind its root or its leading `.`.
pub open spec fn body_start(s: Seq<char>) -> int {
    if absolute(s) || starts_here(s) {
        1
    } else {
        0
    }
}

/// Where the last piece of `s[start..end]` between separators starts.
pub open spec fn piece_start(s: Seq<char>, start: int, end: int) -> int
    decreases end,
{
    if end <= start || end <= 0 {
        start
    } else if s[end - 1] == '/' {
        end
    } else {
        piece_start(s, start, end - 1)
    }
}

/// Where `s[start..end]` ends once the piece that starts at `piece` and its separator are gone.
pub open spec fn cut_before(start: int, piece: int) -> int {
    if piece > start {
        piece - 1
    } else {
        start
    }
}

/// A piece that stands for no component of its own: nothing between separators, or `.`.
pub open spec fn idle_piece(p: Seq<char>) -> bool {
    p.len() == 0 || (p.len() == 1 && p[0] == '.')
}

/// Where `s[start..end]` ends once its trailing idle pieces are gone.
pub open spec fn body_end(s: Seq<char>, start: int, end: int) -> int
    decreases end,
{
    if end <= start || start < 0 || end > s.len() {
        end
    } else {
        let piece = piece_start(s, start, end);
        if start <= piece <= end && idle_piece(s.subrange(piece, end)) {
            body_end(s, start, cut_before(start, piece))
        } else {
            end
        }
    }
}

/// The components of `s[start..end]`, first to last.
pub open spec fn body_pieces(s: Seq<char>, start: int, end: int) -> Seq<Seq<char>>
    decreases end,
    when 0 <= start <= end <= s.len()
    via body_pieces_ends
{
    let last = body_end(s, start, end);
    if last <= start {
        Seq::empty()
    } else {
        let piece = piece_start(s, start, last);
        body_pieces(s, start, cut_before(start, piece)).push(s.subrange(piece, last))
    }
}

#[via_fn]
proof fn body_pieces_ends(s: Seq<char>, start: int, end: int) {
    lemma_body_end(s, start, end);
    lemma_piece_start(s, start, body_end(s, start, end));
}

pub proof fn lemma_piece_start(s: Seq<char>, start: int, end: int)
    requires
        0 <= start <= end <= s.len(),
    ensures
        start <= piece_start(s, start, end) <= end,
        piece_start(s, start, end) > start ==> s[piece_start(s, start, end) - 1] == '/',
    decreases end,
{
    if end > start && s[end - 1] != '/' {
        lemma_piece_start(s, start, end - 1);
    }
}

pub proof fn lemma_body_end(s: Seq<char>, start: int, end: int)
    requires
        0 <= start <= end <= s.len(),
    ensures
        start <= body_end(s, start, end) <= end,
    decreases end,
{
    if end > start {
        let piece = piece_start(s, start, end);
        lemma_piece_start(s, start, end);
        if idle_piece(s.subrange(piece, end)) {
            lemma_body_end(s, start, cut_before(start, piece));
        }
    }
}

/// The components of a path: `/` for the root, `.` for a leading `.`, then the named ones.
/// Repeated separators, trailing separators and later `.` components leave no trace.
pub open spec fn components(s: Seq<char>) -> Seq<Seq<char>> {
    let named = body_pieces(s, body_start(s), s.len() as int);
    if absolute(s) {
        seq![seq!['/']] + named
    } else if starts_here(s) {
        seq![seq!['.']] + named
    } else {
        named
    }
}

/// Two paths are the same where their components are.
pub open spec fn same(a: Seq<char>, b: Seq<char>) -> bool {
    components(a) == components(b)
}

// ---------------------------------------------------------------------------------------------
// Parents, stems and joining
// ---------------------------------------------------------------------------------------------
/// The path without its last component; none for the root and for the empty path.
pub open spec fn parent(s: Seq<char>) -> Option<Seq<char>> {
    let start = body_start(s);
    let last = body_end(s, start, s.len() as int);
    if last > start {
        let cut = cut_before(start, piece_start(s, start, last));
        Some(s.subrange(0, body_end(s, start, cut)))
    } else if starts_here(s) {
        Some(Seq::empty())
    } else {
        None
    }
}

/// The last component, where it names a file or directory.
pub open spec fn file_name(s: Seq<char>) -> Option<Seq<char>> {
    let start = body_start(s);
    let last = body_end(s, start, s.len() as int);
    if last > start {
        let name = s.subrange(piece_start(s, start, last), last);
        if name == seq!['.', '.'] {
            None
        } else {
            Some(name)
        }
    } else {
        None
    }
}

/// The position of the last `.` of a name before `end`, or -1.
pub open spec fn last_dot(name: Seq<char>, end: int) -> int
    decreases end,
{
    if end <= 0 {
        -1
    } else if name[end - 1] == '.' {
        end - 1
    } else {
        last_dot(name, end - 1)
    }
}

/// A name without its extension. A leading `.` starts no extension.
pub open spec fn stem_of(name: Seq<char>) -> Seq<char> {
    let dot = last_dot(name, name.len() as int);
    if dot > 0 {
        name.subrange(0, dot)
    } else {
        name
    }
}

/// The file name without its extension.
pub open spec fn file_stem(s: Seq<char>) -> Option<Seq<char>> {
    match file_name(s) {
        Some(name) => Some(stem_of(name)),
        None => None,
    }
}

/// `b` seen from the directory `a`.
pub open spec fn join(a: Seq<char>, b: Seq<char>) -> Seq<char> {
    if absolute(b) {
        b
    } else if a.len() == 0 || a.last() == '/' {
        a + b
    } else {
        a + seq!['/'] + b
    }
}

/// The directory that holds the path: its parent, or `.` where it has none.
pub open spec fn directory_of(s: Seq<char>) -> Seq<char> {
    match parent(s) {
        Some(p) => p,
        None => seq!['.'],
    }
}

fn find_piece_start(v: &Vec<char>, start: usize, end: usize) -> (r: usize)
    requires
        start <= end <= v@.len(),
    ensures
        r == piece_start(v@, start as int, end as int),
        start <= r <= end,
{
    let mut i: usize = end;
    while i > start && v[i - 1] != '/'
        invariant
            start <= i <= end <= v@.len(),
            piece_start(v@, start as int, end as int) == piece_start(v@, start as int, i as int),
        decreases i,
    {
        i = i - 1;
    }
    i
}

fn find_body_end(v: &Vec<char>, start: usize, end: usize) -> (r: usize)
    requires
        start <= end <= v@.len(),
    ensures
        r == body_end(v@, start as int, end as int),
        start <= r <= end,
{
    let mut last: usize = end;
    while last > start
        invariant
            start <= last <= end <= v@.len(),
            body_end(v@, start as int, end as int) == body_end(v@, start as int, last as int),
        decreases last,
    {
        let piece = find_piece_start(v, start, last);
        if !(piece == last || (last - piece == 1 && v[piece] == '.')) {
            return last;
        }
        last = if piece > start {
            piece - 1
        } else {
            start
        };
    }
    last
}

fn find_body_start(v: &Vec<char>) -> (r: usize)
    ensures
        r == body_start(v@),
        r <= v@.len(),
{
    if v.len() > 0 && (v[0] == '/' || (v[0] == '.' && (v.len() == 1 || v[1] == '/'))) {
        1
    } else {
        0
    }
}

/// Whether the path starts at the root.
pub fn is_absolute(path: &str) -> (r: bool)
    ensures
        r == absolute(path@),
{
    let v = chars_of(path);
    v.len() > 0 && v[0] == '/'
}

/// The components of a path.
pub fn components_of(path: &str) -> (r: Vec<String>)
    ensures
        texts(r@) == components(path@),
{
    let v = chars_of(path);
    let start = find_body_start(&v);
    let mut reversed: Vec<String> = Vec::new();
    let mut end: usize = v.len();
    let ghost named = body_pieces(v@, start as int, v@.len() as int);
    assert(named =~= body_pieces(v@, start as int, end as int) + texts(reversed@).reverse());
    loop
        invariant_except_break
            start <= end <= v@.len(),
            named == body_pieces(v@, start as int, end as int) + texts(reversed@).reverse(),
        ensures
            named == texts(reversed@).reverse(),
        decreases end,
    {
        let last = find_body_end(&v, start, end);
        if last <= start {
            assert(named =~= texts(reversed@).reverse());
            break;
        }
        let piece = find_piece_start(&v, start, last);
        let ghost prior = texts(reversed@);
        reversed.push(text_range(&v, piece, last));
        end = if piece > start {
            piece - 1
        } else {
            start
        };
        proof {
            let p = v@.subrange(piece as int, last as int);
            assert(texts(reversed@) == prior.push(p));
            assert(texts(reversed@).reverse() =~= seq![p] + prior.reverse());
            assert(body_pieces(v@, start as int, end as int).push(p) + prior.reverse()
                =~= body_pieces(v@, start as int, end as int) + (seq![p] + prior.reverse()));
        }
    }
    let mut r: Vec<String> = Vec::new();
    if start > 0 {
        r.push(text_range(&v, 0, 1));
    }
    let ghost head = texts(r@);
    proof {
        if start > 0 {
            assert(v@.subrange(0, 1) == seq![v@[0]]);
            assert(head =~= seq![seq![v@[0]]]);
        }
        assert(texts(r@) =~= head + named.subrange(0, 0));
    }
    let mut i: usize = reversed.len();
    while i > 0
        invariant
            i <= reversed@.len(),
            named == texts(reversed@).reverse(),
            texts(r@) == head + named.subrange(0, reversed@.len() - i),
        decreases i,
    {
        i = i - 1;
        let ghost prior = r@;
        r.push(reversed[i].clone());
        proof {
            let k = reversed@.len() - i - 1;
            assert(named[k] == reversed@[i as int]@);
            assert(texts(r@) == texts(prior).push(named[k]));
            assert(named.subrange(0, k + 1) == named.subrange(0, k).push(named[k]));
            assert(texts(r@) =~= head + named.subrange(0, k + 1));
        }
    }
    assert(named.subrange(0, reversed@.len() as int) == named);
    assert(texts(r@) =~= components(path@));
    r
}

/// Whether two paths have the same components.
pub fn same_path(a: &str, b: &str) -> (r: bool)
    ensures
        r == same(a@, b@),
{
    let x = components_of(a);
    let y = components_of(b);
    same_texts(&x, &y)
}

/// Whether two lists hold the same texts.
pub fn same_texts(x: &Vec<String>, y: &Vec<String>) -> (r: bool)
    ensures
        r == (texts(x@) == texts(y@)),
{
    if x.len() != y.len() {
        assert(texts(x@).len() != texts(y@).len());
        return false;
    }
    let n: usize = x.len();
    let mut i: usize = 0;
    while i < n
        invariant
            i <= n == x@.len(),
            n == y@.len(),
            forall|j: int| 0 <= j < i ==> #[trigger] texts(x@)[j] == texts(y@)[j],
        decreases n - i,
    {
        if x[i] != y[i] {
            assert(texts(x@)[i as int] != texts(y@)[i as int]);
            return false;
        }
        i = i + 1;
    }
    assert(texts(x@) == texts(y@));
    true
}

/// The path without its last component.
pub fn parent_of(path: &str) -> (r: Option<String>)
    ensures
        match r {
            Some(p) => parent(path@) == Some(p@),
            None => parent(path@) is None,
        },
{
    let v = chars_of(path);
    let start = find_body_start(&v);
    let last = find_body_end(&v, start, v.len());
    if last > start {
        let piece = find_piece_start(&v, start, last);
        let cut: usize = if piece > start {
            piece - 1
        } else {
            start
        };
        let end = find_body_end(&v, start, cut);
        Some(text_range(&v, 0, end))
    } else if start > 0 && v[0] == '.' {
        Some(String::new())
    } else {
        None
    }
}

/// The directory that holds the path.
pub fn directory(path: &str) -> (r: String)
    ensures
        r@ == directory_of(path@),
{
    match parent_of(path) {
        Some(p) => p,
        None => {
            proof {
                reveal_strlit(".");
            }
            assert("."@ == seq!['.']);
            ".".to_owned()
        },
    }
}

/// The file name of the path without its extension.
pub fn file_stem_of(path: &str) -> (r: Option<String>)
    ensures
        match r {
            Some(p) => file_stem(path@) == Some(p@),
            None => file_stem(path@) is None,
        },
{
    let v = chars_of(path);
    let start = find_body_start(&v);
    let last = find_body_end(&v, start, v.len());
    if last <= start {
        return None;
    }
    let piece = find_piece_start(&v, start, last);
    let ghost name = v@.subrange(piece as int, last as int);
    if last - piece == 2 && v[piece] == '.' && v[piece + 1] == '.' {
        assert(name == seq!['.', '.']);
        return None;
    }
    assert(name != seq!['.', '.']) by {
        if name == seq!['.', '.'] {
            assert(name.len() == 2);
            assert(name[0] == v@[piece as int] && name[1] == v@[piece + 1]);
        }
    }
    let mut dot: usize = last;
    while dot > piece && v[dot - 1] != '.'
        invariant
            piece <= dot <= last <= v@.len(),
            name == v@.subrange(piece as int, last as int),
            last_dot(name, name.len() as int) == last_dot(name, dot - piece),
        decreases dot,
    {
        assert(name[dot - piece - 1] == v@[dot - 1]);
        dot = dot - 1;
    }
    if dot > piece {
        assert(name[dot - piece - 1] == v@[dot - 1]);
    }
    if dot - piece > 1 {
        assert(name.subrange(0, dot - piece - 1) == v@.subrange(piece as int, dot - 1));
        Some(text_range(&v, piece, dot - 1))
    } else {
        Some(text_range(&v, piece, last))
    }
}

/// `b` seen from the directory `a`.
pub fn join_path(a: &str, b: &str) -> (r: String)
    ensures
        r@ == join(a@, b@),
{
    if is_absolute(b) {
        return b.to_owned();
    }
    let v = chars_of(a);
    if v.len() == 0 || v[v.len() - 1] == '/' {
        concat(a, b)
    } else {
        proof {
            reveal_strlit("/");
        }
        assert("/"@ == seq!['/']);
        concat3(a, "/", b)
    }
}

} // verus!
