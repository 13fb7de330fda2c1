//! What joining a directory and a name does to components, parents and file names.

use vstd::prelude::*;

use crate::paths::{
    absolute, body_end, body_pieces, body_start, components, cut_before, directory_of, file_name,
    idle_piece, join, last_dot, lemma_body_end, lemma_piece_start, parent, piece_start, same,
    starts_here, stem_of,
};

verus! {

/// A text that can name a file in a directory: one component that is neither `.` nor `..`.
pub open spec fn plain_name(name: Seq<char>) -> bool {
    &&& name.len() > 0
    &&& no_separator(name)
    &&& name != seq!['.']
    &&& name != seq!['.', '.']
}

/// A text without separators.
pub open spec fn no_separator(s: Seq<char>) -> bool {
    forall|i: int| 0 <= i < s.len() ==> #[trigger] s[i] != '/'
}

proof fn lemma_piece_has_no_separator(s: Seq<char>, start: int, end: int)
    requires
        0 <= start <= end <= s.len(),
    ensures
        forall|i: int| piece_start(s, start, end) <= i < end ==> #[trigger] s[i] != '/',
    decreases end,
{
    if end > start && s[end - 1] != '/' {
        lemma_piece_has_no_separator(s, start, end - 1);
        assert forall|i: int| piece_start(s, start, end) <= i < end implies #[trigger] s[i]
            != '/' by {
            if i < end - 1 {
                assert(s[i] != '/');
            }
        }
    }
}

/// Going back from `end` over characters that separate nothing leads to `piece`.
proof fn lemma_piece_start_at(s: Seq<char>, start: int, piece: int, end: int)
    requires
        0 <= start <= piece <= end <= s.len(),
        forall|i: int| piece <= i < end ==> #[trigger] s[i] != '/',
        piece > start ==> s[piece - 1] == '/',
    ensures
        piece_start(s, start, end) == piece,
    decreases end - piece,
{
    if piece < end {
        assert(s[end - 1] != '/');
        lemma_piece_start_at(s, start, piece, end - 1);
    }
}

proof fn lemma_same_piece_start(s: Seq<char>, t: Seq<char>, start: int, end: int)
    requires
        0 <= start <= end <= s.len(),
        end <= t.len(),
        forall|i: int| 0 <= i < end ==> #[trigger] s[i] == t[i],
    ensures
        piece_start(s, start, end) == piece_start(t, start, end),
    decreases end,
{
    if end > start {
        assert(s[end - 1] == t[end - 1]);
        lemma_same_piece_start(s, t, start, end - 1);
    }
}

proof fn lemma_same_body_end(s: Seq<char>, t: Seq<char>, start: int, end: int)
    requires
        0 <= start <= end <= s.len(),
        end <= t.len(),
        forall|i: int| 0 <= i < end ==> #[trigger] s[i] == t[i],
    ensures
        body_end(s, start, end) == body_end(t, start, end),
    decreases end,
{
    if end > start {
        let piece = piece_start(s, start, end);
        lemma_same_piece_start(s, t, start, end);
        lemma_piece_start(s, start, end);
        assert(s.subrange(piece, end) =~= t.subrange(piece, end));
        if idle_piece(s.subrange(piece, end)) {
            lemma_same_body_end(s, t, start, cut_before(start, piece));
        }
    }
}

proof fn lemma_same_body_pieces(s: Seq<char>, t: Seq<char>, start: int, end: int)
    requires
        0 <= start <= end <= s.len(),
        end <= t.len(),
        forall|i: int| 0 <= i < end ==> #[trigger] s[i] == t[i],
    ensures
        body_pieces(s, start, end) == body_pieces(t, start, end),
    decreases end,
{
    let last = body_end(s, start, end);
    lemma_same_body_end(s, t, start, end);
    lemma_body_end(s, start, end);
    if last > start {
        let piece = piece_start(s, start, last);
        lemma_same_piece_start(s, t, start, last);
        lemma_piece_start(s, start, last);
        assert(s.subrange(piece, last) =~= t.subrange(piece, last));
        lemma_same_body_pieces(s, t, start, cut_before(start, piece));
    }
}

/// Trailing idle pieces are gone for good.
proof fn lemma_body_end_stays(s: Seq<char>, start: int, end: int)
    requires
        0 <= start <= end <= s.len(),
    ensures
        body_end(s, start, body_end(s, start, end)) == body_end(s, start, end),
    decreases end,
{
    lemma_body_end(s, start, end);
    if end > start {
        let piece = piece_start(s, start, end);
        lemma_piece_start(s, start, end);
        if idle_piece(s.subrange(piece, end)) {
            lemma_body_end_stays(s, start, cut_before(start, piece));
        }
    }
}

/// What stands before a name in a joined path.
pub open spec fn joining(dir: Seq<char>) -> Seq<char> {
    if dir.len() == 0 || dir.last() == '/' {
        dir
    } else {
        dir + seq!['/']
    }
}

/// A name joined to a directory is its last component.
pub proof fn lemma_join_components(dir: Seq<char>, name: Seq<char>)
    requires
        plain_name(name),
    ensures
        components(join(dir, name)) == components(dir).push(name),
        join(dir, name) == joining(dir) + name,
{
    let s = join(dir, name);
    let lead = joining(dir);
    assert(name[0] != '/');
    assert(s =~= lead + name);
    let k = lead.len() as int;
    let m = s.len() as int;
    let start = body_start(s);
    let n = dir.len() as int;
    assert forall|i: int| k <= i < m implies #[trigger] s[i] != '/' by {
        assert(s[i] == name[i - k]);
    }
    assert forall|i: int| 0 <= i < n implies #[trigger] s[i] == dir[i] by {}
    if name.len() == 1 {
        assert(name[0] != '.') by {
            if name[0] == '.' {
                assert(name =~= seq!['.']);
            }
        }
    } else {
        assert(name[1] != '/');
    }
    if n > 0 {
        assert(s[k - 1] == '/');
        assert(s[0] == dir[0]);
    } else {
        assert(s =~= name);
    }
    assert(absolute(s) == absolute(dir));
    assert(starts_here(s) == starts_here(dir));
    assert(start == body_start(dir));
    assert(start <= k);
    lemma_piece_start_at(s, start, k, m);
    assert(s.subrange(k, m) =~= name);
    assert(!idle_piece(name));
    assert(body_end(s, start, m) == m);
    let cut = cut_before(start, k);
    assert(body_pieces(s, start, m) == body_pieces(s, start, cut).push(name));
    if k > start {
        assert(n >= start);
        if lead.len() > dir.len() {
            assert(cut == n);
            lemma_same_body_pieces(s, dir, start, n);
        } else {
            assert(cut == n - 1);
            lemma_same_body_pieces(s, dir, start, n - 1);
            assert(dir[n - 1] == '/');
            assert(piece_start(dir, start, n) == n);
            assert(idle_piece(dir.subrange(n, n)));
            assert(body_end(dir, start, n) == body_end(dir, start, n - 1));
            assert(body_pieces(dir, start, n) == body_pieces(dir, start, n - 1));
        }
    } else {
        assert(n == start);
    }
    assert(body_pieces(s, start, cut) == body_pieces(dir, start, n));
    assert(components(s) =~= components(dir).push(name));
}

/// The parent of a path has all its components but the last.
pub proof fn lemma_parent_components(s: Seq<char>)
    requires
        parent(s) is Some,
    ensures
        components(s).len() > 0,
        components(parent(s)->0) == components(s).drop_last(),
{
    let start = body_start(s);
    let n = s.len() as int;
    let last = body_end(s, start, n);
    lemma_body_end(s, start, n);
    let p = parent(s)->0;
    if last > start {
        let piece = piece_start(s, start, last);
        lemma_piece_start(s, start, last);
        let cut = cut_before(start, piece);
        let e = body_end(s, start, cut);
        lemma_body_end(s, start, cut);
        lemma_body_end_stays(s, start, cut);
        assert(p == s.subrange(0, e));
        if start == 1 {
            assert(p[0] == s[0]);
            if e > 1 {
                assert(p[1] == s[1]);
            }
        } else if e > 0 {
            assert(p[0] == s[0]);
            if e == 1 {
                if s[0] == '.' {
                    assert(piece_start(s, 0, 0) == 0);
                    assert(piece_start(s, 0, 1) == 0);
                    assert(idle_piece(s.subrange(0, 1)));
                    assert(body_end(s, 0, 0) == 0);
                    assert(body_end(s, 0, 1) == 0);
                }
            } else {
                assert(p[1] == s[1]);
            }
        }
        assert(absolute(p) == absolute(s));
        assert(starts_here(p) == starts_here(s));
        assert forall|i: int| 0 <= i < e implies #[trigger] s[i] == p[i] by {}
        lemma_same_body_pieces(s, p, start, e);
        assert(body_pieces(s, start, e) == body_pieces(s, start, cut));
        assert(body_pieces(s, start, n) == body_pieces(s, start, cut).push(
            s.subrange(piece, last),
        ));
        assert(components(s).drop_last() =~= components(p));
    } else {
        assert(body_pieces(s, start, n) =~= Seq::empty());
        assert(components(s) =~= seq![seq!['.']]);
        assert(components(p) =~= Seq::empty());
        assert(components(s).drop_last() =~= Seq::empty());
    }
}

/// A path whose last component is a name has that file name, and has a parent.
pub proof fn lemma_last_component(s: Seq<char>, name: Seq<char>)
    requires
        plain_name(name),
        components(s).len() > 0,
        components(s).last() == name,
    ensures
        file_name(s) == Some(name),
        parent(s) is Some,
{
    let start = body_start(s);
    let n = s.len() as int;
    let last = body_end(s, start, n);
    lemma_body_end(s, start, n);
    if last > start {
        let piece = piece_start(s, start, last);
        lemma_piece_start(s, start, last);
        assert(body_pieces(s, start, n).last() == s.subrange(piece, last));
        assert(components(s).last() == s.subrange(piece, last));
    } else {
        assert(body_pieces(s, start, n) =~= Seq::empty());
        assert(seq!['/'][0] == '/');
        assert(name[0] != '/');
        assert(components(s).last() == seq!['/'] || components(s).last() == seq!['.']);
    }
}

/// A name joined to a directory stands in that directory, under that name.
pub proof fn law_joined_names_stand_in_their_directory(dir: Seq<char>, name: Seq<char>)
    requires
        plain_name(name),
    ensures
        file_name(join(dir, name)) == Some(name),
        parent(join(dir, name)) is Some,
        same(directory_of(join(dir, name)), dir),
{
    let s = join(dir, name);
    lemma_join_components(dir, name);
    lemma_last_component(s, name);
    lemma_parent_components(s);
    assert(components(dir).push(name).drop_last() =~= components(dir));
}

/// A file name holds no separator, and is neither empty nor `.` nor `..`.
pub proof fn lemma_file_name(s: Seq<char>)
    requires
        file_name(s) is Some,
    ensures
        plain_name(file_name(s)->0),
{
    let start = body_start(s);
    let n = s.len() as int;
    let last = body_end(s, start, n);
    lemma_body_end(s, start, n);
    lemma_body_end_stays(s, start, n);
    let piece = piece_start(s, start, last);
    lemma_piece_start(s, start, last);
    lemma_piece_has_no_separator(s, start, last);
    let name = s.subrange(piece, last);
    if idle_piece(name) {
        lemma_body_end(s, start, cut_before(start, piece));
        assert(body_end(s, start, last) == body_end(s, start, cut_before(start, piece)));
    }
    assert forall|i: int| 0 <= i < name.len() implies #[trigger] name[i] != '/' by {
        assert(name[i] == s[piece + i]);
    }
}

/// Behind its last `.` a text holds none.
proof fn lemma_last_dot(name: Seq<char>, end: int)
    requires
        0 <= end <= name.len(),
    ensures
        -1 <= last_dot(name, end) < end || (end == 0 && last_dot(name, end) == -1),
        forall|i: int| last_dot(name, end) < i < end ==> #[trigger] name[i] != '.',
        last_dot(name, end) >= 0 ==> name[last_dot(name, end)] == '.',
    decreases end,
{
    if end > 0 && name[end - 1] != '.' {
        lemma_last_dot(name, end - 1);
    }
}

/// No file name is its own stem followed by an extension that holds a `.`.
pub proof fn lemma_stem_with_long_extension(name: Seq<char>, extension: Seq<char>)
    requires
        extension.contains('.'),
    ensures
        stem_of(name) + seq!['.'] + extension != name,
        stem_of(name).len() <= name.len(),
{
    let n = name.len() as int;
    lemma_last_dot(name, n);
    let dot = last_dot(name, n);
    let other = stem_of(name) + seq!['.'] + extension;
    if other == name {
        assert(other.len() == stem_of(name).len() + 1 + extension.len());
        if dot > 0 {
            let i = choose|i: int| 0 <= i < extension.len() && extension[i] == '.';
            assert(other[dot + 1 + i] == '.');
            assert(name[dot + 1 + i] != '.');
        }
    }
}

/// A stem has no separator where its name has none, and some characters.
pub proof fn lemma_stem(name: Seq<char>)
    requires
        plain_name(name),
    ensures
        no_separator(stem_of(name)),
        stem_of(name).len() > 0,
{
    lemma_last_dot(name, name.len() as int);
    let stem = stem_of(name);
    assert forall|i: int| 0 <= i < stem.len() implies #[trigger] stem[i] != '/' by {
        assert(stem[i] == name[i]);
    }
}

/// The root has one component, a leading `.` one of its own, and the empty path none.
pub proof fn law_first_components()
    ensures
        components(seq!['/']) == seq![seq!['/']],
        components(seq!['.']) == seq![seq!['.']],
        components(Seq::empty()) == Seq::<Seq<char>>::empty(),
{
    let root = seq!['/'];
    let here = seq!['.'];
    let none = Seq::<char>::empty();
    assert(body_end(root, 1, 1) == 1);
    assert(body_end(here, 1, 1) == 1);
    assert(body_end(none, 0, 0) == 0);
    assert(body_pieces(root, 1, 1) =~= Seq::empty());
    assert(body_pieces(here, 1, 1) =~= Seq::empty());
    assert(body_pieces(none, 0, 0) =~= Seq::empty());
    assert(components(root) =~= seq![seq!['/']]);
    assert(components(here) =~= seq![seq!['.']]);
    assert(components(none) =~= Seq::empty());
}

/// A name below a directory adds itself to the components of the directory, so that two such paths
/// are the same exactly where their directories and their names are.
pub proof fn law_names_are_components(a: Seq<char>, x: Seq<char>, b: Seq<char>, y: Seq<char>)
    requires
        plain_name(x),
        plain_name(y),
    ensures
        components(join(a, x)) == components(a).push(x),
        same(join(a, x), join(b, y)) <==> same(a, b) && x == y,
{
    lemma_join_components(a, x);
    lemma_join_components(b, y);
    let p = components(a).push(x);
    let q = components(b).push(y);
    if p == q {
        assert(p.last() == q.last());
        assert(p.drop_last() =~= components(a));
        assert(q.drop_last() =~= components(b));
    }
}

/// A separator at the end of a path does not count, nor do more of them.
pub proof fn law_trailing_separators_do_not_count(s: Seq<char>)
    requires
        s.len() > 0,
    ensures
        same(s.push('/'), s),
{
    let t = s.push('/');
    let n = s.len() as int;
    let start = body_start(s);
    assert(t[0] == s[0]);
    if n > 1 {
        assert(t[1] == s[1]);
    }
    assert(body_start(t) == start);
    assert(piece_start(t, start, n + 1) == n + 1);
    assert(t.subrange(n + 1, n + 1).len() == 0);
    assert(body_end(t, start, n + 1) == body_end(t, start, n));
    assert forall|i: int| 0 <= i < n implies #[trigger] s[i] == t[i] by {}
    lemma_same_body_end(s, t, start, n);
    lemma_same_body_pieces(s, t, start, n);
    assert(body_pieces(t, start, n + 1) == body_pieces(t, start, n));
    assert(components(t) =~= components(s));
}

/// A `.` below a directory does not count.
#[verifier::rlimit(50)]
pub proof fn law_idle_pieces_do_not_count(s: Seq<char>)
    requires
        s.len() > 0,
    ensures
        same(s + seq!['/', '.'], s),
{
    let t = s + seq!['/', '.'];
    let n = s.len() as int;
    let start = body_start(s);
    assert(t[0] == s[0]);
    if n > 1 {
        assert(t[1] == s[1]);
    }
    assert(t[n] == '/' && t[n + 1] == '.');
    assert(body_start(t) == start);
    lemma_piece_start_at(t, start, n + 1, n + 2);
    assert(t.subrange(n + 1, n + 2)[0] == '.');
    assert(idle_piece(t.subrange(n + 1, n + 2)));
    assert(body_end(t, start, n + 2) == body_end(t, start, n));
    assert forall|i: int| 0 <= i < n implies #[trigger] s[i] == t[i] by {}
    lemma_same_body_end(s, t, start, n);
    lemma_same_body_pieces(s, t, start, n);
    assert(body_pieces(t, start, n + 2) == body_pieces(t, start, n));
    assert(components(t) =~= components(s));
}

/// A path that starts at the root stays as it is when it is joined; any other stands behind the
/// directory, with one separator between them.
pub proof fn law_joining(a: Seq<char>, b: Seq<char>)
    ensures
        b.len() > 0 && b[0] == '/' ==> join(a, b) == b,
        (b.len() == 0 || b[0] != '/') && a.len() > 0 && a.last() != '/' ==> join(a, b) == a.push('/')
            + b,
        (b.len() == 0 || b[0] != '/') && (a.len() == 0 || a.last() == '/') ==> join(a, b) == a + b,
{
    assert(a + seq!['/'] + b =~= a.push('/') + b);
}

/// The parent of a path has all its components but the last; the directory of a path without one is
/// `.`.
pub proof fn law_parents(s: Seq<char>)
    ensures
        parent(s) matches Some(p) ==> components(s).len() > 0 && components(p)
            == components(s).drop_last(),
        parent(s) matches Some(p) ==> directory_of(s) == p,
        parent(s) is None ==> directory_of(s) == seq!['.'],
{
    if parent(s) is Some {
        lemma_parent_components(s);
    }
}

/// The stem of a name is what stands before its last `.`, unless that is its first character; a name
/// without any is its own stem.
pub proof fn law_stems(name: Seq<char>)
    ensures
        !name.contains('.') ==> stem_of(name) == name,
        stem_of(name) != name ==> {
            let n = stem_of(name).len() as int;
            &&& 0 < n < name.len()
            &&& stem_of(name) == name.subrange(0, n)
            &&& name[n] == '.'
            &&& forall|i: int| n < i < name.len() ==> #[trigger] name[i] != '.'
        },
        stem_of(name) == name ==> forall|i: int| 0 < i < name.len() ==> #[trigger] name[i] != '.',
{
    let n = name.len() as int;
    lemma_last_dot(name, n);
    let dot = last_dot(name, n);
    if dot > 0 {
        assert(name[dot] == '.');
    }
}

} // verus!
