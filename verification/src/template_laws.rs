//! What filling in a template comes to as a whole.

use vstd::prelude::*;

use crate::failure::FailureView;
use crate::template::{
    filled, law_name_set, lemma_filled_succeeds, marked, name_set, placeholders, replaced, resolved,
    scan, Scan,
};
use crate::text::{
    blank, found_at, law_blank_iff_trimmed_empty, lemma_found_at_first, occurs_at, trimmed,
};

verus! {

// ---------------------------------------------------------------------------------------------
// Pieces
// ---------------------------------------------------------------------------------------------
/// A template taken apart: texts with the placeholders that follow them, as they are spelled
/// between their braces, and the text behind the last placeholder.
pub struct Pieces {
    pub placed: Seq<(Seq<char>, Seq<char>)>,
    pub tail: Seq<char>,
}

/// The pieces of a template from a position on; none where a placeholder is not closed.
pub open spec fn pieces(s: Seq<char>, from: int) -> Option<Pieces>
    decreases s.len() - from,
    when 0 <= from <= s.len()
    via pieces_ends
{
    match found_at(s, "{{"@, from) {
        None => Some(Pieces { placed: Seq::empty(), tail: s.subrange(from, s.len() as int) }),
        Some(i) => match found_at(s, "}}"@, i + 2) {
            None => None,
            Some(j) => match pieces(s, j + 2) {
                None => None,
                Some(rest) => Some(
                    Pieces {
                        placed: seq![(s.subrange(from, i), s.subrange(i + 2, j))] + rest.placed,
                        tail: rest.tail,
                    },
                ),
            },
        },
    }
}

#[via_fn]
proof fn pieces_ends(s: Seq<char>, from: int) {
    reveal_strlit("{{");
    reveal_strlit("}}");
    lemma_found_at_first(s, "{{"@, from);
    match found_at(s, "{{"@, from) {
        Some(i) => {
            lemma_found_at_first(s, "}}"@, i + 2);
        },
        None => {},
    }
}

/// A text without braces.
pub open spec fn no_brace(s: Seq<char>) -> bool {
    forall|i: int| 0 <= i < s.len() ==> #[trigger] s[i] != '{' && s[i] != '}'
}

/// No placeholder has white space next to its braces.
pub open spec fn tidy(p: Pieces) -> bool {
    forall|i: int|
        0 <= i < p.placed.len() ==> trimmed((#[trigger] p.placed[i]).1) == p.placed[i].1
}

/// The pieces from the `k`th on with each placeholder replaced by its value, all other text
/// unchanged and in order.
pub open spec fn in_place(p: Pieces, values: Map<Seq<char>, Seq<char>>, k: int) -> Seq<char>
    decreases p.placed.len() - k,
{
    if k < 0 || k >= p.placed.len() {
        p.tail
    } else {
        p.placed[k].0 + values[p.placed[k].1] + in_place(p, values, k + 1)
    }
}

/// The pieces from the `k`th on with the first `n` names replaced by their values, and the other
/// placeholders as they stand in the template.
spec fn in_part(
    p: Pieces,
    values: Map<Seq<char>, Seq<char>>,
    names: Seq<Seq<char>>,
    n: int,
    k: int,
) -> Seq<char>
    decreases p.placed.len() - k,
{
    if k < 0 || k >= p.placed.len() {
        p.tail
    } else {
        let name = p.placed[k].1;
        let shown = if names.subrange(0, n).contains(name) {
            values[name]
        } else {
            marked(name)
        };
        p.placed[k].0 + shown + in_part(p, values, names, n, k + 1)
    }
}

/// A text in which no `{` stands before another or at the end.
spec fn calm(s: Seq<char>) -> bool {
    forall|i: int|
        0 <= i < s.len() && #[trigger] s[i] == '{' ==> i + 1 < s.len() && s[i + 1] != '{'
}

/// A text in which no `{` stands before another.
spec fn calm_tail(s: Seq<char>) -> bool {
    forall|i: int|
        0 <= i < s.len() && #[trigger] s[i] == '{' && i + 1 < s.len() ==> s[i + 1] != '{'
}

/// Pieces as reading a template leaves them, whose placeholders hold names without braces.
spec fn well_cut(p: Pieces) -> bool {
    &&& calm_tail(p.tail)
    &&& forall|i: int|
        0 <= i < p.placed.len() ==> calm((#[trigger] p.placed[i]).0) && p.placed[i].1.len() > 0
            && no_brace(p.placed[i].1)
}

proof fn lemma_marks()
    ensures
        "{{"@ == seq!['{', '{'],
        "}}"@ == seq!['}', '}'],
{
    reveal_strlit("{{");
    reveal_strlit("}}");
    assert("{{"@ =~= seq!['{', '{']);
    assert("}}"@ =~= seq!['}', '}']);
}

proof fn lemma_double(s: Seq<char>, i: int)
    requires
        0 <= i,
        i + 1 < s.len(),
        s[i] == '{',
        s[i + 1] == '{',
    ensures
        occurs_at(s, "{{"@, i),
{
    lemma_marks();
    assert(s.subrange(i, i + 2) =~= seq!['{', '{']);
}

/// Reading a template gives its pieces: their names, their texts, and together the template.
proof fn lemma_pieces(s: Seq<char>, from: int)
    requires
        0 <= from <= s.len(),
        scan(s, from) is Names,
    ensures
        pieces(s, from) is Some,
        ({
            let p = pieces(s, from)->0;
            let names = scan(s, from)->Names_0;
            &&& names.len() == p.placed.len()
            &&& calm_tail(p.tail)
            &&& forall|i: int|
                0 <= i < p.placed.len() ==> calm((#[trigger] p.placed[i]).0) && names[i] == trimmed(
                    p.placed[i].1,
                ) && names[i].len() > 0
            &&& in_part(p, Map::empty(), Seq::empty(), 0, 0) == s.subrange(from, s.len() as int)
        }),
    decreases s.len() - from,
{
    lemma_marks();
    lemma_found_at_first(s, "{{"@, from);
    let p = pieces(s, from)->0;
    match found_at(s, "{{"@, from) {
        None => {
            let tail = s.subrange(from, s.len() as int);
            assert forall|i: int|
                0 <= i < tail.len() && #[trigger] tail[i] == '{' && i + 1 < tail.len() implies tail[i
                + 1] != '{' by {
                if tail[i + 1] == '{' {
                    lemma_double(s, from + i);
                }
            }
        },
        Some(i) => {
            lemma_found_at_first(s, "}}"@, i + 2);
            let j = found_at(s, "}}"@, i + 2)->0;
            lemma_pieces(s, j + 2);
            let rest = pieces(s, j + 2)->0;
            let lit = s.subrange(from, i);
            let raw = s.subrange(i + 2, j);
            let names = scan(s, from)->Names_0;
            let later = scan(s, j + 2)->Names_0;
            assert(p.placed =~= seq![(lit, raw)] + rest.placed);
            assert(names =~= seq![trimmed(raw)] + later);
            assert forall|q: int| 0 <= q < lit.len() && #[trigger] lit[q] == '{' implies q + 1
                < lit.len() && lit[q + 1] != '{' by {
                assert(s.subrange(i, i + 2)[0] == '{');
                assert(s[i] == '{');
                if s[from + q + 1] == '{' {
                    lemma_double(s, from + q);
                }
            }
            assert forall|q: int| 0 <= q < p.placed.len() implies calm((#[trigger] p.placed[q]).0)
                && names[q] == trimmed(p.placed[q].1) && names[q].len() > 0 by {
                if q > 0 {
                    assert(p.placed[q] == rest.placed[q - 1]);
                    assert(names[q] == later[q - 1]);
                } else {
                    assert(p.placed[0] == (lit, raw));
                }
            }
            lemma_in_part_behind(p, rest, (lit, raw), 0);
            let after = s.subrange(j + 2, s.len() as int);
            assert(!Seq::<Seq<char>>::empty().subrange(0, 0).contains(raw));
            assert(s.subrange(i, i + 2) == "{{"@);
            assert(s.subrange(j, j + 2) == "}}"@);
            assert(in_part(p, Map::empty(), Seq::empty(), 0, 0) == lit + marked(raw) + after);
            assert(lit + ("{{"@ + raw + "}}"@) + after =~= s.subrange(from, s.len() as int)) by {
                assert(s.subrange(from, s.len() as int) =~= s.subrange(from, i) + s.subrange(
                    i,
                    i + 2,
                ) + s.subrange(i + 2, j) + s.subrange(j, j + 2) + s.subrange(
                    j + 2,
                    s.len() as int,
                ));
            }
        },
    }
}

proof fn lemma_in_part_behind(
    p: Pieces,
    rest: Pieces,
    first: (Seq<char>, Seq<char>),
    k: int,
)
    requires
        0 <= k <= rest.placed.len(),
        p.placed == seq![first] + rest.placed,
        p.tail == rest.tail,
    ensures
        in_part(p, Map::empty(), Seq::empty(), 0, k + 1) == in_part(
            rest,
            Map::empty(),
            Seq::empty(),
            0,
            k,
        ),
    decreases rest.placed.len() - k,
{
    if k < rest.placed.len() {
        lemma_in_part_behind(p, rest, first, k + 1);
        assert(p.placed[k + 1] == rest.placed[k]);
    }
}

// ---------------------------------------------------------------------------------------------
// Replacing in a text with a part in front
// ---------------------------------------------------------------------------------------------
proof fn lemma_occurs_behind(a: Seq<char>, x: Seq<char>, needle: Seq<char>, k: int)
    requires
        0 <= k,
    ensures
        occurs_at(a + x, needle, a.len() + k) == occurs_at(x, needle, k),
{
    if k + needle.len() <= x.len() {
        assert((a + x).subrange(a.len() + k, a.len() + k + needle.len()) =~= x.subrange(
            k,
            k + needle.len(),
        ));
    }
}

proof fn lemma_found_behind(a: Seq<char>, x: Seq<char>, needle: Seq<char>, k: int)
    requires
        0 <= k <= x.len(),
    ensures
        found_at(a + x, needle, a.len() + k) == (match found_at(x, needle, k) {
            Some(i) => Some(a.len() + i),
            None => None,
        }),
    decreases x.len() - k,
{
    lemma_occurs_behind(a, x, needle, k);
    if k < x.len() {
        lemma_found_behind(a, x, needle, k + 1);
    } else {
        assert(found_at(a + x, needle, a.len() + k + 1) is None);
        assert(found_at(x, needle, k + 1) is None);
    }
}

proof fn lemma_replaced_behind(
    a: Seq<char>,
    x: Seq<char>,
    needle: Seq<char>,
    value: Seq<char>,
    k: int,
)
    requires
        0 <= k <= x.len(),
        needle.len() > 0,
    ensures
        replaced(a + x, needle, value, a.len() + k) == replaced(x, needle, value, k),
    decreases x.len() - k,
{
    lemma_found_behind(a, x, needle, k);
    lemma_found_at_first(x, needle, k);
    match found_at(x, needle, k) {
        None => {
            assert((a + x).subrange(a.len() + k, (a + x).len() as int) =~= x.subrange(
                k,
                x.len() as int,
            ));
        },
        Some(i) => {
            lemma_replaced_behind(a, x, needle, value, i + needle.len());
            assert((a + x).subrange(a.len() + k, a.len() + i) =~= x.subrange(k, i));
        },
    }
}

proof fn lemma_found_later(s: Seq<char>, needle: Seq<char>, from: int, to: int)
    requires
        0 <= from <= to <= s.len(),
        forall|i: int| from <= i < to ==> !occurs_at(s, needle, i),
    ensures
        found_at(s, needle, from) == found_at(s, needle, to),
    decreases to - from,
{
    if from < to {
        lemma_found_later(s, needle, from + 1, to);
    }
}

/// A part in which no occurrence starts stays.
proof fn lemma_replaced_skips(a: Seq<char>, x: Seq<char>, needle: Seq<char>, value: Seq<char>)
    requires
        needle.len() > 0,
        forall|i: int| 0 <= i < a.len() ==> !occurs_at(a + x, needle, i),
    ensures
        replaced(a + x, needle, value, 0) == a + replaced(x, needle, value, 0),
{
    let s = a + x;
    lemma_found_later(s, needle, 0, a.len() as int);
    lemma_found_behind(a, x, needle, 0);
    lemma_found_at_first(x, needle, 0);
    match found_at(x, needle, 0) {
        None => {
            assert(s.subrange(0, s.len() as int) =~= a + x.subrange(0, x.len() as int));
        },
        Some(i) => {
            lemma_replaced_behind(a, x, needle, value, i + needle.len());
            let rest = replaced(x, needle, value, i + needle.len());
            assert(s.subrange(0, a.len() + i) + value + rest =~= a + (x.subrange(0, i) + value
                + rest));
        },
    }
}

/// An occurrence at the start gives way to the value.
proof fn lemma_replaced_first(x: Seq<char>, needle: Seq<char>, value: Seq<char>)
    requires
        needle.len() > 0,
    ensures
        replaced(needle + x, needle, value, 0) == value + replaced(x, needle, value, 0),
{
    let s = needle + x;
    assert(s.subrange(0, needle.len() as int) =~= needle);
    assert(occurs_at(s, needle, 0));
    lemma_replaced_behind(needle, x, needle, value, 0);
    assert(s.subrange(0, 0) + value + replaced(x, needle, value, 0) =~= value + replaced(
        x,
        needle,
        value,
        0,
    ));
}

/// Where a placeholder stands, two braces open it.
proof fn lemma_opens(s: Seq<char>, name: Seq<char>, i: int)
    requires
        occurs_at(s, marked(name), i),
    ensures
        i + 1 < s.len(),
        s[i] == '{',
        s[i + 1] == '{',
{
    lemma_marks();
    let m = marked(name);
    assert(m[0] == '{' && m[1] == '{');
    assert(s.subrange(i, i + m.len())[0] == s[i]);
    assert(s.subrange(i, i + m.len())[1] == s[i + 1]);
}

/// The placeholder of one name is not that of another.
proof fn lemma_other_placeholder(raw: Seq<char>, name: Seq<char>, rest: Seq<char>)
    requires
        no_brace(raw),
        no_brace(name),
        raw != name,
    ensures
        !occurs_at(marked(raw) + rest, marked(name), 0),
{
    lemma_marks();
    let s = marked(raw) + rest;
    let m = marked(name);
    if occurs_at(s, m, 0) {
        assert forall|i: int| 0 <= i < m.len() implies s[i] == m[i] by {
            assert(s.subrange(0, m.len() as int)[i] == s[i]);
        }
        let x = raw.len() as int;
        let y = name.len() as int;
        if x < y {
            assert(s[2 + x] == '}');
            assert(m[2 + x] == name[x]);
        } else if x > y {
            assert(m[2 + y] == '}');
            assert(s[2 + y] == raw[y]);
        } else {
            assert forall|i: int| 0 <= i < raw.len() implies raw[i] == name[i] by {
                assert(s[2 + i] == raw[i]);
                assert(m[2 + i] == name[i]);
            }
            assert(raw =~= name);
        }
    }
}

/// Replacing one more name replaces its placeholders where they stand, and nothing else.
proof fn lemma_one_name(
    p: Pieces,
    values: Map<Seq<char>, Seq<char>>,
    names: Seq<Seq<char>>,
    n: int,
    k: int,
)
    requires
        well_cut(p),
        0 <= k <= p.placed.len(),
        0 <= n < names.len(),
        no_brace(names[n]),
        forall|i: int| 0 <= i <= n ==> no_brace(values[#[trigger] names[i]]),
    ensures
        replaced(in_part(p, values, names, n, k), marked(names[n]), values[names[n]], 0) == in_part(
            p,
            values,
            names,
            n + 1,
            k,
        ),
    decreases p.placed.len() - k,
{
    lemma_marks();
    let name = names[n];
    let needle = marked(name);
    let value = values[name];
    let text = in_part(p, values, names, n, k);
    if k >= p.placed.len() {
        assert forall|i: int| 0 <= i < text.len() implies !occurs_at(text, needle, i) by {
            if occurs_at(text, needle, i) {
                lemma_opens(text, name, i);
            }
        }
        lemma_found_at_first(text, needle, 0);
        assert(text.subrange(0, text.len() as int) =~= text);
    } else {
        let lit = p.placed[k].0;
        let raw = p.placed[k].1;
        let rest = in_part(p, values, names, n, k + 1);
        let next = in_part(p, values, names, n + 1, k + 1);
        lemma_one_name(p, values, names, n, k + 1);
        let done = names.subrange(0, n);
        let more = names.subrange(0, n + 1);
        assert(more =~= done.push(name));
        if done.contains(raw) {
            let i = choose|i: int| 0 <= i < done.len() && done[i] == raw;
            assert(names[i] == raw);
            assert(more[i] == raw);
            let a = lit + values[raw];
            assert(text =~= a + rest);
            assert forall|q: int| 0 <= q < a.len() implies !occurs_at(a + rest, needle, q) by {
                if occurs_at(a + rest, needle, q) {
                    lemma_opens(a + rest, name, q);
                    if q < lit.len() {
                        assert(lit[q] == '{');
                        assert(lit[q + 1] != '{');
                    } else {
                        assert(values[raw][q - lit.len()] == '{');
                    }
                }
            }
            lemma_replaced_skips(a, rest, needle, value);
        } else if raw == name {
            assert(more[n] == raw);
            let tail = needle + rest;
            assert(text =~= lit + tail);
            assert forall|q: int| 0 <= q < lit.len() implies !occurs_at(lit + tail, needle, q) by {
                if occurs_at(lit + tail, needle, q) {
                    lemma_opens(lit + tail, name, q);
                    assert(lit[q] == '{');
                    assert(lit[q + 1] != '{');
                }
            }
            lemma_replaced_skips(lit, tail, needle, value);
            lemma_replaced_first(rest, needle, value);
            assert(lit + (value + next) =~= lit + value + next);
        } else {
            assert(!more.contains(raw)) by {
                if more.contains(raw) {
                    let i = choose|i: int| 0 <= i < more.len() && more[i] == raw;
                    if i < n {
                        assert(done[i] == raw);
                    }
                }
            }
            let own = marked(raw);
            let a = lit + own;
            assert(text =~= a + rest);
            assert forall|q: int| 0 <= q < a.len() implies !occurs_at(a + rest, needle, q) by {
                if occurs_at(a + rest, needle, q) {
                    lemma_opens(a + rest, name, q);
                    if q < lit.len() {
                        assert(lit[q] == '{');
                        assert(lit[q + 1] != '{');
                    } else if q == lit.len() {
                        lemma_other_placeholder(raw, name, rest);
                        assert(a + rest =~= lit + (own + rest));
                        lemma_occurs_behind(lit, own + rest, needle, 0);
                    } else {
                        let o = q - lit.len();
                        assert((a + rest)[q] == own[o]);
                        if o == 1 {
                            assert((a + rest)[q + 1] == own[2]);
                            assert(own[2] == raw[0]);
                        } else if o < 2 + raw.len() {
                            assert(own[o] == raw[o - 2]);
                        }
                    }
                }
            }
            lemma_replaced_skips(a, rest, needle, value);
        }
    }
}

proof fn lemma_all_names(
    p: Pieces,
    values: Map<Seq<char>, Seq<char>>,
    names: Seq<Seq<char>>,
    n: int,
)
    requires
        well_cut(p),
        0 <= n <= names.len(),
        forall|i: int|
            0 <= i < names.len() ==> values.dom().contains(#[trigger] names[i]) && no_brace(
                names[i],
            ) && no_brace(values[names[i]]),
    ensures
        filled(in_part(p, values, names, n, 0), names, values, n) == Ok::<Seq<char>, FailureView>(
            in_part(p, values, names, names.len() as int, 0),
        ),
    decreases names.len() - n,
{
    if n < names.len() {
        lemma_one_name(p, values, names, n, 0);
        lemma_all_names(p, values, names, n + 1);
    }
}

proof fn lemma_all_done(
    p: Pieces,
    values: Map<Seq<char>, Seq<char>>,
    names: Seq<Seq<char>>,
    k: int,
)
    requires
        0 <= k <= p.placed.len(),
        forall|i: int| 0 <= i < p.placed.len() ==> names.contains((#[trigger] p.placed[i]).1),
    ensures
        in_part(p, values, names, names.len() as int, k) == in_place(p, values, k),
    decreases p.placed.len() - k,
{
    if k < p.placed.len() {
        lemma_all_done(p, values, names, k + 1);
        assert(names.subrange(0, names.len() as int) =~= names);
        assert(names.contains(p.placed[k].1));
    }
}

proof fn lemma_none_done(
    p: Pieces,
    values: Map<Seq<char>, Seq<char>>,
    names: Seq<Seq<char>>,
    k: int,
)
    requires
        0 <= k <= p.placed.len(),
    ensures
        in_part(p, values, names, 0, k) == in_part(p, Map::empty(), Seq::empty(), 0, k),
    decreases p.placed.len() - k,
{
    if k < p.placed.len() {
        lemma_none_done(p, values, names, k + 1);
        assert(names.subrange(0, 0) =~= Seq::<Seq<char>>::empty().subrange(0, 0));
    }
}

/// A value is missing where filling in fails.
proof fn lemma_filled_needs_values(
    text: Seq<char>,
    names: Seq<Seq<char>>,
    values: Map<Seq<char>, Seq<char>>,
    k: int,
)
    requires
        0 <= k <= names.len(),
        filled(text, names, values, k) is Ok,
    ensures
        forall|i: int| k <= i < names.len() ==> values.dom().contains(#[trigger] names[i]),
    decreases names.len() - k,
{
    if k < names.len() {
        lemma_filled_needs_values(
            replaced(text, marked(names[k]), values[names[k]], 0),
            names,
            values,
            k + 1,
        );
    }
}

/// A template can be filled in exactly where it is well formed and each of its names has a value.
/// One without placeholders stays as it is.
pub proof fn law_templates_need_their_values(
    template: Seq<char>,
    values: Map<Seq<char>, Seq<char>>,
)
    ensures
        resolved(template, values) is Ok <==> placeholders(template) is Ok && forall|i: int|
            0 <= i < placeholders(template)->Ok_0.len() ==> values.dom().contains(
                #[trigger] placeholders(template)->Ok_0[i],
            ),
        found_at(template, "{{"@, 0) is None ==> resolved(template, values) == Ok::<
            Seq<char>,
            FailureView,
        >(template),
{
    if placeholders(template) is Ok {
        let names = placeholders(template)->Ok_0;
        if filled(template, names, values, 0) is Ok {
            lemma_filled_needs_values(template, names, values, 0);
        }
        if forall|i: int| 0 <= i < names.len() ==> values.dom().contains(#[trigger] names[i]) {
            lemma_filled_succeeds(template, names, values, 0);
        }
    }
}

/// Where no name and no value holds a brace and no placeholder has white space next to its braces,
/// a template that can be filled in becomes the template with each placeholder replaced by its
/// value in place: all other text is unchanged, and in order.
pub proof fn law_templates_are_filled_in_place(
    template: Seq<char>,
    values: Map<Seq<char>, Seq<char>>,
)
    requires
        forall|name: Seq<char>| #[trigger]
            values.dom().contains(name) ==> no_brace(name) && no_brace(values[name]),
        pieces(template, 0) is Some ==> tidy(pieces(template, 0)->0),
        resolved(template, values) is Ok,
    ensures
        pieces(template, 0) is Some,
        resolved(template, values)->Ok_0 == in_place(pieces(template, 0)->0, values, 0),
{
    let scanned = scan(template, 0)->Names_0;
    let names = placeholders(template)->Ok_0;
    law_templates_need_their_values(template, values);
    lemma_pieces(template, 0);
    law_name_set(scanned, scanned.len() as int);
    assert(scanned.subrange(0, scanned.len() as int) =~= scanned);
    let p = pieces(template, 0)->0;
    assert forall|i: int| 0 <= i < p.placed.len() implies names.contains(
        (#[trigger] p.placed[i]).1,
    ) by {
        assert(scanned[i] == p.placed[i].1);
        assert(scanned.contains(scanned[i]));
        assert(name_set(scanned, scanned.len() as int).contains(scanned[i]));
    }
    assert forall|i: int| 0 <= i < p.placed.len() implies calm((#[trigger] p.placed[i]).0)
        && p.placed[i].1.len() > 0 && no_brace(p.placed[i].1) by {
        assert(names.contains(p.placed[i].1));
        let k = choose|k: int| 0 <= k < names.len() && names[k] == p.placed[i].1;
        assert(values.dom().contains(names[k]));
        assert(scanned[i] == p.placed[i].1);
    }
    assert(well_cut(p));
    lemma_none_done(p, values, names, 0);
    assert(template.subrange(0, template.len() as int) =~= template);
    assert forall|i: int| 0 <= i < names.len() implies values.dom().contains(#[trigger] names[i])
        && no_brace(names[i]) && no_brace(values[names[i]]) by {}
    lemma_all_names(p, values, names, 0);
    lemma_all_done(p, values, names, 0);
}

// ---------------------------------------------------------------------------------------------
// One placeholder at a time
// ---------------------------------------------------------------------------------------------
proof fn lemma_scan_behind(pre: Seq<char>, rest: Seq<char>, f: int)
    requires
        0 <= f <= rest.len(),
    ensures
        scan(pre + rest, pre.len() + f) == scan(rest, f),
        pieces(pre + rest, pre.len() + f) == pieces(rest, f),
    decreases rest.len() - f,
{
    let t = pre + rest;
    let k = pre.len() as int;
    lemma_marks();
    lemma_found_behind(pre, rest, "{{"@, f);
    lemma_found_at_first(rest, "{{"@, f);
    assert(t.subrange(k + f, t.len() as int) =~= rest.subrange(f, rest.len() as int));
    match found_at(rest, "{{"@, f) {
        None => {},
        Some(i) => {
            lemma_found_behind(pre, rest, "}}"@, i + 2);
            lemma_found_at_first(rest, "}}"@, i + 2);
            match found_at(rest, "}}"@, i + 2) {
                None => {},
                Some(j) => {
                    assert(t.subrange(k + i + 2, k + j) =~= rest.subrange(i + 2, j));
                    assert(t.subrange(k + f, k + i) =~= rest.subrange(f, i));
                    lemma_scan_behind(pre, rest, j + 2);
                },
            }
        },
    }
}

/// Where a placeholder stands first, and where it ends.
proof fn lemma_first_placeholder(head: Seq<char>, inner: Seq<char>, rest: Seq<char>)
    requires
        no_brace(head),
        no_brace(inner),
    ensures
        ({
            let t = head + "{{"@ + inner + "}}"@ + rest;
            let m = head.len() + 2 + inner.len();
            &&& found_at(t, "{{"@, 0) == Some(head.len() as int)
            &&& found_at(t, "}}"@, head.len() as int + 2) == Some(m as int)
            &&& t.subrange(head.len() as int + 2, m as int) == inner
            &&& t.subrange(0, head.len() as int) == head
            &&& t == (head + "{{"@ + inner + "}}"@) + rest
            &&& (head + "{{"@ + inner + "}}"@).len() == m + 2
        }),
{
    lemma_marks();
    let t = head + "{{"@ + inner + "}}"@ + rest;
    let h = head.len() as int;
    let m = h + 2 + inner.len();
    assert(t.subrange(h, h + 2) =~= "{{"@);
    assert(t.subrange(m, m + 2) =~= "}}"@);
    assert(t.subrange(h + 2, m) =~= inner);
    assert(t.subrange(0, h) =~= head);
    assert(occurs_at(t, "{{"@, h));
    assert(occurs_at(t, "}}"@, m));
    lemma_found_at_first(t, "{{"@, 0);
    lemma_found_at_first(t, "}}"@, h + 2);
    let i = found_at(t, "{{"@, 0)->0;
    assert(i <= h);
    if i < h {
        assert(t.subrange(i, i + 2)[0] == t[i]);
        assert(t[i] == head[i]);
    }
    let j = found_at(t, "}}"@, h + 2)->0;
    assert(j <= m);
    if j < m {
        assert(t.subrange(j, j + 2)[0] == t[j]);
        assert(t[j] == inner[j - h - 2]);
    }
}

/// The first placeholder of a template gives its name, without white space around it; the others are
/// those of the text behind it. A placeholder without a name is refused.
#[verifier::rlimit(50)]
pub proof fn law_placeholders_one_by_one(head: Seq<char>, inner: Seq<char>, rest: Seq<char>)
    requires
        no_brace(head),
        no_brace(inner),
    ensures
        ({
            let t = head + "{{"@ + inner + "}}"@ + rest;
            &&& blank(inner) ==> placeholders(t) is Err
            &&& !blank(inner) ==> (placeholders(t) is Ok <==> placeholders(rest) is Ok)
            &&& !blank(inner) && placeholders(rest) is Ok ==> forall|y: Seq<char>| #[trigger]
                placeholders(t)->Ok_0.contains(y) <==> y == trimmed(inner)
                    || placeholders(rest)->Ok_0.contains(y)
        }),
{
    let t = head + "{{"@ + inner + "}}"@ + rest;
    let pre = head + "{{"@ + inner + "}}"@;
    lemma_first_placeholder(head, inner, rest);
    lemma_scan_behind(pre, rest, 0);
    law_blank_iff_trimmed_empty(inner);
    if !blank(inner) && placeholders(rest) is Ok {
        let later = scan(rest, 0)->Names_0;
        let all = seq![trimmed(inner)] + later;
        assert(scan(t, 0) == Scan::Names(all));
        law_name_set(later, later.len() as int);
        law_name_set(all, all.len() as int);
        assert(later.subrange(0, later.len() as int) =~= later);
        assert(all.subrange(0, all.len() as int) =~= all);
        assert forall|y: Seq<char>| #[trigger] placeholders(t)->Ok_0.contains(y) <==> y == trimmed(
            inner,
        ) || placeholders(rest)->Ok_0.contains(y) by {
            assert(name_set(all, all.len() as int).contains(y) <==> all.contains(y));
            assert(name_set(later, later.len() as int).contains(y) <==> later.contains(y));
            if all.contains(y) {
                let k = choose|k: int| 0 <= k < all.len() && all[k] == y;
                if k > 0 {
                    assert(later[k - 1] == y);
                }
            }
            if later.contains(y) {
                let k = choose|k: int| 0 <= k < later.len() && later[k] == y;
                assert(all[k + 1] == y);
            }
            if y == trimmed(inner) {
                assert(all[0] == y);
            }
        }
    }
}

/// A text without braces has no placeholders and stays as it is.
pub proof fn law_texts_without_placeholders(text: Seq<char>, values: Map<Seq<char>, Seq<char>>)
    requires
        no_brace(text),
    ensures
        placeholders(text) matches Ok(names) && names.len() == 0,
        resolved(text, values) == Ok::<Seq<char>, FailureView>(text),
{
    lemma_marks();
    lemma_found_at_first(text, "{{"@, 0);
    match found_at(text, "{{"@, 0) {
        Some(i) => {
            assert(text.subrange(i, i + 2)[0] == text[i]);
        },
        None => {},
    }
    assert(scan(text, 0) == Scan::Names(Seq::empty()));
}

/// A placeholder that is not closed is refused.
pub proof fn law_open_placeholders_are_refused(
    head: Seq<char>,
    inner: Seq<char>,
    values: Map<Seq<char>, Seq<char>>,
)
    requires
        no_brace(head),
        no_brace(inner),
    ensures
        placeholders(head + "{{"@ + inner) is Err,
        resolved(head + "{{"@ + inner, values) is Err,
{
    lemma_marks();
    let t = head + "{{"@ + inner;
    let h = head.len() as int;
    assert(found_at(t, "{{"@, 0) == Some(h)) by {
        assert(t.subrange(h, h + 2) =~= "{{"@);
        assert(occurs_at(t, "{{"@, h));
        lemma_found_at_first(t, "{{"@, 0);
        let i = found_at(t, "{{"@, 0)->0;
        if i < h {
            assert(t.subrange(i, i + 2)[0] == t[i]);
            assert(t[i] == head[i]);
        }
    }
    assert(found_at(t, "}}"@, h + 2) is None) by {
        lemma_found_at_first(t, "}}"@, h + 2);
        match found_at(t, "}}"@, h + 2) {
            Some(j) => {
                assert(t.subrange(j, j + 2)[0] == t[j]);
                assert(t[j] == inner[j - h - 2]);
            },
            None => {},
        }
    }
    assert(scan(t, 0) == Scan::Unclosed);
}

proof fn lemma_in_place_behind(
    p: Pieces,
    rest: Pieces,
    values: Map<Seq<char>, Seq<char>>,
    first: (Seq<char>, Seq<char>),
    k: int,
)
    requires
        p.placed == seq![first] + rest.placed,
        p.tail == rest.tail,
        0 <= k <= rest.placed.len(),
    ensures
        in_place(p, values, k + 1) == in_place(rest, values, k),
    decreases rest.placed.len() - k,
{
    if k < rest.placed.len() {
        lemma_in_place_behind(p, rest, values, first, k + 1);
        assert(p.placed[k + 1] == rest.placed[k]);
    }
}

/// Filling in replaces the first placeholder by its value, leaves the text before it, and goes on
/// behind it, where no name and no value holds a brace and no placeholder has white space next to
/// its braces.
#[verifier::rlimit(50)]
pub proof fn law_templates_are_filled_one_by_one(
    head: Seq<char>,
    name: Seq<char>,
    rest: Seq<char>,
    values: Map<Seq<char>, Seq<char>>,
)
    requires
        no_brace(head),
        no_brace(name),
        !blank(name),
        trimmed(name) == name,
        forall|n: Seq<char>| #[trigger]
            values.dom().contains(n) ==> no_brace(n) && no_brace(values[n]),
        pieces(rest, 0) is Some ==> tidy(pieces(rest, 0)->0),
        values.dom().contains(name),
        resolved(rest, values) is Ok,
    ensures
        resolved(head + "{{"@ + name + "}}"@ + rest, values) == Ok::<Seq<char>, FailureView>(
            head + values[name] + resolved(rest, values)->Ok_0,
        ),
{
    let t = head + "{{"@ + name + "}}"@ + rest;
    let pre = head + "{{"@ + name + "}}"@;
    lemma_first_placeholder(head, name, rest);
    lemma_scan_behind(pre, rest, 0);
    law_placeholders_one_by_one(head, name, rest);
    law_templates_need_their_values(rest, values);
    law_templates_need_their_values(t, values);
    law_templates_are_filled_in_place(rest, values);
    let all = placeholders(t)->Ok_0;
    let later = placeholders(rest)->Ok_0;
    assert forall|i: int| 0 <= i < all.len() implies values.dom().contains(#[trigger] all[i]) by {
        assert(all.contains(all[i]));
        if all[i] != name {
            let k = choose|k: int| 0 <= k < later.len() && later[k] == all[i];
            assert(values.dom().contains(later[k]));
        }
    }
    let q = pieces(rest, 0)->0;
    let p = pieces(t, 0)->0;
    assert(p.placed == seq![(head, name)] + q.placed);
    assert(tidy(p)) by {
        assert forall|i: int| 0 <= i < p.placed.len() implies trimmed((#[trigger] p.placed[i]).1)
            == p.placed[i].1 by {
            if i > 0 {
                assert(p.placed[i] == q.placed[i - 1]);
            }
        }
    }
    law_templates_are_filled_in_place(t, values);
    lemma_in_place_behind(p, q, values, (head, name), 0);
}

} // verus!
