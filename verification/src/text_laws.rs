//! What holds of texts: numbers in digits, white space, columns, lists and searches.

use vstd::prelude::*;

use crate::calendar::{after, date_digits, valid_instant, CivilDate};
use crate::failure::{caused, first, full_text, plain, FailureView};
use crate::order::before;
use crate::text::{
    blank, decimal, digit, found_at, is_space, joined, lemma_found_at_first, occurs_at, opt_text,
    padded, signed_decimal, texts, trim_end, trim_start, trimmed, zero_padded,
};
use crate::text_map::{ascending, env_of, has_key, lemma_unique_key, map_of, overlaid, position};

verus! {

// ---------------------------------------------------------------------------------------------
// Numbers
// ---------------------------------------------------------------------------------------------
/// A digit is the character that stands so far behind `0`.
pub proof fn law_digits(d: nat)
    requires
        d < 10,
    ensures
        digit(d) as int == '0' as int + d,
{
}

/// A number has one digit below ten, and otherwise the digits of its tenth and its last one.
pub proof fn law_numbers_in_digits(n: nat)
    ensures
        n < 10 ==> decimal(n).len() == 1 && decimal(n)[0] as int == '0' as int + n,
        n >= 10 ==> decimal(n).len() == decimal(n / 10).len() + 1 && decimal(n).drop_last()
            == decimal(n / 10) && decimal(n).last() as int == '0' as int + n % 10,
{
    if n >= 10 {
        assert(decimal(n).drop_last() =~= decimal(n / 10));
    }
}

/// All characters of a number are digits, and the first is no `0` unless it is the only one.
pub proof fn law_numbers_have_only_digits(n: nat)
    ensures
        decimal(n).len() > 0,
        forall|i: int| 0 <= i < decimal(n).len() ==> '0' <= #[trigger] decimal(n)[i] <= '9',
        n > 0 ==> decimal(n)[0] != '0',
    decreases n,
{
    if n >= 10 {
        law_numbers_have_only_digits(n / 10);
    }
}

/// Different numbers have different digits.
pub proof fn law_numbers_are_told_apart(a: nat, b: nat)
    requires
        decimal(a) == decimal(b),
    ensures
        a == b,
    decreases a,
{
    law_numbers_in_digits(a);
    law_numbers_in_digits(b);
    law_numbers_have_only_digits(a / 10);
    law_numbers_have_only_digits(b / 10);
    if a >= 10 && b >= 10 {
        law_numbers_are_told_apart(a / 10, b / 10);
    }
}

/// A negative number has a `-` before its digits.
pub proof fn law_negative_numbers(n: int)
    ensures
        n >= 0 ==> signed_decimal(n) == decimal(n as nat),
        n < 0 ==> signed_decimal(n) == seq!['-'] + decimal((-n) as nat),
{
}

/// A number that is filled up has at least that many digits; the added ones are zeros in front.
pub proof fn law_filled_up_numbers(n: nat, width: nat)
    ensures
        ({
            let s = zero_padded(n, width);
            let d = decimal(n).len();
            &&& d >= width ==> s == decimal(n)
            &&& d < width ==> s.len() == width && s.subrange(width - d, width as int) == decimal(n)
                && forall|i: int| 0 <= i < width - d ==> #[trigger] s[i] == '0'
        }),
{
    let d = decimal(n).len();
    if d < width {
        assert(zero_padded(n, width).subrange(width - d, width as int) =~= decimal(n));
    }
}

/// A date is written as its year, its month and its day, with `-` between them.
pub proof fn law_dates_in_digits(d: CivilDate)
    ensures
        0 <= d.year <= 9999 ==> date_digits(d) == zero_padded(d.year as nat, 4) + "-"@
            + zero_padded(d.month as nat, 2) + "-"@ + zero_padded(d.day as nat, 2),
        d.year < 0 ==> date_digits(d) == "-"@ + zero_padded((-d.year) as nat, 4) + "-"@
            + zero_padded(d.month as nat, 2) + "-"@ + zero_padded(d.day as nat, 2),
        d.year > 9999 ==> date_digits(d) == "+"@ + zero_padded(d.year as nat, 4) + "-"@
            + zero_padded(d.month as nat, 2) + "-"@ + zero_padded(d.day as nat, 2),
{
}

/// An instant lies in the years that a date can have, its nanoseconds are fewer than a second, and
/// fewer than two in the last second of a minute, which a leap second may follow.
pub proof fn law_instants(t: (int, int))
    ensures
        valid_instant(t) <==> -8334601228800 <= t.0 <= 8210266876799 && 0 <= t.1 && (t.1
            < 1000000000 || (t.1 < 2000000000 && t.0 % 60 == 59)),
{
}

/// An instant lies after another where its seconds are more, or its nanoseconds in the same second.
pub proof fn law_instants_in_order(a: (int, int), b: (int, int), c: (int, int))
    ensures
        a.0 > b.0 ==> after(a, b),
        a.0 == b.0 && a.1 > b.1 ==> after(a, b),
        !after(a, a),
        after(a, b) ==> !after(b, a),
        after(a, b) && after(b, c) ==> after(a, c),
        a != b ==> after(a, b) || after(b, a),
{
}

// ---------------------------------------------------------------------------------------------
// White space
// ---------------------------------------------------------------------------------------------
/// White space is what Unicode counts as such: the control characters from the tabulator to the
/// carriage return, the space, and the spaces and separators outside ASCII.
pub proof fn law_white_space(c: char)
    ensures
        is_space(c) <==> (9 <= c as int <= 13) || c as int == 32 || c as int == 133 || c as int
            == 160 || c as int == 5760 || (8192 <= c as int <= 8202) || c as int == 8232 || c as int
            == 8233 || c as int == 8239 || c as int == 8287 || c as int == 12288,
        is_space(' '),
        is_space('\n'),
        is_space('\t'),
        is_space('\r'),
        !is_space('a'),
{
}

/// A text is blank where each of its characters is white space; the empty text is.
pub proof fn law_blank_texts(s: Seq<char>)
    ensures
        blank(s) <==> forall|i: int| 0 <= i < s.len() ==> is_space(#[trigger] s[i]),
        s.len() == 0 ==> blank(s),
{
}

proof fn lemma_start_is_trimmed(s: Seq<char>)
    ensures
        exists|i: int|
            0 <= i <= s.len() && trim_start(s) == #[trigger] s.subrange(i, s.len() as int)
                && forall|k: int| 0 <= k < i ==> is_space(#[trigger] s[k]),
        trim_start(s).len() > 0 ==> !is_space(trim_start(s)[0]),
    decreases s.len(),
{
    let n = s.len() as int;
    if s.len() > 0 && is_space(s[0]) {
        let rest = s.subrange(1, n);
        lemma_start_is_trimmed(rest);
        let i = choose|i: int|
            0 <= i <= rest.len() && trim_start(rest) == #[trigger] rest.subrange(
                i,
                rest.len() as int,
            ) && forall|k: int| 0 <= k < i ==> is_space(#[trigger] rest[k]);
        assert(s.subrange(i + 1, n) =~= rest.subrange(i, rest.len() as int));
        assert forall|k: int| 0 <= k < i + 1 implies is_space(#[trigger] s[k]) by {
            if k > 0 {
                assert(rest[k - 1] == s[k]);
            }
        }
    } else {
        assert(s.subrange(0, n) =~= s);
    }
}

proof fn lemma_end_is_trimmed(s: Seq<char>)
    ensures
        exists|j: int|
            0 <= j <= s.len() && trim_end(s) == #[trigger] s.subrange(0, j) && forall|k: int|
                j <= k < s.len() ==> is_space(#[trigger] s[k]),
        trim_end(s).len() > 0 ==> !is_space(trim_end(s).last()),
    decreases s.len(),
{
    let n = s.len() as int;
    if s.len() > 0 && is_space(s.last()) {
        let rest = s.drop_last();
        lemma_end_is_trimmed(rest);
        let j = choose|j: int|
            0 <= j <= rest.len() && trim_end(rest) == #[trigger] rest.subrange(0, j) && forall|
                k: int,
            |
                j <= k < rest.len() ==> is_space(#[trigger] rest[k]);
        assert(s.subrange(0, j) =~= rest.subrange(0, j));
        assert forall|k: int| j <= k < n implies is_space(#[trigger] s[k]) by {
            if k < n - 1 {
                assert(rest[k] == s[k]);
            }
        }
    } else {
        assert(s.subrange(0, n) =~= s);
    }
}

/// Trimming takes white space off both ends of a text and nothing else: what is left is the middle
/// of the text, which neither starts nor ends with white space.
pub proof fn law_trimming(s: Seq<char>)
    ensures
        exists|i: int, j: int|
            {
                &&& 0 <= i <= j <= s.len()
                &&& trimmed(s) == #[trigger] s.subrange(i, j)
                &&& forall|k: int| 0 <= k < i ==> is_space(#[trigger] s[k])
                &&& forall|k: int| j <= k < s.len() ==> is_space(#[trigger] s[k])
            },
        trimmed(s).len() > 0 ==> !is_space(trimmed(s)[0]) && !is_space(trimmed(s).last()),
{
    let n = s.len() as int;
    lemma_start_is_trimmed(s);
    let i = choose|i: int|
        0 <= i <= s.len() && trim_start(s) == #[trigger] s.subrange(i, s.len() as int) && forall|
            k: int,
        |
            0 <= k < i ==> is_space(#[trigger] s[k]);
    let t = trim_start(s);
    lemma_end_is_trimmed(t);
    let j = choose|j: int|
        0 <= j <= t.len() && trim_end(t) == #[trigger] t.subrange(0, j) && forall|k: int|
            j <= k < t.len() ==> is_space(#[trigger] t[k]);
    assert(s.subrange(i, i + j) =~= t.subrange(0, j));
    assert forall|k: int| i + j <= k < n implies is_space(#[trigger] s[k]) by {
        assert(t[k - i] == s[k]);
    }
    if trimmed(s).len() > 0 {
        assert(trimmed(s)[0] == t[0]);
    }
}

// ---------------------------------------------------------------------------------------------
// Columns, lists and searches
// ---------------------------------------------------------------------------------------------
/// A column is as wide as asked for, or as its text; the text stands at its start, and spaces behind
/// it.
pub proof fn law_columns(s: Seq<char>, width: nat)
    ensures
        padded(s, width).len() == (if s.len() < width {
            width
        } else {
            s.len()
        }),
        padded(s, width).subrange(0, s.len() as int) == s,
        forall|i: int|
            s.len() <= i < padded(s, width).len() ==> #[trigger] padded(s, width)[i] == ' ',
{
    assert(padded(s, width).subrange(0, s.len() as int) =~= s);
}

/// Parts are joined in their order, with the separator between two of them and nowhere else.
pub proof fn law_joined_parts(parts: Seq<Seq<char>>, last: Seq<char>, separator: Seq<char>)
    ensures
        joined(Seq::empty(), separator) == Seq::<char>::empty(),
        joined(seq![last], separator) == last,
        parts.len() > 0 ==> joined(parts.push(last), separator) == joined(parts, separator)
            + separator + last,
{
    assert(parts.push(last).drop_last() =~= parts);
}

/// A search finds the first place at which the text stands, and none exactly where there is none.
pub proof fn law_searches_find_the_first(s: Seq<char>, needle: Seq<char>, from: int)
    requires
        0 <= from,
    ensures
        match found_at(s, needle, from) {
            Some(i) => from <= i && i + needle.len() <= s.len() && s.subrange(i, i + needle.len())
                == needle && forall|j: int|
                from <= j < i && j + needle.len() <= s.len() ==> #[trigger] s.subrange(
                    j,
                    j + needle.len(),
                ) != needle,
            None => forall|j: int|
                from <= j && j + needle.len() <= s.len() ==> #[trigger] s.subrange(
                    j,
                    j + needle.len(),
                ) != needle,
        },
{
    lemma_found_at_first(s, needle, from);
    match found_at(s, needle, from) {
        Some(i) => {
            assert forall|j: int| from <= j < i && j + needle.len() <= s.len() implies
                #[trigger] s.subrange(j, j + needle.len()) != needle by {
                assert(!occurs_at(s, needle, j));
            }
        },
        None => {
            assert forall|j: int| from <= j && j + needle.len() <= s.len() implies
                #[trigger] s.subrange(j, j + needle.len()) != needle by {
                assert(!occurs_at(s, needle, j));
            }
        },
    }
}

/// Texts are ordered by their first characters that differ; a text comes behind its own beginnings.
pub proof fn law_texts_in_order(head: Seq<char>, a: Seq<char>, b: Seq<char>)
    ensures
        b.len() > 0 ==> before(head, head + b),
        a.len() > 0 && b.len() > 0 && a[0] != b[0] ==> (before(head + a, head + b)
            <==> (a[0] as int) < (b[0] as int)),
        !before(a, Seq::empty()),
    decreases head.len(),
{
    if head.len() > 0 {
        let rest = head.subrange(1, head.len() as int);
        law_texts_in_order(rest, a, b);
        assert((head + a).subrange(1, (head + a).len() as int) =~= rest + a);
        assert((head + b).subrange(1, (head + b).len() as int) =~= rest + b);
        assert((head + a)[0] == head[0] && (head + b)[0] == head[0]);
    } else {
        assert(head + a =~= a);
        assert(head + b =~= b);
    }
}

// ---------------------------------------------------------------------------------------------
// Failures and maps
// ---------------------------------------------------------------------------------------------
/// A failure on one line is its message, and its cause behind a colon where it has one.
pub proof fn law_failures_on_one_line(message: Seq<char>, cause: Seq<char>)
    ensures
        plain(message).message == message,
        plain(message).cause is None,
        caused(message, cause).message == message,
        caused(message, cause).cause == Some(cause),
        full_text(plain(message)) == message,
        full_text(caused(message, cause)) == message + ": "@ + cause,
{
}

/// Of two checks the first one that fails is reported; both pass exactly where neither fails.
pub proof fn law_first_failures(a: Option<FailureView>, b: Option<FailureView>)
    ensures
        a is Some ==> first(a, b) == a,
        a is None ==> first(a, b) == b,
{
}

/// A map holds each of its ascending entries under its key, and nothing else.
pub proof fn law_maps_hold_their_entries<V>(p: Seq<(Seq<char>, V)>, k: Seq<char>)
    requires
        ascending(p),
    ensures
        map_of(p).dom().contains(k) <==> exists|i: int| 0 <= i < p.len() && (#[trigger] p[i]).0 == k,
        forall|i: int| 0 <= i < p.len() && (#[trigger] p[i]).0 == k ==> map_of(p)[k] == p[i].1,
{
    assert forall|i: int| 0 <= i < p.len() && (#[trigger] p[i]).0 == k implies map_of(p)[k]
        == p[i].1 by {
        lemma_unique_key(p, i);
    }
    if map_of(p).dom().contains(k) {
        assert(has_key(p, k));
        assert(p[position(p, k)].0 == k);
    }
}

/// Variables on top of others come first; the others stay where nothing is put on top of them.
pub proof fn law_variables_on_top(
    base: Map<Seq<char>, Seq<char>>,
    over: Map<Seq<char>, Seq<char>>,
    name: Seq<char>,
)
    ensures
        overlaid(base, over).dom().contains(name) <==> base.dom().contains(name)
            || over.dom().contains(name),
        over.dom().contains(name) ==> overlaid(base, over)[name] == over[name],
        base.dom().contains(name) && !over.dom().contains(name) ==> overlaid(base, over)[name]
            == base[name],
{
}

/// The views of texts are their characters, one text for one.
pub proof fn law_views_of_texts(v: Seq<String>, o: Option<String>)
    ensures
        texts(v).len() == v.len(),
        forall|i: int| 0 <= i < v.len() ==> #[trigger] texts(v)[i] == v[i]@,
        opt_text(o) is Some <==> o is Some,
        o is Some ==> opt_text(o)->0 == o->0@,
{
}

/// The views of a map of texts are its values, under the same keys.
pub proof fn law_views_of_maps(m: Map<Seq<char>, String>, k: Seq<char>)
    ensures
        env_of(m).dom().contains(k) <==> m.dom().contains(k),
        m.dom().contains(k) ==> env_of(m)[k] == m[k]@,
{
}

} // verus!
