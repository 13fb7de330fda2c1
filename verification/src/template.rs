//! Templates: texts in which `{{name}}` stands for a value.

use vstd::prelude::*;

use crate::failure::{plain, told, Failure, FailureView};
use crate::order::{
    before, lemma_before_irreflexive, lemma_before_total, lemma_before_transitive, place, Place,
};
use crate::text::{
    chars_of, concat3, find_from, found_at, lemma_found_at_first, same_text, text_range,
    texts, trim_text, trimmed,
};
use crate::text_map::{env_of, EnvMap};

verus! {

// ---------------------------------------------------------------------------------------------
// Names in ascending order
// ---------------------------------------------------------------------------------------------
/// A list of names with one more, in ascending order and each once.
pub open spec fn with_name(names: Seq<Seq<char>>, x: Seq<char>) -> Seq<Seq<char>>
    decreases names.len(),
{
    if names.len() == 0 {
        seq![x]
    } else if names[0] == x {
        names
    } else if before(x, names[0]) {
        seq![x] + names
    } else {
        seq![names[0]] + with_name(names.subrange(1, names.len() as int), x)
    }
}

/// The first `n` names of a list in ascending order, each once.
pub open spec fn name_set(names: Seq<Seq<char>>, n: int) -> Seq<Seq<char>>
    decreases n,
{
    if n <= 0 {
        Seq::empty()
    } else {
        with_name(name_set(names, n - 1), names[n - 1])
    }
}

/// Names in strictly ascending order.
pub open spec fn ascending_names(names: Seq<Seq<char>>) -> bool {
    forall|i: int, j: int| 0 <= i < j < names.len() ==> before(#[trigger] names[i], #[trigger] names[j])
}

proof fn lemma_with_name(names: Seq<Seq<char>>, x: Seq<char>)
    requires
        ascending_names(names),
    ensures
        ascending_names(with_name(names, x)),
        forall|y: Seq<char>|
            #[trigger] with_name(names, x).contains(y) <==> names.contains(y) || y == x,
    decreases names.len(),
{
    let r = with_name(names, x);
    if names.len() == 0 {
        assert forall|y: Seq<char>| #[trigger] r.contains(y) <==> names.contains(y) || y == x by {
            if y == x {
                assert(r[0] == x);
            }
        }
    } else if names[0] == x {
        assert(names.contains(x));
    } else if before(x, names[0]) {
        assert forall|i: int, j: int| 0 <= i < j < r.len() implies before(
            #[trigger] r[i],
            #[trigger] r[j],
        ) by {
            if i == 0 {
                if j > 1 {
                    lemma_before_transitive(x, names[0], names[j - 1]);
                }
            } else {
                assert(before(names[i - 1], names[j - 1]));
            }
        }
        assert forall|y: Seq<char>| #[trigger] r.contains(y) <==> names.contains(y) || y == x by {
            if r.contains(y) {
                let k = choose|k: int| 0 <= k < r.len() && r[k] == y;
                if k > 0 {
                    assert(names[k - 1] == y);
                }
            }
            if names.contains(y) {
                let k = choose|k: int| 0 <= k < names.len() && names[k] == y;
                assert(r[k + 1] == y);
            }
            if y == x {
                assert(r[0] == y);
            }
        }
    } else {
        let rest = names.subrange(1, names.len() as int);
        lemma_before_total(x, names[0]);
        assert forall|i: int, j: int| 0 <= i < j < rest.len() implies before(
            #[trigger] rest[i],
            #[trigger] rest[j],
        ) by {
            assert(before(names[i + 1], names[j + 1]));
        }
        lemma_with_name(rest, x);
        let tail = with_name(rest, x);
        assert(r == seq![names[0]] + tail);
        assert forall|i: int, j: int| 0 <= i < j < r.len() implies before(
            #[trigger] r[i],
            #[trigger] r[j],
        ) by {
            if i == 0 {
                assert(tail.contains(r[j])) by {
                    assert(tail[j - 1] == r[j]);
                }
                if r[j] != x {
                    let k = choose|k: int| 0 <= k < rest.len() && rest[k] == r[j];
                    assert(before(names[0], names[k + 1]));
                }
            } else {
                assert(before(tail[i - 1], tail[j - 1]));
            }
        }
        assert forall|y: Seq<char>| #[trigger] r.contains(y) <==> names.contains(y) || y == x by {
            if r.contains(y) {
                let k = choose|k: int| 0 <= k < r.len() && r[k] == y;
                if k > 0 {
                    assert(tail[k - 1] == y);
                    assert(tail.contains(y));
                    if y != x {
                        let m = choose|m: int| 0 <= m < rest.len() && rest[m] == y;
                        assert(names[m + 1] == y);
                    }
                } else {
                    assert(names[0] == y);
                }
            }
            if names.contains(y) || y == x {
                if y == names[0] {
                    assert(r[0] == y);
                } else {
                    if y != x {
                        let k = choose|k: int| 0 <= k < names.len() && names[k] == y;
                        assert(rest[k - 1] == y);
                        assert(rest.contains(y));
                    }
                    assert(tail.contains(y));
                    let m = choose|m: int| 0 <= m < tail.len() && tail[m] == y;
                    assert(r[m + 1] == y);
                }
            }
        }
    }
}

/// The set of some names ascends strictly and holds these names and no others.
pub proof fn law_name_set(names: Seq<Seq<char>>, n: int)
    requires
        0 <= n <= names.len(),
    ensures
        ascending_names(name_set(names, n)),
        forall|y: Seq<char>|
            #[trigger] name_set(names, n).contains(y) <==> names.subrange(0, n).contains(y),
    decreases n,
{
    if n > 0 {
        law_name_set(names, n - 1);
        lemma_with_name(name_set(names, n - 1), names[n - 1]);
        let short = names.subrange(0, n - 1);
        let long = names.subrange(0, n);
        assert forall|y: Seq<char>|
            #[trigger] name_set(names, n).contains(y) <==> long.contains(y) by {
            assert(name_set(names, n - 1).contains(y) <==> short.contains(y));
            if long.contains(y) {
                let k = choose|k: int| 0 <= k < long.len() && long[k] == y;
                if k < n - 1 {
                    assert(short[k] == y);
                }
            }
            if short.contains(y) {
                let k = choose|k: int| 0 <= k < short.len() && short[k] == y;
                assert(long[k] == y);
            }
            if y == names[n - 1] {
                assert(long[n - 1] == y);
            }
        }
    } else {
        assert forall|y: Seq<char>|
            #[trigger] name_set(names, n).contains(y) <==> names.subrange(0, n).contains(y) by {}
    }
}

fn insert_name(v: &mut Vec<String>, x: String)
    ensures
        texts(final(v)@) == with_name(texts(old(v)@), x@),
{
    let ghost names = texts(v@);
    let total: usize = v.len();
    let mut i: usize = 0;
    assert(names.subrange(0, names.len() as int) =~= names);
    assert(with_name(names, x@) =~= names.subrange(0, 0) + with_name(
        names.subrange(0, names.len() as int),
        x@,
    ));
    while i < total
        invariant
            i <= total == v@.len(),
            v@ == old(v)@,
            names == texts(v@),
            with_name(names, x@) == names.subrange(0, i as int) + with_name(
                names.subrange(i as int, names.len() as int),
                x@,
            ),
        decreases total - i,
    {
        let ghost rest = names.subrange(i as int, names.len() as int);
        assert(rest[0] == v@[i as int]@);
        match place(&v[i], &x) {
            Place::Same => {
                assert(names.subrange(0, i as int) + rest =~= names);
                return;
            },
            Place::After => {
                let ghost head = names.subrange(0, i as int);
                proof {
                    if rest[0] == x@ {
                        lemma_before_irreflexive(x@);
                    }
                }
                v.insert(i, x);
                assert(texts(v@) =~= head + (seq![x@] + rest));
                return;
            },
            Place::Before => {
                proof {
                    if before(x@, rest[0]) {
                        lemma_before_transitive(x@, rest[0], x@);
                        lemma_before_irreflexive(x@);
                    }
                    let next = names.subrange(i + 1, names.len() as int);
                    assert(rest.subrange(1, rest.len() as int) =~= next);
                    assert(names.subrange(0, i + 1) =~= names.subrange(0, i as int).push(
                        names[i as int],
                    ));
                    assert(names.subrange(0, i as int) + (seq![rest[0]] + with_name(next, x@))
                        =~= names.subrange(0, i + 1) + with_name(next, x@));
                }
            },
        }
        i = i + 1;
    }
    assert(names.subrange(0, total as int) =~= names);
    v.push(x);
    assert(texts(v@) =~= names + seq![x@]);
}

// ---------------------------------------------------------------------------------------------
// Placeholders
// ---------------------------------------------------------------------------------------------
/// What reading the placeholders of a template gives: their names in order, or that one is not
/// closed or empty.
pub enum Scan {
    Names(Seq<Seq<char>>),
    Unclosed,
    Empty,
}

/// The placeholders of a template from a position on.
pub open spec fn scan(s: Seq<char>, from: int) -> Scan
    decreases s.len() - from,
    when 0 <= from <= s.len()
    via scan_ends
{
    match found_at(s, "{{"@, from) {
        None => Scan::Names(Seq::empty()),
        Some(i) => match found_at(s, "}}"@, i + 2) {
            None => Scan::Unclosed,
            Some(j) => {
                let name = trimmed(s.subrange(i + 2, j));
                if name.len() == 0 {
                    Scan::Empty
                } else {
                    match scan(s, j + 2) {
                        Scan::Names(rest) => Scan::Names(seq![name] + rest),
                        other => other,
                    }
                }
            },
        },
    }
}

#[via_fn]
proof fn scan_ends(s: Seq<char>, from: int) {
    reveal_strlit("{{");
    reveal_strlit("}}");
    lemma_found_at_first(s, "{{"@, from);
    match found_at(s, "{{"@, from) {
        Some(i) => {
            lemma_found_at_first(s, "}}"@, i + 2);
        },
        None => {},
    }
}

/// A scan with names in front.
spec fn scan_after(done: Seq<Seq<char>>, sc: Scan) -> Scan {
    match sc {
        Scan::Names(rest) => Scan::Names(done + rest),
        other => other,
    }
}

/// The names of the placeholders of a template in ascending order, each once.
pub open spec fn placeholders(s: Seq<char>) -> Result<Seq<Seq<char>>, FailureView> {
    match scan(s, 0) {
        Scan::Names(names) => Ok(name_set(names, names.len() as int)),
        Scan::Unclosed => Err(plain("unclosed template variable in '"@ + s + "'"@)),
        Scan::Empty => Err(plain("empty template variable in '"@ + s + "'"@)),
    }
}

/// A list of texts or a failure in views.
pub open spec fn texts_result(r: Result<Vec<String>, Failure>) -> Result<
    Seq<Seq<char>>,
    FailureView,
> {
    match r {
        Ok(v) => Ok(texts(v@)),
        Err(f) => Err(f@),
    }
}

/// The names of the placeholders of a template in ascending order, each once.
pub fn extract_placeholders(input: &str) -> (r: Result<Vec<String>, Failure>)
    ensures
        texts_result(r) == placeholders(input@),
{
    let v = chars_of(input);
    let open_mark = chars_of("{{");
    let close_mark = chars_of("}}");
    proof {
        reveal_strlit("{{");
        reveal_strlit("}}");
    }
    let total: usize = v.len();
    let mut found: Vec<String> = Vec::new();
    let mut from: usize = 0;
    let ghost mut done: Seq<Seq<char>> = Seq::empty();
    assert(texts(found@) =~= name_set(done, 0));
    proof {
        match scan(input@, 0) {
            Scan::Names(rest) => {
                assert(done + rest =~= rest);
            },
            _ => {},
        }
    }
    loop
        invariant_except_break
            from <= total == v@.len(),
            v@ == input@,
            open_mark@ == "{{"@,
            close_mark@ == "}}"@,
            "{{"@.len() == 2,
            "}}"@.len() == 2,
            texts(found@) == name_set(done, done.len() as int),
            scan(input@, 0) == scan_after(done, scan(input@, from as int)),
        ensures
            scan(input@, 0) == Scan::Names(done),
            texts(found@) == name_set(done, done.len() as int),
        decreases total - from,
    {
        proof {
            lemma_found_at_first(v@, "{{"@, from as int);
        }
        let start = match find_from(&v, &open_mark, from) {
            Some(i) => i + 2,
            None => {
                assert(done + Seq::<Seq<char>>::empty() =~= done);
                break;
            },
        };
        proof {
            lemma_found_at_first(v@, "}}"@, start as int);
        }
        let end = match find_from(&v, &close_mark, start) {
            Some(j) => j,
            None => {
                return Err(Failure::new(concat3("unclosed template variable in '", input, "'")));
            },
        };
        let name = trim_text(&text_range(&v, start, end));
        if name.as_str().is_empty() {
            return Err(Failure::new(concat3("empty template variable in '", input, "'")));
        }
        proof {
            let n = name@;
            let longer = done.push(n);
            match scan(input@, end + 2) {
                Scan::Names(rest) => {
                    assert(done + (seq![n] + rest) =~= longer + rest);
                },
                _ => {},
            }
            lemma_name_set_prefix(done, longer, done.len() as int);
            done = longer;
        }
        insert_name(&mut found, name);
        from = end + 2;
    }
    Ok(found)
}

proof fn lemma_name_set_prefix(a: Seq<Seq<char>>, b: Seq<Seq<char>>, n: int)
    requires
        0 <= n <= a.len(),
        n <= b.len(),
        forall|i: int| 0 <= i < n ==> a[i] == b[i],
    ensures
        name_set(a, n) == name_set(b, n),
    decreases n,
{
    if n > 0 {
        lemma_name_set_prefix(a, b, n - 1);
    }
}

// ---------------------------------------------------------------------------------------------
// Allowed names
// ---------------------------------------------------------------------------------------------
/// Whether a template may use a name.
pub open spec fn allowed(name: Seq<char>) -> bool {
    ||| name == "artifact_id"@
    ||| name == "artifact_date"@
    ||| name == "run_id"@
    ||| name == "run_dir"@
    ||| name == "collect_file"@
    ||| name == "render_input_file"@
    ||| name == "render_file"@
    ||| name == "collector_id"@
    ||| name == "collector_output"@
    ||| name == "host"@
}

fn is_allowed(name: &str) -> (r: bool)
    ensures
        r == allowed(name@),
{
    same_text(name, "artifact_id") || same_text(name, "artifact_date") || same_text(name, "run_id")
        || same_text(name, "run_dir") || same_text(name, "collect_file") || same_text(
        name,
        "render_input_file",
    ) || same_text(name, "render_file") || same_text(name, "collector_id") || same_text(
        name,
        "collector_output",
    ) || same_text(name, "host")
}

/// A placeholder as it stands in a template.
pub open spec fn marked(name: Seq<char>) -> Seq<char> {
    "{{"@ + name + "}}"@
}

/// The failure of the first name from position `k` on that a template may not use.
pub open spec fn unknown_failure(names: Seq<Seq<char>>, field: Seq<char>, k: int) -> Option<
    FailureView,
>
    decreases names.len() - k,
{
    if k < 0 || k >= names.len() {
        None
    } else if !allowed(names[k]) {
        Some(plain(field + " uses unknown template variable '"@ + marked(names[k]) + "'"@))
    } else {
        unknown_failure(names, field, k + 1)
    }
}

/// The failure of a template: it is malformed, or uses a name that it may not use.
pub open spec fn template_failure(value: Seq<char>, field: Seq<char>) -> Option<FailureView> {
    match placeholders(value) {
        Err(f) => Some(f),
        Ok(names) => unknown_failure(names, field, 0),
    }
}

/// Checks a template that stands in a field of a configuration.
pub fn validate_template_string(value: &str, field_path: &str) -> (r: Result<(), Failure>)
    ensures
        told(r) == template_failure(value@, field_path@),
{
    let names = match extract_placeholders(value) {
        Ok(names) => names,
        Err(f) => {
            return Err(f);
        },
    };
    let mut k: usize = 0;
    while k < names.len()
        invariant
            k <= names@.len(),
            placeholders(value@) == Ok::<Seq<Seq<char>>, FailureView>(texts(names@)),
            template_failure(value@, field_path@) == unknown_failure(
                texts(names@),
                field_path@,
                k as int,
            ),
        decreases names@.len() - k,
    {
        if !is_allowed(&names[k]) {
            let mark = concat3("{{", &names[k], "}}");
            let mut message = concat3(field_path, " uses unknown template variable '", &mark);
            message.append("'");
            return Err(Failure::new(message));
        }
        k = k + 1;
    }
    Ok(())
}

// ---------------------------------------------------------------------------------------------
// Filling in
// ---------------------------------------------------------------------------------------------
/// A text with every occurrence of `needle`, from the left and without overlap, replaced.
pub open spec fn replaced(s: Seq<char>, needle: Seq<char>, value: Seq<char>, from: int) -> Seq<
    char,
>
    decreases s.len() - from,
    when 0 <= from <= s.len() && needle.len() > 0
    via replaced_ends
{
    match found_at(s, needle, from) {
        None => s.subrange(from, s.len() as int),
        Some(i) => s.subrange(from, i) + value + replaced(s, needle, value, i + needle.len()),
    }
}

#[via_fn]
proof fn replaced_ends(s: Seq<char>, needle: Seq<char>, value: Seq<char>, from: int) {
    lemma_found_at_first(s, needle, from);
}

/// A text with every occurrence of `needle`, from the left and without overlap, replaced.
pub fn replace_all(text: &str, needle: &str, value: &str) -> (r: String)
    requires
        needle@.len() > 0,
    ensures
        r@ == replaced(text@, needle@, value@, 0),
{
    let v = chars_of(text);
    let mark = chars_of(needle);
    let total: usize = v.len();
    let width: usize = mark.len();
    let mut r = String::new();
    let mut from: usize = 0;
    assert(r@ + replaced(text@, needle@, value@, 0) =~= replaced(text@, needle@, value@, 0));
    loop
        invariant
            from <= total == v@.len(),
            v@ == text@,
            mark@ == needle@,
            width == mark@.len(),
            width > 0,
            r@ + replaced(text@, needle@, value@, from as int) == replaced(
                text@,
                needle@,
                value@,
                0,
            ),
        decreases total - from,
    {
        proof {
            lemma_found_at_first(v@, mark@, from as int);
        }
        let ghost prior = r@;
        match find_from(&v, &mark, from) {
            None => {
                r.append(&text_range(&v, from, total));
                return r;
            },
            Some(i) => {
                r.append(&text_range(&v, from, i));
                r.append(value);
                proof {
                    let rest = replaced(text@, needle@, value@, i + width);
                    assert(prior + (text@.subrange(from as int, i as int) + value@ + rest)
                        =~= prior + text@.subrange(from as int, i as int) + value@ + rest);
                }
                from = i + width;
            },
        }
    }
}

/// A template with the values of its names from position `k` on filled in, name by name.
pub open spec fn filled(
    text: Seq<char>,
    names: Seq<Seq<char>>,
    values: Map<Seq<char>, Seq<char>>,
    k: int,
) -> Result<Seq<char>, FailureView>
    decreases names.len() - k,
{
    if k < 0 || k >= names.len() {
        Ok(text)
    } else if !values.dom().contains(names[k]) {
        Err(plain("unknown template variable '"@ + marked(names[k]) + "'"@))
    } else {
        filled(
            replaced(text, marked(names[k]), values[names[k]], 0),
            names,
            values,
            k + 1,
        )
    }
}

/// A template with its values filled in.
pub open spec fn resolved(
    template: Seq<char>,
    values: Map<Seq<char>, Seq<char>>,
) -> Result<Seq<char>, FailureView> {
    match placeholders(template) {
        Err(f) => Err(f),
        Ok(names) => filled(template, names, values, 0),
    }
}

/// A text or a failure in views.
pub open spec fn filled_result(r: Result<String, Failure>) -> Result<Seq<char>, FailureView> {
    match r {
        Ok(s) => Ok(s@),
        Err(f) => Err(f@),
    }
}

/// A template with its values filled in: name by name in ascending order, each occurrence of
/// `{{name}}`.
pub fn resolve_template(template: &str, values: &EnvMap) -> (r: Result<String, Failure>)
    ensures
        filled_result(r) == resolved(template@, env_of(values@)),
{
    let names = match extract_placeholders(template) {
        Ok(names) => names,
        Err(f) => {
            return Err(f);
        },
    };
    let ghost goal = resolved(template@, env_of(values@));
    let mut result = template.to_owned();
    let mut k: usize = 0;
    while k < names.len()
        invariant
            k <= names@.len(),
            goal == resolved(template@, env_of(values@)),
            goal == filled(result@, texts(names@), env_of(values@), k as int),
        decreases names@.len() - k,
    {
        let mark = concat3("{{", &names[k], "}}");
        match values.get(&names[k]) {
            Some(value) => {
                proof {
                    reveal_strlit("{{");
                }
                result = replace_all(&result, &mark, value);
            },
            None => {
                return Err(
                    Failure::new(concat3("unknown template variable '", &mark, "'")),
                );
            },
        }
        k = k + 1;
    }
    Ok(result)
}

proof fn lemma_allowed_names_known(names: Seq<Seq<char>>, field: Seq<char>, k: int)
    requires
        0 <= k <= names.len(),
        unknown_failure(names, field, k) is None,
    ensures
        forall|i: int| k <= i < names.len() ==> allowed(#[trigger] names[i]),
    decreases names.len() - k,
{
    if k < names.len() {
        lemma_allowed_names_known(names, field, k + 1);
    }
}

pub proof fn lemma_filled_succeeds(
    text: Seq<char>,
    names: Seq<Seq<char>>,
    values: Map<Seq<char>, Seq<char>>,
    k: int,
)
    requires
        0 <= k <= names.len(),
        forall|i: int| k <= i < names.len() ==> values.dom().contains(#[trigger] names[i]),
    ensures
        filled(text, names, values, k) is Ok,
    decreases names.len() - k,
{
    if k < names.len() {
        lemma_filled_succeeds(
            replaced(text, marked(names[k]), values[names[k]], 0),
            names,
            values,
            k + 1,
        );
    }
}

/// A template that passed the check can be filled in wherever every allowed name has a value.
pub proof fn law_checked_templates_resolve(
    template: Seq<char>,
    field: Seq<char>,
    values: Map<Seq<char>, Seq<char>>,
)
    requires
        template_failure(template, field) is None,
        forall|name: Seq<char>| #[trigger] allowed(name) ==> values.dom().contains(name),
    ensures
        resolved(template, values) is Ok,
{
    let names = placeholders(template)->Ok_0;
    lemma_allowed_names_known(names, field, 0);
    assert forall|i: int| 0 <= i < names.len() implies values.dom().contains(
        #[trigger] names[i],
    ) by {
        assert(allowed(names[i]));
    }
    lemma_filled_succeeds(template, names, values, 0);
}

} // verus!
