//! JSON values.

use vstd::prelude::*;

verus! {

/// A JSON value. A number is kept as it is written.
pub enum JsonView {
    Null,
    Bool(bool),
    Number(Seq<char>),
    Text(Seq<char>),
    Array(Seq<JsonView>),
    Object(Seq<(Seq<char>, JsonView)>),
}

/// A JSON value. A number is kept as it is written.
#[derive(Debug)]
pub enum JsonValue {
    Null,
    Bool(bool),
    Number(String),
    Text(String),
    Array(Vec<JsonValue>),
    Object(Vec<(String, JsonValue)>),
}

/// A JSON value in views.
pub open spec fn json_view(v: JsonValue) -> JsonView
    decreases v, 0nat,
{
    match v {
        JsonValue::Null => JsonView::Null,
        JsonValue::Bool(b) => JsonView::Bool(b),
        JsonValue::Number(n) => JsonView::Number(n@),
        JsonValue::Text(s) => JsonView::Text(s@),
        JsonValue::Array(items) => JsonView::Array(json_items(items@, items@.len())),
        JsonValue::Object(fields) => JsonView::Object(json_fields(fields@, fields@.len())),
    }
}

/// The first `n` items of an array in views.
pub open spec fn json_items(items: Seq<JsonValue>, n: nat) -> Seq<JsonView>
    decreases items, n,
{
    if n == 0 || n > items.len() {
        Seq::empty()
    } else {
        json_items(items, (n - 1) as nat).push(json_view(items[n - 1]))
    }
}

/// The first `n` fields of an object in views.
pub open spec fn json_fields(fields: Seq<(String, JsonValue)>, n: nat) -> Seq<
    (Seq<char>, JsonView),
>
    decreases fields, n,
{
    if n == 0 || n > fields.len() {
        Seq::empty()
    } else {
        json_fields(fields, (n - 1) as nat).push((fields[n - 1].0@, json_view(fields[n - 1].1)))
    }
}

impl View for JsonValue {
    type V = JsonView;

    open spec fn view(&self) -> JsonView {
        json_view(*self)
    }
}

/// An object with one field.
pub fn json_object1(name: &str, value: JsonValue) -> (r: JsonValue)
    ensures
        r@ == JsonView::Object(seq![(name@, value@)]),
{
    let mut fields: Vec<(String, JsonValue)> = Vec::new();
    fields.push((name.to_owned(), value));
    proof {
        reveal_with_fuel(json_fields, 2);
        assert(json_fields(fields@, 1) =~= seq![(name@, value@)]);
    }
    JsonValue::Object(fields)
}

/// An object with two fields.
pub fn json_object2(
    name1: &str,
    value1: JsonValue,
    name2: &str,
    value2: JsonValue,
) -> (r: JsonValue)
    ensures
        r@ == JsonView::Object(seq![(name1@, value1@), (name2@, value2@)]),
{
    let mut fields: Vec<(String, JsonValue)> = Vec::new();
    fields.push((name1.to_owned(), value1));
    fields.push((name2.to_owned(), value2));
    proof {
        reveal_with_fuel(json_fields, 3);
        assert(json_fields(fields@, 2) =~= seq![(name1@, value1@), (name2@, value2@)]);
    }
    JsonValue::Object(fields)
}

/// An object with four fields.
pub fn json_object4(
    name1: &str,
    value1: JsonValue,
    name2: &str,
    value2: JsonValue,
    name3: &str,
    value3: JsonValue,
    name4: &str,
    value4: JsonValue,
) -> (r: JsonValue)
    ensures
        r@ == JsonView::Object(
            seq![(name1@, value1@), (name2@, value2@), (name3@, value3@), (name4@, value4@)],
        ),
{
    let mut fields: Vec<(String, JsonValue)> = Vec::new();
    fields.push((name1.to_owned(), value1));
    fields.push((name2.to_owned(), value2));
    fields.push((name3.to_owned(), value3));
    fields.push((name4.to_owned(), value4));
    proof {
        reveal_with_fuel(json_fields, 5);
        assert(json_fields(fields@, 4) =~= seq![
            (name1@, value1@),
            (name2@, value2@),
            (name3@, value3@),
            (name4@, value4@),
        ]);
    }
    JsonValue::Object(fields)
}

} // verus!
