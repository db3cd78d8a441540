//! A JSON document as plain values, and the reading of model lists out of
//! a `/models` reply.

use vstd::prelude::*;
use crate::text::same_text;


verus! {

/// A JSON value. Numbers keep the text that the JSON printer writes for
/// them; an object keeps its members in order.
pub enum JsonValue {
    Null,
    Bool(bool),
    Number(String),
    Str(String),
    Array(Vec<JsonValue>),
    Object(Vec<(String, JsonValue)>),
}

/// The mathematical form of a JSON value.
pub enum JsonView {
    Null,
    Bool(bool),
    Number(Seq<char>),
    Str(Seq<char>),
    Array(Seq<JsonView>),
    Object(Seq<(Seq<char>, JsonView)>),
}

pub open spec fn json_view(j: JsonValue) -> JsonView
    decreases j, 1int,
{
    match j {
        JsonValue::Null => JsonView::Null,
        JsonValue::Bool(b) => JsonView::Bool(b),
        JsonValue::Number(n) => JsonView::Number(n@),
        JsonValue::Str(s) => JsonView::Str(s@),
        JsonValue::Array(items) => JsonView::Array(json_views(items@)),
        JsonValue::Object(members) => JsonView::Object(member_views(members@)),
    }
}

pub open spec fn json_views(s: Seq<JsonValue>) -> Seq<JsonView>
    decreases s, 0int,
{
    if s.len() == 0 {
        Seq::empty()
    } else {
        seq![json_view(s[0])] + json_views(s.subrange(1, s.len() as int))
    }
}

pub open spec fn member_views(s: Seq<(String, JsonValue)>) -> Seq<(Seq<char>, JsonView)>
    decreases s, 0int,
{
    if s.len() == 0 {
        Seq::empty()
    } else {
        seq![(s[0].0@, json_view(s[0].1))] + member_views(s.subrange(1, s.len() as int))
    }
}

impl View for JsonValue {
    type V = JsonView;

    open spec fn view(&self) -> JsonView {
        json_view(*self)
    }
}


/// The value of the first member named `key` (serde_json's `Value::get`
/// on an object, whose keys are unique).
pub open spec fn member(members: Seq<(String, JsonValue)>, key: Seq<char>) -> Option<JsonValue>
    decreases members.len(),
{
    if members.len() == 0 {
        None
    } else if members[0].0@ == key {
        Some(members[0].1)
    } else {
        member(members.subrange(1, members.len() as int), key)
    }
}

/// `value.get(key)`: the member of an object, `None` for anything else.
pub open spec fn get_field(value: JsonValue, key: Seq<char>) -> Option<JsonValue> {
    match value {
        JsonValue::Object(members) => member(members@, key),
        _ => None,
    }
}

/// The `id` of one entry of a model list, when it is a string.
pub open spec fn model_id(entry: JsonValue) -> Option<Seq<char>> {
    match get_field(entry, "id"@) {
        Some(JsonValue::Str(s)) => Some(s@),
        _ => None,
    }
}

/// The string ids of the entries, in order; entries without one are skipped.
pub open spec fn model_ids(entries: Seq<JsonValue>) -> Seq<Seq<char>>
    decreases entries.len(),
{
    if entries.len() == 0 {
        Seq::empty()
    } else {
        let rest = model_ids(entries.subrange(1, entries.len() as int));
        match model_id(entries[0]) {
            Some(id) => seq![id] + rest,
            None => rest,
        }
    }
}

/// The model names that a `/models` reply lists: the string `id` of each
/// entry of its `data` array; nothing when there is no such array.
pub open spec fn listed_models(reply: JsonValue) -> Seq<Seq<char>> {
    match get_field(reply, "data"@) {
        Some(JsonValue::Array(entries)) => model_ids(entries@),
        _ => Seq::empty(),
    }
}

/// The texts of a list of strings.
pub open spec fn texts(v: Seq<String>) -> Seq<Seq<char>> {
    v.map_values(|s: String| s@)
}

/// The member named `key` of `value`, when `value` is an object that has one.
pub fn field<'a>(value: &'a JsonValue, key: &str) -> (r: Option<&'a JsonValue>)
    ensures
        match get_field(*value, key@) {
            Some(x) => r is Some && *r.unwrap() == x,
            None => r is None,
        },
{
    match value {
        JsonValue::Object(members) => {
            let n = members.len();
            let mut i: usize = 0;
            assert(members@.subrange(0, n as int) =~= members@);
            while i < n
                invariant
                    get_field(*value, key@) == member(members@, key@),
                    n == members@.len(),
                    i <= n,
                    member(members@, key@) == member(members@.subrange(i as int, n as int), key@),
                decreases n - i,
            {
                let ghost t = members@.subrange(i as int, n as int);
                assert(t[0] == members@[i as int]);
                assert(t.subrange(1, t.len() as int) =~= members@.subrange(i + 1, n as int));
                if same_text(members[i].0.as_str(), key) {
                    assert(member(t, key@) == Some(t[0].1));
                    return Some(&members[i].1);
                }
                i = i + 1;
            }
            None
        },
        _ => None,
    }
}

/// The names listed by a `/models` reply (see `listed_models`).
pub fn model_names(reply: &JsonValue) -> (r: Vec<String>)
    ensures
        texts(r@) == listed_models(*reply),
{
    let mut out: Vec<String> = Vec::new();
    match field(reply, "data") {
        Some(JsonValue::Array(entries)) => {
            let n = entries.len();
            let mut i: usize = 0;
            assert(entries@.subrange(0, n as int) =~= entries@);
            while i < n
                invariant
                    n == entries@.len(),
                    i <= n,
                    texts(out@) + model_ids(entries@.subrange(i as int, n as int)) == model_ids(
                        entries@,
                    ),
                decreases n - i,
            {
                let ghost t = entries@.subrange(i as int, n as int);
                assert(t[0] == entries@[i as int]);
                assert(t.subrange(1, t.len() as int) =~= entries@.subrange(i + 1, n as int));
                let ghost before = out@;
                match field(&entries[i], "id") {
                    Some(JsonValue::Str(s)) => {
                        out.push(s.clone());
                        assert(texts(out@) =~= texts(before) + seq![s@]);
                    },
                    _ => {},
                }
                i = i + 1;
            }
            assert(entries@.subrange(n as int, n as int) =~= Seq::<JsonValue>::empty());
            assert(texts(out@) + Seq::<Seq<char>>::empty() =~= texts(out@));
        },
        _ => {
            assert(texts(out@) =~= Seq::<Seq<char>>::empty());
        },
    }
    out
}

} // verus!
