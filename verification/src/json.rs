use vstd::prelude::*;

verus! {

/// A JSON document, modelled with plain values so that parsing logic
/// over it can be verified.
#[derive(Debug, PartialEq)]
pub enum JsonValue {
    Null,
    Bool(bool),
    Int(i64),
    Str(String),
    Arr(Vec<JsonValue>),
    Obj(Vec<(String, JsonValue)>),
}

/// The value under the first field named `k`, scanning from index `i`.
pub open spec fn lookup_from(fields: Seq<(String, JsonValue)>, k: Seq<char>, i: int) -> Option<
    JsonValue,
>
    decreases fields.len() - i,
{
    if i < 0 || i >= fields.len() {
        None
    } else if fields[i].0@ == k {
        Some(fields[i].1)
    } else {
        lookup_from(fields, k, i + 1)
    }
}

/// The value under the first field named `k`, if any.
pub open spec fn lookup(fields: Seq<(String, JsonValue)>, k: Seq<char>) -> Option<JsonValue> {
    lookup_from(fields, k, 0)
}

/// A successful lookup yields a value structurally inside the field sequence.
pub proof fn lemma_lookup_from_smaller(fields: Seq<(String, JsonValue)>, k: Seq<char>, i: int)
    requires
        lookup_from(fields, k, i) is Some,
    ensures
        decreases_to!(fields => lookup_from(fields, k, i)->0),
    decreases fields.len() - i,
{
    if 0 <= i < fields.len() && fields[i].0@ == k {
        assert(decreases_to!(fields => fields[i]));
    } else {
        lemma_lookup_from_smaller(fields, k, i + 1);
    }
}

/// The value under a field of an object is structurally inside the object,
/// so a parse may recurse into it.
pub proof fn lemma_obj_field_smaller(fields: Vec<(String, JsonValue)>, k: Seq<char>)
    requires
        lookup(fields@, k) is Some,
    ensures
        decreases_to!(JsonValue::Obj(fields) => lookup(fields@, k)->0),
{
    lemma_lookup_from_smaller(fields@, k, 0);
    let v = JsonValue::Obj(fields);
    assert(decreases_to!(v => v->Obj_0));
    assert(decreases_to!(fields => fields@));
}

/// The element sequence of an array value is structurally inside it.
pub proof fn lemma_arr_elems_smaller(items: Vec<JsonValue>)
    ensures
        decreases_to!(JsonValue::Arr(items) => items@),
{
    let v = JsonValue::Arr(items);
    assert(decreases_to!(v => v->Arr_0));
    assert(decreases_to!(items => items@));
}

/// Looks up `k` among the fields of `fields`, scanning from index `i`.
pub fn get_field_from<'a>(fields: &'a Vec<(String, JsonValue)>, k: &String, i: usize) -> (r: Option<
    &'a JsonValue,
>)
    ensures
        match r {
            Some(v) => lookup_from(fields@, k@, i as int) == Some(*v),
            None => lookup_from(fields@, k@, i as int) is None,
        },
    decreases fields@.len() - i,
{
    if i >= fields.len() {
        None
    } else if fields[i].0 == *k {
        Some(&fields[i].1)
    } else {
        get_field_from(fields, k, i + 1)
    }
}

/// Looks up the first field named `k`.
pub fn get_field<'a>(fields: &'a Vec<(String, JsonValue)>, k: &String) -> (r: Option<&'a JsonValue>)
    ensures
        match r {
            Some(v) => lookup(fields@, k@) == Some(*v),
            None => lookup(fields@, k@) is None,
        },
{
    get_field_from(fields, k, 0)
}

/// The string under field `k`, where it holds one.
pub open spec fn str_field(fields: Seq<(String, JsonValue)>, k: Seq<char>) -> Option<String> {
    match lookup(fields, k) {
        Some(JsonValue::Str(s)) => Some(s),
        _ => None,
    }
}

/// The integer under field `k`, where it holds one.
pub open spec fn int_field(fields: Seq<(String, JsonValue)>, k: Seq<char>) -> Option<i64> {
    match lookup(fields, k) {
        Some(JsonValue::Int(n)) => Some(n),
        _ => None,
    }
}

/// Whether `o` holds a string reading `s`.
pub open spec fn str_is(o: Option<String>, s: Seq<char>) -> bool {
    o matches Some(k) && k@ == s
}

/// The string under field `k`, where it holds one.
pub fn get_str_field(fields: &Vec<(String, JsonValue)>, k: &String) -> (r: Option<String>)
    ensures
        r == str_field(fields@, k@),
{
    match get_field(fields, k) {
        Some(v) => match v {
            JsonValue::Str(s) => Some(s.clone()),
            _ => None,
        },
        None => None,
    }
}

/// The integer under field `k`, where it holds one.
pub fn get_int_field(fields: &Vec<(String, JsonValue)>, k: &String) -> (r: Option<i64>)
    ensures
        r == int_field(fields@, k@),
{
    match get_field(fields, k) {
        Some(v) => match v {
            JsonValue::Int(n) => Some(*n),
            _ => None,
        },
        None => None,
    }
}

#[verifier::external_type_specification]
#[verifier::external_body]
pub struct ExSerdeValue(serde_json::Value);

/// The document that JSON text parses to, or `None` where the text is not
/// valid JSON. The result depends on the text alone.
pub uninterp spec fn parsed_json(s: Seq<char>) -> Option<JsonValue>;

/// Relies on serde_json::Value: each variant of the parsed value is carried
/// over to the matching variant of `JsonValue`, field for field; a number
/// that does not fit an `i64` is carried as zero.
#[verifier::external_body]
fn model_of_raw(v: serde_json::Value) -> JsonValue {
    match v {
        serde_json::Value::Null => JsonValue::Null,
        serde_json::Value::Bool(b) => JsonValue::Bool(b),
        serde_json::Value::Number(n) => JsonValue::Int(n.as_i64().unwrap_or(0)),
        serde_json::Value::String(s) => JsonValue::Str(s),
        serde_json::Value::Array(a) => JsonValue::Arr(a.into_iter().map(model_of_raw).collect()),
        serde_json::Value::Object(m) => JsonValue::Obj(
            m.into_iter().map(|p| (p.0, model_of_raw(p.1))).collect(),
        ),
    }
}

/// Relies on serde_json::from_str: the text parses to a JSON document or is
/// rejected, depending on the text alone.
#[verifier::external_body]
pub fn parse_json(s: &str) -> (r: Option<JsonValue>)
    ensures
        r == parsed_json(s@),
{
    match serde_json::from_str::<serde_json::Value>(s) {
        Ok(v) => Some(model_of_raw(v)),
        Err(_) => None,
    }
}

} // verus!
