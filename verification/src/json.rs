//! JSON documents as the library reads them: the top level of a document,
//! with scalar members held as plain values. Parsing and printing are done by
//! `serde_json`; what they give is named, not rebuilt here.

use serde_json::Value;
use vstd::prelude::*;

verus! {

/// `serde_json`'s dynamically typed value, carried through opaquely.
#[verifier::external_type_specification]
#[verifier::external_body]
pub struct ExJsonValue(serde_json::Value);

/// `Clone` on `serde_json::Value` is derived in `serde_json`: the copy equals
/// the value it was made from.
pub assume_specification [<serde_json::Value as Clone>::clone](v: &serde_json::Value) -> (r: serde_json::Value)
    ensures
        r == *v,
;

/// A JSON value as the library reads it. Integers that fit an `i64` are
/// `Int`; every other value (other numbers, arrays, objects) is carried as is.
#[derive(Debug, Clone)]
pub enum JsonValue {
    Null,
    Bool(bool),
    Int(i64),
    Str(String),
    Other(serde_json::Value),
}

impl JsonValue {
    /// A copy of this value.
    pub fn copy(&self) -> (r: JsonValue)
        ensures
            r@ == self@,
    {
        match self {
            JsonValue::Null => JsonValue::Null,
            JsonValue::Bool(b) => JsonValue::Bool(*b),
            JsonValue::Int(i) => JsonValue::Int(*i),
            JsonValue::Str(s) => JsonValue::Str(s.clone()),
            JsonValue::Other(x) => JsonValue::Other(x.clone()),
        }
    }
}

/// A parsed JSON document: an object with its members in order, or any other
/// value.
#[derive(Debug, Clone)]
pub enum JsonDoc {
    Object(Vec<(String, JsonValue)>),
    Value(JsonValue),
}

/// The abstract value of a `JsonValue`.
pub enum JsonView {
    Null,
    Bool(bool),
    Int(i64),
    Str(Seq<char>),
    Other(serde_json::Value),
}

/// Members of an object: names and values, in order.
pub type Members = Seq<(Seq<char>, JsonView)>;

/// The abstract value of a `JsonDoc`.
pub enum DocView {
    Object(Members),
    Value(JsonView),
}

impl View for JsonValue {
    type V = JsonView;

    open spec fn view(&self) -> JsonView {
        match self {
            JsonValue::Null => JsonView::Null,
            JsonValue::Bool(b) => JsonView::Bool(*b),
            JsonValue::Int(i) => JsonView::Int(*i),
            JsonValue::Str(s) => JsonView::Str(s@),
            JsonValue::Other(x) => JsonView::Other(*x),
        }
    }
}

/// The members of an object, by their views.
pub open spec fn members(fields: Seq<(String, JsonValue)>) -> Members {
    fields.map_values(|f: (String, JsonValue)| (f.0@, f.1@))
}

impl View for JsonDoc {
    type V = DocView;

    open spec fn view(&self) -> DocView {
        match self {
            JsonDoc::Object(fields) => DocView::Object(members(fields@)),
            JsonDoc::Value(v) => DocView::Value(v@),
        }
    }
}

/// What `serde_json::from_str` gives for a text, as a document; `None` where
/// the text is not JSON.
pub uninterp spec fn json_parse(text: Seq<char>) -> Option<DocView>;

/// The text that `serde_json` prints for a document.
pub uninterp spec fn json_print(doc: DocView) -> Seq<char>;

/// The names of an object's members.
pub open spec fn member_keys(m: Members) -> Seq<Seq<char>> {
    m.map_values(|f: (Seq<char>, JsonView)| f.0)
}

/// The value of the first member named `key`, if any.
pub open spec fn lookup(m: Members, key: Seq<char>) -> Option<JsonView>
    decreases m.len(),
{
    if m.len() == 0 {
        None
    } else if m[0].0 == key {
        Some(m[0].1)
    } else {
        lookup(m.drop_first(), key)
    }
}

/// Whether some member is named `key`.
pub open spec fn has_key(m: Members, key: Seq<char>) -> bool {
    lookup(m, key) is Some
}

/// `value.as_str()`: the string of a string value.
pub open spec fn as_str(v: Option<JsonView>) -> Option<Seq<char>> {
    match v {
        Some(JsonView::Str(s)) => Some(s),
        _ => None,
    }
}

/// `value.as_bool()`: the boolean of a boolean value.
pub open spec fn as_bool(v: Option<JsonView>) -> Option<bool> {
    match v {
        Some(JsonView::Bool(b)) => Some(b),
        _ => None,
    }
}

/// `value.as_i64()`: the integer of a number that fits an `i64`.
pub open spec fn as_i64(v: Option<JsonView>) -> Option<i64> {
    match v {
        Some(JsonView::Int(i)) => Some(i),
        _ => None,
    }
}

/// The members parsed from `text` when it is an object (none otherwise).
pub open spec fn object_or_empty(text: Seq<char>) -> Members {
    match json_parse(text) {
        Some(DocView::Object(m)) => m,
        _ => Seq::empty(),
    }
}

/// The members of a document that is an object; none for any other
/// document (`Value::get` finds nothing there).
pub open spec fn doc_members(d: DocView) -> Members {
    match d {
        DocView::Object(m) => m,
        DocView::Value(_) => Seq::empty(),
    }
}

/// The members of a document that is an object; none for any other.
pub fn into_members(doc: JsonDoc) -> (r: Vec<(String, JsonValue)>)
    ensures
        members(r@) == doc_members(doc@),
{
    match doc {
        JsonDoc::Object(fields) => fields,
        JsonDoc::Value(_) => {
            let r: Vec<(String, JsonValue)> = Vec::new();
            assert(members(r@) =~= Seq::<(Seq<char>, JsonView)>::empty());
            r
        },
    }
}

/// The deepest nesting of arrays and objects in JSON text from position `i`
/// on, `depth` of them being open before it; brackets inside string
/// literals do not count, and a backslash there escapes the next character.
pub open spec fn nesting_from(t: Seq<char>, i: int, depth: int, in_string: bool, escaped: bool) -> int
    decreases t.len() - i,
{
    if i < 0 || i >= t.len() {
        depth
    } else {
        let c = t[i];
        if in_string {
            if escaped {
                nesting_from(t, i + 1, depth, true, false)
            } else if c == '\\' {
                nesting_from(t, i + 1, depth, true, true)
            } else {
                nesting_from(t, i + 1, depth, c != '"', false)
            }
        } else if c == '"' {
            nesting_from(t, i + 1, depth, true, false)
        } else if c == '[' || c == '{' {
            let rest = nesting_from(t, i + 1, depth + 1, false, false);
            if rest > depth + 1 { rest } else { depth + 1 }
        } else {
            let d = if c == ']' || c == '}' { depth - 1 } else { depth };
            let rest = nesting_from(t, i + 1, d, false, false);
            if rest > depth { rest } else { depth }
        }
    }
}

/// The deepest nesting of arrays and objects in JSON text.
pub open spec fn json_nesting(t: Seq<char>) -> int {
    nesting_from(t, 0, 0, false, false)
}

/// Whether a member value, printed, nests at most 126 deep, so that an
/// object holding it nests at most 127 deep: `serde_json`'s parser refuses
/// text nested 128 deep. Only values carried whole can nest at all.
pub open spec fn shallow(v: JsonView) -> bool {
    v is Other ==> json_nesting(json_print(DocView::Value(v))) <= 126
}

/// Whether every member value of an object is `shallow`.
pub open spec fn all_shallow(m: Members) -> bool {
    forall|i: int| 0 <= i < m.len() ==> shallow(#[trigger] m[i].1)
}

/// Whether JSON text from position `i` on holds, outside string literals, a
/// number with a fraction or an exponent: a `.`, or an `e` or `E` right after
/// a digit. A backslash inside a string literal escapes the next character.
pub open spec fn float_from(t: Seq<char>, i: int, in_string: bool, escaped: bool) -> bool
    decreases t.len() - i,
{
    if i < 0 || i >= t.len() {
        false
    } else {
        let c = t[i];
        if in_string {
            if escaped {
                float_from(t, i + 1, true, false)
            } else if c == '\\' {
                float_from(t, i + 1, true, true)
            } else {
                float_from(t, i + 1, c != '"', false)
            }
        } else if c == '"' {
            float_from(t, i + 1, true, false)
        } else if c == '.' || ((c == 'e' || c == 'E') && i > 0 && '0' <= t[i - 1] <= '9') {
            true
        } else {
            float_from(t, i + 1, false, false)
        }
    }
}

/// Whether JSON text holds a number with a fraction or an exponent, as
/// `serde_json` prints every float.
pub open spec fn holds_float(t: Seq<char>) -> bool {
    float_from(t, 0, false, false)
}

/// The value of a text of decimal digits.
pub open spec fn decimal_value(t: Seq<char>) -> int
    decreases t.len(),
{
    if t.len() == 0 {
        0
    } else {
        decimal_value(t.drop_last()) * 10 + (t.last() as int - '0' as int)
    }
}

/// Whether a text is a whole number in decimal digits beyond `i64`'s range.
pub open spec fn is_big_natural(t: Seq<char>) -> bool {
    &&& t.len() > 0
    &&& forall|i: int| 0 <= i < t.len() ==> '0' <= #[trigger] t[i] <= '9'
    &&& decimal_value(t) > i64::MAX
}

/// Whether a value carried whole reads back exactly: an array or an object
/// whose printed text holds no float, or a whole number beyond `i64`'s range.
/// `serde_json` reads such text back to the very value printed; a float it
/// may read back one unit in the last place off, as it is built here without
/// its `float_roundtrip` feature.
pub open spec fn kept_whole(v: JsonView) -> bool {
    let t = json_print(DocView::Value(v));
    &&& v is Other
    &&& (is_big_natural(t) || (t.len() > 0 && (t[0] == '[' || t[0] == '{') && !holds_float(t)))
}

/// Whether a value read back from printed text keeps what was printed: a
/// string, integer, boolean or null, and a value that is `kept_whole`,
/// exactly (a float, or an array or object holding one, may read back
/// otherwise).
pub open spec fn reads_back_as(v: JsonView, w: JsonView) -> bool {
    (v is Other && !kept_whole(v)) || w == v
}

/// Whether `text`, the print of an object with members `m`, parses back to
/// an object with the same member names and, where no name occurs twice in
/// `m`, the same values as `reads_back_as` says; owed when every member is
/// `shallow`.
pub open spec fn object_reads_back(m: Members, text: Seq<char>) -> bool {
    all_shallow(m) ==> (json_parse(text) matches Some(DocView::Object(m2))
        && (forall|k: Seq<char>| #[trigger] has_key(m2, k) == has_key(m, k))
        && (member_keys(m).no_duplicates() ==> forall|k: Seq<char>| #[trigger] has_key(m, k)
            ==> reads_back_as(lookup(m, k)->0, lookup(m2, k)->0)))
}

/// Whether `text`, the print of `doc`, reads back as `doc` where it is an
/// object (see `object_reads_back`).
pub open spec fn prints_back(doc: DocView, text: Seq<char>) -> bool {
    doc matches DocView::Object(m) ==> object_reads_back(m, text)
}

/// Parses a JSON text with `serde_json::from_str` into a document; `None`
/// where the text is not JSON. The members of an object come from a
/// `serde_json::Map`, so no key occurs twice; the parser refuses text nested
/// 128 deep, so every member value of an object is `shallow`.
#[verifier::external_body]
pub fn parse_json(text: &str) -> (r: Option<JsonDoc>)
    ensures
        match r {
            Some(d) => json_parse(text@) == Some(d@),
            None => json_parse(text@) is None,
        },
        r matches Some(JsonDoc::Object(fields)) ==> member_keys(members(fields@)).no_duplicates(),
        r matches Some(JsonDoc::Object(fields)) ==> all_shallow(members(fields@)),
{
    let scalar = |v: Value| match v {
        Value::Null => JsonValue::Null,
        Value::Bool(b) => JsonValue::Bool(b),
        Value::Number(n) => match n.as_i64() {
            Some(i) => JsonValue::Int(i),
            None => JsonValue::Other(Value::Number(n)),
        },
        Value::String(s) => JsonValue::Str(s),
        other => JsonValue::Other(other),
    };
    match serde_json::from_str::<Value>(text) {
        Err(_) => None,
        Ok(Value::Object(m)) => Some(JsonDoc::Object(m.into_iter().map(|(k, v)| (k, scalar(v))).collect())),
        Ok(v) => Some(JsonDoc::Value(scalar(v))),
    }
}

/// Prints a document with `serde_json` (`Value::to_string`); an object is
/// built member by member, so a later member replaces an earlier one of the
/// same name. Where the members are `shallow`, the text of an object parses
/// back as `prints_back` says: every value but a float, or an array or
/// object holding one, is printed so that `serde_json` reads it back
/// unchanged, and the object nests at most 127 deep. An object with no
/// members prints as `{}`.
#[verifier::external_body]
pub fn print_json(doc: &JsonDoc) -> (r: String)
    ensures
        r@ == json_print(doc@),
        prints_back(doc@, r@),
        doc@ == DocView::Object(Seq::empty()) ==> r@ == "{}"@,
{
    let value = |v: &JsonValue| match v {
        JsonValue::Null => Value::Null,
        JsonValue::Bool(b) => Value::Bool(*b),
        JsonValue::Int(i) => Value::from(*i),
        JsonValue::Str(s) => Value::String(s.clone()),
        JsonValue::Other(x) => x.clone(),
    };
    match doc {
        JsonDoc::Object(fields) => Value::Object(fields.iter().map(|(k, v)| (k.clone(), value(v))).collect()).to_string(),
        JsonDoc::Value(v) => value(v).to_string(),
    }
}

/// The JSON value of a whole text (`serde_json::from_str`), `None` where
/// the text is not JSON. An object or array is carried as it is; printing it
/// gives what printing the parsed document gives.
#[verifier::external_body]
pub(crate) fn parse_value(text: &str) -> (r: Option<JsonValue>)
    ensures
        match r {
            None => json_parse(text@) is None,
            Some(x) => match json_parse(text@) {
                Some(DocView::Value(v)) => x@ == v,
                Some(DocView::Object(m)) => x is Other && json_print(DocView::Value(x@)) == json_print(DocView::Object(m)),
                None => false,
            },
        },
{
    match serde_json::from_str::<Value>(text) {
        Ok(Value::Null) => Some(JsonValue::Null),
        Ok(Value::Bool(b)) => Some(JsonValue::Bool(b)),
        Ok(Value::Number(n)) => match n.as_i64() {
            Some(i) => Some(JsonValue::Int(i)),
            None => Some(JsonValue::Other(Value::Number(n))),
        },
        Ok(Value::String(s)) => Some(JsonValue::Str(s)),
        Ok(other) => Some(JsonValue::Other(other)),
        Err(_) => None,
    }
}

/// An empty JSON object (`Value::Object` of an empty map), as a
/// value to nest in a document; it prints as `{}`.
#[verifier::external_body]
pub(crate) fn empty_object() -> (r: JsonValue)
    ensures
        r is Other,
        json_print(DocView::Value(r@)) == "{}"@,
{
    JsonValue::Other(Value::Object(serde_json::Map::new()))
}

/// The JSON value of a whole text, or an empty object where the text is
/// not JSON. An object or array is carried as it is; printing it gives what
/// printing the parsed document gives, and the empty object prints as `{}`.
pub fn embed_json(text: &str) -> (r: JsonValue)
    ensures
        json_parse(text@) matches Some(DocView::Value(v)) ==> r@ == v,
        json_parse(text@) matches Some(DocView::Object(m)) ==> r is Other
            && json_print(DocView::Value(r@)) == json_print(DocView::Object(m)),
        json_parse(text@) is None ==> r is Other && json_print(DocView::Value(r@)) == "{}"@,
{
    match parse_value(text) {
        Some(v) => v,
        None => empty_object(),
    }
}

/// The value of the first member named `key`, if any (`Map::get`).
pub fn get<'a>(fields: &'a Vec<(String, JsonValue)>, key: &str) -> (r: Option<&'a JsonValue>)
    ensures
        match r {
            Some(v) => lookup(members(fields@), key@) == Some(v@),
            None => lookup(members(fields@), key@) is None,
        },
{
    let mut i: usize = 0;
    assert(fields@.skip(0) =~= fields@);
    assert(members(fields@.skip(0)) =~= members(fields@));
    while i < fields.len()
        invariant
            i <= fields.len(),
            lookup(members(fields@), key@) == lookup(members(fields@.skip(i as int)), key@),
        decreases fields.len() - i,
    {
        assert(members(fields@.skip(i as int)).drop_first() =~= members(fields@.skip(i + 1)));
        if crate::text::str_eq(fields[i].0.as_str(), key) {
            return Some(&fields[i].1);
        }
        i = i + 1;
    }
    None
}

/// The string of member `key`, where it is a string.
pub fn get_str(fields: &Vec<(String, JsonValue)>, key: &str) -> (r: Option<String>)
    ensures
        match r {
            Some(s) => as_str(lookup(members(fields@), key@)) == Some(s@),
            None => as_str(lookup(members(fields@), key@)) is None,
        },
{
    match get(fields, key) {
        Some(JsonValue::Str(s)) => Some(s.clone()),
        _ => None,
    }
}

/// The boolean of member `key`, where it is a boolean.
pub fn get_bool(fields: &Vec<(String, JsonValue)>, key: &str) -> (r: Option<bool>)
    ensures
        r == as_bool(lookup(members(fields@), key@)),
{
    match get(fields, key) {
        Some(JsonValue::Bool(b)) => Some(*b),
        _ => None,
    }
}

/// The integer of member `key`, where it is a number that fits an `i64`.
pub fn get_i64(fields: &Vec<(String, JsonValue)>, key: &str) -> (r: Option<i64>)
    ensures
        r == as_i64(lookup(members(fields@), key@)),
{
    match get(fields, key) {
        Some(JsonValue::Int(i)) => Some(*i),
        _ => None,
    }
}

/// Whether some member is named `key` (`Map::contains_key`).
pub fn contains_key(fields: &Vec<(String, JsonValue)>, key: &str) -> (r: bool)
    ensures
        r == has_key(members(fields@), key@),
{
    get(fields, key).is_some()
}

/// The members of the object in `text`, where it is a JSON object.
pub fn parse_object(text: &str) -> (r: Option<Vec<(String, JsonValue)>>)
    ensures
        match r {
            Some(fields) => json_parse(text@) == Some(DocView::Object(members(fields@))),
            None => !(json_parse(text@) matches Some(DocView::Object(_))),
        },
{
    match parse_json(text) {
        Some(JsonDoc::Object(fields)) => Some(fields),
        _ => None,
    }
}

/// Prints an object built from `fields`.
pub fn print_object(fields: Vec<(String, JsonValue)>) -> (r: String)
    ensures
        r@ == json_print(DocView::Object(members(fields@))),
        object_reads_back(members(fields@), r@),
        fields@.len() == 0 ==> r@ == "{}"@,
{
    let doc = JsonDoc::Object(fields);
    proof {
        if fields@.len() == 0 {
            assert(members(fields@) =~= Seq::<(Seq<char>, JsonView)>::empty());
        }
    }
    print_json(&doc)
}

} // verus!
