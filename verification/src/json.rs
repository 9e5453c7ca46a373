//! JSON documents as trees of plain values, read from text by `serde_json`.

use vstd::prelude::*;
use crate::text::same_text;

verus! {

/// A JSON document.
///
/// A number is carried as the IEEE-754 bit pattern of the double it converts
/// to, or `None` where it converts to none. An object is the list of its
/// members in the order the parser gives them.
#[derive(Debug, PartialEq, Eq)]
pub enum Json {
    Null,
    Bool(bool),
    Number(Option<u64>),
    Text(String),
    Array(Vec<Json>),
    Object(Vec<(String, Json)>),
}

/// The mathematical value of a [`Json`] document.
pub enum JsonValue {
    Null,
    Bool(bool),
    Number(Option<u64>),
    Text(Seq<char>),
    Array(Seq<JsonValue>),
    Object(Seq<(Seq<char>, JsonValue)>),
}

impl JsonValue {
    /// The string that this value is, if it is one.
    pub open spec fn text(self) -> Option<Seq<char>> {
        match self {
            JsonValue::Text(s) => Some(s),
            _ => None,
        }
    }

    /// The bit pattern of the double that this value converts to, if it is a
    /// number that converts to one.
    pub open spec fn number(self) -> Option<u64> {
        match self {
            JsonValue::Number(n) => n,
            _ => None,
        }
    }

    /// The elements of this value, if it is an array.
    pub open spec fn items(self) -> Option<Seq<JsonValue>> {
        match self {
            JsonValue::Array(items) => Some(items),
            _ => None,
        }
    }

    /// The members of this value, if it is an object; none otherwise.
    pub open spec fn members(self) -> Seq<(Seq<char>, JsonValue)> {
        match self {
            JsonValue::Object(fields) => fields,
            _ => Seq::empty(),
        }
    }

    /// Whether this value is an object with a member named `key`.
    pub open spec fn has_member(self, key: Seq<char>) -> bool {
        exists|i: int| 0 <= i < self.members().len() && (#[trigger] self.members()[i]).0 == key
    }

    /// The member named `key`: the first one of that name where this value is
    /// an object that has one, and `Null` otherwise.
    pub open spec fn member(self, key: Seq<char>) -> JsonValue {
        match self {
            JsonValue::Object(fields) => first_member(fields, key),
            _ => JsonValue::Null,
        }
    }
}

/// The value of the first member in `fields` whose name is `key`, or `Null`
/// if no member has that name.
pub open spec fn first_member(fields: Seq<(Seq<char>, JsonValue)>, key: Seq<char>) -> JsonValue
    decreases fields.len(),
{
    if fields.len() == 0 {
        JsonValue::Null
    } else if fields[0].0 == key {
        fields[0].1
    } else {
        first_member(fields.drop_first(), key)
    }
}

/// The value of the document `j`.
pub open spec fn json_value(j: Json) -> JsonValue
    decreases j, 0nat,
{
    match j {
        Json::Null => JsonValue::Null,
        Json::Bool(b) => JsonValue::Bool(b),
        Json::Number(n) => JsonValue::Number(n),
        Json::Text(s) => JsonValue::Text(s@),
        Json::Array(items) => JsonValue::Array(values_upto(items@, items@.len())),
        Json::Object(fields) => JsonValue::Object(members_upto(fields@, fields@.len())),
    }
}

/// The values of the first `n` documents of `items`, in order.
pub open spec fn values_upto(items: Seq<Json>, n: nat) -> Seq<JsonValue>
    decreases items, n,
{
    if n == 0 || n > items.len() {
        Seq::empty()
    } else {
        values_upto(items, (n - 1) as nat).push(json_value(items[n - 1]))
    }
}

/// The names and values of the first `n` members of `fields`, in order.
pub open spec fn members_upto(fields: Seq<(String, Json)>, n: nat) -> Seq<(Seq<char>, JsonValue)>
    decreases fields, n,
{
    if n == 0 || n > fields.len() {
        Seq::empty()
    } else {
        members_upto(fields, (n - 1) as nat).push((fields[n - 1].0@, json_value(fields[n - 1].1)))
    }
}

impl View for Json {
    type V = JsonValue;

    open spec fn view(&self) -> JsonValue {
        json_value(*self)
    }
}

/// The values of the documents in `items`, in order.
pub open spec fn json_views(items: Seq<Json>) -> Seq<JsonValue> {
    Seq::new(items.len(), |i: int| items[i]@)
}

/// The names and values of the members in `fields`, in order.
pub open spec fn member_views(fields: Seq<(String, Json)>) -> Seq<(Seq<char>, JsonValue)> {
    Seq::new(fields.len(), |i: int| (fields[i].0@, fields[i].1@))
}

proof fn lemma_values_upto(items: Seq<Json>, n: nat)
    requires
        n <= items.len(),
    ensures
        values_upto(items, n) == json_views(items.subrange(0, n as int)),
    decreases n,
{
    if n > 0 {
        lemma_values_upto(items, (n - 1) as nat);
    }
    assert(values_upto(items, n) =~= json_views(items.subrange(0, n as int)));
}

proof fn lemma_members_upto(fields: Seq<(String, Json)>, n: nat)
    requires
        n <= fields.len(),
    ensures
        members_upto(fields, n) == member_views(fields.subrange(0, n as int)),
    decreases n,
{
    if n > 0 {
        lemma_members_upto(fields, (n - 1) as nat);
    }
    assert(members_upto(fields, n) =~= member_views(fields.subrange(0, n as int)));
}

/// The value of an array is the sequence of the values of its elements.
pub proof fn lemma_array_value(items: Vec<Json>)
    ensures
        Json::Array(items)@ == JsonValue::Array(json_views(items@)),
{
    lemma_values_upto(items@, items@.len());
    assert(items@.subrange(0, items@.len() as int) =~= items@);
}

/// The value of an object is the sequence of its members' names and values.
pub proof fn lemma_object_value(fields: Vec<(String, Json)>)
    ensures
        Json::Object(fields)@ == JsonValue::Object(member_views(fields@)),
{
    lemma_members_upto(fields@, fields@.len());
    assert(fields@.subrange(0, fields@.len() as int) =~= fields@);
}

/// Where the first member of `fields` does not have the name `key`, the
/// member of that name is looked up among the rest.
proof fn lemma_first_member_skips(
    fields: Seq<(Seq<char>, JsonValue)>,
    key: Seq<char>,
    from: int,
)
    requires
        0 <= from < fields.len(),
        fields[from].0 != key,
    ensures
        first_member(fields.subrange(from, fields.len() as int), key) == first_member(
            fields.subrange(from + 1, fields.len() as int),
            key,
        ),
{
    let tail = fields.subrange(from, fields.len() as int);
    assert(tail.drop_first() =~= fields.subrange(from + 1, fields.len() as int));
}

impl Json {
    /// The string slice of this document, if it is a string.
    pub fn as_text(&self) -> (r: Option<&str>)
        ensures
            r is Some <==> self@.text() is Some,
            r matches Some(s) ==> self@.text() == Some(s@),
    {
        match self {
            Json::Text(s) => Some(s.as_str()),
            _ => None,
        }
    }

    /// The bit pattern of the double that this document converts to, if it
    /// is a number that converts to one.
    pub fn as_number(&self) -> (r: Option<u64>)
        ensures
            r == self@.number(),
    {
        match self {
            Json::Number(n) => *n,
            _ => None,
        }
    }

    /// The elements of this document, if it is an array.
    pub fn as_array(&self) -> (r: Option<&Vec<Json>>)
        ensures
            r is Some <==> self@.items() is Some,
            r matches Some(items) ==> self@.items() == Some(json_views(items@)),
    {
        match self {
            Json::Array(items) => {
                proof {
                    lemma_array_value(*items);
                }
                Some(items)
            },
            _ => None,
        }
    }

    /// The first member named `key`, if this document is an object that has
    /// one.
    pub fn get(&self, key: &str) -> (r: Option<&Json>)
        ensures
            r is Some <==> self@.has_member(key@),
            r matches Some(v) ==> v@ == self@.member(key@),
            r is None ==> self@.member(key@) == JsonValue::Null,
    {
        match self {
            Json::Object(fields) => {
                let ghost names = member_views(fields@);
                proof {
                    lemma_object_value(*fields);
                    assert(names.subrange(0, names.len() as int) =~= names);
                }
                let n: usize = fields.len();
                let mut i: usize = 0;
                while i < n
                    invariant
                        n == fields@.len(),
                        self@ == JsonValue::Object(names),
                        names.len() == n,
                        i <= n,
                        forall|k: int|
                            0 <= k < n ==> #[trigger] names[k] == (fields@[k].0@, fields@[k].1@),
                        forall|k: int| 0 <= k < i ==> (#[trigger] names[k]).0 != key@,
                        first_member(names, key@) == first_member(
                            names.subrange(i as int, n as int),
                            key@,
                        ),
                    decreases n - i,
                {
                    if same_text(fields[i].0.as_str(), key) {
                        assert(names.subrange(i as int, n as int)[0] == names[i as int]);
                        assert(self@.members()[i as int].0 == key@);
                        return Some(&fields[i].1);
                    }
                    proof {
                        lemma_first_member_skips(names, key@, i as int);
                    }
                    i += 1;
                }
                None
            },
            _ => None,
        }
    }
}

/// `serde_json::Value`, the parser's own tree. Nothing is said of what it
/// holds: it is turned into a [`Json`] before anything reads it.
#[verifier::external_type_specification]
#[verifier::external_body]
pub struct ExJsonValue(serde_json::Value);

/// `serde_json::Error`, the parser's account of a text that it rejects.
#[verifier::external_type_specification]
#[verifier::external_body]
pub struct ExJsonError(serde_json::Error);

/// The document that `serde_json` reads from `text`, or `None` where it
/// rejects the text.
pub uninterp spec fn parsed_json(text: Seq<char>) -> Option<JsonValue>;

/// Turns a `serde_json::Value` into a [`Json`], variant by variant and
/// member by member. A number goes through `serde_json::Number::as_f64` and
/// is kept as the bits of that double. Nothing is claimed of the result
/// here; [`read_json`] names it.
#[verifier::external_body]
fn lift(value: serde_json::Value) -> Json {
    match value {
        serde_json::Value::Null => Json::Null,
        serde_json::Value::Bool(b) => Json::Bool(b),
        serde_json::Value::Number(n) => Json::Number(n.as_f64().map(|x| x.to_bits())),
        serde_json::Value::String(s) => Json::Text(s),
        serde_json::Value::Array(items) => Json::Array(items.into_iter().map(lift).collect()),
        serde_json::Value::Object(fields) => Json::Object(
            fields.into_iter().map(|(k, v)| (k, lift(v))).collect(),
        ),
    }
}

/// Calls `serde_json::from_str` for a `serde_json::Value` and hands the
/// value on through [`lift`]. The parser is a function of the text alone: the
/// contract gives its outcome the name [`parsed_json`], `None` for a text
/// that it rejects, and claims nothing else of it.
#[verifier::external_body]
fn read_json(text: &str) -> (r: Result<Json, serde_json::Error>)
    ensures
        match r {
            Ok(doc) => parsed_json(text@) == Some(doc@),
            Err(_) => parsed_json(text@) is None,
        },
{
    serde_json::from_str::<serde_json::Value>(text).map(lift)
}

/// Reads a JSON document from `text`; `None` where the text is not JSON.
pub fn parse(text: &str) -> (r: Option<Json>)
    ensures
        match r {
            Some(doc) => parsed_json(text@) == Some(doc@),
            None => parsed_json(text@) is None,
        },
{
    match read_json(text) {
        Ok(doc) => Some(doc),
        Err(_) => None,
    }
}

} // verus!
