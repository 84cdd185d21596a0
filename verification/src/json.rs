//! JSON documents as trees, and the two places where `serde_json` is
//! called: to read a document from text and to write a text as a string
//! literal.

use vstd::prelude::*;

use crate::text::same_text;

verus! {

/// A JSON value. An object keeps its members in the order in which they were
/// handed over. A number's value plays no part in the schema and is not kept.
#[derive(Debug, PartialEq, Eq)]
pub enum Json {
    Null,
    Bool(bool),
    Number,
    Text(String),
    List(Vec<Json>),
    Record(Vec<(String, Json)>),
}

/// What a [`Json`] is: the same tree over mathematical sequences.
pub enum JsonView {
    Null,
    Bool(bool),
    Number,
    Text(Seq<char>),
    List(Seq<JsonView>),
    Record(Seq<(Seq<char>, JsonView)>),
}

impl View for Json {
    type V = JsonView;

    open spec fn view(&self) -> JsonView {
        tree_view(*self)
    }
}

/// The tree of a [`Json`], node by node.
pub open spec fn tree_view(json: Json) -> JsonView
    decreases json,
{
    match json {
        Json::Null => JsonView::Null,
        Json::Bool(b) => JsonView::Bool(b),
        Json::Number => JsonView::Number,
        Json::Text(text) => JsonView::Text(text@),
        Json::List(items) => JsonView::List(
            Seq::new(
                items@.len(),
                |i: int|
                    if 0 <= i < items@.len() {
                        tree_view(items@[i])
                    } else {
                        JsonView::Null
                    },
            ),
        ),
        Json::Record(members) => JsonView::Record(
            Seq::new(
                members@.len(),
                |i: int|
                    if 0 <= i < members@.len() {
                        (members@[i].0@, tree_view(members@[i].1))
                    } else {
                        (Seq::<char>::empty(), JsonView::Null)
                    },
            ),
        ),
    }
}

/// The views of an object's members, in the same order.
pub open spec fn members_view(members: Seq<(String, Json)>) -> Seq<(Seq<char>, JsonView)> {
    Seq::new(members.len(), |i: int| (members[i].0@, members[i].1@))
}

/// The views of an array's items, in the same order.
pub open spec fn items_view(items: Seq<Json>) -> Seq<JsonView> {
    Seq::new(items.len(), |i: int| items[i]@)
}

/// The view of an object is the object of its members' views.
pub proof fn lemma_record_view(members: Vec<(String, Json)>)
    ensures
        Json::Record(members)@ == JsonView::Record(members_view(members@)),
{
    assert(Json::Record(members)@->Record_0 =~= members_view(members@));
}

/// The view of an array is the array of its items' views.
pub proof fn lemma_list_view(items: Vec<Json>)
    ensures
        Json::List(items)@ == JsonView::List(items_view(items@)),
{
    assert(Json::List(items)@->List_0 =~= items_view(items@));
}

/// The first member under `key`, if there is one.
pub open spec fn lookup(members: Seq<(Seq<char>, JsonView)>, key: Seq<char>) -> Option<JsonView>
    decreases members.len(),
{
    if members.len() == 0 {
        None
    } else if members[0].0 == key {
        Some(members[0].1)
    } else {
        lookup(members.drop_first(), key)
    }
}

/// The first member of an object under `key`.
pub fn find<'a>(members: &'a Vec<(String, Json)>, key: &str) -> (r: Option<&'a Json>)
    ensures
        match r {
            Some(json) => lookup(members_view(members@), key@) == Some(json@),
            None => lookup(members_view(members@), key@) is None,
        },
{
    let ghost all = members_view(members@);
    let mut i: usize = 0;
    assert(all.skip(0) == all);
    while i < members.len()
        invariant
            i <= members.len(),
            all == members_view(members@),
            lookup(all, key@) == lookup(all.skip(i as int), key@),
        decreases members.len() - i,
    {
        proof {
            assert(all.skip(i as int).drop_first() == all.skip(i + 1));
        }
        if same_text(members[i].0.as_str(), key) {
            return Some(&members[i].1);
        }
        i = i + 1;
    }
    None
}

/// Reads one JSON document from a text: the tree, or the reader's message
/// where the text is no document.
pub fn parse(text: &str) -> (r: Result<Json, String>)
    ensures
        match r {
            Ok(json) => json_document(text@) == Ok::<JsonView, Seq<char>>(json@),
            Err(message) => json_document(text@) == Err::<JsonView, Seq<char>>(message@),
        },
{
    match read_document(text) {
        Ok(value) => Ok(lift(&value)),
        Err(message) => Err(message),
    }
}

#[verifier::external_type_specification]
#[verifier::external_body]
pub struct ExValue(serde_json::Value);

#[verifier::external_type_specification]
#[verifier::external_body]
pub struct ExError(serde_json::Error);

/// The JSON tree that a `serde_json::Value` holds, an object's members in
/// the order in which its map hands them out.
pub uninterp spec fn json_of(value: serde_json::Value) -> JsonView;

/// What `serde_json::from_str` makes of a text: the tree of the value it
/// reads, or the message of the error it reports.
pub uninterp spec fn json_document(text: Seq<char>) -> Result<JsonView, Seq<char>>;

/// The JSON string literal that `serde_json::to_string` writes for a text:
/// the text between double quotes, with its escapes.
pub uninterp spec fn json_string_literal(text: Seq<char>) -> Seq<char>;

/// `serde_json::from_str` at `serde_json::Value`: reads one JSON document
/// from the text. Nothing but the text decides the result. An error is handed
/// out as its message.
#[verifier::external_body]
fn read_document(text: &str) -> (r: Result<serde_json::Value, String>)
    ensures
        match r {
            Ok(value) => json_document(text@) == Ok::<JsonView, Seq<char>>(json_of(value)),
            Err(message) => json_document(text@) == Err::<JsonView, Seq<char>>(message@),
        },
{
    match serde_json::from_str::<serde_json::Value>(text) {
        Ok(value) => Ok(value),
        Err(error) => Err(error.to_string()),
    }
}

/// Turns a `serde_json::Value` into a [`Json`], variant by variant. The
/// members of an object come from `serde_json::Map::iter`.
#[verifier::external_body]
fn lift(value: &serde_json::Value) -> (r: Json)
    ensures
        r@ == json_of(*value),
{
    match value {
        serde_json::Value::Null => Json::Null,
        serde_json::Value::Bool(b) => Json::Bool(*b),
        serde_json::Value::Number(_) => Json::Number,
        serde_json::Value::String(text) => Json::Text(text.clone()),
        serde_json::Value::Array(items) => Json::List(items.iter().map(lift).collect()),
        serde_json::Value::Object(map) => Json::Record(
            map.iter().map(|(key, member)| (key.clone(), lift(member))).collect(),
        ),
    }
}

/// `serde_json::to_string` at `str`: writes the text as a JSON string
/// literal. Writing a `str` into memory has no way to fail, so the result is
/// always `Ok`.
#[verifier::external_body]
pub(crate) fn quote(text: &str) -> (r: Result<String, serde_json::Error>)
    ensures
        r is Ok,
        r matches Ok(literal) ==> literal@ == json_string_literal(text@),
{
    serde_json::to_string(text)
}

} // verus!
