//! JSON documents as plain trees, and the parser that reads them from bytes.

use crate::error::ParseError;
use crate::keyed::Entries;
use vstd::prelude::*;

verus! {

/// A JSON value. Only what this crate reads of a document is kept: of a
/// number, that it is one. An object holds its members in order, each a key
/// and the value under it.
#[derive(Debug, PartialEq, Eq)]
pub enum Json {
    Null,
    Bool(bool),
    Number,
    String(String),
    Array(Vec<Json>),
    Object(Vec<(String, Json)>),
}

/// A JSON value as a mathematical tree.
pub enum JsonTree {
    Null,
    Bool(bool),
    Number,
    Text(Seq<char>),
    Array(Seq<JsonTree>),
    Object(Entries<JsonTree>),
}

impl Json {
    /// The tree this value shows. The items of an array and the members of an
    /// object are taken in their order; the bounds tests in the definition
    /// only serve to show that it is well founded.
    pub open spec fn tree(self) -> JsonTree
        decreases self,
    {
        match self {
            Json::Null => JsonTree::Null,
            Json::Bool(b) => JsonTree::Bool(b),
            Json::Number => JsonTree::Number,
            Json::String(s) => JsonTree::Text(s@),
            Json::Array(items) => JsonTree::Array(
                Seq::new(
                    items.len() as nat,
                    |i: int|
                        if 0 <= i < items.len() {
                            items[i].tree()
                        } else {
                            JsonTree::Null
                        },
                ),
            ),
            Json::Object(members) => JsonTree::Object(
                Seq::new(
                    members.len() as nat,
                    |i: int|
                        if 0 <= i < members.len() {
                            (members[i].0@, members[i].1.tree())
                        } else {
                            (Seq::empty(), JsonTree::Null)
                        },
                ),
            ),
        }
    }
}

impl View for Json {
    type V = JsonTree;

    open spec fn view(&self) -> JsonTree {
        self.tree()
    }
}

impl DeepView for Json {
    type V = JsonTree;

    open spec fn deep_view(&self) -> JsonTree {
        self.view()
    }
}

/// `serde_json::Value`, a JSON value as the parser hands it out. Nothing of
/// its inside is known here.
#[verifier::external_type_specification]
#[verifier::external_body]
pub struct ExValue(serde_json::Value);

/// `serde_json::Error`, what the parser reports. Nothing of its inside is
/// known here.
#[verifier::external_type_specification]
#[verifier::external_body]
pub struct ExJsonError(serde_json::Error);

/// The document that `serde_json` reads from `bytes`, or `None` where it
/// reports an error.
pub uninterp spec fn json_document(bytes: Seq<u8>) -> Option<JsonTree>;

/// The tree that a `serde_json::Value` holds: the members of an object in the
/// order in which its map hands them out.
pub uninterp spec fn value_tree(value: serde_json::Value) -> JsonTree;

/// Calls `serde_json::from_slice` for a `serde_json::Value`. The contract
/// gives the outcome a name: the value holds `json_document` of the bytes, and
/// an error comes exactly where `json_document` is `None`.
#[verifier::external_body]
fn read_value(bytes: &[u8]) -> (read: Result<serde_json::Value, serde_json::Error>)
    ensures
        match read {
            Ok(value) => json_document(bytes@) == Some(value_tree(value)),
            Err(_) => json_document(bytes@) is None,
        },
{
    serde_json::from_slice::<serde_json::Value>(bytes)
}

/// The top of a `serde_json::Value`: which variant it is, and what that
/// variant holds.
enum Parts<'a> {
    Null,
    Bool(bool),
    Number,
    String(&'a String),
    Array(Vec<&'a serde_json::Value>),
    Object(Vec<(&'a String, &'a serde_json::Value)>),
}

/// The trees of the items of an array.
spec fn item_trees(items: Seq<&serde_json::Value>) -> Seq<JsonTree> {
    Seq::new(items.len(), |i: int| value_tree(*items[i]))
}

/// The keys of the members of an object, each with the tree of its value.
spec fn member_trees(members: Seq<(&String, &serde_json::Value)>) -> Entries<JsonTree> {
    Seq::new(members.len(), |i: int| (members[i].0@, value_tree(*members[i].1)))
}

/// Matches on the variants of `serde_json::Value`; the items of an array come
/// from `Vec::iter`, the members of an object from `serde_json::Map::iter`.
/// The contract says that the tree of the value is made of what the variant
/// holds: the same constant or text, or the trees of its items or members in
/// the order in which they are handed out.
#[verifier::external_body]
fn take_apart(value: &serde_json::Value) -> (parts: Parts<'_>)
    ensures
        value_tree(*value) == match parts {
            Parts::Null => JsonTree::Null,
            Parts::Bool(b) => JsonTree::Bool(b),
            Parts::Number => JsonTree::Number,
            Parts::String(text) => JsonTree::Text(text@),
            Parts::Array(items) => JsonTree::Array(item_trees(items@)),
            Parts::Object(members) => JsonTree::Object(member_trees(members@)),
        },
{
    match value {
        serde_json::Value::Null => Parts::Null,
        serde_json::Value::Bool(b) => Parts::Bool(*b),
        serde_json::Value::Number(_) => Parts::Number,
        serde_json::Value::String(text) => Parts::String(text),
        serde_json::Value::Array(items) => Parts::Array(items.iter().collect()),
        serde_json::Value::Object(map) => Parts::Object(map.iter().collect()),
    }
}

/// Copies the tree of a parsed value into a [`Json`].
fn lift(value: &serde_json::Value) -> (doc: Json)
    ensures
        doc@ == value_tree(*value),
    decreases value_tree(*value),
{
    match take_apart(value) {
        Parts::Null => Json::Null,
        Parts::Bool(b) => Json::Bool(b),
        Parts::Number => Json::Number,
        Parts::String(text) => Json::String(text.clone()),
        Parts::Array(items) => {
            let ghost trees = item_trees(items@);
            let mut lifted: Vec<Json> = Vec::new();
            let mut i: usize = 0;
            while i < items.len()
                invariant
                    i <= items.len(),
                    lifted.len() == i,
                    trees == item_trees(items@),
                    value_tree(*value) == JsonTree::Array(trees),
                    forall|j: int| 0 <= j < i ==> lifted[j]@ == trees[j],
                decreases items.len() - i,
            {
                proof {
                    assert(trees[i as int] == value_tree(*items[i as int]));
                    let whole = value_tree(*value);
                    assert(decreases_to!(whole => whole->Array_0));
                    assert(decreases_to!(whole->Array_0 => whole->Array_0[i as int]));
                }
                lifted.push(lift(items[i]));
                i = i + 1;
            }
            let doc = Json::Array(lifted);
            assert(doc@->Array_0 =~= trees);
            doc
        },
        Parts::Object(members) => {
            let ghost trees = member_trees(members@);
            let mut lifted: Vec<(String, Json)> = Vec::new();
            let mut i: usize = 0;
            while i < members.len()
                invariant
                    i <= members.len(),
                    lifted.len() == i,
                    trees == member_trees(members@),
                    value_tree(*value) == JsonTree::Object(trees),
                    forall|j: int| 0 <= j < i ==> (lifted[j].0@, lifted[j].1@) == trees[j],
                decreases members.len() - i,
            {
                proof {
                    assert(trees[i as int].1 == value_tree(*members[i as int].1));
                    let whole = value_tree(*value);
                    assert(decreases_to!(whole => whole->Object_0));
                    assert(decreases_to!(whole->Object_0 => whole->Object_0[i as int]));
                    assert(decreases_to!(whole->Object_0[i as int] => whole->Object_0[i as int].1));
                }
                lifted.push((members[i].0.clone(), lift(members[i].1)));
                i = i + 1;
            }
            let doc = Json::Object(lifted);
            assert(doc@->Object_0 =~= trees);
            doc
        },
    }
}

impl Json {
    /// Reads a JSON document from bytes.
    pub fn parse(bytes: &[u8]) -> (parsed: Result<Json, ParseError>)
        ensures
            match json_document(bytes@) {
                Some(tree) => parsed matches Ok(doc) && doc@ == tree,
                None => parsed == Err::<Json, ParseError>(ParseError::Syntax),
            },
    {
        match read_value(bytes) {
            Ok(value) => Ok(lift(&value)),
            Err(_) => Err(ParseError::Syntax),
        }
    }

    /// The members of an object, and `None` for any other value.
    pub fn members(&self) -> (found: Option<&Vec<(String, Json)>>)
        ensures
            match self@ {
                JsonTree::Object(entries) => found matches Some(members) && members.deep_view()
                    == entries,
                _ => found is None,
            },
    {
        match self {
            Json::Object(members) => {
                assert(members.deep_view() =~= self@->Object_0);
                Some(members)
            },
            _ => None,
        }
    }

    /// The text of a string, and `None` for any other value.
    pub fn text(&self) -> (found: Option<&String>)
        ensures
            match self@ {
                JsonTree::Text(chars) => found matches Some(text) && text@ == chars,
                _ => found is None,
            },
    {
        match self {
            Json::String(text) => Some(text),
            _ => None,
        }
    }
}

} // verus!
