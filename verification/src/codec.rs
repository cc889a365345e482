//! The boundary to `serde_json`: documents are parsed and printed by that
//! crate, and carried into and out of the library's own tree one level at a
//! time.

use crate::error::KintoError;
use crate::json::{Doc, Json};
use serde_json::{Number, Value};
use vstd::prelude::*;

verus! {

/// `serde_json::Number`, carried as it is: nothing is known of a number but
/// what `number_u64` says.
#[verifier::external_type_specification]
#[verifier::external_body]
pub struct ExNumber(Number);

/// `serde_json::Value`, seen only through `value_doc`.
#[verifier::external_type_specification]
#[verifier::external_body]
pub struct ExValue(Value);

/// `serde_json::Error`, of which nothing is read.
#[verifier::external_type_specification]
#[verifier::external_body]
pub struct ExJsonError(serde_json::Error);

/// The document that a `serde_json::Value` holds. The members of an object
/// stand in the order in which its map hands them out.
pub uninterp spec fn value_doc(v: Value) -> Doc;

/// What `serde_json::from_str` makes of a text: the document that it reads,
/// or `None` where it reports an error.
pub uninterp spec fn parsed(text: Seq<char>) -> Option<Doc>;

/// What `serde_json::to_string` prints for a value that holds `doc`, or
/// `None` where it reports an error.
pub uninterp spec fn printed(doc: Doc) -> Option<Seq<char>>;

/// The members of the `serde_json::Map` that is collected from `members`, in
/// the order in which the map hands them out.
pub uninterp spec fn collected(members: Seq<(Seq<char>, Doc)>) -> Seq<(Seq<char>, Doc)>;

/// What `serde_json::Number::as_u64` returns for a number.
pub uninterp spec fn number_u64(n: Number) -> Option<u64>;

/// The `serde_json::Number` that `Number::from` makes of an unsigned integer.
pub uninterp spec fn u64_number(u: u64) -> Number;

/// One level of a `serde_json::Value`: its variant and what the variant holds.
pub enum Node {
    Null,
    Bool(bool),
    Number(Number),
    Text(String),
    Array(Vec<Value>),
    Object(Vec<(String, Value)>),
}

/// The documents held by a list of values.
pub open spec fn items_doc(items: Seq<Value>) -> Seq<Doc> {
    Seq::new(items.len(), |i: int| value_doc(items[i]))
}

/// The members held by a list of keys and values.
pub open spec fn members_doc(members: Seq<(String, Value)>) -> Seq<(Seq<char>, Doc)> {
    Seq::new(members.len(), |i: int| (members[i].0@, value_doc(members[i].1)))
}

impl Node {
    /// The document of a value that has this variant and these parts, an
    /// object's members taken in the order given.
    pub open spec fn doc(self) -> Doc {
        match self {
            Node::Null => Doc::Null,
            Node::Bool(b) => Doc::Bool(b),
            Node::Number(n) => Doc::Number(n),
            Node::Text(s) => Doc::Text(s@),
            Node::Array(items) => Doc::List(items_doc(items@)),
            Node::Object(members) => Doc::Dict(members_doc(members@)),
        }
    }
}

/// Takes a `serde_json::Value` apart, one arm for each of its variants: the
/// result holds the same variant with the same parts, an object's members as
/// the list that the map's `into_iter` yields.
#[verifier::external_body]
fn open_value(v: Value) -> (n: Node)
    ensures
        n.doc() == value_doc(v),
{
    match v {
        Value::Null => Node::Null,
        Value::Bool(b) => Node::Bool(b),
        Value::Number(x) => Node::Number(x),
        Value::String(s) => Node::Text(s),
        Value::Array(items) => Node::Array(items),
        Value::Object(map) => Node::Object(map.into_iter().collect()),
    }
}

/// Builds the `serde_json::Value` of the given variant from its parts; the
/// members of an object are collected into a `serde_json::Map`.
#[verifier::external_body]
fn close_value(n: Node) -> (v: Value)
    ensures
        n matches Node::Object(members) ==> value_doc(v) == Doc::Dict(
            collected(members_doc(members@)),
        ),
        !(n is Object) ==> value_doc(v) == n.doc(),
{
    match n {
        Node::Null => Value::Null,
        Node::Bool(b) => Value::Bool(b),
        Node::Number(x) => Value::Number(x),
        Node::Text(s) => Value::String(s),
        Node::Array(items) => Value::Array(items),
        Node::Object(members) => Value::Object(members.into_iter().collect()),
    }
}

/// `serde_json::from_str` for a `Value`: the value read from the text, or the
/// crate's error.
#[verifier::external_body]
fn parse_value(text: &str) -> (r: Result<Value, serde_json::Error>)
    ensures
        match r {
            Ok(v) => parsed(text@) == Some(value_doc(v)),
            Err(_) => parsed(text@) is None,
        },
{
    serde_json::from_str(text)
}

/// `serde_json::to_string` for a `Value`: the text printed, or the crate's
/// error.
#[verifier::external_body]
fn print_value(v: &Value) -> (r: Result<String, serde_json::Error>)
    ensures
        match r {
            Ok(s) => printed(value_doc(*v)) == Some(s@),
            Err(_) => printed(value_doc(*v)) is None,
        },
{
    serde_json::to_string(v)
}

/// `serde_json::Number::as_u64`: the number as a `u64` where it is a
/// non-negative integer that fits, else `None`.
#[verifier::external_body]
pub(crate) fn number_as_u64(n: &Number) -> (r: Option<u64>)
    ensures
        r == number_u64(*n),
{
    n.as_u64()
}

/// `Number::from` for a `u64`: a number that `as_u64` reads back as the same
/// integer.
#[verifier::external_body]
pub(crate) fn number_from_u64(u: u64) -> (n: Number)
    ensures
        n == u64_number(u),
        number_u64(n) == Some(u),
{
    Number::from(u)
}

/// `Clone` for `serde_json::Number`: the same number.
pub assume_specification[ <serde_json::Number as Clone>::clone ](n: &serde_json::Number) -> (r:
    serde_json::Number)
    ensures
        r == *n,
;

/// The document that results when `doc` is carried into a
/// `serde_json::Value`: the members of each object go through the map, which
/// keeps one member for each key.
pub open spec fn normal(doc: Doc) -> Doc
    decreases doc, 1int,
{
    match doc {
        Doc::List(items) => Doc::List(normal_items(items)),
        Doc::Dict(members) => Doc::Dict(collected(normal_members(members))),
        _ => doc,
    }
}

/// `normal` of each document of a list.
pub open spec fn normal_items(items: Seq<Doc>) -> Seq<Doc>
    decreases items, 0int,
{
    Seq::new(
        items.len(),
        |i: int|
            if 0 <= i < items.len() {
                normal(items[i])
            } else {
                Doc::Null
            },
    )
}

/// `normal` of the value of each member of a list.
pub open spec fn normal_members(members: Seq<(Seq<char>, Doc)>) -> Seq<(Seq<char>, Doc)>
    decreases members, 0int,
{
    Seq::new(
        members.len(),
        |i: int|
            if 0 <= i < members.len() {
                (members[i].0, normal(members[i].1))
            } else {
                (Seq::empty(), Doc::Null)
            },
    )
}

/// Rebuilds a `serde_json::Value` as a document of the library.
fn json_of_value(v: Value) -> (j: Json)
    ensures
        j@ == value_doc(v),
    decreases value_doc(v),
{
    match open_value(v) {
        Node::Null => Json::Null,
        Node::Bool(b) => Json::Bool(b),
        Node::Number(n) => Json::Number(n),
        Node::Text(s) => Json::Text(s),
        Node::Array(items) => {
            let ghost docs = items_doc(items@);
            let mut rest = items;
            let mut back: Vec<Json> = Vec::new();
            while rest.len() > 0
                invariant
                    value_doc(v) == Doc::List(docs),
                    rest@.len() + back@.len() == docs.len(),
                    forall|i: int|
                        0 <= i < rest@.len() ==> value_doc(#[trigger] rest@[i]) == docs[i],
                    forall|i: int|
                        0 <= i < back@.len() ==> (#[trigger] back@[i])@ == docs[docs.len() - 1 - i],
                decreases rest@.len(),
            {
                let child = rest.pop().unwrap();
                proof {
                    let k = rest@.len() as int;
                    let whole = value_doc(v);
                    assert(decreases_to!(whole => whole->List_0));
                }
                back.push(json_of_value(child));
            }
            let mut out: Vec<Json> = Vec::new();
            while back.len() > 0
                invariant
                    out@.len() + back@.len() == docs.len(),
                    forall|i: int|
                        0 <= i < back@.len() ==> (#[trigger] back@[i])@ == docs[docs.len() - 1 - i],
                    forall|i: int| 0 <= i < out@.len() ==> (#[trigger] out@[i])@ == docs[i],
                decreases back@.len(),
            {
                let item = back.pop().unwrap();
                out.push(item);
            }
            let j = Json::Array(out);
            assert(j@ =~= Doc::List(docs)) by {
                assert(j@->List_0 =~= docs);
            }
            j
        },
        Node::Object(members) => {
            let ghost docs = members_doc(members@);
            let mut rest = members;
            let mut back: Vec<(String, Json)> = Vec::new();
            while rest.len() > 0
                invariant
                    value_doc(v) == Doc::Dict(docs),
                    rest@.len() + back@.len() == docs.len(),
                    forall|i: int|
                        0 <= i < rest@.len() ==> (#[trigger] rest@[i]).0@ == docs[i].0 && value_doc(
                            rest@[i].1,
                        ) == docs[i].1,
                    forall|i: int|
                        0 <= i < back@.len() ==> (#[trigger] back@[i]).0@ == docs[docs.len() - 1
                            - i].0 && back@[i].1@ == docs[docs.len() - 1 - i].1,
                decreases rest@.len(),
            {
                let (key, child) = rest.pop().unwrap();
                proof {
                    let whole = value_doc(v);
                    assert(decreases_to!(whole => whole->Dict_0));
                }
                back.push((key, json_of_value(child)));
            }
            let mut out: Vec<(String, Json)> = Vec::new();
            while back.len() > 0
                invariant
                    out@.len() + back@.len() == docs.len(),
                    forall|i: int|
                        0 <= i < back@.len() ==> (#[trigger] back@[i]).0@ == docs[docs.len() - 1
                            - i].0 && back@[i].1@ == docs[docs.len() - 1 - i].1,
                    forall|i: int|
                        0 <= i < out@.len() ==> (#[trigger] out@[i]).0@ == docs[i].0 && out@[i].1@
                            == docs[i].1,
                decreases back@.len(),
            {
                let item = back.pop().unwrap();
                out.push(item);
            }
            let j = Json::Object(out);
            assert(j@ =~= Doc::Dict(docs)) by {
                assert(j@->Dict_0 =~= docs);
            }
            j
        },
    }
}

/// Carries a document of the library into a `serde_json::Value`.
fn value_of_json(j: &Json) -> (v: Value)
    ensures
        value_doc(v) == normal(j@),
    decreases j,
{
    match j {
        Json::Null => close_value(Node::Null),
        Json::Bool(b) => close_value(Node::Bool(*b)),
        Json::Number(n) => close_value(Node::Number(n.clone())),
        Json::Text(s) => close_value(Node::Text(s.clone())),
        Json::Array(items) => {
            let mut out: Vec<Value> = Vec::new();
            let mut i: usize = 0;
            while i < items.len()
                invariant
                    *j == Json::Array(*items),
                    i <= items.len(),
                    out@.len() == i,
                    forall|k: int|
                        0 <= k < i ==> value_doc(#[trigger] out@[k]) == normal(items@[k]@),
                decreases items.len() - i,
            {
                proof {
                    assert(decreases_to!(*j => j->Array_0));
                }
                out.push(value_of_json(&items[i]));
                i += 1;
            }
            let v = close_value(Node::Array(out));
            assert(items_doc(out@) =~= normal_items(j@->List_0));
            v
        },
        Json::Object(members) => {
            let mut out: Vec<(String, Value)> = Vec::new();
            let mut i: usize = 0;
            while i < members.len()
                invariant
                    *j == Json::Object(*members),
                    i <= members.len(),
                    out@.len() == i,
                    forall|k: int|
                        0 <= k < i ==> (#[trigger] out@[k]).0@ == members@[k].0@ && value_doc(
                            out@[k].1,
                        ) == normal(members@[k].1@),
                decreases members.len() - i,
            {
                let key = members[i].0.clone();
                proof {
                    assert(decreases_to!(*j => j->Object_0));
                }
                out.push((key, value_of_json(&members[i].1)));
                i += 1;
            }
            assert(members_doc(out@) =~= normal_members(j@->Dict_0));
            close_value(Node::Object(out))
        },
    }
}

impl Json {
    /// Reads a document from its JSON text. The text is parsed by
    /// `serde_json`; a text that it refuses gives `JsonError`.
    pub fn parse(text: &str) -> (r: Result<Json, KintoError>)
        ensures
            match parsed(text@) {
                Some(doc) => r is Ok && r->Ok_0@ == doc,
                None => r == Err::<Json, KintoError>(KintoError::JsonError),
            },
    {
        match parse_value(text) {
            Ok(v) => Ok(json_of_value(v)),
            Err(_) => Err(KintoError::JsonError),
        }
    }

    /// Prints the document as JSON text. The text is printed by
    /// `serde_json` from the document as `normal` gives it; where it reports
    /// an error the result is `JsonError`.
    pub fn render(&self) -> (r: Result<String, KintoError>)
        ensures
            match printed(normal(self@)) {
                Some(text) => r is Ok && r->Ok_0@ == text,
                None => r == Err::<String, KintoError>(KintoError::JsonError),
            },
    {
        let v = value_of_json(self);
        match print_value(&v) {
            Ok(s) => Ok(s),
            Err(_) => Err(KintoError::JsonError),
        }
    }
}

} // verus!
