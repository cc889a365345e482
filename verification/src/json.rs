//! JSON documents: the tree that the library reads and builds, and its
//! mathematical view.

use crate::codec::{number_as_u64, number_from_u64, number_u64, u64_number};
use crate::text::same_text;
use vstd::prelude::*;

verus! {

/// A JSON document as a mathematical tree. An object keeps its members in
/// the order in which they were written; where a key occurs more than once,
/// the last occurrence counts.
pub ghost enum Doc {
    Null,
    Bool(bool),
    Number(serde_json::Number),
    Text(Seq<char>),
    List(Seq<Doc>),
    Dict(Seq<(Seq<char>, Doc)>),
}

/// A JSON document.
#[derive(Debug, PartialEq)]
pub enum Json {
    Null,
    Bool(bool),
    Number(serde_json::Number),
    Text(String),
    Array(Vec<Json>),
    Object(Vec<(String, Json)>),
}

impl Json {
    /// The document that this tree stands for.
    pub open spec fn doc(self) -> Doc
        decreases self, 1int,
    {
        match self {
            Json::Null => Doc::Null,
            Json::Bool(b) => Doc::Bool(b),
            Json::Number(n) => Doc::Number(n),
            Json::Text(s) => Doc::Text(s@),
            Json::Array(items) => Doc::List(Json::docs(items@)),
            Json::Object(members) => Doc::Dict(Json::member_docs(members@)),
        }
    }

    /// The documents of a list of trees, in order.
    pub open spec fn docs(items: Seq<Json>) -> Seq<Doc>
        decreases items, 0int,
    {
        Seq::new(
            items.len(),
            |i: int|
                if 0 <= i < items.len() {
                    items[i].doc()
                } else {
                    Doc::Null
                },
        )
    }

    /// The members of an object, each value as a document, in order.
    pub open spec fn member_docs(members: Seq<(String, Json)>) -> Seq<(Seq<char>, Doc)>
        decreases members, 0int,
    {
        Seq::new(
            members.len(),
            |i: int|
                if 0 <= i < members.len() {
                    (members[i].0@, members[i].1.doc())
                } else {
                    (Seq::empty(), Doc::Null)
                },
        )
    }
}

/// The documents of a list that grew by one tree are the documents of the
/// list, and that of the tree behind them.
pub proof fn lemma_docs_push(items: Seq<Json>, last: Json)
    ensures
        Json::docs(items.push(last)) == Json::docs(items).push(last.doc()),
{
}

impl View for Json {
    type V = Doc;

    open spec fn view(&self) -> Doc {
        self.doc()
    }
}

/// The place of the last member of `members` that has the key `key`, or -1
/// where none has it.
pub open spec fn last_index(members: Seq<(Seq<char>, Doc)>, key: Seq<char>) -> int
    decreases members.len(),
{
    if members.len() == 0 {
        -1
    } else if members.last().0 == key {
        members.len() - 1
    } else {
        last_index(members.drop_last(), key)
    }
}

/// The value that `members` gives to `key`, if any.
pub open spec fn lookup(members: Seq<(Seq<char>, Doc)>, key: Seq<char>) -> Option<Doc> {
    let at = last_index(members, key);
    if at >= 0 {
        Some(members[at].1)
    } else {
        None
    }
}

/// `members` with `key` set to `value`: in the place where `key` stood, or at
/// the end where it did not occur.
pub open spec fn store(members: Seq<(Seq<char>, Doc)>, key: Seq<char>, value: Doc) -> Seq<
    (Seq<char>, Doc),
> {
    let at = last_index(members, key);
    if at >= 0 {
        members.update(at, (key, value))
    } else {
        members.push((key, value))
    }
}

/// `last_index` is a place in `members` that holds `key`, and no later place
/// does; it is -1 exactly where no place does.
pub proof fn lemma_last_index(members: Seq<(Seq<char>, Doc)>, key: Seq<char>)
    ensures
        -1 <= last_index(members, key) < members.len(),
        last_index(members, key) >= 0 ==> members[last_index(members, key)].0 == key,
        forall|i: int| last_index(members, key) < i < members.len() ==> members[i].0 != key,
    decreases members.len(),
{
    if members.len() > 0 && members.last().0 != key {
        lemma_last_index(members.drop_last(), key);
        assert forall|i: int| last_index(members, key) < i < members.len() implies members[i].0
            != key by {
            if i < members.len() - 1 {
                assert(members.drop_last()[i] == members[i]);
            }
        }
    }
}

/// A place that holds `key`, with no later place that does, is `last_index`.
pub proof fn lemma_last_index_is(members: Seq<(Seq<char>, Doc)>, key: Seq<char>, at: int)
    requires
        -1 <= at < members.len(),
        at >= 0 ==> members[at].0 == key,
        forall|i: int| at < i < members.len() ==> members[i].0 != key,
    ensures
        last_index(members, key) == at,
    decreases members.len(),
{
    if members.len() > 0 && members.last().0 != key {
        let front = members.drop_last();
        lemma_last_index_is(front, key, at);
    }
}

/// After `store`, `key` has the value stored and every other key has the
/// value that it had.
pub proof fn lemma_store(
    members: Seq<(Seq<char>, Doc)>,
    key: Seq<char>,
    value: Doc,
    other: Seq<char>,
)
    ensures
        lookup(store(members, key, value), key) == Some(value),
        other != key ==> lookup(store(members, key, value), other) == lookup(members, other),
{
    let after = store(members, key, value);
    let at = last_index(members, key);
    lemma_last_index(members, key);
    lemma_last_index(members, other);
    if at >= 0 {
        lemma_last_index_is(after, key, at);
        if other != key {
            lemma_last_index_is(after, other, last_index(members, other));
        }
    } else {
        lemma_last_index_is(after, key, members.len() as int);
        if other != key {
            lemma_last_index_is(after, other, last_index(members, other));
        }
    }
}

impl Doc {
    /// The value of the member `key`, where this is an object that has one.
    pub open spec fn get(self, key: Seq<char>) -> Option<Doc> {
        match self {
            Doc::Dict(members) => lookup(members, key),
            _ => None,
        }
    }

    /// The value of the member `key`, and `Null` where there is none.
    pub open spec fn field(self, key: Seq<char>) -> Doc {
        match self.get(key) {
            Some(value) => value,
            None => Doc::Null,
        }
    }

    /// The characters of a text.
    pub open spec fn as_text(self) -> Option<Seq<char>> {
        match self {
            Doc::Text(s) => Some(s),
            _ => None,
        }
    }

    /// The value of a number that is a non-negative integer below 2^64.
    pub open spec fn as_u64(self) -> Option<u64> {
        match self {
            Doc::Number(n) => number_u64(n),
            _ => None,
        }
    }

    /// The items of a list.
    pub open spec fn as_list(self) -> Option<Seq<Doc>> {
        match self {
            Doc::List(items) => Some(items),
            _ => None,
        }
    }

    /// This object with `key` set to `value`; `Null` counts as the empty
    /// object. Of anything else no member can be set.
    pub open spec fn put(self, key: Seq<char>, value: Doc) -> Option<Doc> {
        match self {
            Doc::Dict(members) => Some(Doc::Dict(store(members, key, value))),
            Doc::Null => Some(Doc::Dict(seq![(key, value)])),
            _ => None,
        }
    }
}

impl Clone for Json {
    fn clone(&self) -> (r: Json)
        ensures
            r@ == self@,
        decreases self,
    {
        match self {
            Json::Null => Json::Null,
            Json::Bool(b) => Json::Bool(*b),
            Json::Number(n) => Json::Number(n.clone()),
            Json::Text(s) => Json::Text(s.clone()),
            Json::Array(items) => {
                let mut out: Vec<Json> = Vec::new();
                let mut i: usize = 0;
                while i < items.len()
                    invariant
                        *self == Json::Array(*items),
                        i <= items.len(),
                        out@.len() == i,
                        forall|k: int| 0 <= k < i ==> (#[trigger] out@[k])@ == items@[k]@,
                    decreases items.len() - i,
                {
                    proof {
                        assert(decreases_to!(*self => self->Array_0));
                    }
                    out.push(items[i].clone());
                    i += 1;
                }
                assert(Json::docs(out@) =~= Json::docs(items@));
                Json::Array(out)
            },
            Json::Object(members) => {
                let mut out: Vec<(String, Json)> = Vec::new();
                let mut i: usize = 0;
                while i < members.len()
                    invariant
                        *self == Json::Object(*members),
                        i <= members.len(),
                        out@.len() == i,
                        forall|k: int|
                            0 <= k < i ==> (#[trigger] out@[k]).0@ == members@[k].0@ && out@[k].1@
                                == members@[k].1@,
                    decreases members.len() - i,
                {
                    proof {
                        assert(decreases_to!(*self => self->Object_0));
                    }
                    let key = members[i].0.clone();
                    out.push((key, members[i].1.clone()));
                    i += 1;
                }
                assert(Json::member_docs(out@) =~= Json::member_docs(members@));
                Json::Object(out)
            },
        }
    }
}

impl Json {
    /// The text `s` as a document.
    pub fn text(s: &str) -> (j: Json)
        ensures
            j@ == Doc::Text(s@),
    {
        Json::Text(s.to_owned())
    }

    /// The integer `u` as a document.
    pub fn from_u64(u: u64) -> (j: Json)
        ensures
            j@ == Doc::Number(u64_number(u)),
            j@.as_u64() == Some(u),
    {
        Json::Number(number_from_u64(u))
    }

    /// The object without members.
    pub fn object() -> (j: Json)
        ensures
            j@ == Doc::Dict(Seq::empty()),
    {
        let j = Json::Object(Vec::new());
        assert(j@->Dict_0 =~= Seq::empty());
        j
    }

    /// The characters of a text; `None` for any other document.
    pub fn as_str(&self) -> (r: Option<&str>)
        ensures
            match r {
                Some(s) => self@.as_text() == Some(s@),
                None => self@.as_text() is None,
            },
    {
        match self {
            Json::Text(s) => Some(s.as_str()),
            _ => None,
        }
    }

    /// The value of a number that is a non-negative integer below 2^64;
    /// `None` for any other document.
    pub fn as_u64(&self) -> (r: Option<u64>)
        ensures
            r == self@.as_u64(),
    {
        match self {
            Json::Number(n) => number_as_u64(n),
            _ => None,
        }
    }

    /// The items of a list; `None` for any other document.
    pub fn as_array(&self) -> (r: Option<&Vec<Json>>)
        ensures
            match r {
                Some(items) => self@.as_list() == Some(Json::docs(items@)),
                None => self@.as_list() is None,
            },
    {
        match self {
            Json::Array(items) => Some(items),
            _ => None,
        }
    }

    /// The value of the member `key`: of the last one, where several members
    /// have that key. `None` where no member has it or this is no object.
    pub fn get(&self, key: &str) -> (r: Option<&Json>)
        ensures
            match r {
                Some(value) => self@.get(key@) == Some(value@),
                None => self@.get(key@) is None,
            },
    {
        match self {
            Json::Object(members) => {
                match position(members, key) {
                    Some(i) => Some(&members[i].1),
                    None => None,
                }
            },
            _ => None,
        }
    }

    /// Sets the member `key` to `value`, in the place of the last member with
    /// that key or, where there is none, at the end. `Null` becomes an object
    /// with that one member. Any other document is left as it is, and the
    /// result is `false`.
    pub fn set(&mut self, key: &str, value: Json) -> (done: bool)
        ensures
            match old(self)@.put(key@, value@) {
                Some(doc) => done && final(self)@ == doc,
                None => !done && final(self)@ == old(self)@,
            },
    {
        match self {
            Json::Object(members) => {
                let ghost docs = Json::member_docs(members@);
                match position(members, key) {
                    Some(i) => {
                        members[i] = (key.to_owned(), value);
                    },
                    None => {
                        members.push((key.to_owned(), value));
                    },
                }
                assert(Json::member_docs(members@) =~= store(docs, key@, value@));
                true
            },
            Json::Null => {
                let mut members: Vec<(String, Json)> = Vec::new();
                members.push((key.to_owned(), value));
                assert(Json::member_docs(members@) =~= seq![(key@, value@)]);
                *self = Json::Object(members);
                true
            },
            _ => false,
        }
    }
}

/// The place of the last member that has the key `key`.
fn position(members: &Vec<(String, Json)>, key: &str) -> (r: Option<usize>)
    ensures
        match r {
            Some(i) => i < members.len() && last_index(Json::member_docs(members@), key@) == i,
            None => last_index(Json::member_docs(members@), key@) == -1,
        },
{
    let ghost docs = Json::member_docs(members@);
    let mut i: usize = members.len();
    while i > 0
        invariant
            i <= members.len(),
            docs == Json::member_docs(members@),
            forall|k: int| i <= k < members.len() ==> docs[k].0 != key@,
        decreases i,
    {
        i -= 1;
        if same_text(members[i].0.as_str(), key) {
            proof {
                lemma_last_index_is(docs, key@, i as int);
            }
            return Some(i);
        }
    }
    proof {
        lemma_last_index_is(docs, key@, -1);
    }
    None
}

} // verus!
