//! Permissions on the wire: each category of a permission set is a member of
//! an object, and its principals are a list of texts.

use crate::error::KintoError;
use crate::json::{Doc, Json};
use vstd::prelude::*;

verus! {

/// The principals of a category, as texts.
pub open spec fn names(list: Option<Vec<String>>) -> Option<Seq<Seq<char>>> {
    match list {
        Some(v) => Some(Seq::new(v@.len(), |i: int| v@[i]@)),
        None => None,
    }
}

/// A list of principals as a document.
pub open spec fn names_doc(names: Seq<Seq<char>>) -> Doc {
    Doc::List(Seq::new(names.len(), |i: int| Doc::Text(names[i])))
}

/// `members` with the category `key` behind them, where it has principals.
pub open spec fn with_category(
    members: Seq<(Seq<char>, Doc)>,
    key: Seq<char>,
    list: Option<Seq<Seq<char>>>,
) -> Seq<(Seq<char>, Doc)> {
    match list {
        Some(names) => members.push((key, names_doc(names))),
        None => members,
    }
}

/// The texts of a list of documents that are all texts.
pub open spec fn texts(items: Seq<Doc>) -> Option<Seq<Seq<char>>> {
    if forall|i: int| 0 <= i < items.len() ==> (#[trigger] items[i]) is Text {
        Some(Seq::new(items.len(), |i: int| items[i]->Text_0))
    } else {
        None
    }
}

/// The principals that `doc` gives for the category `key`: none where the
/// member is missing or null, the texts where it is a list of texts, and an
/// error for anything else.
pub open spec fn category(doc: Doc, key: Seq<char>) -> Result<Option<Seq<Seq<char>>>, KintoError> {
    match doc.get(key) {
        None => Ok(None),
        Some(Doc::Null) => Ok(None),
        Some(Doc::List(items)) => match texts(items) {
            Some(names) => Ok(Some(names)),
            None => Err(KintoError::JsonError),
        },
        Some(_) => Err(KintoError::JsonError),
    }
}

/// A copy of a list of principals.
pub fn clone_names(list: &Option<Vec<String>>) -> (r: Option<Vec<String>>)
    ensures
        names(r) == names(*list),
{
    match list {
        Some(v) => {
            let mut out: Vec<String> = Vec::new();
            let mut i: usize = 0;
            while i < v.len()
                invariant
                    i <= v.len(),
                    out@.len() == i,
                    forall|k: int| 0 <= k < i ==> (#[trigger] out@[k])@ == v@[k]@,
                decreases v.len() - i,
            {
                out.push(v[i].clone());
                i += 1;
            }
            Some(out)
        },
        None => None,
    }
}

/// Puts the category `key` behind `members`, where it has principals.
pub fn write_category(members: &mut Vec<(String, Json)>, key: &str, list: &Option<Vec<String>>)
    ensures
        Json::member_docs(final(members)@) == with_category(
            Json::member_docs(old(members)@),
            key@,
            names(*list),
        ),
{
    match list {
        Some(v) => {
            let mut items: Vec<Json> = Vec::new();
            let mut i: usize = 0;
            while i < v.len()
                invariant
                    i <= v.len(),
                    items@.len() == i,
                    forall|k: int| 0 <= k < i ==> (#[trigger] items@[k])@ == Doc::Text(v@[k]@),
                decreases v.len() - i,
            {
                items.push(Json::text(v[i].as_str()));
                i += 1;
            }
            let list_doc = Json::Array(items);
            assert(list_doc@ == names_doc(names(*list)->0)) by {
                assert(list_doc@->List_0 =~= names_doc(names(*list)->0)->List_0);
            }
            members.push((key.to_owned(), list_doc));
        },
        None => {},
    }
}

/// Reads the category `key` from an object.
pub fn read_category(doc: &Json, key: &str) -> (r: Result<Option<Vec<String>>, KintoError>)
    ensures
        match category(doc@, key@) {
            Ok(list) => r is Ok && names(r->Ok_0) == list,
            Err(e) => r == Err::<Option<Vec<String>>, KintoError>(e),
        },
{
    match doc.get(key) {
        None => Ok(None),
        Some(value) => match value {
            Json::Null => Ok(None),
            Json::Array(items) => {
                let mut out: Vec<String> = Vec::new();
                let mut i: usize = 0;
                while i < items.len()
                    invariant
                        *value == Json::Array(*items),
                        doc@.get(key@) == Some(value@),
                        i <= items.len(),
                        out@.len() == i,
                        forall|k: int|
                            0 <= k < i ==> items@[k]@ == Doc::Text((#[trigger] out@[k])@),
                    decreases items.len() - i,
                {
                    match items[i].as_str() {
                        Some(s) => {
                            out.push(s.to_owned());
                        },
                        None => {
                            assert(!(Json::docs(items@)[i as int] is Text));
                            return Err(KintoError::JsonError);
                        },
                    }
                    i += 1;
                }
                assert(texts(Json::docs(items@)) is Some) by {
                    assert forall|k: int| 0 <= k < items@.len() implies (#[trigger] Json::docs(
                        items@,
                    )[k]) is Text by {
                        assert(items@[k]@ == Doc::Text(out@[k]@));
                    }
                }
                Ok(Some(out))
            },
            _ => Err(KintoError::JsonError),
        },
    }
}

} // verus!
