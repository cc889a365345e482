//! Helpers shared by the resources: identifiers read back from a path, and
//! the version tag of a conditional write.

use crate::error::KintoError;

use crate::paths::{
    bucket_path, collection_path, collections_path, record_path, records_path,
};
use crate::resource::{Model, Resource};
use crate::response::ResponseWrapper;
use crate::request::EntityTag;
use crate::text::{
    chars_of, decimal, lemma_split_segment, push_decimal, same_text, split, split_text, string_of,
};
use vstd::prelude::*;

verus! {

/// The identifiers found in a path, by the name of their level. A level that
/// closes the path without an identifier behind it maps to `None`.
pub struct PathIds {
    pub entries: Vec<(String, Option<String>)>,
}

/// The characters of an optional string.
pub open spec fn text_of(s: Option<String>) -> Option<Seq<char>> {
    match s {
        Some(s) => Some(s@),
        None => None,
    }
}

/// The map that a list of entries stands for: a later entry replaces an
/// earlier one with the same key.
pub open spec fn entries_map(entries: Seq<(String, Option<String>)>) -> Map<
    Seq<char>,
    Option<Seq<char>>,
>
    decreases entries.len(),
{
    if entries.len() == 0 {
        Map::empty()
    } else {
        entries_map(entries.drop_last()).insert(entries.last().0@, text_of(entries.last().1))
    }
}

impl View for PathIds {
    type V = Map<Seq<char>, Option<Seq<char>>>;

    open spec fn view(&self) -> Map<Seq<char>, Option<Seq<char>>> {
        entries_map(self.entries@)
    }
}

/// The map read from the segments of a path: they are taken in pairs, a name
/// and the identifier behind it; a name left alone at the end gets `None`.
/// A later pair replaces an earlier one with the same name.
pub open spec fn ids_of(segments: Seq<Seq<char>>) -> Map<Seq<char>, Option<Seq<char>>>
    decreases segments.len(),
{
    if segments.len() == 0 {
        Map::empty()
    } else if segments.len() % 2 == 1 {
        ids_of(segments.drop_last()).insert(segments.last(), None)
    } else {
        ids_of(segments.take(segments.len() - 2)).insert(
            segments[segments.len() - 2],
            Some(segments.last()),
        )
    }
}

/// The segment that names the protocol version, with the slash before it.
pub open spec fn version_prefix() -> Seq<char> {
    seq!['/', 'v', '1']
}

/// Whether `path` opens with the version segment.
pub open spec fn has_version(path: Seq<char>) -> bool {
    path.len() >= 3 && path.take(3) == version_prefix() && (path.len() == 3 || path[3] == '/')
}

/// `path` without the version segment, where it opens with one.
pub open spec fn strip_version(path: Seq<char>) -> Seq<char> {
    if has_version(path) {
        path.skip(3)
    } else {
        path
    }
}

/// The identifiers that a path holds: the version segment and whatever
/// stands before the first slash are left out, the rest is read in pairs.
pub open spec fn path_ids(path: Seq<char>) -> Map<Seq<char>, Option<Seq<char>>> {
    ids_of(split(strip_version(path), '/').drop_first())
}

/// Get the objects from a plural endpoint: one for each entry of the list
/// under `data`, in the order of the list. Each is `object` with the entry
/// as its document. Where the body holds no list under `data`, the result is
/// a `JsonError`.
pub fn unwrap_collection_records<T>(wrapper: &ResponseWrapper, object: T) -> (r: Result<
    Vec<T>,
    KintoError,
>) where T: Resource
    ensures
        match wrapper@.body.field("data"@).as_list() {
            Some(entries) => {
                &&& r is Ok
                &&& r->Ok_0@.len() == entries.len()
                &&& forall|i: int|
                    0 <= i < entries.len() ==> (#[trigger] r->Ok_0@[i]).model() == (Model {
                        data: Some(entries[i]),
                        ..object.model()
                    })
            },
            None => r is Err && r->Err_0 == KintoError::JsonError,
        },
{
    let ghost template = object.model();
    let mut object = object;
    let mut records: Vec<T> = Vec::new();
    let entries = match wrapper.body.get("data") {
        Some(data) => match data.as_array() {
            Some(entries) => entries,
            None => {
                return Err(KintoError::JsonError);
            },
        },
        None => {
            return Err(KintoError::JsonError);
        },
    };
    let mut i: usize = 0;
    while i < entries.len()
        invariant
            i <= entries.len(),
            records@.len() == i,
            (Model { data: None, ..object.model() }) == (Model { data: None, ..template }),
            forall|k: int|
                0 <= k < i ==> (#[trigger] records@[k]).model() == (Model {
                    data: Some(entries@[k]@),
                    ..template
                }),
        decreases entries.len() - i,
    {
        let record = object.set_data(entries[i].clone());
        records.push(record);
        i += 1;
    }
    Ok(records)
}

/// Transform an integer timestamp into an Etag header: one strong tag, the
/// timestamp in decimal.
pub fn timestamp_to_etag(timestamp: u64) -> (tags: Vec<EntityTag>)
    ensures
        tags@.len() == 1,
        !tags@[0].weak,
        tags@[0].tag@ == decimal(timestamp as nat),
{
    let mut quoted = String::new();
    push_decimal(&mut quoted, timestamp);
    let mut tags: Vec<EntityTag> = Vec::new();
    tags.push(EntityTag { weak: false, tag: quoted });
    tags
}

/// Removes the version segment from the front of a path.
pub fn without_version(path: &str) -> (r: String)
    ensures
        r@ == strip_version(path@),
{
    let chars = chars_of(path);
    let n = chars.len();
    if n >= 3 && chars[0] == '/' && chars[1] == 'v' && chars[2] == '1' && (n == 3 || chars[3]
        == '/') {
        assert(chars@.take(3) =~= version_prefix());
        let mut rest: Vec<char> = Vec::new();
        let mut i: usize = 3;
        while i < n
            invariant
                n == chars.len(),
                3 <= i <= n,
                rest@ == chars@.subrange(3, i as int),
            decreases n - i,
        {
            rest.push(chars[i]);
            i += 1;
        }
        string_of(&rest)
    } else {
        path.to_owned()
    }
}

/// Split a path (e.g. "/buckets/food/collections/foo") into a resource name
/// map.
pub fn extract_ids_from_path(path: &str) -> (ids: PathIds)
    ensures
        ids@ == path_ids(path@),
{
    let stripped = without_version(path);
    let pieces = split_text(stripped.as_str(), '/');
    let ghost segments = split(stripped@, '/').drop_first();
    let mut entries: Vec<(String, Option<String>)> = Vec::new();
    let count = pieces.len() - 1;
    let mut done: usize = 0;
    proof {
        crate::text::lemma_split_len(stripped@, '/');
    }
    while done < count
        invariant
            count == segments.len(),
            pieces@.len() == segments.len() + 1,
            forall|k: int| 1 <= k < pieces@.len() ==> (#[trigger] pieces@[k])@ == segments[k - 1],
            segments == split(stripped@, '/').drop_first(),
            stripped@ == strip_version(path@),
            done <= count,
            done % 2 == 0,
            entries_map(entries@) == ids_of(segments.take(done as int)),
        decreases count - done,
    {
        let key = pieces[done + 1].clone();
        let ghost before = entries@;
        if done + 1 < count {
            let value = pieces[done + 2].clone();
            entries.push((key, Some(value)));
            proof {
                let taken = segments.take(done + 2);
                assert(taken.take(taken.len() - 2) =~= segments.take(done as int));
                assert(entries@.drop_last() =~= before);
            }
            done += 2;
        } else {
            entries.push((key, None));
            proof {
                assert(entries@.drop_last() =~= before);
            }
            return PathIds { entries };
        }
    }
    assert(segments.take(done as int) =~= segments);
    PathIds { entries }
}

impl PathIds {
    /// What the path gave for the level `name`: `None` where the level does
    /// not occur, `Some(&None)` where no identifier stood behind it.
    pub fn get(&self, name: &str) -> (r: Option<&Option<String>>)
        ensures
            match r {
                Some(id) => self@.contains_key(name@) && self@[name@] == text_of(*id),
                None => !self@.contains_key(name@),
            },
    {
        let mut i: usize = self.entries.len();
        assert(self.entries@.take(i as int) =~= self.entries@);
        while i > 0
            invariant
                i <= self.entries.len(),
                self@.contains_key(name@) == entries_map(self.entries@.take(i as int)).contains_key(
                    name@,
                ),
                self@.contains_key(name@) ==> self@[name@] == entries_map(
                    self.entries@.take(i as int),
                )[name@],
            decreases i,
        {
            let ghost front = self.entries@.take(i as int);
            i -= 1;
            assert(front.drop_last() =~= self.entries@.take(i as int));
            if same_text(self.entries[i].0.as_str(), name) {
                return Some(&self.entries[i].1);
            }
        }
        None
    }
}

/// The pieces of the paths of a bucket, a collection and a record, down to
/// each level, when no identifier holds a slash: an empty piece before the
/// first slash, then the names of the levels and the identifiers in turn.
/// None of these paths opens with the version segment.
pub proof fn lemma_path_pieces(bucket: Seq<char>, collection: Seq<char>, record: Seq<char>)
    requires
        !bucket.contains('/'),
        !collection.contains('/'),
        !record.contains('/'),
    ensures
        split(bucket_path(bucket), '/') == seq![Seq::empty(), "buckets"@, bucket],
        split(collections_path(bucket), '/') == seq![
            Seq::empty(),
            "buckets"@,
            bucket,
            "collections"@,
        ],
        split(collection_path(bucket, collection), '/') == seq![
            Seq::empty(),
            "buckets"@,
            bucket,
            "collections"@,
            collection,
        ],
        split(records_path(bucket, collection), '/') == seq![
            Seq::empty(),
            "buckets"@,
            bucket,
            "collections"@,
            collection,
            "records"@,
        ],
        split(record_path(bucket, collection, record), '/') == seq![
            Seq::empty(),
            "buckets"@,
            bucket,
            "collections"@,
            collection,
            "records"@,
            record,
        ],
        !has_version(bucket_path(bucket)),
        !has_version(collections_path(bucket)),
        !has_version(collection_path(bucket, collection)),
        !has_version(records_path(bucket, collection)),
        !has_version(record_path(bucket, collection, record)),
{
    reveal_strlit("/buckets/");
    reveal_strlit("/collections/");
    reveal_strlit("/collections");
    reveal_strlit("/records/");
    reveal_strlit("/records");
    reveal_strlit("buckets");
    reveal_strlit("collections");
    reveal_strlit("records");
    let slash = '/';
    let e = Seq::<char>::empty();
    let level_one = e.push(slash) + "buckets"@;
    let bucket_part = level_one.push(slash) + bucket;
    let level_two = bucket_part.push(slash) + "collections"@;
    let collection_part = level_two.push(slash) + collection;
    let level_three = collection_part.push(slash) + "records"@;
    let whole = level_three.push(slash) + record;
    assert(bucket_path(bucket) =~= bucket_part);
    assert(collections_path(bucket) =~= level_two);
    assert(collection_path(bucket, collection) =~= collection_part);
    assert(records_path(bucket, collection) =~= level_three);
    assert(record_path(bucket, collection, record) =~= whole);
    lemma_split_segment(e, "buckets"@, slash);
    lemma_split_segment(level_one, bucket, slash);
    lemma_split_segment(bucket_part, "collections"@, slash);
    lemma_split_segment(level_two, collection, slash);
    lemma_split_segment(collection_part, "records"@, slash);
    lemma_split_segment(level_three, record, slash);
}

/// The map that holds the identifiers given, each under the name of its
/// level.
pub open spec fn ids_map(
    bucket: Option<Seq<char>>,
    collection: Option<Option<Seq<char>>>,
    record: Option<Option<Seq<char>>>,
) -> Map<Seq<char>, Option<Seq<char>>> {
    let first = Map::<Seq<char>, Option<Seq<char>>>::empty().insert("buckets"@, bucket);
    let second = match collection {
        Some(id) => first.insert("collections"@, id),
        None => first,
    };
    match record {
        Some(id) => second.insert("records"@, id),
        None => second,
    }
}

/// Reading a path back gives the identifiers that it was built from, each
/// under the name of its level, whenever no identifier holds a slash: so
/// for the path of a record, with its three identifiers, and so for the
/// paths of its ancestors and of their kinds, where the last level has no
/// identifier.
pub proof fn lemma_path_ids(bucket: Seq<char>, collection: Seq<char>, record: Seq<char>)
    requires
        !bucket.contains('/'),
        !collection.contains('/'),
        !record.contains('/'),
    ensures
        path_ids(record_path(bucket, collection, record)) == ids_map(
            Some(bucket),
            Some(Some(collection)),
            Some(Some(record)),
        ),
        path_ids(records_path(bucket, collection)) == ids_map(
            Some(bucket),
            Some(Some(collection)),
            Some(None),
        ),
        path_ids(collection_path(bucket, collection)) == ids_map(
            Some(bucket),
            Some(Some(collection)),
            None,
        ),
        path_ids(collections_path(bucket)) == ids_map(Some(bucket), Some(None), None),
        path_ids(bucket_path(bucket)) == ids_map(Some(bucket), None, None),
{
    lemma_path_pieces(bucket, collection, record);
    let none = Map::<Seq<char>, Option<Seq<char>>>::empty();
    let six = seq!["buckets"@, bucket, "collections"@, collection, "records"@, record];
    let five = seq!["buckets"@, bucket, "collections"@, collection, "records"@];
    let four = seq!["buckets"@, bucket, "collections"@, collection];
    let three = seq!["buckets"@, bucket, "collections"@];
    let two = seq!["buckets"@, bucket];
    assert(split(record_path(bucket, collection, record), '/').drop_first() =~= six);
    assert(split(records_path(bucket, collection), '/').drop_first() =~= five);
    assert(split(collection_path(bucket, collection), '/').drop_first() =~= four);
    assert(split(collections_path(bucket), '/').drop_first() =~= three);
    assert(split(bucket_path(bucket), '/').drop_first() =~= two);
    assert(ids_of(two.take(0)) == none);
    assert(three.drop_last() =~= two);
    assert(four.take(2) =~= two);
    assert(ids_of(four) == ids_of(two).insert("collections"@, Some(collection)));
    assert(five.drop_last() =~= four);
    assert(six.take(4) =~= four);
}

} // verus!
