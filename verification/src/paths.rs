//! The paths of the server's endpoints.

use vstd::prelude::*;
use vstd::std_specs::convert::FromSpecImpl;
use vstd::string::StringExecFns;

verus! {

/// Known paths in the kinto server.
pub enum Paths<'a> {
    Batch,
    Buckets,
    Bucket(&'a str),
    Groups(&'a str),
    Group(&'a str, &'a str),
    Collections(&'a str),
    Collection(&'a str, &'a str),
    Records(&'a str, &'a str),
    Record(&'a str, &'a str, &'a str),
}

/// The path of the batch endpoint.
pub open spec fn batch_path() -> Seq<char> {
    "/batch"@
}

/// The path of all buckets.
pub open spec fn buckets_path() -> Seq<char> {
    "/buckets"@
}

/// The path of one bucket.
pub open spec fn bucket_path(bucket: Seq<char>) -> Seq<char> {
    "/buckets/"@ + bucket
}

/// The path of the groups of a bucket.
pub open spec fn groups_path(bucket: Seq<char>) -> Seq<char> {
    "/buckets/"@ + bucket + "/groups"@
}

/// The path of one group.
pub open spec fn group_path(bucket: Seq<char>, group: Seq<char>) -> Seq<char> {
    "/buckets/"@ + bucket + "/groups/"@ + group
}

/// The path of the collections of a bucket.
pub open spec fn collections_path(bucket: Seq<char>) -> Seq<char> {
    "/buckets/"@ + bucket + "/collections"@
}

/// The path of one collection.
pub open spec fn collection_path(bucket: Seq<char>, collection: Seq<char>) -> Seq<char> {
    "/buckets/"@ + bucket + "/collections/"@ + collection
}

/// The path of the records of a collection.
pub open spec fn records_path(bucket: Seq<char>, collection: Seq<char>) -> Seq<char> {
    "/buckets/"@ + bucket + "/collections/"@ + collection + "/records"@
}

/// The path of one record.
pub open spec fn record_path(bucket: Seq<char>, collection: Seq<char>, record: Seq<char>) -> Seq<
    char,
> {
    "/buckets/"@ + bucket + "/collections/"@ + collection + "/records/"@ + record
}

impl<'a> Paths<'a> {
    /// The path as characters: the names of the levels and the identifiers
    /// given, each behind a slash. An identifier is taken as it is.
    pub open spec fn path(self) -> Seq<char> {
        match self {
            Paths::Batch => batch_path(),
            Paths::Buckets => buckets_path(),
            Paths::Bucket(id) => bucket_path(id@),
            Paths::Groups(bucket_id) => groups_path(bucket_id@),
            Paths::Group(bucket_id, id) => group_path(bucket_id@, id@),
            Paths::Collections(bucket_id) => collections_path(bucket_id@),
            Paths::Collection(bucket_id, id) => collection_path(bucket_id@, id@),
            Paths::Records(bucket_id, collection_id) => records_path(bucket_id@, collection_id@),
            Paths::Record(bucket_id, collection_id, id) => record_path(
                bucket_id@,
                collection_id@,
                id@,
            ),
        }
    }
}

impl<'a> Paths<'a> {
    /// The path as a string.
    pub fn build(self) -> (path: String)
        ensures
            path@ == self.path(),
    {
        match self {
            Paths::Batch => "/batch".to_owned(),
            Paths::Buckets => "/buckets".to_owned(),
            Paths::Bucket(id) => "/buckets/".to_owned().concat(id),
            Paths::Groups(bucket_id) => "/buckets/".to_owned().concat(bucket_id).concat("/groups"),
            Paths::Group(bucket_id, id) => "/buckets/".to_owned().concat(bucket_id).concat(
                "/groups/",
            ).concat(id),
            Paths::Collections(bucket_id) => "/buckets/".to_owned().concat(bucket_id).concat(
                "/collections",
            ),
            Paths::Collection(bucket_id, id) => "/buckets/".to_owned().concat(bucket_id).concat(
                "/collections/",
            ).concat(id),
            Paths::Records(bucket_id, collection_id) => "/buckets/".to_owned().concat(
                bucket_id,
            ).concat("/collections/").concat(collection_id).concat("/records"),
            Paths::Record(bucket_id, collection_id, id) => "/buckets/".to_owned().concat(
                bucket_id,
            ).concat("/collections/").concat(collection_id).concat("/records/").concat(id),
        }
    }
}

impl<'a> From<Paths<'a>> for String {
    /// The path as a string: what `build` gives.
    fn from(path: Paths<'a>) -> (ret: String)
        ensures
            ret@ == path.path(),
    {
        path.build()
    }
}

impl<'a> FromSpecImpl<Paths<'a>> for String {
    open spec fn obeys_from_spec() -> bool {
        false
    }

    open spec fn from_spec(path: Paths<'a>) -> String {
        arbitrary()
    }
}

} // verus!
