//! Collections: the level within a bucket.

use crate::bucket::Bucket;
use crate::client::KintoConfig;
use crate::error::KintoError;
use crate::json::{Doc, Json};
use crate::paths::{collection_path, collections_path, Paths};
use crate::permissions::{
    category, clone_names, names, read_category, with_category, write_category,
};
use crate::record::Record;
use crate::request::{body_doc, DeleteCollection, GetCollection};
use crate::resource::{id_of, Model, Resource};
use crate::response::ResponseWrapper;
use crate::utils::{extract_ids_from_path, lemma_path_ids, path_ids, text_of};
use vstd::prelude::*;

verus! {

/// The permissions on a collection: for each action, the principals that
/// may take it.
#[derive(Debug)]
pub struct CollectionPermissions {
    pub read: Option<Vec<String>>,
    pub write: Option<Vec<String>>,
    pub create_record: Option<Vec<String>>,
}

impl CollectionPermissions {
    /// The permissions as the object that a write sends: one member for
    /// each category that has principals.
    pub open spec fn doc(self) -> Doc {
        let first = with_category(Seq::empty(), "read"@, names(self.read));
        let second = with_category(first, "write"@, names(self.write));
        let third = with_category(second, "record:create"@, names(self.create_record));
        Doc::Dict(third)
    }

    /// Whether every category of an object is missing, null or a list of
    /// texts.
    pub open spec fn readable(permissions: Doc) -> bool {
        &&& permissions is Dict
        &&& category(permissions, "read"@) is Ok
        &&& category(permissions, "write"@) is Ok
        &&& category(permissions, "record:create"@) is Ok
    }

    /// What is kept of the permissions in a response, as the object that a
    /// write sends. Permissions that are missing are empty; a category that
    /// is missing or null has no principals; members of other names are
    /// passed over. `None` where the permissions are no object or a category
    /// is no list of texts.
    pub open spec fn reads(permissions: Doc) -> Option<Doc> {
        if permissions == Doc::Null {
            Some(Doc::Dict(Seq::empty()))
        } else if Self::readable(permissions) {
            let first = with_category(
                Seq::empty(),
                "read"@,
                category(permissions, "read"@)->Ok_0,
            );
            let second = with_category(
                first,
                "write"@,
                category(permissions, "write"@)->Ok_0,
            );
            let third = with_category(
                second,
                "record:create"@,
                category(permissions, "record:create"@)->Ok_0,
            );
            Some(Doc::Dict(third))
        } else {
            None
        }
    }

    /// The permissions as the object that a write sends.
    pub fn to_json(&self) -> (j: Json)
        ensures
            j@ == self.doc(),
    {
        let mut members: Vec<(String, Json)> = Vec::new();
        assert(Json::member_docs(members@) =~= Seq::empty());
        write_category(&mut members, "read", &self.read);
        write_category(&mut members, "write", &self.write);
        write_category(&mut members, "record:create", &self.create_record);
        Json::Object(members)
    }

    /// Reads the permissions of a response.
    pub fn from_json(permissions: &Json) -> (r: Result<CollectionPermissions, KintoError>)
        ensures
            match CollectionPermissions::reads(permissions@) {
                Some(doc) => r is Ok && r->Ok_0.doc() == doc,
                None => r is Err && r->Err_0 == KintoError::JsonError,
            },
    {
        match permissions {
            Json::Null => {
                let r = CollectionPermissions::default();
                Ok(r)
            },
            Json::Object(_) => {
                let read = match read_category(permissions, "read") {
                    Ok(list) => list,
                    Err(e) => {
                        return Err(e);
                    },
                };
                let write = match read_category(permissions, "write") {
                    Ok(list) => list,
                    Err(e) => {
                        return Err(e);
                    },
                };
                let create_record = match read_category(permissions, "record:create") {
                    Ok(list) => list,
                    Err(e) => {
                        return Err(e);
                    },
                };
                Ok(CollectionPermissions { read: read, write: write, create_record: create_record })
            },
            _ => Err(KintoError::JsonError),
        }
    }
}

impl Default for CollectionPermissions {
    fn default() -> (r: CollectionPermissions)
        ensures
            r.read is None,
            r.write is None,
            r.create_record is None,
    {
        CollectionPermissions { read: None, write: None, create_record: None }
    }
}

impl Clone for CollectionPermissions {
    fn clone(&self) -> (r: CollectionPermissions)
        ensures
            r.doc() == self.doc(),
            names(r.read) == names(self.read),
            names(r.write) == names(self.write),
            names(r.create_record) == names(self.create_record),
    {
        CollectionPermissions {
            read: clone_names(&self.read),
            write: clone_names(&self.write),
            create_record: clone_names(&self.create_record),
        }
    }
}

/// A collection of a bucket.
#[derive(Debug)]
pub struct Collection {
    pub data: Option<Json>,
    pub permissions: CollectionPermissions,
    pub bucket: Bucket,
    pub id: Option<String>,
}

/// The identifier that an ancestor ends up with: the one that the path
/// gives for its level where it gives one, else the one that it had.
pub open spec fn taken(
    ids: Map<Seq<char>, Option<Seq<char>>>,
    level: Seq<char>,
    had: Option<Seq<char>>,
) -> Option<Seq<char>> {
    if ids.contains_key(level) && ids[level] is Some {
        ids[level]
    } else {
        had
    }
}

/// The path of the collections of a bucket, which needs the bucket's
/// identifier.
pub open spec fn collections_of(bucket: Option<Seq<char>>) -> Result<Seq<char>, KintoError> {
    match bucket {
        Some(bucket) => Ok(collections_path(bucket)),
        None => Err(KintoError::UndefinedIdError),
    }
}

impl Clone for Collection {
    fn clone(&self) -> (r: Collection)
        ensures
            r.model() == self.model(),
            r.bucket.model() == self.bucket.model(),
    {
        Collection {
            data: match &self.data {
                Some(data) => Some(data.clone()),
                None => None,
            },
            permissions: self.permissions.clone(),
            bucket: self.bucket.clone(),
            id: match &self.id {
                Some(id) => Some(id.clone()),
                None => None,
            },
        }
    }
}

impl Collection {
    /// What a collection of the bucket `bucket` holds when nothing but its
    /// identifier is known.
    pub open spec fn fresh(bucket: Model, id: Option<Seq<char>>) -> Model {
        Model {
            config: bucket.config,
            own_id: id,
            data: None,
            permissions: Some(Doc::Dict(Seq::empty())),
            path: collections_of(id_of(bucket)),
        }
    }

    /// Create a new collection resource.
    pub fn new(bucket: Bucket) -> (collection: Collection)
        ensures
            collection.model() == Collection::fresh(bucket.model(), None),
            collection.bucket == bucket,
    {
        let collection = Collection {
            bucket: bucket,
            id: None,
            data: None,
            permissions: CollectionPermissions::default(),
        };
        collection
    }

    /// Create a collection resource with a known id.
    pub fn new_by_id<'a>(bucket: Bucket, id: &'a str) -> (collection: Collection)
        ensures
            collection.model() == Collection::fresh(bucket.model(), Some(id@)),
            collection.bucket == bucket,
    {
        let collection = Collection {
            bucket: bucket,
            id: Some(id.to_owned()),
            data: None,
            permissions: CollectionPermissions::default(),
        };
        collection
    }

    /// Get a record by id.
    pub fn record<'a>(&self, id: &'a str) -> (record: Record)
        ensures
            record.model() == Record::fresh(self.bucket.model(), self.model(), Some(id@)),
    {
        Record::new_by_id(self.clone(), id)
    }

    /// Create a new empty record with a generated id.
    pub fn new_record(&self) -> (record: Record)
        ensures
            record.model() == Record::fresh(self.bucket.model(), self.model(), None),
    {
        Record::new(self.clone())
    }

    /// The request that lists the records of the collection, page by page.
    pub fn list_records(&self) -> (r: Result<GetCollection, KintoError>)
        ensures
            match crate::resource::request_for(
                self.model().config,
                crate::request::Method::Get,
                Record::fresh(self.bucket.model(), self.model(), None).path,
            ) {
                Ok(d) => r is Ok && r->Ok_0.preparer@ == d,
                Err(e) => r == Err::<GetCollection, KintoError>(e),
            },
    {
        self.new_record().list_request()
    }

    /// The request that deletes the records of the collection, page by
    /// page.
    pub fn delete_records(&self) -> (r: Result<DeleteCollection, KintoError>)
        ensures
            match crate::resource::request_for(
                self.model().config,
                crate::request::Method::Delete,
                Record::fresh(self.bucket.model(), self.model(), None).path,
            ) {
                Ok(d) => r is Ok && r->Ok_0.preparer@ == d,
                Err(e) => r == Err::<DeleteCollection, KintoError>(e),
            },
    {
        self.new_record().delete_all_request()
    }
}

impl Resource for Collection {
    open spec fn model(&self) -> Model {
        Model {
            config: self.bucket.config@,
            own_id: text_of(self.id),
            data: body_doc(self.data),
            permissions: Some(self.permissions.doc()),
            path: collections_of(id_of(self.bucket.model())),
        }
    }

    open spec fn reparented(&self, ids: Map<Seq<char>, Option<Seq<char>>>) -> Result<
        Seq<char>,
        KintoError,
    > {
        collections_of(taken(ids, "buckets"@, id_of(self.bucket.model())))
    }

    open spec fn reads(permissions: Doc) -> Option<Doc> {
        CollectionPermissions::reads(permissions)
    }

    fn resource_path(&self) -> (r: Result<String, KintoError>) {
        match self.bucket.get_id() {
            Some(bucket) => Ok(Paths::Collections(bucket).build()),
            None => Err(KintoError::UndefinedIdError),
        }
    }

    fn unwrap_response(&mut self, wrapper: ResponseWrapper) -> (r: Result<(), KintoError>) {
        let null = Json::Null;
        let data = match wrapper.body.get("data") {
            Some(data) => data,
            None => &null,
        };
        let id = match data.get("id") {
            Some(id) => match id.as_str() {
                Some(id) => id,
                None => {
                    return Err(KintoError::JsonError);
                },
            },
            None => {
                return Err(KintoError::JsonError);
            },
        };
        let permissions = match wrapper.body.get("permissions") {
            Some(permissions) => permissions,
            None => &null,
        };
        let permissions = match CollectionPermissions::from_json(permissions) {
            Ok(permissions) => permissions,
            Err(e) => {
                return Err(KintoError::JsonError);
            },
        };
        let ids = extract_ids_from_path(wrapper.path.as_str());
        match ids.get("buckets") {
            Some(bucket) => match bucket {
                Some(bucket) => {
                    self.bucket.id = Some(bucket.clone());
                },
                None => {},
            },
            None => {},
        }
        self.data = Some(data.clone());
        self.permissions = permissions;
        self.id = Some(id.to_owned());
        Ok(())
    }

    fn get_config(&self) -> (config: KintoConfig) {
        self.bucket.get_config()
    }

    fn get_id(&self) -> (id: Option<&str>) {
        match &self.id {
            Some(id) => Some(id.as_str()),
            None => match &self.data {
                Some(data) => match data.get("id") {
                    Some(id) => id.as_str(),
                    None => None,
                },
                None => None,
            },
        }
    }

    fn get_timestamp(&self) -> (stamp: Option<u64>) {
        match &self.data {
            Some(data) => match data.get("last_modified") {
                Some(stamp) => stamp.as_u64(),
                None => None,
            },
            None => None,
        }
    }

    fn get_data(&self) -> (data: Option<Json>) {
        match &self.data {
            Some(data) => Some(data.clone()),
            None => None,
        }
    }

    fn set_data(&mut self, data: Json) -> (r: Collection) {
        self.data = Some(data);
        self.clone()
    }

    fn get_permissions(&self) -> (permissions: Option<Json>) {
        Some(self.permissions.to_json())
    }
}

/// A response that carries the path of the collection's kind, or of a
/// collection of that kind, leaves the collection in the bucket that it was
/// in: reading the bucket's identifier back from the path gives the
/// identifier that the path was built from. This holds whenever no
/// identifier holds a slash.
pub proof fn lemma_collection_stays(collection: Collection, own: Seq<char>)
    requires
        id_of(collection.bucket.model()) is Some,
        !id_of(collection.bucket.model())->0.contains('/'),
        !own.contains('/'),
    ensures
        collection.model().path == Ok::<Seq<char>, KintoError>(
            collections_path(id_of(collection.bucket.model())->0),
        ),
        collection.reparented(path_ids(collections_path(id_of(collection.bucket.model())->0)))
            == collection.model().path,
        collection.reparented(
            path_ids(collection_path(id_of(collection.bucket.model())->0, own)),
        ) == collection.model().path,
{
    let bucket = id_of(collection.bucket.model())->0;
    lemma_path_ids(bucket, own, Seq::empty());
    reveal_strlit("buckets");
    reveal_strlit("collections");
    assert("buckets"@ != "collections"@) by {
        assert("buckets"@.len() != "collections"@.len());
    }
}

} // verus!
