//! Records: the level within a collection.

use crate::client::KintoConfig;
use crate::collection::{taken, Collection};
use crate::error::KintoError;
use crate::json::{Doc, Json};
use crate::paths::{record_path, records_path, Paths};
use crate::permissions::{
    category, clone_names, names, read_category, with_category, write_category,
};
use crate::request::body_doc;
use crate::resource::{id_of, Model, Resource};
use crate::response::ResponseWrapper;
use crate::utils::{extract_ids_from_path, lemma_path_ids, path_ids, text_of};
use vstd::prelude::*;

verus! {

/// The permissions on a record: for each action, the principals that may
/// take it.
#[derive(Debug)]
pub struct RecordPermissions {
    pub read: Option<Vec<String>>,
    pub write: Option<Vec<String>>,
}

impl RecordPermissions {
    /// The permissions as the object that a write sends: one member for
    /// each category that has principals.
    pub open spec fn doc(self) -> Doc {
        let first = with_category(Seq::empty(), "read"@, names(self.read));
        let second = with_category(first, "write"@, names(self.write));
        Doc::Dict(second)
    }

    /// Whether every category of an object is missing, null or a list of
    /// texts.
    pub open spec fn readable(permissions: Doc) -> bool {
        &&& permissions is Dict
        &&& category(permissions, "read"@) is Ok
        &&& category(permissions, "write"@) is Ok
    }

    /// What is kept of the permissions in a response, as the object that a
    /// write sends. Permissions that are missing are empty; a category that
    /// is missing or null has no principals; members of other names are
    /// passed over. `None` where the permissions are no object or a category
    /// is no list of texts.
    pub open spec fn reads(permissions: Doc) -> Option<Doc> {
        if permissions == Doc::Null {
            Some(Doc::Dict(Seq::empty()))
        } else if Self::readable(permissions) {
            let first = with_category(
                Seq::empty(),
                "read"@,
                category(permissions, "read"@)->Ok_0,
            );
            let second = with_category(
                first,
                "write"@,
                category(permissions, "write"@)->Ok_0,
            );
            Some(Doc::Dict(second))
        } else {
            None
        }
    }

    /// The permissions as the object that a write sends.
    pub fn to_json(&self) -> (j: Json)
        ensures
            j@ == self.doc(),
    {
        let mut members: Vec<(String, Json)> = Vec::new();
        assert(Json::member_docs(members@) =~= Seq::empty());
        write_category(&mut members, "read", &self.read);
        write_category(&mut members, "write", &self.write);
        Json::Object(members)
    }

    /// Reads the permissions of a response.
    pub fn from_json(permissions: &Json) -> (r: Result<RecordPermissions, KintoError>)
        ensures
            match RecordPermissions::reads(permissions@) {
                Some(doc) => r is Ok && r->Ok_0.doc() == doc,
                None => r is Err && r->Err_0 == KintoError::JsonError,
            },
    {
        match permissions {
            Json::Null => {
                let r = RecordPermissions::default();
                Ok(r)
            },
            Json::Object(_) => {
                let read = match read_category(permissions, "read") {
                    Ok(list) => list,
                    Err(e) => {
                        return Err(e);
                    },
                };
                let write = match read_category(permissions, "write") {
                    Ok(list) => list,
                    Err(e) => {
                        return Err(e);
                    },
                };
                Ok(RecordPermissions { read: read, write: write })
            },
            _ => Err(KintoError::JsonError),
        }
    }
}

impl Default for RecordPermissions {
    fn default() -> (r: RecordPermissions)
        ensures
            r.read is None,
            r.write is None,
    {
        RecordPermissions { read: None, write: None }
    }
}

impl Clone for RecordPermissions {
    fn clone(&self) -> (r: RecordPermissions)
        ensures
            r.doc() == self.doc(),
            names(r.read) == names(self.read),
            names(r.write) == names(self.write),
    {
        RecordPermissions {
            read: clone_names(&self.read),
            write: clone_names(&self.write),
        }
    }
}

/// A record of a collection.
#[derive(Debug)]
pub struct Record {
    pub data: Option<Json>,
    pub permissions: RecordPermissions,
    pub collection: Collection,
    pub id: Option<String>,
}

/// The path of the records of a collection, which needs the identifiers of
/// the bucket and of the collection.
pub open spec fn records_of(bucket: Option<Seq<char>>, collection: Option<Seq<char>>) -> Result<
    Seq<char>,
    KintoError,
> {
    match (bucket, collection) {
        (Some(bucket), Some(collection)) => Ok(records_path(bucket, collection)),
        _ => Err(KintoError::UndefinedIdError),
    }
}

impl Clone for Record {
    fn clone(&self) -> (r: Record)
        ensures
            r.model() == self.model(),
    {
        Record {
            data: match &self.data {
                Some(data) => Some(data.clone()),
                None => None,
            },
            permissions: self.permissions.clone(),
            collection: self.collection.clone(),
            id: match &self.id {
                Some(id) => Some(id.clone()),
                None => None,
            },
        }
    }
}

impl Record {
    /// What a record of the collection `collection` in the bucket `bucket`
    /// holds when nothing but its identifier is known.
    pub open spec fn fresh(bucket: Model, collection: Model, id: Option<Seq<char>>) -> Model {
        Model {
            config: bucket.config,
            own_id: id,
            data: None,
            permissions: Some(Doc::Dict(Seq::empty())),
            path: records_of(id_of(bucket), id_of(collection)),
        }
    }

    /// Create a new record object without an id.
    pub fn new(collection: Collection) -> (record: Record)
        ensures
            record.model() == Record::fresh(collection.bucket.model(), collection.model(), None),
            record.collection == collection,
    {
        let record = Record {
            collection: collection,
            data: None,
            permissions: RecordPermissions::default(),
            id: None,
        };
        record
    }

    /// Create a new record object with an id.
    pub fn new_by_id(collection: Collection, id: &str) -> (record: Record)
        ensures
            record.model() == Record::fresh(
                collection.bucket.model(),
                collection.model(),
                Some(id@),
            ),
            record.collection == collection,
    {
        let record = Record {
            collection: collection,
            data: None,
            permissions: RecordPermissions::default(),
            id: Some(id.to_owned()),
        };
        record
    }
}

impl Resource for Record {
    open spec fn model(&self) -> Model {
        Model {
            config: self.collection.bucket.config@,
            own_id: text_of(self.id),
            data: body_doc(self.data),
            permissions: Some(self.permissions.doc()),
            path: records_of(
                id_of(self.collection.bucket.model()),
                id_of(self.collection.model()),
            ),
        }
    }

    open spec fn reparented(&self, ids: Map<Seq<char>, Option<Seq<char>>>) -> Result<
        Seq<char>,
        KintoError,
    > {
        records_of(
            taken(ids, "buckets"@, id_of(self.collection.bucket.model())),
            taken(ids, "collections"@, id_of(self.collection.model())),
        )
    }

    open spec fn reads(permissions: Doc) -> Option<Doc> {
        RecordPermissions::reads(permissions)
    }

    fn resource_path(&self) -> (r: Result<String, KintoError>) {
        match self.collection.get_id() {
            Some(collection) => match self.collection.bucket.get_id() {
                Some(bucket) => Ok(Paths::Records(bucket, collection).build()),
                None => Err(KintoError::UndefinedIdError),
            },
            None => Err(KintoError::UndefinedIdError),
        }
    }

    fn unwrap_response(&mut self, wrapper: ResponseWrapper) -> (r: Result<(), KintoError>) {
        let null = Json::Null;
        let data = match wrapper.body.get("data") {
            Some(data) => data,
            None => &null,
        };
        let id = match data.get("id") {
            Some(id) => match id.as_str() {
                Some(id) => id,
                None => {
                    return Err(KintoError::JsonError);
                },
            },
            None => {
                return Err(KintoError::JsonError);
            },
        };
        let permissions = match wrapper.body.get("permissions") {
            Some(permissions) => permissions,
            None => &null,
        };
        let permissions = match RecordPermissions::from_json(permissions) {
            Ok(permissions) => permissions,
            Err(e) => {
                return Err(KintoError::JsonError);
            },
        };
        let ids = extract_ids_from_path(wrapper.path.as_str());
        match ids.get("buckets") {
            Some(bucket) => match bucket {
                Some(bucket) => {
                    self.collection.bucket.id = Some(bucket.clone());
                },
                None => {},
            },
            None => {},
        }
        match ids.get("collections") {
            Some(collection) => match collection {
                Some(collection) => {
                    self.collection.id = Some(collection.clone());
                },
                None => {},
            },
            None => {},
        }
        self.data = Some(data.clone());
        self.permissions = permissions;
        self.id = Some(id.to_owned());
        Ok(())
    }

    fn get_config(&self) -> (config: KintoConfig) {
        self.collection.get_config()
    }

    fn get_data(&self) -> (data: Option<Json>) {
        match &self.data {
            Some(data) => Some(data.clone()),
            None => None,
        }
    }

    fn set_data(&mut self, data: Json) -> (r: Record) {
        self.data = Some(data);
        self.clone()
    }

    fn get_permissions(&self) -> (permissions: Option<Json>) {
        Some(self.permissions.to_json())
    }

    fn get_id(&self) -> (id: Option<&str>) {
        match &self.id {
            Some(id) => Some(id.as_str()),
            None => match &self.data {
                Some(data) => match data.get("id") {
                    Some(id) => id.as_str(),
                    None => None,
                },
                None => None,
            },
        }
    }

    fn get_timestamp(&self) -> (stamp: Option<u64>) {
        match &self.data {
            Some(data) => match data.get("last_modified") {
                Some(stamp) => stamp.as_u64(),
                None => None,
            },
            None => None,
        }
    }
}

/// A response that carries the path of the record's kind, or of a record
/// of that kind, leaves the record under the ancestors that it had: reading
/// their identifiers back from the path gives the identifiers that the path
/// was built from. This holds whenever no identifier holds a slash.
pub proof fn lemma_record_stays(record: Record, own: Seq<char>)
    requires
        id_of(record.collection.bucket.model()) is Some,
        id_of(record.collection.model()) is Some,
        !id_of(record.collection.bucket.model())->0.contains('/'),
        !id_of(record.collection.model())->0.contains('/'),
        !own.contains('/'),
    ensures
        record.model().path == Ok::<Seq<char>, KintoError>(
            records_path(
                id_of(record.collection.bucket.model())->0,
                id_of(record.collection.model())->0,
            ),
        ),
        record.reparented(
            path_ids(
                records_path(
                    id_of(record.collection.bucket.model())->0,
                    id_of(record.collection.model())->0,
                ),
            ),
        ) == record.model().path,
        record.reparented(
            path_ids(
                record_path(
                    id_of(record.collection.bucket.model())->0,
                    id_of(record.collection.model())->0,
                    own,
                ),
            ),
        ) == record.model().path,
{
    let bucket = id_of(record.collection.bucket.model())->0;
    let collection = id_of(record.collection.model())->0;
    lemma_path_ids(bucket, collection, own);
    reveal_strlit("buckets");
    reveal_strlit("collections");
    reveal_strlit("records");
    assert("buckets"@ != "collections"@) by {
        assert("buckets"@.len() != "collections"@.len());
    }
    assert("buckets"@ != "records"@) by {
        assert("buckets"@[0] != "records"@[0]);
    }
    assert("collections"@ != "records"@);
}

} // verus!
