//! Buckets: the top level of the hierarchy.

use crate::client::KintoConfig;
use crate::collection::Collection;
use crate::error::KintoError;
use crate::json::{Doc, Json};
use crate::paths::{buckets_path, Paths};
use crate::permissions::{
    category, clone_names, names, read_category, with_category, write_category,
};
use crate::request::{body_doc, DeleteCollection, GetCollection};
use crate::resource::{Model, Resource};
use crate::response::ResponseWrapper;
use crate::utils::text_of;
use vstd::prelude::*;

verus! {

/// The permissions on a bucket: for each action, the principals that may
/// take it.
#[derive(Debug)]
pub struct BucketPermissions {
    pub read: Option<Vec<String>>,
    pub write: Option<Vec<String>>,
    pub create_collection: Option<Vec<String>>,
    pub create_group: Option<Vec<String>>,
}

impl BucketPermissions {
    /// The permissions as the object that a write sends: one member for
    /// each category that has principals.
    pub open spec fn doc(self) -> Doc {
        let first = with_category(Seq::empty(), "read"@, names(self.read));
        let second = with_category(first, "write"@, names(self.write));
        let third = with_category(second, "collection:create"@, names(self.create_collection));
        let fourth = with_category(third, "group:create"@, names(self.create_group));
        Doc::Dict(fourth)
    }

    /// Whether every category of an object is missing, null or a list of
    /// texts.
    pub open spec fn readable(permissions: Doc) -> bool {
        &&& permissions is Dict
        &&& category(permissions, "read"@) is Ok
        &&& category(permissions, "write"@) is Ok
        &&& category(permissions, "collection:create"@) is Ok
        &&& category(permissions, "group:create"@) is Ok
    }

    /// What is kept of the permissions in a response, as the object that a
    /// write sends. Permissions that are missing are empty; a category that
    /// is missing or null has no principals; members of other names are
    /// passed over. `None` where the permissions are no object or a category
    /// is no list of texts.
    pub open spec fn reads(permissions: Doc) -> Option<Doc> {
        if permissions == Doc::Null {
            Some(Doc::Dict(Seq::empty()))
        } else if Self::readable(permissions) {
            let first = with_category(
                Seq::empty(),
                "read"@,
                category(permissions, "read"@)->Ok_0,
            );
            let second = with_category(
                first,
                "write"@,
                category(permissions, "write"@)->Ok_0,
            );
            let third = with_category(
                second,
                "collection:create"@,
                category(permissions, "collection:create"@)->Ok_0,
            );
            let fourth = with_category(
                third,
                "group:create"@,
                category(permissions, "group:create"@)->Ok_0,
            );
            Some(Doc::Dict(fourth))
        } else {
            None
        }
    }

    /// The permissions as the object that a write sends.
    pub fn to_json(&self) -> (j: Json)
        ensures
            j@ == self.doc(),
    {
        let mut members: Vec<(String, Json)> = Vec::new();
        assert(Json::member_docs(members@) =~= Seq::empty());
        write_category(&mut members, "read", &self.read);
        write_category(&mut members, "write", &self.write);
        write_category(&mut members, "collection:create", &self.create_collection);
        write_category(&mut members, "group:create", &self.create_group);
        Json::Object(members)
    }

    /// Reads the permissions of a response.
    pub fn from_json(permissions: &Json) -> (r: Result<BucketPermissions, KintoError>)
        ensures
            match BucketPermissions::reads(permissions@) {
                Some(doc) => r is Ok && r->Ok_0.doc() == doc,
                None => r is Err && r->Err_0 == KintoError::JsonError,
            },
    {
        match permissions {
            Json::Null => {
                let r = BucketPermissions::default();
                Ok(r)
            },
            Json::Object(_) => {
                let read = match read_category(permissions, "read") {
                    Ok(list) => list,
                    Err(e) => {
                        return Err(e);
                    },
                };
                let write = match read_category(permissions, "write") {
                    Ok(list) => list,
                    Err(e) => {
                        return Err(e);
                    },
                };
                let create_collection = match read_category(permissions, "collection:create") {
                    Ok(list) => list,
                    Err(e) => {
                        return Err(e);
                    },
                };
                let create_group = match read_category(permissions, "group:create") {
                    Ok(list) => list,
                    Err(e) => {
                        return Err(e);
                    },
                };
                Ok(
                    BucketPermissions {
                        read: read,
                        write: write,
                        create_collection: create_collection,
                        create_group: create_group,
                    },
                )
            },
            _ => Err(KintoError::JsonError),
        }
    }
}

impl Default for BucketPermissions {
    fn default() -> (r: BucketPermissions)
        ensures
            r.read is None,
            r.write is None,
            r.create_collection is None,
            r.create_group is None,
    {
        BucketPermissions { read: None, write: None, create_collection: None, create_group: None }
    }
}

impl Clone for BucketPermissions {
    fn clone(&self) -> (r: BucketPermissions)
        ensures
            r.doc() == self.doc(),
            names(r.read) == names(self.read),
            names(r.write) == names(self.write),
            names(r.create_collection) == names(self.create_collection),
            names(r.create_group) == names(self.create_group),
    {
        BucketPermissions {
            read: clone_names(&self.read),
            write: clone_names(&self.write),
            create_collection: clone_names(&self.create_collection),
            create_group: clone_names(&self.create_group),
        }
    }
}

/// A bucket.
#[derive(Debug)]
pub struct Bucket {
    pub data: Option<Json>,
    pub permissions: BucketPermissions,
    pub id: Option<String>,
    pub config: KintoConfig,
}

impl Clone for Bucket {
    fn clone(&self) -> (r: Bucket)
        ensures
            r.model() == self.model(),
    {
        Bucket {
            data: match &self.data {
                Some(data) => Some(data.clone()),
                None => None,
            },
            permissions: self.permissions.clone(),
            id: match &self.id {
                Some(id) => Some(id.clone()),
                None => None,
            },
            config: self.config.clone(),
        }
    }
}

impl Bucket {
    /// Create a new bucket resource.
    pub fn new(config: KintoConfig) -> (bucket: Bucket)
        ensures
            bucket.model() == (Model {
                config: config@,
                own_id: None,
                data: None,
                permissions: Some(Doc::Dict(Seq::empty())),
                path: Ok(buckets_path()),
            }),
    {
        let bucket = Bucket {
            config: config,
            data: None,
            permissions: BucketPermissions::default(),
            id: None,
        };
        bucket
    }

    /// Create a bucket resource with a known id.
    pub fn new_by_id(config: KintoConfig, id: &str) -> (bucket: Bucket)
        ensures
            bucket.model() == (Model {
                config: config@,
                own_id: Some(id@),
                data: None,
                permissions: Some(Doc::Dict(Seq::empty())),
                path: Ok(buckets_path()),
            }),
    {
        let bucket = Bucket {
            config: config,
            data: None,
            permissions: BucketPermissions::default(),
            id: Some(id.to_owned()),
        };
        bucket
    }

    /// Get a collection by id.
    pub fn collection(self, id: &str) -> (collection: Collection)
        ensures
            collection.model() == Collection::fresh(self.model(), Some(id@)),
    {
        Collection::new_by_id(self, id)
    }

    /// Get an empty collection.
    pub fn new_collection(&self) -> (collection: Collection)
        ensures
            collection.model() == Collection::fresh(self.model(), None),
    {
        Collection::new(self.clone())
    }

    /// The request that lists the collections of the bucket, page by page.
    pub fn list_collections(&self) -> (r: Result<GetCollection, KintoError>)
        ensures
            match crate::resource::request_for(
                self.model().config,
                crate::request::Method::Get,
                Collection::fresh(self.model(), None).path,
            ) {
                Ok(d) => r is Ok && r->Ok_0.preparer@ == d,
                Err(e) => r == Err::<GetCollection, KintoError>(e),
            },
    {
        self.new_collection().list_request()
    }

    /// The request that deletes the collections of the bucket, page by
    /// page.
    pub fn delete_collections(&self) -> (r: Result<DeleteCollection, KintoError>)
        ensures
            match crate::resource::request_for(
                self.model().config,
                crate::request::Method::Delete,
                Collection::fresh(self.model(), None).path,
            ) {
                Ok(d) => r is Ok && r->Ok_0.preparer@ == d,
                Err(e) => r == Err::<DeleteCollection, KintoError>(e),
            },
    {
        self.new_collection().delete_all_request()
    }
}

impl Resource for Bucket {
    open spec fn model(&self) -> Model {
        Model {
            config: self.config@,
            own_id: text_of(self.id),
            data: body_doc(self.data),
            permissions: Some(self.permissions.doc()),
            path: Ok(buckets_path()),
        }
    }

    open spec fn reparented(&self, ids: Map<Seq<char>, Option<Seq<char>>>) -> Result<
        Seq<char>,
        KintoError,
    > {
        Ok(buckets_path())
    }

    open spec fn reads(permissions: Doc) -> Option<Doc> {
        BucketPermissions::reads(permissions)
    }

    fn resource_path(&self) -> (r: Result<String, KintoError>) {
        Ok(Paths::Buckets.build())
    }

    fn unwrap_response(&mut self, wrapper: ResponseWrapper) -> (r: Result<(), KintoError>) {
        let null = Json::Null;
        let data = match wrapper.body.get("data") {
            Some(data) => data,
            None => &null,
        };
        let id = match data.get("id") {
            Some(id) => match id.as_str() {
                Some(id) => id,
                None => {
                    return Err(KintoError::JsonError);
                },
            },
            None => {
                return Err(KintoError::JsonError);
            },
        };
        let permissions = match wrapper.body.get("permissions") {
            Some(permissions) => permissions,
            None => &null,
        };
        let permissions = match BucketPermissions::from_json(permissions) {
            Ok(permissions) => permissions,
            Err(e) => {
                return Err(KintoError::JsonError);
            },
        };
        self.data = Some(data.clone());
        self.permissions = permissions;
        self.id = Some(id.to_owned());
        Ok(())
    }

    fn get_id(&self) -> (id: Option<&str>) {
        match &self.id {
            Some(id) => Some(id.as_str()),
            None => match &self.data {
                Some(data) => match data.get("id") {
                    Some(id) => id.as_str(),
                    None => None,
                },
                None => None,
            },
        }
    }

    fn get_timestamp(&self) -> (stamp: Option<u64>) {
        match &self.data {
            Some(data) => match data.get("last_modified") {
                Some(stamp) => stamp.as_u64(),
                None => None,
            },
            None => None,
        }
    }

    fn get_data(&self) -> (data: Option<Json>) {
        match &self.data {
            Some(data) => Some(data.clone()),
            None => None,
        }
    }

    fn set_data(&mut self, data: Json) -> (r: Bucket) {
        self.data = Some(data);
        self.clone()
    }

    fn get_permissions(&self) -> (permissions: Option<Json>) {
        Some(self.permissions.to_json())
    }

    fn get_config(&self) -> (config: KintoConfig) {
        self.config.clone()
    }
}

} // verus!
