//! The configuration that every request of one client shares.

use crate::bucket::Bucket;
use crate::error::KintoError;
use crate::paths::buckets_path;
use crate::request::{DeleteCollection, Descriptor, GetCollection, Method, RequestPreparer};
use crate::resource::{Model, Resource};
use vstd::prelude::*;

verus! {

/// A user name and password for HTTP basic authentication.
#[derive(Debug)]
pub struct Credentials {
    pub username: String,
    pub password: Option<String>,
}

/// Configuration of the Kinto endpoint.
#[derive(Debug)]
pub struct KintoConfig {
    pub server_url: String,
    pub auth: Option<Credentials>,
}

/// What a configuration holds, as plain values.
pub ghost struct ConfigView {
    pub server_url: Seq<char>,
    pub auth: Option<(Seq<char>, Option<Seq<char>>)>,
}

impl View for Credentials {
    type V = (Seq<char>, Option<Seq<char>>);

    open spec fn view(&self) -> (Seq<char>, Option<Seq<char>>) {
        (self.username@, crate::utils::text_of(self.password))
    }
}

impl Clone for Credentials {
    fn clone(&self) -> (r: Credentials)
        ensures
            r@ == self@,
    {
        Credentials {
            username: self.username.clone(),
            password: match &self.password {
                Some(p) => Some(p.clone()),
                None => None,
            },
        }
    }
}

impl View for KintoConfig {
    type V = ConfigView;

    open spec fn view(&self) -> ConfigView {
        ConfigView {
            server_url: self.server_url@,
            auth: match self.auth {
                Some(c) => Some(c@),
                None => None,
            },
        }
    }
}

impl Clone for KintoConfig {
    fn clone(&self) -> (r: KintoConfig)
        ensures
            r@ == self@,
    {
        KintoConfig {
            server_url: self.server_url.clone(),
            auth: match &self.auth {
                Some(c) => Some(c.clone()),
                None => None,
            },
        }
    }
}

impl KintoConfig {
    /// A configuration for the server at `server_url`.
    pub fn new(server_url: String, auth: Option<Credentials>) -> (config: KintoConfig)
        ensures
            config.server_url == server_url,
            config.auth == auth,
    {
        KintoConfig { server_url: server_url, auth: auth }
    }
}

/// Client for the Kinto HTTP API.
#[derive(Debug)]
pub struct KintoClient {
    config: KintoConfig,
}

impl View for KintoClient {
    type V = ConfigView;

    closed spec fn view(&self) -> ConfigView {
        self.config@
    }
}

impl KintoClient {
    /// Create a client.
    pub fn new(config: KintoConfig) -> (client: KintoClient)
        ensures
            client@ == config@,
    {
        KintoClient { config: config }
    }

    /// The configuration of the client.
    pub fn config(&self) -> (config: &KintoConfig)
        ensures
            config@ == self@,
    {
        &self.config
    }

    /// Select an existing bucket.
    pub fn bucket(&self, id: &str) -> (bucket: Bucket)
        ensures
            bucket.model() == (Model {
                config: self@,
                own_id: Some(id@),
                data: None,
                permissions: Some(crate::json::Doc::Dict(Seq::empty())),
                path: Ok(buckets_path()),
            }),
    {
        Bucket::new_by_id(self.config.clone(), id)
    }

    /// Create a new empty bucket with a generated id.
    pub fn new_bucket(&self) -> (bucket: Bucket)
        ensures
            bucket.model() == (Model {
                config: self@,
                own_id: None,
                data: None,
                permissions: Some(crate::json::Doc::Dict(Seq::empty())),
                path: Ok(buckets_path()),
            }),
    {
        Bucket::new(self.config.clone())
    }

    /// The request that lists all available buckets, page by page.
    pub fn list_buckets(&self) -> (r: Result<GetCollection, KintoError>)
        ensures
            r is Ok,
            r->Ok_0.preparer@ == (Descriptor {
                method: Method::Get,
                ..RequestPreparer::new_spec(self@, buckets_path())
            }),
    {
        self.new_bucket().list_request()
    }

    /// The request that deletes all available buckets, page by page.
    pub fn delete_buckets(&self) -> (r: Result<DeleteCollection, KintoError>)
        ensures
            r is Ok,
            r->Ok_0.preparer@ == (Descriptor {
                method: Method::Delete,
                ..RequestPreparer::new_spec(self@, buckets_path())
            }),
    {
        self.new_bucket().delete_all_request()
    }

    /// The request that flushes the server (if the flush endpoint is
    /// enabled): a `POST` to `/__flush__`.
    pub fn flush(&self) -> (request: RequestPreparer)
        ensures
            request@ == (Descriptor {
                method: Method::Post,
                ..RequestPreparer::new_spec(self@, "/__flush__"@)
            }),
    {
        let mut request = RequestPreparer::new(self.config.clone(), "/__flush__".to_owned());
        request.method = Method::Post;
        request
    }
}

} // verus!
