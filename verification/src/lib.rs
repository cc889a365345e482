//! Client-side logic for a hierarchical document store reached over HTTP.

pub mod batch;
pub mod bucket;
pub mod client;
pub mod codec;
pub mod collection;
pub mod error;
pub mod headers;
pub mod json;
pub mod pagination;
pub mod paths;
pub mod permissions;
pub mod record;
pub mod request;
pub mod resource;
pub mod response;
pub mod text;
pub mod utils;

pub use batch::{BatchRequest, BatchResponseWrapper};
pub use bucket::Bucket;
pub use client::{Credentials, KintoClient, KintoConfig};
pub use collection::Collection;
pub use error::KintoError;
pub use json::Json;
pub use record::Record;
pub use request::KintoRequest;
pub use resource::Resource;
