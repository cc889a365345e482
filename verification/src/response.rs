//! The outcome of one completed exchange.

use crate::client::{ConfigView, KintoConfig};
use crate::headers::{header_fields, Field};
use crate::json::{Doc, Json};
use hyper::header::Headers;
use vstd::prelude::*;

verus! {

/// Wrapper for a Kinto response object.
#[derive(Debug)]
pub struct ResponseWrapper {
    pub config: KintoConfig,
    pub path: String,
    pub status: u16,
    pub headers: Headers,
    pub body: Json,
}

/// What a response holds, as plain values.
pub ghost struct Response {
    pub config: ConfigView,
    pub path: Seq<char>,
    pub status: u16,
    pub headers: Seq<Field>,
    pub body: Doc,
}

impl View for ResponseWrapper {
    type V = Response;

    open spec fn view(&self) -> Response {
        Response {
            config: self.config@,
            path: self.path@,
            status: self.status,
            headers: header_fields(self.headers),
            body: self.body@,
        }
    }
}

impl Clone for ResponseWrapper {
    fn clone(&self) -> (r: ResponseWrapper)
        ensures
            r@ == self@,
    {
        ResponseWrapper {
            config: self.config.clone(),
            path: self.path.clone(),
            status: self.status,
            headers: self.headers.clone(),
            body: self.body.clone(),
        }
    }
}

} // verus!
