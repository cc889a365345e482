//! Request descriptors and the exchange protocol: what is put on the wire
//! for a descriptor, and what is made of the server's reply.

use crate::client::{ConfigView, KintoConfig};
use crate::codec::{normal, parsed, printed};
use crate::error::KintoError;
use crate::headers::{
    basic_authorization, header_fields, headers_new, headers_set_basic,
    headers_set_raw, put_field, Field,
};
use crate::json::{Doc, Json};
use crate::response::{Response, ResponseWrapper};
use crate::text::{push_decimal, signed_decimal};
use hyper::header::Headers;
use vstd::prelude::*;
use vstd::string::{StrSliceExecFns, StringExecFns};
use vstd::utf8::encode_utf8;

verus! {

/// The HTTP methods that the library uses.
#[derive(Debug, Clone, Copy, PartialEq, Eq, Structural)]
pub enum Method {
    Get,
    Post,
    Put,
    Patch,
    Delete,
}

impl Method {
    /// The name of the method as HTTP writes it.
    pub open spec fn name(self) -> Seq<char> {
        match self {
            Method::Get => "GET"@,
            Method::Post => "POST"@,
            Method::Put => "PUT"@,
            Method::Patch => "PATCH"@,
            Method::Delete => "DELETE"@,
        }
    }

    /// The name of the method as HTTP writes it.
    pub fn as_str(&self) -> (name: &'static str)
        ensures
            name@ == self.name(),
    {
        match self {
            Method::Get => "GET",
            Method::Post => "POST",
            Method::Put => "PUT",
            Method::Patch => "PATCH",
            Method::Delete => "DELETE",
        }
    }
}

/// An entity tag: an opaque version token, strong or weak.
#[derive(Debug, Clone, PartialEq, Eq)]
pub struct EntityTag {
    pub weak: bool,
    pub tag: String,
}

impl EntityTag {
    /// The tag as a header writes it: between double quotes, a weak one
    /// behind `W/`.
    pub open spec fn text(self) -> Seq<char> {
        if self.weak {
            "W/\""@ + self.tag@ + "\""@
        } else {
            "\""@ + self.tag@ + "\""@
        }
    }
}

/// The tags of a list as a header writes them: separated by a comma and a
/// space.
pub open spec fn tags_text(tags: Seq<EntityTag>) -> Seq<char>
    decreases tags.len(),
{
    if tags.len() == 0 {
        Seq::empty()
    } else if tags.len() == 1 {
        tags[0].text()
    } else {
        tags_text(tags.drop_last()) + ", "@ + tags.last().text()
    }
}

/// Writes a list of tags as a header does.
pub fn write_tags(tags: &Vec<EntityTag>) -> (text: String)
    ensures
        text@ == tags_text(tags@),
{
    let mut text = String::new();
    let mut i: usize = 0;
    while i < tags.len()
        invariant
            i <= tags.len(),
            text@ == tags_text(tags@.take(i as int)),
        decreases tags.len() - i,
    {
        if i > 0 {
            text.append(", ");
        }
        if tags[i].weak {
            text.append("W/\"");
        } else {
            text.append("\"");
        }
        text.append(tags[i].tag.as_str());
        text.append("\"");
        proof {
            let taken = tags@.take(i + 1);
            assert(taken.drop_last() =~= tags@.take(i as int));
        }
        i += 1;
    }
    assert(tags@.take(tags.len() as int) =~= tags@);
    text
}

/// The condition of an `If-Match` header.
#[derive(Debug, Clone, PartialEq, Eq)]
pub enum IfMatch {
    /// Any value is a match
    Any,
    /// Only the listed items are a match
    Items(Vec<EntityTag>),
}

/// The condition of an `If-None-Match` header.
#[derive(Debug, Clone, PartialEq, Eq)]
pub enum IfNoneMatch {
    /// Any value is a match
    Any,
    /// Only the listed items are a match
    Items(Vec<EntityTag>),
}

impl IfMatch {
    /// The value of the header: a star, or the tags listed.
    pub open spec fn text(self) -> Seq<char> {
        match self {
            IfMatch::Any => "*"@,
            IfMatch::Items(tags) => tags_text(tags@),
        }
    }

    /// The value of the header.
    pub fn write(&self) -> (text: String)
        ensures
            text@ == self.text(),
    {
        match self {
            IfMatch::Any => "*".to_owned(),
            IfMatch::Items(tags) => write_tags(tags),
        }
    }
}

impl IfNoneMatch {
    /// The value of the header: a star, or the tags listed.
    pub open spec fn text(self) -> Seq<char> {
        match self {
            IfNoneMatch::Any => "*"@,
            IfNoneMatch::Items(tags) => tags_text(tags@),
        }
    }

    /// The value of the header.
    pub fn write(&self) -> (text: String)
        ensures
            text@ == self.text(),
    {
        match self {
            IfNoneMatch::Any => "*".to_owned(),
            IfNoneMatch::Items(tags) => write_tags(tags),
        }
    }
}

/// Request builder used for setting data by specialized request methods.
#[derive(Debug)]
pub struct RequestPreparer {
    pub config: KintoConfig,
    pub method: Method,
    pub path: String,
    pub headers: Headers,
    pub query: String,
    pub body: Option<Json>,
}

/// The document of an optional body.
pub open spec fn body_doc(body: Option<Json>) -> Option<Doc> {
    match body {
        Some(b) => Some(b@),
        None => None,
    }
}

/// What a request descriptor holds, as plain values.
pub ghost struct Descriptor {
    pub config: ConfigView,
    pub method: Method,
    pub path: Seq<char>,
    pub headers: Seq<Field>,
    pub query: Seq<char>,
    pub body: Option<Doc>,
}

impl Descriptor {
    /// The descriptor with the header `name` set to the text `value`.
    pub open spec fn with_header(self, name: Seq<char>, value: Seq<char>) -> Descriptor {
        Descriptor { headers: put_field(self.headers, name, seq![encode_utf8(value)]), ..self }
    }

    /// The descriptor with the body `body`, declared as JSON.
    pub open spec fn with_body(self, body: Option<Doc>) -> Descriptor {
        Descriptor { body: body, ..self.with_header("Content-Type"@, "application/json"@) }
    }

    /// The descriptor with a page size added to its query.
    pub open spec fn with_limit(self, limit: int) -> Descriptor {
        Descriptor { query: self.query + "&_limit="@ + signed_decimal(limit), ..self }
    }

    /// The address that the request goes to: the server's base URL, the path
    /// and, where there is a query, a question mark and the query.
    pub open spec fn url(self) -> Seq<char> {
        if self.query.len() > 0 {
            self.config.server_url + self.path + "?"@ + self.query
        } else {
            self.config.server_url + self.path
        }
    }

    /// The headers that go out: those of the descriptor and, where the
    /// configuration holds credentials, the `Authorization` header.
    pub open spec fn sent_headers(self) -> Seq<Field> {
        match self.config.auth {
            Some(auth) => put_field(
                self.headers,
                "Authorization"@,
                seq![basic_authorization(auth.0, auth.1)],
            ),
            None => self.headers,
        }
    }

    /// The payload that goes out: the body as JSON text, and nothing where
    /// there is no body. `None` where the body cannot be printed.
    pub open spec fn payload(self) -> Option<Seq<char>> {
        match self.body {
            Some(body) => printed(normal(body)),
            None => Some(Seq::empty()),
        }
    }
}

/// One request as it goes on the wire.
#[derive(Debug)]
pub struct WireRequest {
    pub method: Method,
    pub url: String,
    pub headers: Headers,
    pub payload: String,
}

/// What a wire request holds, as plain values.
pub ghost struct Wire {
    pub method: Method,
    pub url: Seq<char>,
    pub headers: Seq<Field>,
    pub payload: Seq<char>,
}

impl View for WireRequest {
    type V = Wire;

    open spec fn view(&self) -> Wire {
        Wire {
            method: self.method,
            url: self.url@,
            headers: header_fields(self.headers),
            payload: self.payload@,
        }
    }
}

/// What came of putting a request on the wire.
#[derive(Debug)]
pub enum Reply {
    /// No response arrived.
    Failed,
    /// A response arrived; `body` is `None` where it could not be read.
    Answered { status: u16, headers: Headers, body: Option<String> },
}

/// The error that a status stands for, if any: 304 is `NotModified`, 412 is
/// `PreconditionError`, any other status outside 200 to 299 is `HyperError`.
pub open spec fn status_error(status: u16) -> Option<KintoError> {
    if status == 304 {
        Some(KintoError::NotModified)
    } else if status == 412 {
        Some(KintoError::PreconditionError)
    } else if status < 200 || status > 299 {
        Some(KintoError::HyperError)
    } else {
        None
    }
}

/// What a reply to the request `d` amounts to. A failed exchange is a
/// `HyperError`. Otherwise the status decides first; then a body that could
/// not be read is an `IOError`, one that is no JSON a `JsonError`, and any
/// other reply is a response that carries the request's configuration and
/// path.
pub open spec fn outcome(d: Descriptor, reply: Reply) -> Result<Response, KintoError> {
    match reply {
        Reply::Failed => Err(KintoError::HyperError),
        Reply::Answered { status, headers, body } => {
            if status_error(status) is Some {
                Err(status_error(status)->0)
            } else {
                match body {
                    None => Err(KintoError::IOError),
                    Some(text) => match parsed(text@) {
                        None => Err(KintoError::JsonError),
                        Some(doc) => Ok(
                            Response {
                                config: d.config,
                                path: d.path,
                                status: status,
                                headers: header_fields(headers),
                                body: doc,
                            },
                        ),
                    },
                }
            }
        },
    }
}

impl View for RequestPreparer {
    type V = Descriptor;

    open spec fn view(&self) -> Descriptor {
        Descriptor {
            config: self.config@,
            method: self.method,
            path: self.path@,
            headers: header_fields(self.headers),
            query: self.query@,
            body: body_doc(self.body),
        }
    }
}

impl Clone for RequestPreparer {
    fn clone(&self) -> (r: RequestPreparer)
        ensures
            r@ == self@,
    {
        RequestPreparer {
            config: self.config.clone(),
            method: self.method,
            path: self.path.clone(),
            headers: self.headers.clone(),
            query: self.query.clone(),
            body: match &self.body {
                Some(b) => Some(b.clone()),
                None => None,
            },
        }
    }
}

/// Base request data used by specialized request methods
impl RequestPreparer {
    /// A fresh descriptor: a `GET` of `path`, without headers, query or body.
    pub open spec fn new_spec(config: ConfigView, path: Seq<char>) -> Descriptor {
        Descriptor {
            config: config,
            method: Method::Get,
            path: path,
            headers: Seq::empty(),
            query: Seq::empty(),
            body: None,
        }
    }

    /// A fresh descriptor for `path`.
    pub fn new(config: KintoConfig, path: String) -> (p: RequestPreparer)
        ensures
            p@ == RequestPreparer::new_spec(config@, path@),
    {
        RequestPreparer {
            config: config,
            method: Method::Get,
            path: path,
            headers: headers_new(),
            query: String::new(),
            body: None,
        }
    }

    /// Sets the header `name` to the text `value`.
    pub fn set_header(&mut self, name: &str, value: &str)
        ensures
            final(self)@ == old(self)@.with_header(name@, value@),
    {
        let mut values: Vec<Vec<u8>> = Vec::new();
        values.push(value.as_bytes_vec());
        assert(crate::headers::raw_view(values@) =~= seq![encode_utf8(value@)]);
        headers_set_raw(&mut self.headers, name.to_owned(), values);
    }

    /// The request as it goes on the wire. The only error is `JsonError`,
    /// where the body cannot be printed.
    pub fn outgoing(&self) -> (r: Result<WireRequest, KintoError>)
        ensures
            match self@.payload() {
                Some(payload) => r is Ok && r->Ok_0@ == (Wire {
                    method: self@.method,
                    url: self@.url(),
                    headers: self@.sent_headers(),
                    payload: payload,
                }),
                None => r == Err::<WireRequest, KintoError>(KintoError::JsonError),
            },
    {
        let mut url = self.config.server_url.clone();
        url.append(self.path.as_str());
        if !self.query.as_str().is_empty() {
            url.append("?");
            url.append(self.query.as_str());
        }
        let mut headers = self.headers.clone();
        match &self.config.auth {
            Some(auth) => {
                let password = match &auth.password {
                    Some(p) => Some(p.clone()),
                    None => None,
                };
                headers_set_basic(&mut headers, auth.username.clone(), password);
            },
            None => {},
        }
        let payload = match &self.body {
            Some(body) => match body.render() {
                Ok(text) => text,
                Err(e) => {
                    return Err(e);
                },
            },
            None => String::new(),
        };
        let wire = WireRequest {
            method: self.method,
            url: url,
            headers: headers,
            payload: payload,
        };
        Ok(wire)
    }

    /// What the reply to this request amounts to: the response, or the error
    /// that the reply stands for.
    pub fn receive(&self, reply: Reply) -> (r: Result<ResponseWrapper, KintoError>)
        ensures
            match outcome(self@, reply) {
                Ok(response) => r is Ok && r->Ok_0@ == response,
                Err(e) => r == Err::<ResponseWrapper, KintoError>(e),
            },
    {
        match reply {
            Reply::Failed => Err(KintoError::HyperError),
            Reply::Answered { status, headers, body } => {
                if status == 304 {
                    return Err(KintoError::NotModified);
                }
                if status == 412 {
                    return Err(KintoError::PreconditionError);
                }
                if status < 200 || status > 299 {
                    return Err(KintoError::HyperError);
                }
                let text = match body {
                    Some(text) => text,
                    None => {
                        return Err(KintoError::IOError);
                    },
                };
                let doc = match Json::parse(text.as_str()) {
                    Ok(doc) => doc,
                    Err(e) => {
                        return Err(e);
                    },
                };
                Ok(
                    ResponseWrapper {
                        config: self.config.clone(),
                        path: self.path.clone(),
                        status: status,
                        headers: headers,
                        body: doc,
                    },
                )
            },
        }
    }
}

/// Base trait with options shared with all kinto requests
pub trait KintoRequest: Sized {
    /// The descriptor that `preparer` hands out: the request as it is sent.
    spec fn ready(&self) -> Descriptor;

    /// Whether `after` is this request with `d` put in the place of its
    /// descriptor.
    spec fn stores(&self, after: &Self, d: Descriptor) -> bool;

    /// The descriptor of the request, to read or to change.
    fn preparer(&mut self) -> (p: &mut RequestPreparer)
        ensures
            p@ == old(self).ready(),
            old(self).stores(final(self), final(p)@),
    ;

    /// Set If-Match header.
    fn if_match(self, if_match: IfMatch) -> (r: Self)
        ensures
            self.stores(&r, self.ready().with_header("If-Match"@, if_match.text())),
    {
        let mut this = self;
        let p = this.preparer();
        let value = if_match.write();
        p.set_header("If-Match", value.as_str());
        this
    }

    /// Set If-None-Match header.
    fn if_none_match(self, if_match: IfNoneMatch) -> (r: Self)
        ensures
            self.stores(&r, self.ready().with_header("If-None-Match"@, if_match.text())),
    {
        let mut this = self;
        let p = this.preparer();
        let value = if_match.write();
        p.set_header("If-None-Match", value.as_str());
        this
    }

    /// The request as it goes on the wire; the descriptor stays as it was
    /// handed out. The only error is `JsonError`, where the body cannot be
    /// printed.
    fn outgoing(&mut self) -> (r: Result<WireRequest, KintoError>)
        ensures
            old(self).stores(final(self), old(self).ready()),
            match old(self).ready().payload() {
                Some(payload) => r is Ok && r->Ok_0@ == (Wire {
                    method: old(self).ready().method,
                    url: old(self).ready().url(),
                    headers: old(self).ready().sent_headers(),
                    payload: payload,
                }),
                None => r == Err::<WireRequest, KintoError>(KintoError::JsonError),
            },
    {
        let p = self.preparer();
        RequestPreparer::outgoing(p)
    }

    /// What the reply to this request amounts to; the descriptor stays as it
    /// was handed out.
    fn receive(&mut self, reply: Reply) -> (r: Result<ResponseWrapper, KintoError>)
        ensures
            old(self).stores(final(self), old(self).ready()),
            match outcome(old(self).ready(), reply) {
                Ok(response) => r is Ok && r->Ok_0@ == response,
                Err(e) => r == Err::<ResponseWrapper, KintoError>(e),
            },
    {
        let p = self.preparer();
        RequestPreparer::receive(p, reply)
    }
}

impl KintoRequest for RequestPreparer {
    open spec fn ready(&self) -> Descriptor {
        self@
    }

    open spec fn stores(&self, after: &Self, d: Descriptor) -> bool {
        after@ == d
    }

    fn preparer(&mut self) -> (p: &mut RequestPreparer) {
        self
    }
}

impl PayloadedEndpoint for RequestPreparer {

}

impl PluralEndpoint for RequestPreparer {

}

/// Implement methods used on payloded requests (POST, PUT, PATCH).
pub trait PayloadedEndpoint: KintoRequest {
    /// Sets the body, and declares it as JSON.
    fn body(self, body: Option<Json>) -> (r: Self)
        ensures
            self.stores(&r, self.ready().with_body(body_doc(body))),
    {
        let mut this = self;
        let p = this.preparer();
        p.set_header("Content-Type", "application/json");
        p.body = body;
        this
    }
}

/// Implement methods used on plural endpoints (e.g. filters and pagination)
pub trait PluralEndpoint: KintoRequest {
    /// Adds a page size to the query.
    fn limit(self, limit: i32) -> (r: Self)
        ensures
            self.stores(&r, self.ready().with_limit(limit as int)),
    {
        let mut this = self;
        let p = this.preparer();
        p.query.append("&_limit=");
        if limit < 0 {
            p.query.append("-");
            let size: i64 = -(limit as i64);
            push_decimal(&mut p.query, size as u64);
        } else {
            push_decimal(&mut p.query, limit as u64);
        }
        assert(p.query@ =~= self.ready().query + "&_limit="@ + signed_decimal(limit as int)) by {
            reveal_strlit("-");
        }
        this
    }
}

/// Get request on plural endpoints.
#[derive(Debug, Clone)]
pub struct GetCollection {
    pub preparer: RequestPreparer,
}

impl GetCollection {
    /// A `GET` of `path`.
    pub fn new(config: KintoConfig, path: String) -> (r: GetCollection)
        ensures
            r.preparer@ == (Descriptor {
                method: Method::Get,
                ..RequestPreparer::new_spec(config@, path@)
            }),
    {
        let mut preparer = RequestPreparer::new(config, path);
        preparer.method = Method::Get;
        GetCollection { preparer: preparer }
    }
}

impl KintoRequest for GetCollection {
    open spec fn ready(&self) -> Descriptor {
        self.preparer@
    }

    open spec fn stores(&self, after: &Self, d: Descriptor) -> bool {
        after.preparer@ == d
    }

    fn preparer(&mut self) -> (p: &mut RequestPreparer) {
        &mut self.preparer
    }
}

impl PluralEndpoint for GetCollection {

}

/// Delete request on plural endpoints.
#[derive(Debug, Clone)]
pub struct DeleteCollection {
    pub preparer: RequestPreparer,
}

impl DeleteCollection {
    /// A `DELETE` of `path`.
    pub fn new(config: KintoConfig, path: String) -> (r: DeleteCollection)
        ensures
            r.preparer@ == (Descriptor {
                method: Method::Delete,
                ..RequestPreparer::new_spec(config@, path@)
            }),
    {
        let mut preparer = RequestPreparer::new(config, path);
        preparer.method = Method::Delete;
        DeleteCollection { preparer: preparer }
    }
}

impl KintoRequest for DeleteCollection {
    open spec fn ready(&self) -> Descriptor {
        self.preparer@
    }

    open spec fn stores(&self, after: &Self, d: Descriptor) -> bool {
        after.preparer@ == d
    }

    fn preparer(&mut self) -> (p: &mut RequestPreparer) {
        &mut self.preparer
    }
}

impl PluralEndpoint for DeleteCollection {

}

/// Create request on plural endpoints.
#[derive(Debug, Clone)]
pub struct CreateRecord {
    pub preparer: RequestPreparer,
}

impl CreateRecord {
    /// A `POST` of `path`.
    pub fn new(config: KintoConfig, path: String) -> (r: CreateRecord)
        ensures
            r.preparer@ == (Descriptor {
                method: Method::Post,
                ..RequestPreparer::new_spec(config@, path@)
            }),
    {
        let mut preparer = RequestPreparer::new(config, path);
        preparer.method = Method::Post;
        CreateRecord { preparer: preparer }
    }
}

impl KintoRequest for CreateRecord {
    open spec fn ready(&self) -> Descriptor {
        self.preparer@
    }

    open spec fn stores(&self, after: &Self, d: Descriptor) -> bool {
        after.preparer@ == d
    }

    fn preparer(&mut self) -> (p: &mut RequestPreparer) {
        &mut self.preparer
    }
}

impl PayloadedEndpoint for CreateRecord {

}

/// Get request on single endpoints.
#[derive(Debug, Clone)]
pub struct GetRecord {
    pub preparer: RequestPreparer,
}

impl GetRecord {
    /// A `GET` of `path`.
    pub fn new(config: KintoConfig, path: String) -> (r: GetRecord)
        ensures
            r.preparer@ == (Descriptor {
                method: Method::Get,
                ..RequestPreparer::new_spec(config@, path@)
            }),
    {
        let mut preparer = RequestPreparer::new(config, path);
        preparer.method = Method::Get;
        GetRecord { preparer: preparer }
    }
}

impl KintoRequest for GetRecord {
    open spec fn ready(&self) -> Descriptor {
        self.preparer@
    }

    open spec fn stores(&self, after: &Self, d: Descriptor) -> bool {
        after.preparer@ == d
    }

    fn preparer(&mut self) -> (p: &mut RequestPreparer) {
        &mut self.preparer
    }
}

/// Update request on single endpoints.
#[derive(Debug, Clone)]
pub struct UpdateRecord {
    pub preparer: RequestPreparer,
}

impl UpdateRecord {
    /// A `PUT` of `path`.
    pub fn new(config: KintoConfig, path: String) -> (r: UpdateRecord)
        ensures
            r.preparer@ == (Descriptor {
                method: Method::Put,
                ..RequestPreparer::new_spec(config@, path@)
            }),
    {
        let mut preparer = RequestPreparer::new(config, path);
        preparer.method = Method::Put;
        UpdateRecord { preparer: preparer }
    }
}

impl KintoRequest for UpdateRecord {
    open spec fn ready(&self) -> Descriptor {
        self.preparer@
    }

    open spec fn stores(&self, after: &Self, d: Descriptor) -> bool {
        after.preparer@ == d
    }

    fn preparer(&mut self) -> (p: &mut RequestPreparer) {
        &mut self.preparer
    }
}

impl PayloadedEndpoint for UpdateRecord {

}

/// Patch request on single endpoints.
#[derive(Debug, Clone)]
pub struct PatchRecord {
    pub preparer: RequestPreparer,
}

impl PatchRecord {
    /// A `PATCH` of `path`.
    pub fn new(config: KintoConfig, path: String) -> (r: PatchRecord)
        ensures
            r.preparer@ == (Descriptor {
                method: Method::Patch,
                ..RequestPreparer::new_spec(config@, path@)
            }),
    {
        let mut preparer = RequestPreparer::new(config, path);
        preparer.method = Method::Patch;
        PatchRecord { preparer: preparer }
    }
}

impl KintoRequest for PatchRecord {
    open spec fn ready(&self) -> Descriptor {
        self.preparer@
    }

    open spec fn stores(&self, after: &Self, d: Descriptor) -> bool {
        after.preparer@ == d
    }

    fn preparer(&mut self) -> (p: &mut RequestPreparer) {
        &mut self.preparer
    }
}

impl PayloadedEndpoint for PatchRecord {

}

/// Delete request on single endpoints.
#[derive(Debug, Clone)]
pub struct DeleteRecord {
    pub preparer: RequestPreparer,
}

impl DeleteRecord {
    /// A `DELETE` of `path`.
    pub fn new(config: KintoConfig, path: String) -> (r: DeleteRecord)
        ensures
            r.preparer@ == (Descriptor {
                method: Method::Delete,
                ..RequestPreparer::new_spec(config@, path@)
            }),
    {
        let mut preparer = RequestPreparer::new(config, path);
        preparer.method = Method::Delete;
        DeleteRecord { preparer: preparer }
    }
}

impl KintoRequest for DeleteRecord {
    open spec fn ready(&self) -> Descriptor {
        self.preparer@
    }

    open spec fn stores(&self, after: &Self, d: Descriptor) -> bool {
        after.preparer@ == d
    }

    fn preparer(&mut self) -> (p: &mut RequestPreparer) {
        &mut self.preparer
    }
}

} // verus!
