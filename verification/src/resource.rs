//! The protocol that buckets, collections and records share: how each
//! operation on a resource becomes one conditional exchange, and how the
//! server's answer becomes the resource again.

use crate::client::{ConfigView, KintoConfig};
use crate::error::KintoError;
use crate::json::{Doc, Json};
use crate::headers::{find_field, lemma_put_keeps, lemma_put_then_find};
use crate::request::{
    body_doc, outcome, CreateRecord, DeleteCollection, DeleteRecord, Descriptor, GetCollection,
    GetRecord, IfMatch, IfNoneMatch, KintoRequest, Method, PayloadedEndpoint, Reply,
    RequestPreparer, UpdateRecord,
};
use crate::response::{Response, ResponseWrapper};
use crate::text::decimal;
use crate::utils::timestamp_to_etag;
use vstd::prelude::*;
use vstd::string::StringExecFns;
use vstd::utf8::encode_utf8;

verus! {

/// The identifier in effect: the explicit one if there is one, else the text
/// under `id` in the document, else none.
pub open spec fn effective_id(own: Option<Seq<char>>, data: Option<Doc>) -> Option<Seq<char>> {
    match own {
        Some(id) => Some(id),
        None => match data {
            Some(doc) => doc.field("id"@).as_text(),
            None => None,
        },
    }
}

/// The version of a document: the number under `last_modified`.
pub open spec fn version_of(data: Option<Doc>) -> Option<u64> {
    match data {
        Some(doc) => doc.field("last_modified"@).as_u64(),
        None => None,
    }
}

/// The path of one resource: the path of its kind, a slash and the
/// identifier. Without an identifier there is none.
pub open spec fn single_path(path: Result<Seq<char>, KintoError>, id: Option<Seq<char>>) -> Result<
    Seq<char>,
    KintoError,
> {
    match id {
        Some(id) => match path {
            Ok(path) => Ok(path + "/"@ + id),
            Err(e) => Err(e),
        },
        None => Err(KintoError::UndefinedIdError),
    }
}

/// The document that goes into the body under `data`: the resource's
/// document with the identifier in effect written into it. `Err` where the
/// identifier cannot be written because the document is neither an object
/// nor null.
pub open spec fn body_data(id: Option<Seq<char>>, data: Option<Doc>) -> Result<
    Option<Doc>,
    KintoError,
> {
    match id {
        Some(id) => match data {
            Some(doc) => match doc.put("id"@, Doc::Text(id)) {
                Some(with_id) => Ok(Some(with_id)),
                None => Err(KintoError::JsonError),
            },
            None => Ok(Some(Doc::Dict(seq![("id"@, Doc::Text(id))]))),
        },
        None => Ok(data),
    }
}

/// The members of a request body: `data` where there is a document, and
/// `permissions` where there are any.
pub open spec fn body_members(data: Option<Doc>, permissions: Option<Doc>) -> Seq<
    (Seq<char>, Doc),
> {
    let first = match data {
        Some(doc) => seq![("data"@, doc)],
        None => Seq::empty(),
    };
    match permissions {
        Some(p) => if p == Doc::Dict(Seq::empty()) {
            first
        } else {
            first.push(("permissions"@, p))
        },
        None => first,
    }
}

/// The body that a write sends for a resource.
pub open spec fn body_of(
    id: Option<Seq<char>>,
    data: Option<Doc>,
    permissions: Option<Doc>,
) -> Result<Doc, KintoError> {
    match body_data(id, data) {
        Ok(data) => Ok(Doc::Dict(body_members(data, permissions))),
        Err(e) => Err(e),
    }
}

/// The tag that an update is conditioned on: the version where one is
/// known, else any version.
pub open spec fn match_text(version: Option<u64>) -> Seq<char> {
    match version {
        Some(stamp) => "\""@ + decimal(stamp as nat) + "\""@,
        None => "*"@,
    }
}

/// A request for `path` with the given method.
pub open spec fn request_for(
    config: ConfigView,
    method: Method,
    path: Result<Seq<char>, KintoError>,
) -> Result<Descriptor, KintoError> {
    match path {
        Ok(path) => Ok(Descriptor { method: method, ..RequestPreparer::new_spec(config, path) }),
        Err(e) => Err(e),
    }
}

/// A request like `request`, carrying `body`.
pub open spec fn write_of(
    request: Result<Descriptor, KintoError>,
    body: Result<Doc, KintoError>,
) -> Result<Descriptor, KintoError> {
    match request {
        Ok(d) => match body {
            Ok(body) => Ok(d.with_body(Some(body))),
            Err(e) => Err(e),
        },
        Err(e) => Err(e),
    }
}

/// A request like `request`, with one more header.
pub open spec fn conditioned(
    request: Result<Descriptor, KintoError>,
    name: Seq<char>,
    value: Seq<char>,
) -> Result<Descriptor, KintoError> {
    match request {
        Ok(d) => Ok(d.with_header(name, value)),
        Err(e) => Err(e),
    }
}

/// Whether a planned request is the one computed.
pub open spec fn plans(
    r: Result<RequestPreparer, KintoError>,
    plan: Result<Descriptor, KintoError>,
) -> bool {
    match plan {
        Ok(d) => r is Ok && r->Ok_0@ == d,
        Err(e) => r == Err::<RequestPreparer, KintoError>(e),
    }
}

/// The characters of a path that was computed, or the error.
pub open spec fn text_result(r: Result<String, KintoError>) -> Result<Seq<char>, KintoError> {
    match r {
        Ok(s) => Ok(s@),
        Err(e) => Err(e),
    }
}

/// The document that was computed, or the error.
pub open spec fn doc_result(r: Result<Json, KintoError>) -> Result<Doc, KintoError> {
    match r {
        Ok(j) => Ok(j@),
        Err(e) => Err(e),
    }
}

/// The characters of an optional string slice.
pub open spec fn slice_text(s: Option<&str>) -> Option<Seq<char>> {
    match s {
        Some(s) => Some(s@),
        None => None,
    }
}

/// What a resource holds, as plain values.
pub ghost struct Model {
    /// The configuration that the resource's requests carry.
    pub config: ConfigView,
    /// The explicit identifier.
    pub own_id: Option<Seq<char>>,
    /// The document.
    pub data: Option<Doc>,
    /// The permissions, as the document that a write sends.
    pub permissions: Option<Doc>,
    /// The path of the resource's kind under its parent, or the error that
    /// stands in its way.
    pub path: Result<Seq<char>, KintoError>,
}

/// Implement a Kinto core object endpoint.
pub trait Resource: Sized {
    /// What the resource holds.
    spec fn model(&self) -> Model;

    /// The path of the resource's kind once its ancestors have taken the
    /// identifiers `ids`.
    spec fn reparented(&self, ids: Map<Seq<char>, Option<Seq<char>>>) -> Result<
        Seq<char>,
        KintoError,
    >;

    /// The permissions that the resource keeps when it reads `permissions`
    /// from a response, as the document that a write sends; `None` where
    /// they do not have the shape of permissions.
    spec fn reads(permissions: Doc) -> Option<Doc>;

    /// Get the path for the resource.
    fn resource_path(&self) -> (r: Result<String, KintoError>)
        ensures
            text_result(r) == self.model().path,
    ;

    /// Get the record path for the resource.
    fn record_path(&self) -> (r: Result<String, KintoError>)
        ensures
            text_result(r) == single_path(self.model().path, id_of(self.model())),
    {
        match self.get_id() {
            Some(id) => match self.resource_path() {
                Ok(path) => {
                    let mut path = path;
                    path.append("/");
                    path.append(id);
                    Ok(path)
                },
                Err(e) => Err(e),
            },
            None => Err(KintoError::UndefinedIdError),
        }
    }

    /// Unwrap a request response and update the current object.
    fn unwrap_response(&mut self, wrapper: ResponseWrapper) -> (r: Result<(), KintoError>)
        ensures
            unwrapped(
                old(self).model(),
                old(self).reparented(crate::utils::path_ids(wrapper@.path)),
                Self::reads(wrapper@.body.field("permissions"@)),
                wrapper@,
                final(self).model(),
                r,
            ),
    ;

    /// Get the config for the given resource.
    fn get_config(&self) -> (config: KintoConfig)
        ensures
            config@ == self.model().config,
    ;

    /// Get the record data.
    fn get_data(&self) -> (data: Option<Json>)
        ensures
            body_doc(data) == self.model().data,
    ;

    /// Sets the document, and returns the resource as it then is.
    fn set_data(&mut self, data: Json) -> (r: Self)
        ensures
            final(self).model() == (Model { data: Some(data@), ..old(self).model() }),
            r.model() == final(self).model(),
    ;

    /// Get the record permissions.
    fn get_permissions(&self) -> (permissions: Option<Json>)
        ensures
            body_doc(permissions) == self.model().permissions,
    ;

    /// Return the object unique id.
    fn get_id(&self) -> (id: Option<&str>)
        ensures
            slice_text(id) == id_of(self.model()),
    ;

    /// Return the object version timestamp.
    fn get_timestamp(&self) -> (stamp: Option<u64>)
        ensures
            stamp == version_of(self.model().data),
    ;

    /// The body that a write sends: the document with the identifier in
    /// effect under `data`, and the permissions, unless there are none,
    /// under `permissions`.
    fn get_body(&self) -> (r: Result<Json, KintoError>)
        ensures
            doc_result(r) == body_plan(self.model()),
    {
        let data = match self.get_id() {
            Some(id) => {
                let mut data = match self.get_data() {
                    Some(data) => data,
                    None => Json::Null,
                };
                if !data.set("id", Json::text(id)) {
                    return Err(KintoError::JsonError);
                }
                Some(data)
            },
            None => self.get_data(),
        };
        let mut members: Vec<(String, Json)> = Vec::new();
        match data {
            Some(data) => {
                members.push(("data".to_owned(), data));
            },
            None => {},
        }
        match self.get_permissions() {
            Some(permissions) => {
                if !is_empty_object(&permissions) {
                    members.push(("permissions".to_owned(), permissions));
                }
            },
            None => {},
        }
        let body = Json::Object(members);
        assert(body@->Dict_0 =~= body_members(
            body_data(id_of(self.model()), self.model().data)->Ok_0,
            self.model().permissions,
        ));
        Ok(body)
    }

    /// create a custom load (GET) request for the endpoint.
    fn load_request(&self) -> (r: Result<GetRecord, KintoError>)
        ensures
            match load_plan(self.model()) {
                Ok(d) => r is Ok && r->Ok_0.preparer@ == d,
                Err(e) => r == Err::<GetRecord, KintoError>(e),
            },
    {
        match self.record_path() {
            Ok(path) => Ok(GetRecord::new(self.get_config(), path)),
            Err(e) => Err(e),
        }
    }

    /// create a custom create (POST) request for the endpoint.
    fn create_request(&self) -> (r: Result<CreateRecord, KintoError>)
        ensures
            match request_for(self.model().config, Method::Post, self.model().path) {
                Ok(d) => r is Ok && r->Ok_0.preparer@ == d,
                Err(e) => r == Err::<CreateRecord, KintoError>(e),
            },
    {
        match self.resource_path() {
            Ok(path) => Ok(CreateRecord::new(self.get_config(), path)),
            Err(e) => Err(e),
        }
    }

    /// Create a custom update (PUT) request for the endpoint.
    fn update_request(&self) -> (r: Result<UpdateRecord, KintoError>)
        ensures
            match request_for(
                self.model().config,
                Method::Put,
                single_path(self.model().path, id_of(self.model())),
            ) {
                Ok(d) => r is Ok && r->Ok_0.preparer@ == d,
                Err(e) => r == Err::<UpdateRecord, KintoError>(e),
            },
    {
        match self.record_path() {
            Ok(path) => Ok(UpdateRecord::new(self.get_config(), path)),
            Err(e) => Err(e),
        }
    }

    /// Create a custom delete request for the endpoint.
    fn delete_request(&self) -> (r: Result<DeleteRecord, KintoError>)
        ensures
            match delete_plan(self.model()) {
                Ok(d) => r is Ok && r->Ok_0.preparer@ == d,
                Err(e) => r == Err::<DeleteRecord, KintoError>(e),
            },
    {
        match self.record_path() {
            Ok(path) => Ok(DeleteRecord::new(self.get_config(), path)),
            Err(e) => Err(e),
        }
    }

    /// Create a custom list collections request.
    fn list_request(&self) -> (r: Result<GetCollection, KintoError>)
        ensures
            match request_for(self.model().config, Method::Get, self.model().path) {
                Ok(d) => r is Ok && r->Ok_0.preparer@ == d,
                Err(e) => r == Err::<GetCollection, KintoError>(e),
            },
    {
        match self.resource_path() {
            Ok(path) => Ok(GetCollection::new(self.get_config(), path)),
            Err(e) => Err(e),
        }
    }

    /// Create a custom delete collections request.
    fn delete_all_request(&self) -> (r: Result<DeleteCollection, KintoError>)
        ensures
            match request_for(self.model().config, Method::Delete, self.model().path) {
                Ok(d) => r is Ok && r->Ok_0.preparer@ == d,
                Err(e) => r == Err::<DeleteCollection, KintoError>(e),
            },
    {
        match self.resource_path() {
            Ok(path) => Ok(DeleteCollection::new(self.get_config(), path)),
            Err(e) => Err(e),
        }
    }

    /// The exchange that loads the resource: an unconditioned `GET` of its
    /// own path.
    fn load(&self) -> (r: Result<RequestPreparer, KintoError>)
        ensures
            plans(r, load_plan(self.model())),
    {
        match self.load_request() {
            Ok(request) => Ok(request.preparer),
            Err(e) => Err(e),
        }
    }

    /// The exchange that sets the resource on the server: the one of
    /// `create` where no identifier is in effect, else an unconditioned `PUT`
    /// of the body to the resource's own path.
    fn set(&self) -> (r: Result<RequestPreparer, KintoError>)
        ensures
            plans(r, set_plan(self.model())),
    {
        if self.get_id().is_none() {
            return self.create();
        }
        let request = match self.update_request() {
            Ok(request) => request,
            Err(e) => {
                return Err(e);
            },
        };
        let body = match self.get_body() {
            Ok(body) => body,
            Err(e) => {
                return Err(e);
            },
        };
        Ok(request.body(Some(body)).preparer)
    }

    /// The exchange that creates the resource: a `POST` of the body to the
    /// path of its kind, on the condition that nothing exists there yet.
    fn create(&self) -> (r: Result<RequestPreparer, KintoError>)
        ensures
            plans(r, create_plan(self.model())),
    {
        let request = match self.create_request() {
            Ok(request) => request,
            Err(e) => {
                return Err(e);
            },
        };
        let body = match self.get_body() {
            Ok(body) => body,
            Err(e) => {
                return Err(e);
            },
        };
        Ok(request.body(Some(body)).if_none_match(IfNoneMatch::Any).preparer)
    }

    /// The exchange that updates the resource: a `PUT` of the body to the
    /// resource's own path, on the condition that the server holds the
    /// version known here or, where none is known, any version.
    fn update(&self) -> (r: Result<RequestPreparer, KintoError>)
        ensures
            plans(r, update_plan(self.model())),
    {
        let if_match = match self.get_timestamp() {
            Some(stamp) => IfMatch::Items(timestamp_to_etag(stamp)),
            None => IfMatch::Any,
        };
        let request = match self.update_request() {
            Ok(request) => request,
            Err(e) => {
                return Err(e);
            },
        };
        let body = match self.get_body() {
            Ok(body) => body,
            Err(e) => {
                return Err(e);
            },
        };
        Ok(request.body(Some(body)).if_match(if_match).preparer)
    }

    /// The exchange that deletes the resource: an unconditioned `DELETE` of
    /// its own path.
    fn delete(&self) -> (r: Result<RequestPreparer, KintoError>)
        ensures
            plans(r, delete_plan(self.model())),
    {
        match self.delete_request() {
            Ok(request) => Ok(request.preparer),
            Err(e) => Err(e),
        }
    }

    /// Ends an operation with what came of its exchange: a response is
    /// unwrapped into the resource, an error is handed on and leaves the
    /// resource as it was.
    fn complete(&mut self, outcome: Result<ResponseWrapper, KintoError>) -> (r: Result<
        (),
        KintoError,
    >)
        ensures
            match outcome {
                Ok(wrapper) => unwrapped(
                    old(self).model(),
                    old(self).reparented(crate::utils::path_ids(wrapper@.path)),
                    Self::reads(wrapper@.body.field("permissions"@)),
                    wrapper@,
                    final(self).model(),
                    r,
                ),
                Err(e) => r == Err::<(), KintoError>(e) && final(self).model() == old(
                    self,
                ).model(),
            },
    {
        match outcome {
            Ok(wrapper) => self.unwrap_response(wrapper),
            Err(e) => Err(e),
        }
    }
}

/// The identifier of a resource that is in effect.
pub open spec fn id_of(m: Model) -> Option<Seq<char>> {
    effective_id(m.own_id, m.data)
}

/// What `unwrap_response` makes of a response, given the path that the
/// resource's kind has once its ancestors have taken the identifiers in the
/// response's path, and the permissions read from the body. Where the body
/// holds an identifier under `data` and permissions of the right shape, the
/// resource takes the document under `data`, that identifier and those
/// permissions. Else the result is a `JsonError` and the resource is as
/// before.
pub open spec fn unwrapped(
    before: Model,
    path: Result<Seq<char>, KintoError>,
    permissions: Option<Doc>,
    wrapper: Response,
    after: Model,
    r: Result<(), KintoError>,
) -> bool {
    let data = wrapper.body.field("data"@);
    let id = data.field("id"@).as_text();
    if id is Some && permissions is Some {
        &&& r is Ok
        &&& after == (Model {
            config: before.config,
            own_id: id,
            data: Some(data),
            permissions: permissions,
            path: path,
        })
    } else {
        &&& r == Err::<(), KintoError>(KintoError::JsonError)
        &&& after == before
    }
}

/// The exchange of `load`.
pub open spec fn load_plan(m: Model) -> Result<Descriptor, KintoError> {
    request_for(m.config, Method::Get, single_path(m.path, id_of(m)))
}

/// The exchange of `delete`.
pub open spec fn delete_plan(m: Model) -> Result<Descriptor, KintoError> {
    request_for(m.config, Method::Delete, single_path(m.path, id_of(m)))
}

/// The body that a write of the resource sends.
pub open spec fn body_plan(m: Model) -> Result<Doc, KintoError> {
    body_of(id_of(m), m.data, m.permissions)
}

/// The exchange of `create`.
pub open spec fn create_plan(m: Model) -> Result<Descriptor, KintoError> {
    conditioned(
        write_of(request_for(m.config, Method::Post, m.path), body_plan(m)),
        "If-None-Match"@,
        "*"@,
    )
}

/// The exchange of `update`.
pub open spec fn update_plan(m: Model) -> Result<Descriptor, KintoError> {
    conditioned(
        write_of(request_for(m.config, Method::Put, single_path(m.path, id_of(m))), body_plan(m)),
        "If-Match"@,
        match_text(version_of(m.data)),
    )
}

/// The exchange of `set`.
pub open spec fn set_plan(m: Model) -> Result<Descriptor, KintoError> {
    if id_of(m) is None {
        create_plan(m)
    } else {
        write_of(request_for(m.config, Method::Put, single_path(m.path, id_of(m))), body_plan(m))
    }
}

/// Creating is conditioned on nothing being there: whatever the resource,
/// the exchange of `create` carries `If-None-Match: *`, so that a server
/// that holds the identifier refuses it; and a refusal, status 412, is a
/// `PreconditionError` whatever else the reply holds.
pub proof fn lemma_create_guarded(
    m: Model,
    headers: hyper::header::Headers,
    body: Option<String>,
)
    ensures
        create_plan(m) matches Ok(d) ==> {
            &&& find_field(d.headers, "If-None-Match"@) == Some(seq![encode_utf8("*"@)])
            &&& find_field(d.headers, "Content-Type"@) == Some(
                seq![encode_utf8("application/json"@)],
            )
            &&& outcome(d, Reply::Answered { status: 412, headers: headers, body: body })
                == Err::<Response, KintoError>(KintoError::PreconditionError)
        },
{
    if create_plan(m) is Ok {
        let written = write_of(request_for(m.config, Method::Post, m.path), body_plan(m))->Ok_0;
        lemma_put_then_find(written.headers, "If-None-Match"@, seq![encode_utf8("*"@)]);
        lemma_put_then_find(
            Seq::empty(),
            "Content-Type"@,
            seq![encode_utf8("application/json"@)],
        );
        reveal_strlit("If-None-Match");
        reveal_strlit("Content-Type");
        lemma_put_keeps(
            written.headers,
            "If-None-Match"@,
            seq![encode_utf8("*"@)],
            "Content-Type"@,
        );
    }
}

/// Updating is conditioned on the resource being there: whatever the
/// resource, the exchange of `update` carries `If-Match`, with the version
/// known or a star, so that a server that does not hold the identifier, or
/// holds another version, refuses it; and a refusal, status 412, is a
/// `PreconditionError` whatever else the reply holds.
pub proof fn lemma_update_guarded(
    m: Model,
    headers: hyper::header::Headers,
    body: Option<String>,
)
    ensures
        update_plan(m) matches Ok(d) ==> {
            &&& find_field(d.headers, "If-Match"@) == Some(
                seq![encode_utf8(match_text(version_of(m.data)))],
            )
            &&& find_field(d.headers, "Content-Type"@) == Some(
                seq![encode_utf8("application/json"@)],
            )
            &&& outcome(d, Reply::Answered { status: 412, headers: headers, body: body })
                == Err::<Response, KintoError>(KintoError::PreconditionError)
        },
{
    if update_plan(m) is Ok {
        let written = write_of(
            request_for(m.config, Method::Put, single_path(m.path, id_of(m))),
            body_plan(m),
        )->Ok_0;
        lemma_put_then_find(
            written.headers,
            "If-Match"@,
            seq![encode_utf8(match_text(version_of(m.data)))],
        );
        lemma_put_then_find(
            Seq::empty(),
            "Content-Type"@,
            seq![encode_utf8("application/json"@)],
        );
        reveal_strlit("If-Match");
        reveal_strlit("Content-Type");
        lemma_put_keeps(
            written.headers,
            "If-Match"@,
            seq![encode_utf8(match_text(version_of(m.data)))],
            "Content-Type"@,
        );
    }
}

/// Without an identifier, `set` is `create`: the same exchange, and so,
/// through `complete`, the same result.
pub proof fn lemma_set_without_id(m: Model)
    requires
        id_of(m) is None,
    ensures
        set_plan(m) == create_plan(m),
{
}

/// Whether a document is the object without members.
pub fn is_empty_object(doc: &Json) -> (r: bool)
    ensures
        r == (doc@ == Doc::Dict(Seq::empty())),
{
    match doc {
        Json::Object(members) => {
            if members.len() == 0 {
                assert(doc@->Dict_0 =~= Seq::empty());
                true
            } else {
                assert(doc@->Dict_0.len() > 0);
                false
            }
        },
        _ => false,
    }
}

} // verus!
