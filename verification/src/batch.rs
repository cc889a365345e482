//! Batches: several requests sent as one, and the one response taken apart
//! again.

use crate::client::{ConfigView, KintoConfig};
use crate::error::KintoError;
use crate::headers::{
    entries_view, header_fields, header_line, headers_entries, headers_new, print_field, Field,
};
use crate::json::{Doc, Json};
use crate::paths::{batch_path, Paths};
use crate::request::{Descriptor, KintoRequest, Method, RequestPreparer};
use crate::response::{Response, ResponseWrapper};
use crate::utils::{strip_version, without_version};
use hyper::header::Headers;
use vstd::prelude::*;

verus! {

/// Several requests that go to the server as one.
#[derive(Debug, Clone)]
pub struct BatchRequest {
    pub preparer: RequestPreparer,
    pub requests: Vec<RequestPreparer>,
}

/// What each of a list of requests holds.
pub open spec fn descriptors(requests: Seq<RequestPreparer>) -> Seq<Descriptor> {
    Seq::new(requests.len(), |i: int| requests[i]@)
}

/// The headers of a request as members of an object: each field that hyper
/// can print, under its name, as the text that hyper prints for it. A field
/// that it cannot print is left out.
pub open spec fn header_members(fields: Seq<Field>) -> Seq<(Seq<char>, Doc)>
    decreases fields.len(),
{
    if fields.len() == 0 {
        Seq::empty()
    } else {
        let before = header_members(fields.drop_last());
        match header_line(fields.last().0, fields.last().1) {
            Some(line) => before.push((fields.last().0, Doc::Text(line))),
            None => before,
        }
    }
}

/// One request as an entry of a batch: its method, its path, its body (the
/// empty object where it has none) and its headers.
pub open spec fn entry_doc(d: Descriptor) -> Doc {
    Doc::Dict(
        seq![
            ("method"@, Doc::Text(d.method.name())),
            ("path"@, Doc::Text(d.path)),
            (
                "body"@,
                match d.body {
                    Some(body) => body,
                    None => Doc::Dict(Seq::empty()),
                },
            ),
            ("headers"@, Doc::Dict(header_members(d.headers))),
        ],
    )
}

/// The entries of a list of requests, in the order of the requests.
pub open spec fn entry_docs(requests: Seq<Descriptor>) -> Seq<Doc> {
    Seq::new(requests.len(), |i: int| entry_doc(requests[i]))
}

/// The body of a batch: the entries of its requests under `requests`.
pub open spec fn batch_body(requests: Seq<Descriptor>) -> Doc {
    Doc::Dict(seq![("requests"@, Doc::List(entry_docs(requests)))])
}

/// The headers of a request as an object.
fn headers_json(headers: &Headers) -> (j: Json)
    ensures
        j@ == Doc::Dict(header_members(header_fields(*headers))),
{
    let mut entries = headers_entries(headers);
    let ghost fields = header_fields(*headers);
    let total = entries.len();
    let mut back: Vec<(String, Vec<Vec<u8>>)> = Vec::new();
    while entries.len() > 0
        invariant
            entries@.len() + back@.len() == total,
            total == fields.len(),
            forall|k: int| 0 <= k < entries@.len() ==> entries_view(entries@)[k] == fields[k],
            forall|k: int|
                0 <= k < back@.len() ==> entries_view(back@)[k] == fields[total - 1 - k],
        decreases entries@.len(),
    {
        let ghost before_back = back@;
        let entry = entries.pop().unwrap();
        back.push(entry);
        assert forall|k: int| 0 <= k < back@.len() implies entries_view(back@)[k] == fields[total
            - 1 - k] by {
            if k < before_back.len() {
                assert(entries_view(before_back)[k] == fields[total - 1 - k]);
            }
        }
    }
    let mut members: Vec<(String, Json)> = Vec::new();
    let mut done: usize = 0;
    while back.len() > 0
        invariant
            done + back@.len() == total,
            total == fields.len(),
            forall|k: int|
                0 <= k < back@.len() ==> entries_view(back@)[k] == fields[total - 1 - k],
            Json::member_docs(members@) == header_members(fields.take(done as int)),
        decreases back@.len(),
    {
        let ghost before_back = back@;
        let (name, values) = back.pop().unwrap();
        proof {
            assert(entries_view(before_back)[before_back.len() - 1] == fields[done as int]);
            assert forall|k: int| 0 <= k < back@.len() implies entries_view(back@)[k]
                == fields[total - 1 - k] by {
                assert(entries_view(before_back)[k] == fields[total - 1 - k]);
            }
            let taken = fields.take(done + 1);
            assert(taken.drop_last() =~= fields.take(done as int));
        }
        match print_field(name.clone(), values) {
            Some(line) => {
                members.push((name, Json::Text(line)));
            },
            None => {},
        }
        done += 1;
    }
    assert(fields.take(total as int) =~= fields);
    Json::Object(members)
}

/// One request as an entry of a batch.
fn entry_json(request: &RequestPreparer) -> (j: Json)
    ensures
        j@ == entry_doc(request@),
{
    let mut members: Vec<(String, Json)> = Vec::new();
    members.push(("method".to_owned(), Json::text(request.method.as_str())));
    members.push(("path".to_owned(), Json::text(request.path.as_str())));
    let body = match &request.body {
        Some(body) => body.clone(),
        None => Json::object(),
    };
    members.push(("body".to_owned(), body));
    members.push(("headers".to_owned(), headers_json(&request.headers)));
    let j = Json::Object(members);
    assert(j@->Dict_0 =~= entry_doc(request@)->Dict_0);
    j
}

impl BatchRequest {
    /// A batch without requests: a `POST` of JSON to the batch endpoint.
    pub fn new(config: KintoConfig) -> (batch: BatchRequest)
        ensures
            batch.preparer@ == (Descriptor {
                method: Method::Post,
                ..RequestPreparer::new_spec(config@, batch_path())
            }).with_header("Content-Type"@, "application/json"@),
            batch.requests@.len() == 0,
    {
        let mut preparer = RequestPreparer::new(config, Paths::Batch.build());
        preparer.method = Method::Post;
        preparer.set_header("Content-Type", "application/json");
        BatchRequest { preparer: preparer, requests: Vec::new() }
    }

    /// Puts a request at the end of the batch, as it would be sent.
    pub fn add_request<T>(&mut self, entry: T) where T: KintoRequest
        ensures
            final(self).preparer@ == old(self).preparer@,
            descriptors(final(self).requests@) == descriptors(old(self).requests@).push(
                entry.ready(),
            ),
    {
        let mut entry = entry;
        let p = entry.preparer();
        let request = p.clone();
        self.requests.push(request);
    }

    /// The body of the batch as it stands.
    pub fn compose(&self) -> (body: Json)
        ensures
            body@ == batch_body(descriptors(self.requests@)),
    {
        let mut entries: Vec<Json> = Vec::new();
        let mut i: usize = 0;
        while i < self.requests.len()
            invariant
                i <= self.requests.len(),
                entries@.len() == i,
                forall|k: int|
                    0 <= k < i ==> (#[trigger] entries@[k])@ == entry_doc(self.requests@[k]@),
            decreases self.requests.len() - i,
        {
            entries.push(entry_json(&self.requests[i]));
            i += 1;
        }
        let list = Json::Array(entries);
        assert(list@->List_0 =~= entry_docs(descriptors(self.requests@)));
        let mut members: Vec<(String, Json)> = Vec::new();
        members.push(("requests".to_owned(), list));
        let body = Json::Object(members);
        assert(body@->Dict_0 =~= batch_body(descriptors(self.requests@))->Dict_0);
        body
    }
}

impl KintoRequest for BatchRequest {
    open spec fn ready(&self) -> Descriptor {
        Descriptor { body: Some(batch_body(descriptors(self.requests@))), ..self.preparer@ }
    }

    open spec fn stores(&self, after: &Self, d: Descriptor) -> bool {
        &&& after.preparer@ == d
        &&& descriptors(after.requests@) == descriptors(self.requests@)
    }

    /// Composes the body from the requests as they stand, and hands out the
    /// descriptor that carries it.
    fn preparer(&mut self) -> (p: &mut RequestPreparer) {
        let body = self.compose();
        self.preparer.body = Some(body);
        &mut self.preparer
    }
}

/// The response to a batch, with the response to each of its requests.
#[derive(Debug, Clone)]
pub struct BatchResponseWrapper {
    pub config: KintoConfig,
    pub status: u16,
    pub headers: Headers,
    pub responses: Vec<ResponseWrapper>,
}

/// One entry of a batch response as a response of its own: the entry's body
/// and status, its path without the version prefix, no headers, and the
/// configuration of the batch. `None` where the entry has no body, no text
/// as path, or no status that fits 16 bits.
pub open spec fn sub_response(config: ConfigView, entry: Doc) -> Option<Response> {
    match (entry.get("body"@), entry.field("path"@).as_text(), entry.field("status"@).as_u64()) {
        (Some(body), Some(path), Some(status)) => if status <= 0xffff {
            Some(
                Response {
                    config: config,
                    path: strip_version(path),
                    status: status as u16,
                    headers: Seq::empty(),
                    body: body,
                },
            )
        } else {
            None
        },
        _ => None,
    }
}

/// Whether every entry of a batch response can be read.
pub open spec fn readable(config: ConfigView, entries: Seq<Doc>) -> bool {
    forall|i: int| 0 <= i < entries.len() ==> sub_response(config, #[trigger] entries[i]) is Some
}

/// What each of a list of responses holds.
pub open spec fn responses_view(responses: Seq<ResponseWrapper>) -> Seq<Response> {
    Seq::new(responses.len(), |i: int| responses[i]@)
}

/// Reads one entry of a batch response.
fn read_entry(config: &KintoConfig, entry: &Json) -> (r: Option<ResponseWrapper>)
    ensures
        match sub_response(config@, entry@) {
            Some(response) => r is Some && r->0@ == response,
            None => r is None,
        },
{
    let body = match entry.get("body") {
        Some(body) => body,
        None => {
            return None;
        },
    };
    let path = match entry.get("path") {
        Some(path) => match path.as_str() {
            Some(path) => path,
            None => {
                return None;
            },
        },
        None => {
            return None;
        },
    };
    let status = match entry.get("status") {
        Some(status) => match status.as_u64() {
            Some(status) => status,
            None => {
                return None;
            },
        },
        None => {
            return None;
        },
    };
    if status > 0xffff {
        return None;
    }
    Some(
        ResponseWrapper {
            config: config.clone(),
            headers: headers_new(),
            body: body.clone(),
            path: without_version(path),
            status: status as u16,
        },
    )
}

impl BatchResponseWrapper {
    /// Takes the response to a batch apart: one response for each entry
    /// under `responses`, in the order of the entries. Where the body holds
    /// no list under `responses`, or an entry cannot be read, the result is a
    /// `JsonError`.
    pub fn from(batch_wrapper: ResponseWrapper) -> (r: Result<BatchResponseWrapper, KintoError>)
        ensures
            match batch_wrapper@.body.field("responses"@).as_list() {
                Some(entries) => if readable(batch_wrapper@.config, entries) {
                    &&& r is Ok
                    &&& r->Ok_0.config@ == batch_wrapper@.config
                    &&& r->Ok_0.status == batch_wrapper@.status
                    &&& header_fields(r->Ok_0.headers) == batch_wrapper@.headers
                    &&& r->Ok_0.responses@.len() == entries.len()
                    &&& forall|i: int|
                        0 <= i < entries.len() ==> Some((#[trigger] r->Ok_0.responses@[i])@)
                            == sub_response(batch_wrapper@.config, entries[i])
                } else {
                    r is Err && r->Err_0 == KintoError::JsonError
                },
                None => r is Err && r->Err_0 == KintoError::JsonError,
            },
    {
        let mut responses: Vec<ResponseWrapper> = Vec::new();
        match batch_wrapper.body.get("responses") {
            Some(list) => match list.as_array() {
                Some(entries) => {
                    let mut i: usize = 0;
                    while i < entries.len()
                        invariant
                            i <= entries.len(),
                            batch_wrapper@.body.field("responses"@).as_list() == Some(
                                Json::docs(entries@),
                            ),
                            responses@.len() == i,
                            forall|k: int|
                                0 <= k < i ==> Some((#[trigger] responses@[k])@) == sub_response(
                                    batch_wrapper@.config,
                                    Json::docs(entries@)[k],
                                ),
                        decreases entries.len() - i,
                    {
                        match read_entry(&batch_wrapper.config, &entries[i]) {
                            Some(response) => {
                                responses.push(response);
                            },
                            None => {
                                assert(sub_response(
                                    batch_wrapper@.config,
                                    Json::docs(entries@)[i as int],
                                ) is None);
                                return Err(KintoError::JsonError);
                            },
                        }
                        i += 1;
                    }
                    assert forall|k: int| 0 <= k < entries@.len() implies sub_response(
                        batch_wrapper@.config,
                        #[trigger] Json::docs(entries@)[k],
                    ) is Some by {
                        assert(Some(responses@[k]@) == sub_response(
                            batch_wrapper@.config,
                            Json::docs(entries@)[k],
                        ));
                    }
                },
                None => {
                    return Err(KintoError::JsonError);
                },
            },
            None => {
                return Err(KintoError::JsonError);
            },
        }
        Ok(
            BatchResponseWrapper {
                config: batch_wrapper.config,
                status: batch_wrapper.status,
                headers: batch_wrapper.headers,
                responses: responses,
            },
        )
    }
}

} // verus!
