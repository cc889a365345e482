//! Following the pages of a listing: the decisions between one exchange and
//! the next. The caller sends each request that the follower asks for and
//! hands back the response.

use crate::error::KintoError;
use crate::headers::{find_field, header_fields, headers_get_raw, string_from_utf8, Field};
use crate::json::{lemma_docs_push, lemma_store, Doc, Json};
use crate::request::{Descriptor, RequestPreparer};
use crate::response::{Response, ResponseWrapper};
use crate::text::{remove_all, remove_text};
use hyper::header::Headers;
use vstd::prelude::*;
use vstd::utf8::{decode_utf8, valid_utf8};

verus! {

/// A listing in progress.
#[derive(Debug)]
pub struct Follower {
    /// The request that was sent first.
    pub request: RequestPreparer,
    /// The first response, with the entries of the later pages appended.
    pub base: ResponseWrapper,
    /// The headers of the latest response.
    pub cursor: Headers,
}

/// What a listing in progress holds, as plain values.
pub ghost struct Following {
    pub request: Descriptor,
    pub base: Response,
    pub cursor: Seq<Field>,
}

impl View for Follower {
    type V = Following;

    open spec fn view(&self) -> Following {
        Following { request: self.request@, base: self.base@, cursor: header_fields(self.cursor) }
    }
}

/// The cursor that a response's headers hold: the first raw value of the
/// header `Next-Page`.
pub open spec fn next_page(headers: Seq<Field>) -> Option<Seq<u8>> {
    match find_field(headers, "next-page"@) {
        Some(values) => if values.len() > 0 {
            Some(values[0])
        } else {
            None
        },
        None => None,
    }
}

/// The entries of a page: the list under `data` in its body.
pub open spec fn entries(body: Doc) -> Option<Seq<Doc>> {
    body.field("data"@).as_list()
}

impl Following {
    /// The state after the first response.
    pub open spec fn begun(request: Descriptor, first: Response) -> Following {
        Following { request: request, base: first, cursor: first.headers }
    }

    /// The request to send next, or `None` where the latest response holds
    /// no cursor. The request is the first one with its path replaced by the
    /// cursor, stripped of the server's base URL, and without a query. A
    /// cursor that is not valid UTF-8 is a `Utf8Error`.
    pub open spec fn next(self) -> Result<Option<Descriptor>, KintoError> {
        match next_page(self.cursor) {
            None => Ok(None),
            Some(bytes) => if valid_utf8(bytes) {
                Ok(
                    Some(
                        Descriptor {
                            path: remove_all(decode_utf8(bytes), self.base.config.server_url),
                            query: Seq::empty(),
                            ..self.request
                        },
                    ),
                )
            } else {
                Err(KintoError::Utf8Error)
            },
        }
    }

    /// The state after one more page: its entries stand behind those
    /// gathered so far, and its headers hold the next cursor. Where what was
    /// gathered or the page holds no list under `data`, this is a
    /// `JsonError`.
    pub open spec fn absorbed(self, page: Response) -> Result<Following, KintoError> {
        match (entries(self.base.body), entries(page.body)) {
            (Some(have), Some(more)) => Ok(
                Following {
                    base: Response {
                        body: self.base.body.put("data"@, Doc::List(have + more))->0,
                        ..self.base
                    },
                    cursor: page.headers,
                    ..self
                },
            ),
            _ => Err(KintoError::JsonError),
        }
    }
}

impl Follower {
    /// Starts to follow the pages behind `first`, the response to `request`.
    pub fn begin(request: RequestPreparer, first: ResponseWrapper) -> (f: Follower)
        ensures
            f@ == Following::begun(request@, first@),
    {
        let cursor = first.headers.clone();
        Follower { request: request, base: first, cursor: cursor }
    }

    /// The request to send next, or `None` where the listing is complete.
    pub fn next_request(&self) -> (r: Result<Option<RequestPreparer>, KintoError>)
        ensures
            match self@.next() {
                Ok(Some(d)) => r is Ok && r->Ok_0 is Some && r->Ok_0->0@ == d,
                Ok(None) => r is Ok && r->Ok_0 is None,
                Err(e) => r == Err::<Option<RequestPreparer>, KintoError>(e),
            },
    {
        let mut values = match headers_get_raw(&self.cursor, "next-page") {
            Some(values) => values,
            None => {
                return Ok(None);
            },
        };
        if values.len() == 0 {
            return Ok(None);
        }
        let bytes = values.remove(0);
        let url = match string_from_utf8(bytes) {
            Ok(url) => url,
            Err(_) => {
                return Err(KintoError::Utf8Error);
            },
        };
        proof {
            vstd::utf8::encode_utf8_decode_utf8(url@);
        }
        let mut request = self.request.clone();
        request.path = remove_text(url.as_str(), self.base.config.server_url.as_str());
        request.query = String::new();
        Ok(Some(request))
    }

    /// Takes in the response to the request that `next_request` gave. On an
    /// error the state is as it was.
    pub fn absorb(&mut self, page: ResponseWrapper) -> (r: Result<(), KintoError>)
        ensures
            match old(self)@.absorbed(page@) {
                Ok(state) => r is Ok && final(self)@ == state,
                Err(e) => r == Err::<(), KintoError>(e) && final(self)@ == old(self)@,
            },
    {
        let mut all: Vec<Json> = Vec::new();
        match self.base.body.get("data") {
            Some(data) => match data.as_array() {
                Some(have) => {
                    let mut i: usize = 0;
                    while i < have.len()
                        invariant
                            i <= have.len(),
                            Json::docs(all@) == Json::docs(have@).take(i as int),
                        decreases have.len() - i,
                    {
                        let ghost before = all@;
                        all.push(have[i].clone());
                        proof {
                            lemma_docs_push(before, all@.last());
                        }
                        i += 1;
                    }
                },
                None => {
                    return Err(KintoError::JsonError);
                },
            },
            None => {
                return Err(KintoError::JsonError);
            },
        }
        let ghost have = entries(self.base.body@)->0;
        match page.body.get("data") {
            Some(data) => match data.as_array() {
                Some(more) => {
                    let mut i: usize = 0;
                    while i < more.len()
                        invariant
                            i <= more.len(),
                            Json::docs(all@) == have + Json::docs(more@).take(i as int),
                        decreases more.len() - i,
                    {
                        let ghost before = all@;
                        all.push(more[i].clone());
                        proof {
                            lemma_docs_push(before, all@.last());
                        }
                        i += 1;
                    }
                    assert(Json::docs(more@).take(more.len() as int) =~= Json::docs(more@));
                },
                None => {
                    return Err(KintoError::JsonError);
                },
            },
            None => {
                return Err(KintoError::JsonError);
            },
        }
        self.base.body.set("data", Json::Array(all));
        self.cursor = page.headers;
        Ok(())
    }

    /// The response gathered: the first one, with the entries of every page
    /// taken in.
    pub fn finish(self) -> (r: ResponseWrapper)
        ensures
            r@ == self@.base,
    {
        self.base
    }
}

/// How a listing goes on from `state` when the server answers the requests
/// that follow with `pages`, one after the other: the state in which it
/// ends, and how many of the pages it asked for. `None` where it fails, or
/// asks for a page that is not there.
pub open spec fn run(state: Following, pages: Seq<Response>) -> Option<(Following, nat)>
    decreases pages.len(),
{
    match state.next() {
        Ok(None) => Some((state, 0nat)),
        Ok(Some(_)) => if pages.len() == 0 {
            None
        } else {
            match state.absorbed(pages[0]) {
                Ok(after) => match run(after, pages.drop_first()) {
                    Some((end, asked)) => Some((end, asked + 1)),
                    None => None,
                },
                Err(_) => None,
            }
        },
        Err(_) => None,
    }
}

/// The entries of a run of pages, in the pages' order.
pub open spec fn gathered(pages: Seq<Response>) -> Seq<Doc>
    decreases pages.len(),
{
    if pages.len() == 0 {
        Seq::empty()
    } else {
        entries(pages[0].body)->0 + gathered(pages.drop_first())
    }
}

/// Whether the cursors lead through `pages`: the headers `cursor` point on
/// exactly where a page follows, and so do the headers of each page.
pub open spec fn chained(cursor: Seq<Field>, pages: Seq<Response>) -> bool
    decreases pages.len(),
{
    if pages.len() == 0 {
        next_page(cursor) is None
    } else {
        &&& next_page(cursor) is Some
        &&& valid_utf8(next_page(cursor)->0)
        &&& entries(pages[0].body) is Some
        &&& chained(pages[0].headers, pages.drop_first())
    }
}

/// A listing whose cursors lead through `pages` takes in every one of them,
/// asks for no other, and ends with the entries that it had followed by
/// those of the pages, in order.
pub proof fn lemma_run(state: Following, pages: Seq<Response>)
    requires
        entries(state.base.body) is Some,
        chained(state.cursor, pages),
    ensures
        run(state, pages) matches Some((end, asked)) && {
            &&& asked == pages.len()
            &&& end.next() == Ok::<Option<Descriptor>, KintoError>(None)
            &&& entries(end.base.body) == Some(entries(state.base.body)->0 + gathered(pages))
        },
    decreases pages.len(),
{
    let have = entries(state.base.body)->0;
    if pages.len() == 0 {
    } else {
        let page = pages[0];
        let more = entries(page.body)->0;
        let after = state.absorbed(page)->Ok_0;
        let members = state.base.body->Dict_0;
        lemma_store(members, "data"@, Doc::List(have + more), "data"@);
        lemma_run(after, pages.drop_first());
    }
}

/// The pages of a listing with at most `limit` entries to the page: every
/// page but the last is full, and the last holds at least one entry.
pub open spec fn paged(pages: Seq<Response>, limit: nat) -> bool {
    &&& pages.len() >= 1
    &&& forall|i: int| 0 <= i < pages.len() ==> (#[trigger] entries(pages[i].body)) is Some
    &&& forall|i: int|
        0 <= i < pages.len() - 1 ==> (#[trigger] entries(pages[i].body))->0.len() == limit
    &&& 1 <= entries(pages.last().body)->0.len() <= limit
}

/// The number of entries in full pages and one last page.
pub proof fn lemma_gathered_len(pages: Seq<Response>, limit: nat)
    requires
        paged(pages, limit),
    ensures
        gathered(pages).len() == (pages.len() - 1) * limit + entries(pages.last().body)->0.len(),
    decreases pages.len(),
{
    let rest = pages.drop_first();
    if pages.len() == 1 {
        assert(gathered(rest) =~= Seq::empty());
    } else {
        assert(rest.last() == pages.last());
        lemma_gathered_len(rest, limit);
        assert((pages.len() - 1) * limit == (rest.len() - 1) * limit + limit) by (nonlinear_arith)
            requires
                rest.len() == pages.len() - 1,
        ;
    }
}

/// A listing of `R` entries in pages of `L` takes exactly the requests that
/// the pages need, `R / L` rounded up, and returns the `R` entries in the
/// order in which the pages held them.
pub proof fn lemma_listing(request: Descriptor, pages: Seq<Response>, limit: nat)
    requires
        paged(pages, limit),
        chained(pages[0].headers, pages.drop_first()),
    ensures
        run(Following::begun(request, pages[0]), pages.drop_first()) matches Some((end, asked))
            && {
            &&& 1 + asked == (gathered(pages).len() + limit - 1) / (limit as int)
            &&& end.next() == Ok::<Option<Descriptor>, KintoError>(None)
            &&& entries(end.base.body) == Some(gathered(pages))
        },
{
    let state = Following::begun(request, pages[0]);
    lemma_run(state, pages.drop_first());
    lemma_gathered_len(pages, limit);
    let last = entries(pages.last().body)->0.len();
    let total = gathered(pages).len();
    let count = pages.len();
    assert((total + limit - 1) / (limit as int) == count) by (nonlinear_arith)
        requires
            total == (count - 1) * limit + last,
            1 <= last <= limit,
            count >= 1,
    ;
}

} // verus!
