//! The transport adapter: the requests of the client, each with the
//! session's token where the client holds a session.

use vstd::prelude::*;

use crate::pocketbase::PocketBase;
use crate::transport::{
    pairs_text, push_pair, Form, HttpRequest, Method, Payload, PayloadView, RequestView,
};

verus! {

/// A request without headers, query, authorization or body.
pub open spec fn bare(method: Method, url: Seq<char>) -> RequestView {
    RequestView {
        method,
        url,
        headers: Seq::empty(),
        query: Seq::empty(),
        bearer: None,
        payload: PayloadView::Empty,
    }
}

/// The header that says that the body is JSON.
pub open spec fn content_json() -> (Seq<char>, Seq<char>) {
    ("Content-Type"@, "application/json"@)
}

/// The header that asks for a JSON response.
pub open spec fn accept_json() -> (Seq<char>, Seq<char>) {
    ("Accept"@, "application/json"@)
}

fn json_request(method: Method, endpoint: &str, payload: Payload) -> (r: HttpRequest)
    ensures
        r@ == (RequestView {
            headers: seq![content_json()],
            payload: payload@,
            ..bare(method, endpoint@)
        }),
{
    let mut request = bare_request(method, endpoint);
    let mut headers: Vec<(String, String)> = Vec::new();
    push_pair(&mut headers, "Content-Type", "application/json");
    assert(pairs_text(headers@) =~= seq![content_json()]);
    request.headers = headers;
    request.payload = payload;
    request
}

fn bare_request(method: Method, endpoint: &str) -> (r: HttpRequest)
    ensures
        r@ == bare(method, endpoint@),
{
    let r = HttpRequest {
        method,
        url: endpoint.to_string(),
        headers: Vec::new(),
        query: Vec::new(),
        bearer: None,
        payload: Payload::Empty,
    };
    assert(r@.query =~= Seq::empty());
    r
}

impl PocketBase {
    /// A request with the session's token as its bearer authorization; the
    /// request as it is where the client holds no session.
    pub open spec fn authorized(&self, request: RequestView) -> RequestView {
        match self.session_token() {
            Some(token) => RequestView { bearer: Some(token), ..request },
            None => request,
        }
    }

    /// Adds the session's token to a request as its bearer authorization.
    /// Without a session the request is returned unchanged.
    pub fn with_authorization_token(&self, request: HttpRequest) -> (r: HttpRequest)
        ensures
            r@ == self.authorized(request@),
    {
        match self.token() {
            Some(token) => HttpRequest {
                method: request.method,
                url: request.url,
                headers: request.headers,
                query: request.query,
                bearer: Some(token),
                payload: request.payload,
            },
            None => request,
        }
    }

    /// A POST request to an endpoint, without a body.
    pub fn request_post(&self, endpoint: &str) -> (r: HttpRequest)
        ensures
            r@ == self.authorized(bare(Method::Post, endpoint@)),
    {
        self.with_authorization_token(bare_request(Method::Post, endpoint))
    }

    /// A DELETE request to an endpoint.
    pub fn request_delete(&self, endpoint: &str) -> (r: HttpRequest)
        ensures
            r@ == self.authorized(bare(Method::Delete, endpoint@)),
    {
        self.with_authorization_token(bare_request(Method::Delete, endpoint))
    }

    /// A PATCH request to an endpoint, with a JSON document as its body and
    /// the header that says so.
    pub fn request_patch_json(&self, endpoint: &str, document: String) -> (r: HttpRequest)
        ensures
            r@ == self.authorized(
                RequestView {
                    headers: seq![content_json()],
                    payload: PayloadView::Json(document@),
                    ..bare(Method::Patch, endpoint@)
                },
            ),
    {
        let request = json_request(Method::Patch, endpoint, Payload::Json(document));
        self.with_authorization_token(request)
    }

    /// A POST request to an endpoint, with a JSON document as its body and
    /// the header that says so.
    pub fn request_post_json(&self, endpoint: &str, document: String) -> (r: HttpRequest)
        ensures
            r@ == self.authorized(
                RequestView {
                    headers: seq![content_json()],
                    payload: PayloadView::Json(document@),
                    ..bare(Method::Post, endpoint@)
                },
            ),
    {
        let request = json_request(Method::Post, endpoint, Payload::Json(document));
        self.with_authorization_token(request)
    }

    /// A POST request to an endpoint, with a JSON object of string members
    /// as its body and the header that says that the body is JSON.
    pub fn request_post_fields(&self, endpoint: &str, fields: Vec<(String, String)>) -> (r:
        HttpRequest)
        ensures
            r@ == self.authorized(
                RequestView {
                    headers: seq![content_json()],
                    payload: PayloadView::Fields(pairs_text(fields@)),
                    ..bare(Method::Post, endpoint@)
                },
            ),
    {
        let request = json_request(Method::Post, endpoint, Payload::Fields(fields));
        self.with_authorization_token(request)
    }

    /// A POST request to an endpoint, with a multipart form as its body.
    pub fn request_post_form(&self, endpoint: &str, form: Form) -> (r: HttpRequest)
        ensures
            r@ == self.authorized(
                RequestView {
                    payload: PayloadView::Multipart(form@),
                    ..bare(Method::Post, endpoint@)
                },
            ),
    {
        let mut request = bare_request(Method::Post, endpoint);
        request.payload = Payload::Multipart(form);
        self.with_authorization_token(request)
    }

    /// A GET request to an endpoint that asks for JSON, with the given query
    /// parameters where there are any.
    pub fn request_get(&self, endpoint: &str, params: Option<Vec<(String, String)>>) -> (r:
        HttpRequest)
        ensures
            r@ == self.authorized(
                RequestView {
                    headers: seq![accept_json()],
                    query: match params {
                        Some(params) => pairs_text(params@),
                        None => Seq::empty(),
                    },
                    ..bare(Method::Get, endpoint@)
                },
            ),
    {
        let mut request = bare_request(Method::Get, endpoint);
        let mut headers: Vec<(String, String)> = Vec::new();
        push_pair(&mut headers, "Accept", "application/json");
        assert(pairs_text(headers@) =~= seq![accept_json()]);
        request.headers = headers;
        match params {
            Some(params) => {
                request.query = params;
            },
            None => {},
        }
        self.with_authorization_token(request)
    }
}

} // verus!
