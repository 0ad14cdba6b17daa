//! The wire as plain values: the request that an operation asks for, and
//! what came back for it.

use vstd::prelude::*;

use crate::status::Status;

verus! {

/// The HTTP methods that the client uses.
#[derive(Clone, Copy, Debug, PartialEq, Eq, Structural)]
pub enum Method {
    Get,
    Post,
    Patch,
    Delete,
}

/// What one part of a multipart form carries.
#[derive(Clone, Debug, PartialEq, Eq)]
pub enum Content {
    /// A text value.
    Text(String),
    /// Raw bytes, such as a file's.
    Bytes(Vec<u8>),
}

/// One named part of a multipart form.
#[derive(Clone, Debug, PartialEq, Eq)]
pub struct Part {
    pub name: String,
    pub content: Content,
    pub file_name: Option<String>,
    pub mime: Option<String>,
}

/// A multipart form: its parts in the order in which they were added.
#[derive(Clone, Debug, PartialEq, Eq)]
pub struct Form {
    pub parts: Vec<Part>,
}

/// The body of a request.
#[derive(Clone, Debug, PartialEq, Eq)]
pub enum Payload {
    /// No body.
    Empty,
    /// A JSON document that the caller has encoded.
    Json(String),
    /// A JSON object whose members are strings, by name and in order.
    Fields(Vec<(String, String)>),
    /// A multipart form. Its content type names a boundary, which whoever
    /// encodes the form picks.
    Multipart(Form),
}

/// A request, ready to be sent.
#[derive(Clone, Debug, PartialEq, Eq)]
pub struct HttpRequest {
    pub method: Method,
    pub url: String,
    /// Headers by name, besides the authorization.
    pub headers: Vec<(String, String)>,
    /// Query parameters by name, in order.
    pub query: Vec<(String, String)>,
    /// The token of a bearer authorization, where the request carries one.
    pub bearer: Option<String>,
    pub payload: Payload,
}

/// What a part carries, as mathematical values.
pub enum ContentView {
    Text(Seq<char>),
    Bytes(Seq<u8>),
}

/// A part of a form, as mathematical values.
pub struct PartView {
    pub name: Seq<char>,
    pub content: ContentView,
    pub file_name: Option<Seq<char>>,
    pub mime: Option<Seq<char>>,
}

/// The body of a request, as mathematical values.
pub enum PayloadView {
    Empty,
    Json(Seq<char>),
    Fields(Seq<(Seq<char>, Seq<char>)>),
    Multipart(Seq<PartView>),
}

/// A request, as mathematical values.
pub struct RequestView {
    pub method: Method,
    pub url: Seq<char>,
    pub headers: Seq<(Seq<char>, Seq<char>)>,
    pub query: Seq<(Seq<char>, Seq<char>)>,
    pub bearer: Option<Seq<char>>,
    pub payload: PayloadView,
}

/// The characters of an optional string.
pub open spec fn optional_text(text: Option<String>) -> Option<Seq<char>> {
    match text {
        Some(text) => Some(text@),
        None => None,
    }
}

/// The characters of a list of named strings.
pub open spec fn pairs_text(pairs: Seq<(String, String)>) -> Seq<(Seq<char>, Seq<char>)> {
    pairs.map_values(|pair: (String, String)| (pair.0@, pair.1@))
}

impl View for Content {
    type V = ContentView;

    open spec fn view(&self) -> ContentView {
        match *self {
            Content::Text(text) => ContentView::Text(text@),
            Content::Bytes(bytes) => ContentView::Bytes(bytes@),
        }
    }
}

impl View for Part {
    type V = PartView;

    open spec fn view(&self) -> PartView {
        PartView {
            name: self.name@,
            content: self.content@,
            file_name: optional_text(self.file_name),
            mime: optional_text(self.mime),
        }
    }
}

impl View for Form {
    type V = Seq<PartView>;

    open spec fn view(&self) -> Seq<PartView> {
        self.parts@.map_values(|part: Part| part@)
    }
}

impl View for Payload {
    type V = PayloadView;

    open spec fn view(&self) -> PayloadView {
        match *self {
            Payload::Empty => PayloadView::Empty,
            Payload::Json(document) => PayloadView::Json(document@),
            Payload::Fields(fields) => PayloadView::Fields(pairs_text(fields@)),
            Payload::Multipart(form) => PayloadView::Multipart(form@),
        }
    }
}

impl View for HttpRequest {
    type V = RequestView;

    open spec fn view(&self) -> RequestView {
        RequestView {
            method: self.method,
            url: self.url@,
            headers: pairs_text(self.headers@),
            query: pairs_text(self.query@),
            bearer: optional_text(self.bearer),
            payload: self.payload@,
        }
    }
}

/// Appends a named string to a list, keeping what the list held.
pub fn push_pair(pairs: &mut Vec<(String, String)>, name: &str, value: &str)
    ensures
        pairs_text(final(pairs)@) == pairs_text(old(pairs)@).push((name@, value@)),
{
    let owned_name: String = name.to_string();
    let owned_value: String = value.to_string();
    pairs.push((owned_name, owned_value));
}

impl Form {
    /// A form without parts.
    pub fn new() -> (r: Form)
        ensures
            r@ == Seq::<PartView>::empty(),
    {
        Form { parts: Vec::new() }
    }

    /// The form with one more part at its end.
    pub fn part(self, part: Part) -> (r: Form)
        ensures
            r@ == self@.push(part@),
    {
        let mut parts = self.parts;
        parts.push(part);
        Form { parts }
    }

    /// The form with one more text part at its end.
    pub fn text(self, name: &str, value: &str) -> (r: Form)
        ensures
            r@ == self@.push(
                PartView {
                    name: name@,
                    content: ContentView::Text(value@),
                    file_name: None,
                    mime: None,
                },
            ),
    {
        self.part(Part::text(name, value))
    }
}

impl Part {
    /// A part that carries a text value.
    pub fn text(name: &str, value: &str) -> (r: Part)
        ensures
            r@ == (PartView {
                name: name@,
                content: ContentView::Text(value@),
                file_name: None,
                mime: None,
            }),
    {
        Part {
            name: name.to_string(),
            content: Content::Text(value.to_string()),
            file_name: None,
            mime: None,
        }
    }

    /// A part that carries bytes.
    pub fn bytes(name: &str, bytes: Vec<u8>) -> (r: Part)
        ensures
            r@ == (PartView {
                name: name@,
                content: ContentView::Bytes(bytes@),
                file_name: None,
                mime: None,
            }),
    {
        Part { name: name.to_string(), content: Content::Bytes(bytes), file_name: None, mime: None }
    }

    /// The part under a file name.
    pub fn file_name(self, file_name: &str) -> (r: Part)
        ensures
            r@ == (PartView { file_name: Some(file_name@), ..self@ }),
    {
        Part {
            name: self.name,
            content: self.content,
            file_name: Some(file_name.to_string()),
            mime: self.mime,
        }
    }

    /// The part with a media type.
    pub fn mime_str(self, mime: &str) -> (r: Part)
        ensures
            r@ == (PartView { mime: Some(mime@), ..self@ }),
    {
        Part {
            name: self.name,
            content: self.content,
            file_name: self.file_name,
            mime: Some(mime.to_string()),
        }
    }
}

/// A request that did not bring a response.
#[derive(Clone, Debug, PartialEq, Eq)]
pub struct TransportError {
    /// Whether the request timed out.
    pub timeout: bool,
    /// Whether the connection could not be made.
    pub connect: bool,
    /// The transport's own description of the failure.
    pub message: String,
}

/// A response: its status and its body as text.
#[derive(Clone, Debug, PartialEq, Eq)]
pub struct Response {
    pub status: Status,
    pub body: String,
}

/// What came back for a request.
#[derive(Clone, Debug, PartialEq, Eq)]
pub enum Outcome {
    Response(Response),
    Failure(TransportError),
}

impl TransportError {
    /// Whether the failure says that the server could not be reached: the
    /// request timed out or the connection failed.
    pub open spec fn unreachable(self) -> bool {
        self.timeout || self.connect
    }

    /// Whether the failure says that the server could not be reached.
    pub fn is_unreachable(&self) -> (r: bool)
        ensures
            r == self.unreachable(),
    {
        self.timeout || self.connect
    }
}

} // verus!
