//! Creating a record.

use vstd::prelude::*;

use crate::collection::{
    action_endpoint, read_summary, records_url, summary_in, Collection, RecordSummary,
};
use crate::error::{
    errors_view, report_entries, report_shape, reports, BadRequestError, BadRequestResponse,
};
use crate::json::{parse, parsed};
use crate::request::{bare, content_json};
use crate::status::{status_text, StatusClass};
use crate::transport::{Form, HttpRequest, Method, Outcome, PayloadView, RequestView};

verus! {

/// Why a record could not be created.
#[derive(Clone, Debug, PartialEq, Eq)]
pub enum CreateError {
    /// The server answered 400 and said which fields it refused.
    BadRequest(Vec<BadRequestError>),
    /// The server answered 403: the authenticated record may not do this.
    Forbidden,
    /// The server answered 404.
    NotFound,
    /// The request timed out or the server could not be reached.
    Unreachable(String),
    /// The response did not have the expected shape.
    ParseError(String),
    /// The server answered with a status that this client does not expect,
    /// or the request failed in a way that it does not know.
    UnexpectedResponse(String),
}

/// What the server says of a record that it has created.
#[derive(Clone, Debug, PartialEq, Eq)]
pub struct CreateResponse {
    pub collection_name: String,
    pub collection_id: String,
    pub id: String,
    pub updated: String,
    pub created: String,
}

impl View for CreateResponse {
    type V = RecordSummary;

    open spec fn view(&self) -> RecordSummary {
        RecordSummary {
            collection_name: self.collection_name@,
            collection_id: self.collection_id@,
            id: self.id@,
            updated: self.updated@,
            created: self.created@,
        }
    }
}

impl CreateResponse {
    /// Reads the summary of a created record from the text of a body.
    /// `Some` exactly where the text is a JSON document that describes one.
    pub fn from_text(body: &str) -> (r: Option<CreateResponse>)
        ensures
            summary_in(body@) == (match r {
                Some(created) => Some(created@),
                None => None,
            }),
    {
        match parse(body) {
            Some(value) => match read_summary(&value) {
                Some(texts) => {
                    let (collection_name, collection_id, id, updated, created) = texts;
                    Some(CreateResponse { collection_name, collection_id, id, updated, created })
                },
                None => None,
            },
            None => None,
        }
    }
}

/// The message of the error for a 2xx response whose body describes no
/// created record.
pub open spec fn no_summary() -> Seq<char> {
    "The response body does not describe a record."@
}

/// The message of the error for a 400 response whose body is no validation
/// report.
pub open spec fn no_report() -> Seq<char> {
    "The response body does not describe the refused fields."@
}

/// Whether a result is what the outcome of a creation calls for.
pub open spec fn created(outcome: Outcome, r: Result<CreateResponse, CreateError>) -> bool {
    match outcome {
        Outcome::Failure(failure) => if failure.unreachable() {
            r == Err::<CreateResponse, CreateError>(CreateError::Unreachable(failure.message))
        } else {
            r == Err::<CreateResponse, CreateError>(
                CreateError::UnexpectedResponse(failure.message),
            )
        },
        Outcome::Response(response) => {
            let code = response.status.code();
            if 200 <= code <= 299 {
                match summary_in(response.body@) {
                    Some(summary) => r matches Ok(record) && record@ == summary,
                    None => r matches Err(CreateError::ParseError(message)) && message@
                        == no_summary(),
                }
            } else if code == 400 {
                match parsed(response.body@) {
                    Some(tree) if report_shape(tree) => r matches Err(
                        CreateError::BadRequest(errors),
                    ) && reports(errors_view(errors@), report_entries(tree)->0),
                    _ => r matches Err(CreateError::ParseError(message)) && message@
                        == no_report(),
                }
            } else if code == 403 {
                r == Err::<CreateResponse, CreateError>(CreateError::Forbidden)
            } else if code == 404 {
                r == Err::<CreateResponse, CreateError>(CreateError::NotFound)
            } else {
                r matches Err(CreateError::UnexpectedResponse(message)) && message@ == status_text(
                    code,
                )
            }
        },
    }
}

/// Takes what came back for a creation. A 2xx response whose body describes
/// the created record gives that description; a 400 response gives the
/// fields that the server refused; any other outcome gives the error of its
/// kind.
pub fn create_processing(outcome: Outcome) -> (r: Result<CreateResponse, CreateError>)
    ensures
        created(outcome, r),
{
    match outcome {
        Outcome::Failure(failure) => {
            if failure.is_unreachable() {
                Err(CreateError::Unreachable(failure.message))
            } else {
                Err(CreateError::UnexpectedResponse(failure.message))
            }
        },
        Outcome::Response(response) => match response.status.class() {
            StatusClass::Success => match CreateResponse::from_text(response.body.as_str()) {
                Some(record) => Ok(record),
                None => Err(
                    CreateError::ParseError(
                        "The response body does not describe a record.".to_string(),
                    ),
                ),
            },
            StatusClass::BadRequest => match BadRequestResponse::from_text(
                response.body.as_str(),
            ) {
                Some(report) => Err(CreateError::BadRequest(report.into_errors())),
                None => Err(
                    CreateError::ParseError(
                        "The response body does not describe the refused fields.".to_string(),
                    ),
                ),
            },
            StatusClass::Forbidden => Err(CreateError::Forbidden),
            StatusClass::NotFound => Err(CreateError::NotFound),
            _ => Err(CreateError::UnexpectedResponse(response.status.text())),
        },
    }
}

impl<'a> Collection<'a> {
    /// The request that creates a record from a JSON document: a POST to
    /// the collection's records.
    pub fn create_request(&self, document: String) -> (r: HttpRequest)
        ensures
            r@ == self.server().authorized(
                RequestView {
                    headers: seq![content_json()],
                    payload: PayloadView::Json(document@),
                    ..bare(Method::Post, records_url(self.server().base(), self.name@))
                },
            ),
    {
        let endpoint: String = action_endpoint(&*self.client, self.name, "records");
        self.client.request_post_json(endpoint.as_str(), document)
    }

    /// The request that creates a record from a multipart form: a POST to
    /// the collection's records.
    pub fn create_multipart_request(&self, form: Form) -> (r: HttpRequest)
        ensures
            r@ == self.server().authorized(
                RequestView {
                    payload: PayloadView::Multipart(form@),
                    ..bare(Method::Post, records_url(self.server().base(), self.name@))
                },
            ),
    {
        let endpoint: String = action_endpoint(&*self.client, self.name, "records");
        self.client.request_post_form(endpoint.as_str(), form)
    }

    /// Takes what came back for the creation of a record from a JSON
    /// document. The client is left as it was.
    pub fn create(self, outcome: Outcome) -> (r: Result<CreateResponse, CreateError>)
        ensures
            created(outcome, r),
            *final(self.client) == self.server(),
    {
        create_processing(outcome)
    }

    /// Takes what came back for the creation of a record from a multipart
    /// form. The client is left as it was.
    pub fn create_multipart(self, outcome: Outcome) -> (r: Result<CreateResponse, CreateError>)
        ensures
            created(outcome, r),
            *final(self.client) == self.server(),
    {
        create_processing(outcome)
    }
}

} // verus!
