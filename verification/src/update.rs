//! Updating a record.

use vstd::prelude::*;

use crate::collection::{
    item_endpoint, read_summary, record_url, summary_in, Collection, RecordSummary,
};
use crate::create::{no_report, no_summary};
use crate::error::{
    errors_view, report_entries, report_shape, reports, BadRequestError, BadRequestResponse,
};
use crate::json::{parse, parsed};
use crate::request::{bare, content_json};
use crate::status::{status_text, StatusClass};
use crate::transport::{HttpRequest, Method, Outcome, PayloadView, RequestView};

verus! {

/// Why a record could not be updated.
#[derive(Clone, Debug, PartialEq, Eq)]
pub enum UpdateError {
    /// The server answered 400 and said which fields it refused.
    BadRequest(Vec<BadRequestError>),
    /// The server answered 403: the authenticated record may not do this.
    Forbidden,
    /// The server answered 404.
    NotFound,
    /// The request timed out or the server could not be reached.
    Unreachable(String),
    /// The response did not have the expected shape.
    ParseError(String),
    /// The server answered with a status that this client does not expect,
    /// or the request failed in a way that it does not know.
    UnexpectedResponse(String),
}

/// What the server says of a record that it has updated.
#[derive(Clone, Debug, PartialEq, Eq)]
pub struct UpdateResponse {
    pub collection_name: String,
    pub collection_id: String,
    pub id: String,
    pub updated: String,
    pub created: String,
}

impl View for UpdateResponse {
    type V = RecordSummary;

    open spec fn view(&self) -> RecordSummary {
        RecordSummary {
            collection_name: self.collection_name@,
            collection_id: self.collection_id@,
            id: self.id@,
            updated: self.updated@,
            created: self.created@,
        }
    }
}

impl UpdateResponse {
    /// Reads the summary of an updated record from the text of a body.
    /// `Some` exactly where the text is a JSON document that describes one.
    pub fn from_text(body: &str) -> (r: Option<UpdateResponse>)
        ensures
            summary_in(body@) == (match r {
                Some(updated) => Some(updated@),
                None => None,
            }),
    {
        match parse(body) {
            Some(value) => match read_summary(&value) {
                Some(texts) => {
                    let (collection_name, collection_id, id, updated, created) = texts;
                    Some(UpdateResponse { collection_name, collection_id, id, updated, created })
                },
                None => None,
            },
            None => None,
        }
    }
}

/// Whether a result is what the outcome of an update calls for.
pub open spec fn updated(outcome: Outcome, r: Result<UpdateResponse, UpdateError>) -> bool {
    match outcome {
        Outcome::Failure(failure) => if failure.unreachable() {
            r == Err::<UpdateResponse, UpdateError>(UpdateError::Unreachable(failure.message))
        } else {
            r == Err::<UpdateResponse, UpdateError>(
                UpdateError::UnexpectedResponse(failure.message),
            )
        },
        Outcome::Response(response) => {
            let code = response.status.code();
            if 200 <= code <= 299 {
                match summary_in(response.body@) {
                    Some(summary) => r matches Ok(record) && record@ == summary,
                    None => r matches Err(UpdateError::ParseError(message)) && message@
                        == no_summary(),
                }
            } else if code == 400 {
                match parsed(response.body@) {
                    Some(tree) if report_shape(tree) => r matches Err(
                        UpdateError::BadRequest(errors),
                    ) && reports(errors_view(errors@), report_entries(tree)->0),
                    _ => r matches Err(UpdateError::ParseError(message)) && message@
                        == no_report(),
                }
            } else if code == 403 {
                r == Err::<UpdateResponse, UpdateError>(UpdateError::Forbidden)
            } else if code == 404 {
                r == Err::<UpdateResponse, UpdateError>(UpdateError::NotFound)
            } else {
                r matches Err(UpdateError::UnexpectedResponse(message)) && message@ == status_text(
                    code,
                )
            }
        },
    }
}

impl<'a> Collection<'a> {
    /// The request that updates a record from a JSON document: a PATCH to
    /// the record.
    pub fn update_request(&self, record_id: &str, document: String) -> (r: HttpRequest)
        ensures
            r@ == self.server().authorized(
                RequestView {
                    headers: seq![content_json()],
                    payload: PayloadView::Json(document@),
                    ..bare(
                        Method::Patch,
                        record_url(self.server().base(), self.name@, record_id@),
                    )
                },
            ),
    {
        let endpoint: String = item_endpoint(&*self.client, self.name, "records", record_id);
        self.client.request_patch_json(endpoint.as_str(), document)
    }

    /// Takes what came back for an update. A 2xx response whose body
    /// describes the updated record gives that description; a 400 response
    /// gives the fields that the server refused; any other outcome gives the
    /// error of its kind. The client is left as it was.
    pub fn update(self, outcome: Outcome) -> (r: Result<UpdateResponse, UpdateError>)
        ensures
            updated(outcome, r),
            *final(self.client) == self.server(),
    {
        match outcome {
            Outcome::Failure(failure) => {
                if failure.is_unreachable() {
                    Err(UpdateError::Unreachable(failure.message))
                } else {
                    Err(UpdateError::UnexpectedResponse(failure.message))
                }
            },
            Outcome::Response(response) => match response.status.class() {
                StatusClass::Success => match UpdateResponse::from_text(response.body.as_str()) {
                    Some(record) => Ok(record),
                    None => Err(
                        UpdateError::ParseError(
                            "The response body does not describe a record.".to_string(),
                        ),
                    ),
                },
                StatusClass::BadRequest => match BadRequestResponse::from_text(
                    response.body.as_str(),
                ) {
                    Some(report) => Err(UpdateError::BadRequest(report.into_errors())),
                    None => Err(
                        UpdateError::ParseError(
                            "The response body does not describe the refused fields.".to_string(),
                        ),
                    ),
                },
                StatusClass::Forbidden => Err(UpdateError::Forbidden),
                StatusClass::NotFound => Err(UpdateError::NotFound),
                _ => Err(UpdateError::UnexpectedResponse(response.status.text())),
            },
        }
    }
}

} // verus!
