//! Deleting a record.

use vstd::prelude::*;
use vstd::string::*;

use crate::collection::{item_endpoint, record_url, Collection};
use crate::request::bare;
use crate::status::status_text;
use crate::transport::{HttpRequest, Method, Outcome};

verus! {

/// Why a record could not be deleted.
#[derive(Clone, Debug, PartialEq, Eq)]
pub enum DeleteError {
    /// The record's identifier is empty, or the server answered 400: the
    /// record may be part of a required relation.
    BadRequest,
    /// The server answered 403: only superusers may do this.
    Forbidden,
    /// The server answered 404.
    NotFound,
    /// The request timed out or the server could not be reached.
    Unreachable(String),
    /// The server answered with a status that this client does not expect,
    /// or the request failed in a way that it does not know.
    UnexpectedResponse(String),
}

/// The message that names an unexpected status with the collection and the
/// record that the deletion was for.
pub open spec fn unexpected_message(status: Seq<char>, name: Seq<char>, record_id: Seq<char>) -> Seq<
    char,
> {
    "Status: "@ + status + ", Collection: "@ + name + ", Record: "@ + record_id
}

/// The message of the error for a response with an unexpected status.
pub open spec fn unexpected_status(code: u16, name: Seq<char>, record_id: Seq<char>) -> Seq<char> {
    unexpected_message(status_text(code), name, record_id)
}

/// The message that names an unexpected status with the collection and the
/// record that the deletion was for:
/// `Status: {status}, Collection: {name}, Record: {record_id}`.
pub fn unexpected_message_text(status: &str, name: &str, record_id: &str) -> (r: String)
    ensures
        r@ == unexpected_message(status@, name@, record_id@),
{
    let mut message: String = "Status: ".to_string();
    message.append(status);
    message.append(", Collection: ");
    message.append(name);
    message.append(", Record: ");
    message.append(record_id);
    message
}

/// Whether a result is what a deletion calls for: that of a record without
/// an identifier is refused whatever came back.
pub open spec fn deleted(
    name: Seq<char>,
    record_id: Seq<char>,
    outcome: Outcome,
    r: Result<(), DeleteError>,
) -> bool {
    if record_id.len() == 0 {
        r == Err::<(), DeleteError>(DeleteError::BadRequest)
    } else {
        match outcome {
            Outcome::Failure(failure) => if failure.timeout {
                r matches Err(DeleteError::Unreachable(message)) && message@
                    == "Request timed out"@
            } else if failure.connect {
                r matches Err(DeleteError::Unreachable(message)) && message@
                    == "Failed to connect to server"@
            } else {
                r == Err::<(), DeleteError>(DeleteError::UnexpectedResponse(failure.message))
            },
            Outcome::Response(response) => {
                let code = response.status.code();
                if code == 204 || code == 200 {
                    r == Ok::<(), DeleteError>(())
                } else if code == 400 {
                    r == Err::<(), DeleteError>(DeleteError::BadRequest)
                } else if code == 403 {
                    r == Err::<(), DeleteError>(DeleteError::Forbidden)
                } else if code == 404 {
                    r == Err::<(), DeleteError>(DeleteError::NotFound)
                } else {
                    r matches Err(DeleteError::UnexpectedResponse(message)) && message@
                        == unexpected_status(code, name, record_id)
                }
            },
        }
    }
}

impl<'a> Collection<'a> {
    /// The request that deletes a record: a DELETE to the record. For an
    /// empty identifier there is no request, and the deletion is refused.
    pub fn delete_request(&self, record_id: &str) -> (r: Result<HttpRequest, DeleteError>)
        ensures
            match r {
                Ok(request) => record_id@.len() > 0 && request@ == self.server().authorized(
                    bare(Method::Delete, record_url(self.server().base(), self.name@, record_id@)),
                ),
                Err(error) => record_id@.len() == 0 && error == DeleteError::BadRequest,
            },
    {
        if record_id.is_empty() {
            return Err(DeleteError::BadRequest);
        }
        let endpoint: String = item_endpoint(&*self.client, self.name, "records", record_id);
        Ok(self.client.request_delete(endpoint.as_str()))
    }

    /// Takes what came back for a deletion: success on 204 or 200, and the
    /// error of its kind for any other outcome. The deletion of a record
    /// without an identifier is refused whatever came back.
    pub fn delete(&self, record_id: &str, outcome: Outcome) -> (r: Result<(), DeleteError>)
        ensures
            deleted(self.name@, record_id@, outcome, r),
    {
        if record_id.is_empty() {
            return Err(DeleteError::BadRequest);
        }
        match outcome {
            Outcome::Failure(failure) => {
                if failure.timeout {
                    Err(DeleteError::Unreachable("Request timed out".to_string()))
                } else if failure.connect {
                    Err(DeleteError::Unreachable("Failed to connect to server".to_string()))
                } else {
                    Err(DeleteError::UnexpectedResponse(failure.message))
                }
            },
            Outcome::Response(response) => {
                let code: u16 = response.status.as_u16();
                if code == 204 || code == 200 {
                    Ok(())
                } else if code == 400 {
                    Err(DeleteError::BadRequest)
                } else if code == 403 {
                    Err(DeleteError::Forbidden)
                } else if code == 404 {
                    Err(DeleteError::NotFound)
                } else {
                    let status: String = response.status.text();
                    Err(
                        DeleteError::UnexpectedResponse(
                            unexpected_message_text(status.as_str(), self.name, record_id),
                        ),
                    )
                }
            },
        }
    }
}

} // verus!
