//! Asking the server to send a verification email.

use vstd::prelude::*;

use crate::collection::{action_endpoint, action_url, Collection};
use crate::error::RequestError;
use crate::request::{bare, content_json};
use crate::transport::{
    pairs_text, push_pair, HttpRequest, Method, Outcome, PayloadView, RequestView,
};

verus! {

/// Whether a result is what the outcome of a request for verification calls
/// for.
pub open spec fn verification(outcome: Outcome, r: Result<(), RequestError>) -> bool {
    match outcome {
        Outcome::Failure(failure) => r == Err::<(), RequestError>(
            RequestError::of_failure(failure),
        ),
        Outcome::Response(response) => {
            let code = response.status.code();
            if code == 204 {
                r == Ok::<(), RequestError>(())
            } else if code == 400 {
                r matches Err(RequestError::BadRequest(message)) && message@ == Seq::<char>::empty()
            } else if code == 403 {
                r == Err::<(), RequestError>(RequestError::Forbidden)
            } else if code == 404 {
                r == Err::<(), RequestError>(RequestError::NotFound)
            } else {
                r == Err::<(), RequestError>(RequestError::Unhandled)
            }
        },
    }
}

impl<'a> Collection<'a> {
    /// The request that asks for a verification email to an address: a POST
    /// to the collection's `request-verification` with the address as a
    /// JSON object.
    pub fn request_verification_request(&self, email: &str) -> (r: HttpRequest)
        ensures
            r@ == self.server().authorized(
                RequestView {
                    headers: seq![content_json()],
                    payload: PayloadView::Fields(seq![("email"@, email@)]),
                    ..bare(
                        Method::Post,
                        action_url(self.server().base(), self.name@, "request-verification"@),
                    )
                },
            ),
    {
        let url: String = action_endpoint(&*self.client, self.name, "request-verification");
        let mut fields: Vec<(String, String)> = Vec::new();
        push_pair(&mut fields, "email", email);
        assert(pairs_text(fields@) =~= seq![("email"@, email@)]);
        self.client.request_post_fields(url.as_str(), fields)
    }

    /// Takes what came back for a request for verification: success on 204,
    /// and the error of its kind for any other outcome.
    pub fn request_verification(&self, outcome: Outcome) -> (r: Result<(), RequestError>)
        ensures
            verification(outcome, r),
    {
        match outcome {
            Outcome::Failure(failure) => Err(RequestError::from_failure(&failure)),
            Outcome::Response(response) => {
                let code: u16 = response.status.as_u16();
                if code == 204 {
                    Ok(())
                } else if code == 400 {
                    Err(RequestError::BadRequest(String::new()))
                } else if code == 403 {
                    Err(RequestError::Forbidden)
                } else if code == 404 {
                    Err(RequestError::NotFound)
                } else {
                    Err(RequestError::Unhandled)
                }
            },
        }
    }
}

} // verus!
