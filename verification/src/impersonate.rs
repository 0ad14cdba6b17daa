//! Impersonation: a session for another identity, in a client of its own.

use vstd::prelude::*;

use crate::collection::{item_endpoint, item_url, Collection};
use crate::pocketbase::{auth_store_in, AuthStore, PocketBase};
use crate::request::bare;
use crate::status::{status_text, StatusClass};
use crate::text::{decimal, decimal_text};
use crate::transport::{
    ContentView, Form, HttpRequest, Method, Outcome, PartView, PayloadView, RequestView,
};

verus! {

/// Why an impersonation failed.
#[derive(Clone, Debug, PartialEq, Eq)]
pub enum ImpersonateError {
    /// The server answered 400: the request needs a valid record
    /// authorization token.
    BadRequest,
    /// The server answered 401.
    Unauthorized,
    /// The server answered 403: the authorized record may not do this.
    Forbidden,
    /// The server answered 404: the identity may not exist.
    NotFound,
    /// The request timed out or the server could not be reached.
    Unreachable(String),
    /// The server answered with a status or a body that this client does
    /// not expect, or the request failed in a way that it does not know.
    UnexpectedResponse(String),
}

/// An impersonation that is being prepared.
pub struct CollectionImpersonateBuilder<'a> {
    pub client: &'a PocketBase,
    pub collection_name: &'a str,
    pub user_id: &'a str,
    /// How long the token is to last, in seconds, as a decimal numeral.
    pub duration: Option<String>,
}

/// The message of the error for a 200 response whose body describes no
/// session.
pub open spec fn no_auth_data() -> Seq<char> {
    "Couldn't parse API response into Auth Data"@
}

/// The form field that carries the duration of the token.
pub open spec fn duration_part(duration: Seq<char>) -> PartView {
    PartView {
        name: "duration"@,
        content: ContentView::Text(duration),
        file_name: None,
        mime: None,
    }
}

/// Whether a result is what the outcome of an impersonation calls for, for
/// a client of the server at `base`.
pub open spec fn impersonated(
    base: Seq<char>,
    outcome: Outcome,
    r: Result<PocketBase, ImpersonateError>,
) -> bool {
    match outcome {
        Outcome::Failure(failure) => if failure.unreachable() {
            r == Err::<PocketBase, ImpersonateError>(
                ImpersonateError::Unreachable(failure.message),
            )
        } else {
            r == Err::<PocketBase, ImpersonateError>(
                ImpersonateError::UnexpectedResponse(failure.message),
            )
        },
        Outcome::Response(response) => {
            let code = response.status.code();
            if code == 200 {
                match auth_store_in(response.body@) {
                    Some(session) => r matches Ok(client) && client.base() == base
                        && client.session_token() == Some(session.token) && (
                    client.session() matches Some(store) && store@ == session),
                    None => r matches Err(ImpersonateError::UnexpectedResponse(message))
                        && message@ == no_auth_data(),
                }
            } else if code == 400 {
                r == Err::<PocketBase, ImpersonateError>(ImpersonateError::BadRequest)
            } else if code == 401 {
                r == Err::<PocketBase, ImpersonateError>(ImpersonateError::Unauthorized)
            } else if code == 403 {
                r == Err::<PocketBase, ImpersonateError>(ImpersonateError::Forbidden)
            } else if code == 404 {
                r == Err::<PocketBase, ImpersonateError>(ImpersonateError::NotFound)
            } else {
                r matches Err(ImpersonateError::UnexpectedResponse(message)) && message@
                    == status_text(code)
            }
        },
    }
}

impl<'a> Collection<'a> {
    /// Prepares the impersonation of an identity of the collection. The
    /// client is only read from here on, and is left as it was.
    pub fn impersonate(self, user_id: &'a str) -> (r: CollectionImpersonateBuilder<'a>)
        ensures
            *r.client == self.server(),
            r.collection_name == self.name,
            r.user_id == user_id,
            r.duration is None,
            *final(self.client) == self.server(),
    {
        CollectionImpersonateBuilder {
            client: self.client,
            collection_name: self.name,
            user_id,
            duration: None,
        }
    }
}

impl<'a> CollectionImpersonateBuilder<'a> {
    /// Sets how long the token is to last, in seconds.
    pub fn duration(self, duration: u128) -> (r: Self)
        ensures
            r.client == self.client,
            r.collection_name == self.collection_name,
            r.user_id == self.user_id,
            r.duration matches Some(text) && text@ == decimal(duration as nat),
    {
        CollectionImpersonateBuilder {
            client: self.client,
            collection_name: self.collection_name,
            user_id: self.user_id,
            duration: Some(decimal_text(duration)),
        }
    }

    /// The request of the impersonation: a POST to the collection's
    /// `impersonate` for the identity, with the duration as a form field
    /// where one is set.
    pub fn request(&self) -> (r: HttpRequest)
        ensures
            r@ == self.client.authorized(
                RequestView {
                    payload: match self.duration {
                        Some(duration) => PayloadView::Multipart(seq![duration_part(duration@)]),
                        None => PayloadView::Empty,
                    },
                    ..bare(
                        Method::Post,
                        item_url(
                            self.client.base(),
                            self.collection_name@,
                            "impersonate"@,
                            self.user_id@,
                        ),
                    )
                },
            ),
    {
        let url: String = item_endpoint(
            self.client,
            self.collection_name,
            "impersonate",
            self.user_id,
        );
        match &self.duration {
            Some(duration) => {
                let form: Form = Form::new().text("duration", duration.as_str());
                self.client.request_post_form(url.as_str(), form)
            },
            None => self.client.request_post(url.as_str()),
        }
    }

    /// Takes what came back for the impersonation. A 200 response whose
    /// body describes a session gives a new client of the same server that
    /// holds that session; any other outcome gives the error of its kind.
    pub fn call(self, outcome: Outcome) -> (r: Result<PocketBase, ImpersonateError>)
        ensures
            impersonated(self.client.base(), outcome, r),
    {
        match outcome {
            Outcome::Failure(failure) => {
                if failure.is_unreachable() {
                    Err(ImpersonateError::Unreachable(failure.message))
                } else {
                    Err(ImpersonateError::UnexpectedResponse(failure.message))
                }
            },
            Outcome::Response(response) => {
                if response.status.as_u16() == 200 {
                    match AuthStore::from_text(response.body.as_str()) {
                        Some(store) => {
                            let base_url: String = self.client.base_url();
                            let mut impersonate_client = PocketBase::new(base_url.as_str());
                            impersonate_client.update_auth_store(store);
                            Ok(impersonate_client)
                        },
                        None => Err(
                            ImpersonateError::UnexpectedResponse(
                                "Couldn't parse API response into Auth Data".to_string(),
                            ),
                        ),
                    }
                } else {
                    match response.status.class() {
                        StatusClass::BadRequest => Err(ImpersonateError::BadRequest),
                        StatusClass::Unauthorized => Err(ImpersonateError::Unauthorized),
                        StatusClass::Forbidden => Err(ImpersonateError::Forbidden),
                        StatusClass::NotFound => Err(ImpersonateError::NotFound),
                        _ => Err(ImpersonateError::UnexpectedResponse(response.status.text())),
                    }
                }
            },
        }
    }
}

} // verus!
