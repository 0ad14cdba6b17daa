//! Refreshing a session: the client's own, or that of another identity.

use vstd::prelude::*;

use crate::collection::{action_endpoint, action_url, Collection};
use crate::error::RequestError;
use crate::pocketbase::{auth_store_in, AuthStore};
use crate::request::bare;
use crate::status::StatusClass;
use crate::transport::{HttpRequest, Method, Outcome, RequestView};

verus! {

/// The message of the error for a 2xx response whose body describes no
/// session.
pub open spec fn no_session() -> Seq<char> {
    "Couldn't parse auth refresh response."@
}

/// The error for a response to a refresh with a status outside 200..=299.
pub open spec fn refresh_fault(code: u16) -> RequestError {
    if code == 401 {
        RequestError::Unauthorized
    } else if code == 403 {
        RequestError::Forbidden
    } else if code == 404 {
        RequestError::NotFound
    } else {
        RequestError::Unhandled
    }
}

/// Whether a result is what the outcome of a refresh calls for.
pub open spec fn refreshed(outcome: Outcome, r: Result<AuthStore, RequestError>) -> bool {
    match outcome {
        Outcome::Failure(failure) => r == Err::<AuthStore, RequestError>(
            RequestError::of_failure(failure),
        ),
        Outcome::Response(response) => {
            let code = response.status.code();
            if 200 <= code <= 299 {
                match auth_store_in(response.body@) {
                    Some(session) => r matches Ok(store) && store@ == session,
                    None => r matches Err(RequestError::ParseError(message)) && message@
                        == no_session(),
                }
            } else {
                r == Err::<AuthStore, RequestError>(refresh_fault(code))
            }
        },
    }
}

/// Takes what came back for a refresh. A 2xx response whose body describes
/// a session gives that session; any other outcome gives the error of its
/// kind.
pub fn read_refresh(outcome: Outcome) -> (r: Result<AuthStore, RequestError>)
    ensures
        refreshed(outcome, r),
{
    match outcome {
        Outcome::Failure(failure) => Err(RequestError::from_failure(&failure)),
        Outcome::Response(response) => match response.status.class() {
            StatusClass::Success => match AuthStore::from_text(response.body.as_str()) {
                Some(store) => Ok(store),
                None => Err(
                    RequestError::ParseError("Couldn't parse auth refresh response.".to_string()),
                ),
            },
            StatusClass::Unauthorized => Err(RequestError::Unauthorized),
            StatusClass::Forbidden => Err(RequestError::Forbidden),
            StatusClass::NotFound => Err(RequestError::NotFound),
            _ => Err(RequestError::Unhandled),
        },
    }
}

impl<'a> Collection<'a> {
    /// The request that refreshes the client's own session: a POST to the
    /// collection's `auth-refresh` whose bearer is the session's token, and
    /// the empty token where the client holds no session.
    pub fn auth_refresh_request(&self) -> (r: HttpRequest)
        ensures
            r@ == (RequestView {
                bearer: Some(
                    match self.server().session_token() {
                        Some(token) => token,
                        None => Seq::empty(),
                    },
                ),
                ..bare(
                    Method::Post,
                    action_url(self.server().base(), self.name@, "auth-refresh"@),
                )
            }),
    {
        let url: String = action_endpoint(&*self.client, self.name, "auth-refresh");
        let token: String = match self.client.token() {
            Some(token) => token,
            None => String::new(),
        };
        let request: HttpRequest = self.client.request_post(url.as_str());
        HttpRequest {
            method: request.method,
            url: request.url,
            headers: request.headers,
            query: request.query,
            bearer: Some(token),
            payload: request.payload,
        }
    }

    /// Takes what came back for a refresh of the client's own session. On
    /// success the client holds the new session from then on; otherwise it
    /// is left as it was.
    pub fn auth_refresh(&mut self, outcome: Outcome) -> (r: Result<AuthStore, RequestError>)
        ensures
            refreshed(outcome, r),
            final(self).name == old(self).name,
            *final(final(self).client) == *final(old(self).client),
            final(self).server().base() == old(self).server().base(),
            match r {
                Ok(store) => final(self).server().session() == Some(store)
                    && final(self).server().session_token() == Some(store.token@),
                Err(_) => final(self).server() == old(self).server(),
            },
    {
        match read_refresh(outcome) {
            Ok(store) => {
                self.client.update_auth_store(store.clone());
                Ok(store)
            },
            Err(error) => Err(error),
        }
    }

    /// The request that refreshes the session of another identity: a POST
    /// to the collection's `auth-refresh` whose bearer is the given token,
    /// whatever session the client holds.
    pub fn auth_refresh_for_user_request(&self, user_token: &str) -> (r: HttpRequest)
        ensures
            r@ == (RequestView {
                bearer: Some(user_token@),
                ..bare(
                    Method::Post,
                    action_url(self.server().base(), self.name@, "auth-refresh"@),
                )
            }),
    {
        let url: String = action_endpoint(&*self.client, self.name, "auth-refresh");
        let request: HttpRequest = self.client.request_post(url.as_str());
        HttpRequest {
            method: request.method,
            url: request.url,
            headers: request.headers,
            query: request.query,
            bearer: Some(user_token.to_string()),
            payload: request.payload,
        }
    }

    /// Takes what came back for a refresh of another identity's session.
    /// The client's own session is left as it was.
    pub fn auth_refresh_for_user(&mut self, outcome: Outcome) -> (r: Result<
        AuthStore,
        RequestError,
    >)
        ensures
            refreshed(outcome, r),
            final(self).name == old(self).name,
            *final(final(self).client) == *final(old(self).client),
            final(self).server() == old(self).server(),
    {
        read_refresh(outcome)
    }
}

} // verus!
