//! Authentication with an identity and a password.

use vstd::prelude::*;
use vstd::string::*;

use crate::collection::{action_endpoint, action_url, Collection};
use crate::json::{
    empty_object, is_empty_object, member, member_of, null, parse, parsed, text, text_at, tree_of,
    JsonTree,
};
use crate::pocketbase::{auth_store_in, AuthStore};
use crate::request::{bare, content_json};
use crate::text::same_text;
use crate::transport::{
    pairs_text, push_pair, HttpRequest, Method, Outcome, PayloadView, RequestView, TransportError,
};

verus! {

/// Why an authentication failed.
#[derive(Clone, Debug, PartialEq, Eq)]
pub enum AuthenticationError {
    /// The identity or the password is wrong.
    InvalidCredentials,
    /// The identity or the password is empty.
    EmptyField {
        /// Whether the identity is blank.
        identity: bool,
        /// Whether the password is blank.
        password: bool,
    },
    /// The identity has to be an email address and is none.
    IdentityMustBeEmail,
    /// The server could not be reached, or what it sent could not be read.
    HttpError(TransportError),
    /// The server answered with a status that this client does not expect.
    UnexpectedResponse,
    /// The collection's name is missing.
    MissingCollection,
}

/// The code under which a 400 body refuses the identity: the string member
/// `code` of the member `identity` of the validation data.
pub open spec fn identity_code(data: JsonTree) -> Option<Seq<char>> {
    match member_of(data, "identity"@) {
        Some(identity) => text_at(identity, "code"@),
        None => None,
    }
}

/// What the validation data of a 400 body says of the credentials.
pub open spec fn refusal(data: JsonTree) -> AuthenticationError {
    if data is Null || is_empty_object(data) {
        AuthenticationError::InvalidCredentials
    } else {
        let password = member_of(data, "password"@) is Some;
        match identity_code(data) {
            None => AuthenticationError::EmptyField { identity: false, password },
            Some(code) => if code == "validation_is_email"@ {
                AuthenticationError::IdentityMustBeEmail
            } else if code == "validation_required"@ {
                AuthenticationError::EmptyField { identity: true, password }
            } else {
                AuthenticationError::InvalidCredentials
            },
        }
    }
}

/// What a 400 body says of the credentials: what its member `data` says,
/// and invalid credentials where the body is no JSON document or has no such
/// member.
pub open spec fn credentials_failure(body: Option<JsonTree>) -> AuthenticationError {
    match body {
        Some(tree) => match member_of(tree, "data"@) {
            Some(data) => refusal(data),
            None => AuthenticationError::InvalidCredentials,
        },
        None => AuthenticationError::InvalidCredentials,
    }
}

/// The message of the error for a successful response whose body describes
/// no session.
pub open spec fn undecoded() -> Seq<char> {
    "error decoding response body"@
}

/// Validation data that is an empty mapping says that the credentials are
/// invalid.
pub proof fn empty_data_is_invalid_credentials(data: JsonTree)
    requires
        is_empty_object(data),
    ensures
        refusal(data) == AuthenticationError::InvalidCredentials,
{
}

/// Validation data that refuses the identity under the code
/// `validation_is_email` says that the identity must be an email address.
pub proof fn email_code_is_identity_must_be_email(data: JsonTree)
    requires
        identity_code(data) == Some("validation_is_email"@),
    ensures
        refusal(data) == AuthenticationError::IdentityMustBeEmail,
{
}

/// Validation data that refuses the identity under the code
/// `validation_required` says that the identity is empty, and that the
/// password is empty where the data also names the password.
pub proof fn required_code_is_empty_field(data: JsonTree)
    requires
        identity_code(data) == Some("validation_required"@),
    ensures
        refusal(data) == (AuthenticationError::EmptyField {
            identity: true,
            password: member_of(data, "password"@) is Some,
        }),
{
    reveal_strlit("validation_required");
    reveal_strlit("validation_is_email");
    assert("validation_required"@[11] != "validation_is_email"@[11]);
}

/// Validation data that names the password and not the identity says that
/// only the password is empty.
pub proof fn password_alone_is_empty_field(data: JsonTree)
    requires
        member_of(data, "identity"@) is None,
        member_of(data, "password"@) is Some,
    ensures
        refusal(data) == (AuthenticationError::EmptyField { identity: false, password: true }),
{
}

/// Reads from the validation data of a 400 body why the credentials were
/// refused.
pub fn read_refusal(data: &serde_json::Value) -> (r: AuthenticationError)
    ensures
        r == refusal(tree_of(*data)),
{
    if null(data) || empty_object(data) {
        return AuthenticationError::InvalidCredentials;
    }
    let password: bool = member(data, "password").is_some();
    let code: Option<&str> = match member(data, "identity") {
        Some(identity) => match member(identity, "code") {
            Some(code) => text(code),
            None => None,
        },
        None => None,
    };
    match code {
        None => AuthenticationError::EmptyField { identity: false, password },
        Some(code) => if same_text(code, "validation_is_email") {
            AuthenticationError::IdentityMustBeEmail
        } else if same_text(code, "validation_required") {
            AuthenticationError::EmptyField { identity: true, password }
        } else {
            AuthenticationError::InvalidCredentials
        },
    }
}

/// Reads from the text of a 400 body why the credentials were refused.
pub fn read_credentials_failure(body: &str) -> (r: AuthenticationError)
    ensures
        r == credentials_failure(parsed(body@)),
{
    match parse(body) {
        Some(document) => match member(&document, "data") {
            Some(data) => read_refusal(data),
            None => AuthenticationError::InvalidCredentials,
        },
        None => AuthenticationError::InvalidCredentials,
    }
}

impl<'a> Collection<'a> {
    /// The request that authenticates an identity with a password: a POST
    /// to the collection's `auth-with-password` with both as a JSON object.
    pub fn auth_with_password_request(&self, identity: &str, password: &str) -> (r: HttpRequest)
        ensures
            r@ == self.server().authorized(
                RequestView {
                    headers: seq![content_json()],
                    payload: PayloadView::Fields(
                        seq![("identity"@, identity@), ("password"@, password@)],
                    ),
                    ..bare(
                        Method::Post,
                        action_url(self.server().base(), self.name@, "auth-with-password"@),
                    )
                },
            ),
    {
        let url: String = action_endpoint(&*self.client, self.name, "auth-with-password");
        let mut credentials: Vec<(String, String)> = Vec::new();
        push_pair(&mut credentials, "identity", identity);
        push_pair(&mut credentials, "password", password);
        assert(pairs_text(credentials@) =~= seq![
            ("identity"@, identity@),
            ("password"@, password@),
        ]);
        self.client.request_post_fields(url.as_str(), credentials)
    }

    /// Takes what came back for an authentication. On a 2xx response whose
    /// body describes a session, the client holds that session from then on
    /// and the session is returned. A 400 response is read for why the
    /// credentials were refused. Otherwise the client is left as it was.
    pub fn auth_with_password(&mut self, outcome: Outcome) -> (r: Result<
        AuthStore,
        AuthenticationError,
    >)
        ensures
            final(self).name == old(self).name,
            *final(final(self).client) == *final(old(self).client),
            final(self).server().base() == old(self).server().base(),
            r is Err ==> final(self).server() == old(self).server(),
            match outcome {
                Outcome::Failure(failure) => r == Err::<AuthStore, AuthenticationError>(
                    AuthenticationError::HttpError(failure),
                ),
                Outcome::Response(response) => if 200 <= response.status.code() <= 299 {
                    match auth_store_in(response.body@) {
                        Some(session) => r matches Ok(store) && store@ == session
                            && final(self).server().session() == Some(store)
                            && final(self).server().session_token() == Some(session.token),
                        None => r matches Err(AuthenticationError::HttpError(error))
                            && !error.timeout && !error.connect && error.message@ == undecoded(),
                    }
                } else if response.status.code() == 400 {
                    r == Err::<AuthStore, AuthenticationError>(
                        credentials_failure(parsed(response.body@)),
                    )
                } else {
                    r == Err::<AuthStore, AuthenticationError>(
                        AuthenticationError::UnexpectedResponse,
                    )
                },
            },
    {
        match outcome {
            Outcome::Failure(failure) => Err(AuthenticationError::HttpError(failure)),
            Outcome::Response(response) => {
                if response.status.is_success() {
                    match AuthStore::from_text(response.body.as_str()) {
                        Some(store) => {
                            self.client.update_auth_store(store.clone());
                            Ok(store)
                        },
                        None => Err(
                            AuthenticationError::HttpError(
                                TransportError {
                                    timeout: false,
                                    connect: false,
                                    message: "error decoding response body".to_string(),
                                },
                            ),
                        ),
                    }
                } else if response.status.as_u16() == 400 {
                    Err(read_credentials_failure(response.body.as_str()))
                } else {
                    Err(AuthenticationError::UnexpectedResponse)
                }
            },
        }
    }
}

} // verus!
