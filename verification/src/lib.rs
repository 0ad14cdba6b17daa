//! A typed client for the PocketBase REST API, written without I/O.
//!
//! The library builds the requests of each endpoint as plain values and
//! turns what came back (a status and a body, or a transport failure) into
//! typed results. Sending a request is left to the caller.

pub mod auth_refresh;
pub mod auth_with_password;
pub mod collection;
pub mod create;
pub mod delete;
pub mod error;
pub mod get_first_list_item;
pub mod get_list;
pub mod get_one;
pub mod impersonate;
pub mod json;
pub mod pocketbase;
pub mod request;
pub mod request_verification;
pub mod settings;
pub mod status;
pub mod text;
pub mod transport;
pub mod update;

pub use crate::auth_with_password::AuthenticationError;
pub use crate::collection::{Collection, RecordList};
pub use crate::create::{CreateError, CreateResponse};
pub use crate::delete::DeleteError;
pub use crate::error::{BadRequestError, BadRequestInternalError, BadRequestResponse, RequestError};
pub use crate::get_first_list_item::CollectionGetFirstListItemBuilder;
pub use crate::get_list::CollectionGetListBuilder;
pub use crate::get_one::CollectionGetOneBuilder;
pub use crate::impersonate::{CollectionImpersonateBuilder, ImpersonateError};
pub use crate::pocketbase::{AuthStore, AuthStoreRecord, PocketBase};
pub use crate::status::{Status, StatusClass};
pub use crate::transport::{
    Content, Form, HttpRequest, Method, Outcome, Part, Payload, Response, TransportError,
};
pub use crate::update::{UpdateError, UpdateResponse};
