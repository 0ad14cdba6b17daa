//! HTTP status codes and what they mean to this client.

use vstd::prelude::*;

use crate::text::decimal;

verus! {

/// The reason phrase that `reqwest::StatusCode::canonical_reason` gives for
/// a code, where it knows one.
pub uninterp spec fn canonical_reason(code: u16) -> Option<Seq<char>>;

/// The text of a status: the number, a space and the reason phrase, or
/// `<unknown status code>` in place of a phrase where the code has none.
pub open spec fn status_text(code: u16) -> Seq<char> {
    decimal(code as nat) + " "@ + match canonical_reason(code) {
        Some(reason) => reason,
        None => "<unknown status code>"@,
    }
}

/// Calls `reqwest::StatusCode::from_u16` and prints the status with its
/// `Display` impl, which writes the number, a space and what
/// `canonical_reason` gives, or `<unknown status code>`. For a code outside
/// 100..=999, which `from_u16` refuses, nothing is printed.
#[verifier::external_body]
fn print_status(code: u16) -> (r: Option<String>)
    ensures
        r is Some <==> 100 <= code <= 999,
        r matches Some(text) ==> text@ == decimal(code as nat) + " "@ + match canonical_reason(code) {
            Some(reason) => reason,
            None => "<unknown status code>"@,
        },
{
    match reqwest::StatusCode::from_u16(code) {
        Ok(status) => Some(status.to_string()),
        Err(_) => None,
    }
}

/// A status code as an HTTP response carries it: within 100..=999.
#[derive(Clone, Copy, Debug, PartialEq, Eq)]
pub struct Status {
    code: u16,
}

/// What a status code means to the response mapper.
#[derive(Clone, Copy, Debug, PartialEq, Eq, Structural)]
pub enum StatusClass {
    /// 200..=299.
    Success,
    /// 400.
    BadRequest,
    /// 401.
    Unauthorized,
    /// 403.
    Forbidden,
    /// 404.
    NotFound,
    /// Any other code.
    Other,
}

/// The class of a status code.
pub open spec fn class_of(code: u16) -> StatusClass {
    if 200 <= code <= 299 {
        StatusClass::Success
    } else if code == 400 {
        StatusClass::BadRequest
    } else if code == 401 {
        StatusClass::Unauthorized
    } else if code == 403 {
        StatusClass::Forbidden
    } else if code == 404 {
        StatusClass::NotFound
    } else {
        StatusClass::Other
    }
}

impl Status {
    #[verifier::type_invariant]
    spec fn valid(self) -> bool {
        100 <= self.code <= 999
    }

    /// The numeric code.
    pub closed spec fn code(self) -> u16 {
        self.code
    }

    /// The status with the given code, if the code is within 100..=999.
    pub fn from_u16(code: u16) -> (r: Option<Status>)
        ensures
            r is Some <==> 100 <= code <= 999,
            r matches Some(status) ==> status.code() == code,
    {
        if 100 <= code && code <= 999 {
            Some(Status { code })
        } else {
            None
        }
    }

    /// The numeric code.
    pub fn as_u16(&self) -> (r: u16)
        ensures
            r == self.code(),
            100 <= r <= 999,
    {
        proof {
            use_type_invariant(self);
        }
        self.code
    }

    /// Whether the code is within 200..=299.
    pub fn is_success(&self) -> (r: bool)
        ensures
            r == (200 <= self.code() <= 299),
    {
        200 <= self.code && self.code <= 299
    }

    /// The class of the code.
    pub fn class(&self) -> (r: StatusClass)
        ensures
            r == class_of(self.code()),
    {
        let code: u16 = self.code;
        if 200 <= code && code <= 299 {
            StatusClass::Success
        } else if code == 400 {
            StatusClass::BadRequest
        } else if code == 401 {
            StatusClass::Unauthorized
        } else if code == 403 {
            StatusClass::Forbidden
        } else if code == 404 {
            StatusClass::NotFound
        } else {
            StatusClass::Other
        }
    }

    /// The status as text: the number, a space and the reason phrase.
    pub fn text(&self) -> (r: String)
        ensures
            r@ == status_text(self.code()),
    {
        proof {
            use_type_invariant(self);
        }
        match print_status(self.code) {
            Some(text) => text,
            None => String::new(),
        }
    }
}

} // verus!
