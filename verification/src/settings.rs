//! Settings of the server.

use vstd::prelude::*;

verus! {

/// The email templates that the server can send a test of.
#[derive(Clone, Copy, Debug, PartialEq, Eq, Structural)]
pub enum EmailTemplate {
    Verification,
    PasswordReset,
    EmailChange,
}

impl EmailTemplate {
    /// The name of the template as the server knows it.
    pub open spec fn name(self) -> Seq<char> {
        match self {
            EmailTemplate::Verification => "verification"@,
            EmailTemplate::PasswordReset => "password-reset"@,
            EmailTemplate::EmailChange => "email-change"@,
        }
    }

    /// The name of the template as the server knows it.
    pub fn to_string(&self) -> (r: String)
        ensures
            r@ == self.name(),
    {
        match self {
            EmailTemplate::Verification => "verification".to_string(),
            EmailTemplate::PasswordReset => "password-reset".to_string(),
            EmailTemplate::EmailChange => "email-change".to_string(),
        }
    }
}

} // verus!
