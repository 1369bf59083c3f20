//! The fault taxonomy surfaced by the session core, with its per-kind
//! mapping to HTTP status codes and fixed user-facing messages.

use vstd::prelude::*;
use vstd::string::StringExecFns;

verus! {

/// Every failure the service reports. `NotLoggedIn` covers missing, invalid,
/// expired or already-consumed tokens (HTTP 401); `UserBlocked` a blocked
/// account and `Unallowed` an authenticated caller lacking the required
/// role or presenting bad credentials (both forbidden, 403). The remaining
/// kinds map to client or server errors of the surrounding application.
#[derive(Clone, Debug, PartialEq, Eq)]
pub enum Fault {
    Diesel,
    DatabaseConnection,
    NotLoggedIn,
    UuidConversion,
    Unexpected,
    NotFound(String),
    AlreadyExists(String),
    Unallowed,
    MalformedAuthorization,
    NotImplementedYet,
    UserBlocked,
    RegistrationCodeInvalid,
    PasswordCodeInvalid,
    MissingUserIdOtp,
}

impl Fault {
    /// The HTTP status code each fault kind is transported as.
    pub open spec fn status_code_spec(self) -> u16 {
        match self {
            Fault::Diesel => 500,
            Fault::DatabaseConnection => 500,
            Fault::NotLoggedIn => 401,
            Fault::UuidConversion => 500,
            Fault::Unexpected => 500,
            Fault::NotFound(_) => 404,
            Fault::AlreadyExists(_) => 409,
            Fault::Unallowed => 403,
            Fault::MalformedAuthorization => 400,
            Fault::NotImplementedYet => 501,
            Fault::UserBlocked => 403,
            Fault::RegistrationCodeInvalid => 400,
            Fault::PasswordCodeInvalid => 400,
            Fault::MissingUserIdOtp => 400,
        }
    }

    /// Exhaustive, centralized mapping from fault kind to HTTP status code.
    pub fn status_code(&self) -> (code: u16)
        ensures
            code == self.status_code_spec(),
    {
        match self {
            Fault::Diesel => 500,
            Fault::DatabaseConnection => 500,
            Fault::NotLoggedIn => 401,
            Fault::UuidConversion => 500,
            Fault::Unexpected => 500,
            Fault::NotFound(_) => 404,
            Fault::AlreadyExists(_) => 409,
            Fault::Unallowed => 403,
            Fault::MalformedAuthorization => 400,
            Fault::NotImplementedYet => 501,
            Fault::UserBlocked => 403,
            Fault::RegistrationCodeInvalid => 400,
            Fault::PasswordCodeInvalid => 400,
            Fault::MissingUserIdOtp => 400,
        }
    }

    /// The fixed user-facing message for each fault kind.
    pub open spec fn message_spec(self) -> Seq<char> {
        match self {
            Fault::Diesel => "Unknown Error"@,
            Fault::DatabaseConnection => "Unknown error"@,
            Fault::NotLoggedIn => "Please log into the application in order to execute this function"@,
            Fault::UuidConversion => "Failed to parse data due to unexpected format"@,
            Fault::Unexpected => "Unknown error"@,
            Fault::NotFound(thing) => thing@ + " not found"@,
            Fault::AlreadyExists(thing) => thing@ + " does already exist"@,
            Fault::Unallowed => "Insufficient permissions"@,
            Fault::MalformedAuthorization => "Authorization header must be in form of `'TOKEN {{auth_token}}'`"@,
            Fault::NotImplementedYet => "Functionality is a To-Do"@,
            Fault::UserBlocked => "Your account has been blocked by an admin. Please reach out to an admin to regain access to this app!"@,
            Fault::RegistrationCodeInvalid => "The entered registration code does not exist"@,
            Fault::PasswordCodeInvalid => "The entered password code does not exist"@,
            Fault::MissingUserIdOtp => "To create a password reset code, please specify a user that is bound to the code"@,
        }
    }

    /// Every fault carries a fixed message per kind; none is silently swallowed.
    pub fn message(&self) -> (m: String)
        ensures
            m@ == self.message_spec(),
    {
        match self {
            Fault::Diesel => "Unknown Error".to_owned(),
            Fault::DatabaseConnection => "Unknown error".to_owned(),
            Fault::NotLoggedIn => "Please log into the application in order to execute this function".to_owned(),
            Fault::UuidConversion => "Failed to parse data due to unexpected format".to_owned(),
            Fault::Unexpected => "Unknown error".to_owned(),
            Fault::NotFound(thing) => thing.clone().concat(" not found"),
            Fault::AlreadyExists(thing) => thing.clone().concat(" does already exist"),
            Fault::Unallowed => "Insufficient permissions".to_owned(),
            Fault::MalformedAuthorization => "Authorization header must be in form of `'TOKEN {{auth_token}}'`".to_owned(),
            Fault::NotImplementedYet => "Functionality is a To-Do".to_owned(),
            Fault::UserBlocked => "Your account has been blocked by an admin. Please reach out to an admin to regain access to this app!".to_owned(),
            Fault::RegistrationCodeInvalid => "The entered registration code does not exist".to_owned(),
            Fault::PasswordCodeInvalid => "The entered password code does not exist".to_owned(),
            Fault::MissingUserIdOtp => "To create a password reset code, please specify a user that is bound to the code".to_owned(),
        }
    }
}

} // verus!
