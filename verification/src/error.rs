//! The error shape handed to the transport layer, and the mapping from
//! registration failures onto it: validation and conflict failures are safe
//! to show verbatim, infrastructure failures are shown generically.
use vstd::prelude::*;
use vstd::string::*;

use crate::user_service::RegistrationError;
use crate::username::UserNameError;
use crate::email::EmailError;
use crate::password::PasswordError;

verus! {

/// A transport-level failure.
#[derive(Debug, Clone, PartialEq, Eq)]
pub enum AppError {
    BadRequest(String),
    NotFound(String),
    InternalServerError(String),
}

impl AppError {
    /// The caller-visible message.
    pub fn message(&self) -> (m: &str)
        ensures
            m@ == (match self {
                AppError::BadRequest(s) => s@,
                AppError::NotFound(s) => s@,
                AppError::InternalServerError(s) => s@,
            }),
    {
        match self {
            AppError::BadRequest(s) => s.as_str(),
            AppError::NotFound(s) => s.as_str(),
            AppError::InternalServerError(s) => s.as_str(),
        }
    }

    /// Maps a registration failure to what the caller is shown: input and
    /// conflict failures verbatim, an infrastructure failure as a generic
    /// transient indication (its cause stays on the registration error for
    /// diagnosis).
    pub fn of_registration(e: &RegistrationError) -> (r: AppError)
        ensures
            match e {
                RegistrationError::Unavailable(_) => r matches AppError::InternalServerError(_),
                _ => r matches AppError::BadRequest(_),
            },
            e matches RegistrationError::Identity(UserNameError::TooShort) ==> (r matches
                AppError::BadRequest(m) && m@ == "Username too short (min 3 characters)"@),
            e matches RegistrationError::Identity(UserNameError::TooLong) ==> (r matches
                AppError::BadRequest(m) && m@ == "Username too long (max 20 characters)"@),
            e matches RegistrationError::Identity(UserNameError::InvalidCharacters) ==> (r matches
                AppError::BadRequest(m) && m@ == "Username contains invalid characters"@),
            e matches RegistrationError::Credential(PasswordError::TooShort) ==> (r matches
                AppError::BadRequest(m) && m@ == "Password too short"@),
            e matches RegistrationError::Credential(PasswordError::DerivationFailed) ==> (
            r matches AppError::BadRequest(m) && m@ == "Password could not be processed"@),
            e matches RegistrationError::Contact(EmailError::TooLong) ==> (r matches
                AppError::BadRequest(m) && m@ == "Email too long (max 254 characters)"@),
            e matches RegistrationError::Contact(EmailError::InvalidFormat) ==> (r matches
                AppError::BadRequest(m) && m@ == "Invalid email format"@),
            e is Conflict ==> (r matches AppError::BadRequest(m) && m@
                == "Username already exists"@),
            e matches RegistrationError::Unavailable(_) ==> (r matches
                AppError::InternalServerError(m) && m@ == "service temporarily unavailable"@),
    {
        match e {
            RegistrationError::Identity(UserNameError::TooShort) => AppError::BadRequest(
                "Username too short (min 3 characters)".to_owned(),
            ),
            RegistrationError::Identity(UserNameError::TooLong) => AppError::BadRequest(
                "Username too long (max 20 characters)".to_owned(),
            ),
            RegistrationError::Identity(UserNameError::InvalidCharacters) => AppError::BadRequest(
                "Username contains invalid characters".to_owned(),
            ),
            RegistrationError::Credential(PasswordError::TooShort) => AppError::BadRequest(
                "Password too short".to_owned(),
            ),
            RegistrationError::Credential(PasswordError::DerivationFailed) => AppError::BadRequest(
                "Password could not be processed".to_owned(),
            ),
            RegistrationError::Contact(EmailError::TooLong) => AppError::BadRequest(
                "Email too long (max 254 characters)".to_owned(),
            ),
            RegistrationError::Contact(EmailError::InvalidFormat) => AppError::BadRequest(
                "Invalid email format".to_owned(),
            ),
            RegistrationError::Conflict => AppError::BadRequest(
                "Username already exists".to_owned(),
            ),
            RegistrationError::Unavailable(_) => AppError::InternalServerError(
                "service temporarily unavailable".to_owned(),
            ),
        }
    }
}

} // verus!
