//! The flat storage record of an account, and its two conversions: an
//! account flattens losslessly, and a stored record is re-validated on the
//! way back — a record that no longer parses is reported as corrupt, never
//! panicked on.
use vstd::prelude::*;
use vstd::string::*;

use crate::email::{lower_of, valid_email, EmailAddress};
use crate::entities::User;
use crate::password::Password;
use crate::user_id::{canonical_of, digits_of, valid_hyphenated, valid_identifier_text,
    value_of_digits, UserId};
use crate::username::{trim_spec, username_valid, Username};

verus! {

/// The store round trip: a record flattened from an account whose handle is
/// valid and whose contact is stored lower-cased, email-shaped and within
/// bounds (as every account built from ASCII input is) reconstructs — its
/// success condition holds — and every reconstructed field equals the
/// account's own.
pub proof fn lemma_flattened_record_reconstructs(u: User, m: UserModel)
    requires
        m.id@ == canonical_of(u.id),
        m.username@ == u.username@,
        m.password@ == u.password_hash@,
        m.email@ == u.email_address@,
        u.username.wf(),
        u.email_address@.len() <= 254,
        valid_email(u.email_address@),
        lower_of(u.email_address@) == u.email_address@,
    ensures
        valid_hyphenated(m.id@),
        value_of_digits(digits_of(m.id@)) == u.id,
        username_valid(m.username@),
        trim_spec(m.username@) == u.username@,
        m.email@.len() <= 254 && valid_email(m.email@),
        lower_of(m.email@) == u.email_address@,
        lower_of(m.email@).len() <= 254,
{
    crate::user_id::lemma_canonical_round_trip(u.id);
}

/// Why a stored record could not be turned back into an account: a field
/// that was valid when persisted no longer parses, which is a
/// data-integrity fault of the store, not a caller error.
#[derive(Debug, Clone, Copy, PartialEq, Eq)]
pub enum ModelError {
    CorruptRecord,
}

/// The flat record a store adapter persists.
#[derive(Debug, Clone)]
pub struct UserModel {
    pub id: String,
    pub username: String,
    pub password: String,
    pub email: String,
}

impl UserModel {
    /// A record from its four columns.
    pub fn new(id: String, username: String, password: String, email: String) -> (r: UserModel)
        ensures
            r.id == id,
            r.username == username,
            r.password == password,
            r.email == email,
    {
        UserModel { id, username, password, email }
    }

    /// Flattens an account into its stored record.
    pub fn from_user(user: &User) -> (r: UserModel)
        ensures
            r.id@ == canonical_of(user.id),
            r.username@ == user.username@,
            r.password@ == user.password_hash@,
            r.email@ == user.email_address@,
    {
        UserModel {
            id: user.id.as_str(),
            username: user.username.as_str().to_owned(),
            password: user.password_hash.as_str().to_owned(),
            email: user.email_address.as_str().to_owned(),
        }
    }

    /// Re-validates a stored record into an account. The credential is
    /// wrapped as it stands; identifier, handle and contact must still
    /// parse, else the record is corrupt.
    pub fn to_user(&self) -> (r: Result<User, ModelError>)
        ensures
            r is Ok <==> valid_identifier_text(self.id@) && username_valid(self.username@)
                && self.email@.len() <= 254 && valid_email(self.email@) && lower_of(
                self.email@,
            ).len() <= 254,
            r matches Ok(u) ==> {
                &&& u.id == value_of_digits(digits_of(self.id@))
                &&& u.username@ == trim_spec(self.username@)
                &&& u.password_hash@ == self.password@
                &&& u.email_address@ == lower_of(self.email@)
                &&& u.audit is None
            },
            r matches Err(e) ==> e == ModelError::CorruptRecord,
    {
        let id = match UserId::from_string(self.id.as_str()) {
            Ok(v) => v,
            Err(_) => {
                return Err(ModelError::CorruptRecord);
            },
        };
        let username = match Username::new(self.username.as_str()) {
            Ok(v) => v,
            Err(_) => {
                return Err(ModelError::CorruptRecord);
            },
        };
        let email_address = match EmailAddress::new(self.email.clone()) {
            Ok(v) => v,
            Err(_) => {
                return Err(ModelError::CorruptRecord);
            },
        };
        let password_hash = Password::from_hash(self.password.clone());
        Ok(User { id, username, password_hash, email_address, audit: None })
    }
}

} // verus!
