//! The registration service: validates the raw input, checks availability,
//! assembles the account and persists it — each step attempted exactly once,
//! terminating on the first failure.
use vstd::prelude::*;
use vstd::string::*;

use crate::commands::AddUserCommand;
use crate::email::{lower_of, valid_email, EmailAddress, EmailError};
use crate::entities::User;
use crate::password::{verifies, Password, PasswordError};
use crate::repository::{StoreError, UserRepositories};
use crate::user_id::{is_version7, UserId};
use crate::username::{trim_spec, username_err, username_valid, Username, UserNameError};

verus! {

/// Why a registration call failed.
#[derive(Debug, Clone, PartialEq, Eq)]
pub enum RegistrationError {
    /// The handle was rejected.
    Identity(UserNameError),
    /// The secret was rejected.
    Credential(PasswordError),
    /// The contact address was rejected.
    Contact(EmailError),
    /// The handle is already registered.
    Conflict,
    /// Storage or infrastructure failed; the cause is carried along.
    Unavailable(String),
}

/// The validation verdict on raw input: the handle first, then the secret's
/// length, then the contact — the first failure wins, and the expensive hash
/// derivation is never reached for input that fails here.
pub open spec fn validation_outcome(cmd: AddUserCommand) -> Option<RegistrationError> {
    if !username_valid(cmd.username@) {
        Some(RegistrationError::Identity(username_err(cmd.username@)))
    } else if cmd.password@.len() < 8 {
        Some(RegistrationError::Credential(PasswordError::TooShort))
    } else if cmd.email@.len() > 254 {
        Some(RegistrationError::Contact(EmailError::TooLong))
    } else if !valid_email(cmd.email@) {
        Some(RegistrationError::Contact(EmailError::InvalidFormat))
    } else if lower_of(cmd.email@).len() > 254 {
        Some(RegistrationError::Contact(EmailError::TooLong))
    } else {
        None
    }
}

/// The validated values of one registration request, ready to be assembled
/// into an account.
pub struct ValidatedRegistration {
    pub username: Username,
    pub password_hash: Password,
    pub email_address: EmailAddress,
}

/// The validation step of a registration: constructs the three values,
/// stopping at the first failure, exactly as `validation_outcome` says; the
/// secret is hashed only once everything else was accepted, and a hashing
/// backend failure surfaces as `Unavailable`.
pub fn validate_registration(cmd: &AddUserCommand) -> (r: Result<
    ValidatedRegistration,
    RegistrationError,
>)
    ensures
        validation_outcome(*cmd) matches Some(e) ==> r == Err::<ValidatedRegistration,
            RegistrationError,
        >(e),
        r matches Err(e) ==> validation_outcome(*cmd) == Some(e) || (e matches
            RegistrationError::Unavailable(_) && validation_outcome(*cmd) is None),
        r matches Ok(v) ==> {
            &&& validation_outcome(*cmd) is None
            &&& v.username@ == trim_spec(cmd.username@)
            &&& v.username.wf()
            &&& v.email_address@ == lower_of(cmd.email@)
            &&& v.email_address.wf()
            &&& verifies(v.password_hash@, cmd.password@)
        },
{
    let username = match Username::new(cmd.username.as_str()) {
        Ok(u) => u,
        Err(e) => {
            return Err(RegistrationError::Identity(e));
        },
    };
    if cmd.password.as_str().unicode_len() < 8 {
        return Err(RegistrationError::Credential(PasswordError::TooShort));
    }
    let email_address = match EmailAddress::new(cmd.email.clone()) {
        Ok(v) => v,
        Err(e) => {
            return Err(RegistrationError::Contact(e));
        },
    };
    let password_hash = match Password::from_plain(cmd.password.as_str()) {
        Ok(p) => p,
        Err(e) => {
            match e {
                PasswordError::TooShort => {
                    proof {
                        assert(false);
                    }
                    return Err(RegistrationError::Credential(PasswordError::TooShort));
                },
                PasswordError::DerivationFailed => {
                    return Err(
                        RegistrationError::Unavailable("credential derivation failed".to_owned()),
                    );
                },
            }
        },
    };
    Ok(ValidatedRegistration { username, password_hash, email_address })
}

/// How a store failure surfaces to the caller: a uniqueness violation is a
/// `Conflict`, anything else is `Unavailable` with its cause kept.
pub fn map_store_error(e: StoreError) -> (r: RegistrationError)
    ensures
        e == StoreError::DuplicateUsername ==> r == RegistrationError::Conflict,
        e matches StoreError::Unavailable(cause) ==> r == RegistrationError::Unavailable(cause),
{
    match e {
        StoreError::DuplicateUsername => RegistrationError::Conflict,
        StoreError::Unavailable(cause) => RegistrationError::Unavailable(cause),
    }
}

/// The registration orchestrator, generic over the store behind the port.
pub struct UserApplicationService<R> {
    pub user_repo: R,
}

impl<R: UserRepositories> UserApplicationService<R> {
    /// A service over the given store.
    pub fn new(user_repo: R) -> (r: UserApplicationService<R>)
        ensures
            r.user_repo == user_repo,
    {
        UserApplicationService { user_repo }
    }

    /// Registers one account. Validation failures are reported exactly as
    /// `validation_outcome` says, before the store is touched; a handle that
    /// is already present is a `Conflict`; on success the store gains
    /// exactly the new account: its handle is the trimmed input, its contact
    /// the lower-cased input, and its credential verifies against the
    /// submitted secret. On any failure the store is left as it was.
    pub fn create(&mut self, cmd: AddUserCommand) -> (r: Result<UserId, RegistrationError>)
        ensures
            validation_outcome(cmd) matches Some(e) ==> r == Err::<UserId, RegistrationError>(e)
                && final(self).user_repo == old(self).user_repo,
            validation_outcome(cmd) is None && old(self).user_repo.accounts().contains_key(
                trim_spec(cmd.username@),
            ) ==> r == Err::<UserId, RegistrationError>(RegistrationError::Conflict) || (
            r matches Err(RegistrationError::Unavailable(_))),
            r matches Ok(id) ==> {
                let key = trim_spec(cmd.username@);
                let accs = final(self).user_repo.accounts();
                &&& validation_outcome(cmd) is None
                &&& !old(self).user_repo.accounts().contains_key(key)
                &&& accs.contains_key(key)
                &&& accs == old(self).user_repo.accounts().insert(key, accs[key])
                &&& accs[key].username@ == key
                &&& accs[key].email_address@ == lower_of(cmd.email@)
                &&& verifies(accs[key].password_hash@, cmd.password@)
                &&& accs[key].id == id
                &&& accs[key].audit is Some
                &&& accs[key].wf()
                &&& is_version7(id)
            },
            r is Err ==> final(self).user_repo.accounts() == old(self).user_repo.accounts(),
            r matches Err(e) ==> e == RegistrationError::Conflict || (e matches
                RegistrationError::Unavailable(_)) || validation_outcome(cmd) == Some(e),
    {
        let validated = match validate_registration(&cmd) {
            Ok(v) => v,
            Err(e) => {
                return Err(e);
            },
        };
        if self.user_repo.find_by_id(&validated.username).is_some() {
            return Err(RegistrationError::Conflict);
        }
        let user = User::new(
            validated.username,
            validated.password_hash,
            validated.email_address,
        );
        match self.user_repo.create(user) {
            Ok(id) => Ok(id),
            Err(e) => Err(map_store_error(e)),
        }
    }
}

} // verus!
