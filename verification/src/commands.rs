//! The raw input of one registration request.
use vstd::prelude::*;

verus! {

/// The three raw fields a caller submits to register an account.
#[derive(Debug, Clone)]
pub struct AddUserCommand {
    pub username: String,
    pub password: String,
    pub email: String,
}

} // verus!
