//! The account store port: the persistence contract the registration flow
//! depends on. Any conforming adapter (relational, in-memory) may stand
//! behind it.
use vstd::prelude::*;

use crate::entities::User;
use crate::user_id::UserId;
use crate::username::Username;

verus! {

/// How the store reports failure. A uniqueness violation on the handle must
/// be distinguishable from any other fault, and the cause of an
/// infrastructure fault is carried along for diagnosis.
#[derive(Debug, Clone, PartialEq, Eq)]
pub enum StoreError {
    /// An account with the same handle is already persisted.
    DuplicateUsername,
    /// Storage failed for a reason unrelated to the input.
    Unavailable(String),
}

/// The persistence port. `accounts` abstracts the store as a map from handle
/// text to the persisted account.
///
/// `create` must be all-or-nothing for a single call: on any error the
/// store's contents are unchanged. It may report `DuplicateUsername` even
/// when the account was absent from this handle's view of the store — that
/// is how a concurrent writer's uniqueness violation surfaces — so a caller
/// must treat any availability pre-check as best-effort only.
pub trait UserRepositories: Sized {
    /// The persisted accounts, by handle text.
    spec fn accounts(&self) -> Map<Seq<char>, User>;

    /// Persists `user`; returns its identifier. Fails with
    /// `DuplicateUsername` when the handle's uniqueness constraint is
    /// violated, and persists nothing on failure.
    fn create(&mut self, user: User) -> (r: Result<UserId, StoreError>)
        ensures
            r matches Ok(id) ==> id == user.id && final(self).accounts() == old(self).accounts().insert(
                user.username@,
                user,
            ),
            r is Err ==> final(self).accounts() == old(self).accounts(),
    ;

    /// Looks an account up by its handle.
    fn find_by_id(&self, username: &Username) -> (r: Option<User>)
        ensures
            r matches Some(u) ==> self.accounts().contains_key(username@) && u
                == self.accounts()[username@],
            r is None ==> !self.accounts().contains_key(username@),
    ;
}

} // verus!
