//! The account entity: the aggregate of identifier, handle, credential,
//! contact and audit metadata. It is assembled only from already-validated
//! values and is never mutated in place.
use vstd::prelude::*;

use crate::audit::Audit;
use crate::created_at::CreatedAt;
use crate::email::EmailAddress;
use crate::password::Password;
use crate::user_id::{is_version7, UserId};
use crate::username::Username;

verus! {

/// A registered account.
#[derive(Debug, PartialEq, Eq, Hash)]
pub struct User {
    pub id: UserId,
    pub username: Username,
    pub password_hash: Password,
    pub email_address: EmailAddress,
    pub audit: Option<Audit>,
}

impl Clone for User {
    fn clone(&self) -> (res: User)
        ensures
            res == *self,
    {
        User {
            id: self.id,
            username: self.username.clone(),
            password_hash: self.password_hash.clone(),
            email_address: self.email_address.clone(),
            audit: match &self.audit {
                Some(a) => Some(a.clone()),
                None => None,
            },
        }
    }
}

impl User {
    /// Every account holds valid sub-values.
    pub open spec fn wf(&self) -> bool {
        self.username.wf() && self.email_address.wf()
    }

    /// Assembles a fresh account: allocates a new identifier and stamps the
    /// creation instant at the same moment. Pure value construction, no
    /// other effect.
    pub fn new(username: Username, password_hash: Password, email_address: EmailAddress) -> (r:
        User)
        requires
            username.wf(),
            email_address.wf(),
        ensures
            r.username == username,
            r.password_hash == password_hash,
            r.email_address == email_address,
            is_version7(r.id),
            r.audit matches Some(a) && a.updated_at is None && a.created_by is None
                && a.updated_by is None,
            r.wf(),
    {
        let created_at = CreatedAt::now();
        let id = UserId::new();
        let audit = Audit::with_created_at(created_at);
        User { id, username, password_hash, email_address, audit: Some(audit) }
    }
}

} // verus!
