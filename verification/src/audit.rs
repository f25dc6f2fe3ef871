//! Audit metadata carried by a record: when and by whom it was created and
//! last changed.
use vstd::prelude::*;

use crate::created_at::CreatedAt;
use crate::created_by::CreatedBy;
use crate::updated_at::UpdatedAt;
use crate::updated_by::UpdatedBy;

verus! {

/// Creation and modification metadata.
#[derive(Debug, PartialEq, Eq, Hash)]
pub struct Audit {
    pub created_at: CreatedAt,
    pub updated_at: Option<UpdatedAt>,
    pub created_by: Option<CreatedBy>,
    pub updated_by: Option<UpdatedBy>,
}

impl Clone for Audit {
    fn clone(&self) -> (res: Audit)
        ensures
            res == *self,
    {
        Audit {
            created_at: self.created_at,
            updated_at: self.updated_at,
            created_by: match &self.created_by {
                Some(c) => Some(c.clone()),
                None => None,
            },
            updated_by: match &self.updated_by {
                Some(u) => Some(u.clone()),
                None => None,
            },
        }
    }
}

impl Audit {
    /// Audit metadata holding only the creation instant.
    pub fn with_created_at(created_at: CreatedAt) -> (r: Audit)
        ensures
            r.created_at == created_at,
            r.updated_at is None,
            r.created_by is None,
            r.updated_by is None,
    {
        Audit { created_at, updated_at: None, created_by: None, updated_by: None }
    }
}

} // verus!
