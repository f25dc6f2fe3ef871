//! An in-memory account store: a conforming adapter for tests and for any
//! use that needs no external storage.
use vstd::prelude::*;

use crate::entities::User;
use crate::repository::{StoreError, UserRepositories};
use crate::user_id::UserId;
use crate::username::Username;

verus! {

/// The accounts a sequence of records denotes: a later record with the same
/// handle overrides an earlier one (the store itself never keeps two).
pub open spec fn accounts_of(s: Seq<User>) -> Map<Seq<char>, User>
    decreases s.len(),
{
    if s.len() == 0 {
        Map::empty()
    } else {
        accounts_of(s.drop_last()).insert(s.last().username@, s.last())
    }
}

/// An account store kept in a vector.
pub struct InMemoryUserRepository {
    users: Vec<User>,
}

proof fn lemma_accounts_lookup(s: Seq<User>, k: Seq<char>, i: int)
    requires
        0 <= i < s.len(),
        s[i].username@ == k,
        forall|j: int| i < j < s.len() ==> s[j].username@ != k,
    ensures
        accounts_of(s).contains_key(k),
        accounts_of(s)[k] == s[i],
    decreases s.len(),
{
    if i == s.len() - 1 {
    } else {
        lemma_accounts_lookup(s.drop_last(), k, i);
    }
}

proof fn lemma_accounts_has_key(s: Seq<User>, i: int)
    requires
        0 <= i < s.len(),
    ensures
        accounts_of(s).contains_key(s[i].username@),
    decreases s.len(),
{
    if i < s.len() - 1 {
        lemma_accounts_has_key(s.drop_last(), i);
    }
}

proof fn lemma_accounts_no_key(s: Seq<User>, k: Seq<char>)
    requires
        forall|j: int| 0 <= j < s.len() ==> s[j].username@ != k,
    ensures
        !accounts_of(s).contains_key(k),
    decreases s.len(),
{
    if s.len() > 0 {
        lemma_accounts_no_key(s.drop_last(), k);
    }
}

impl InMemoryUserRepository {
    /// An empty store.
    pub fn new() -> (r: InMemoryUserRepository)
        ensures
            r.accounts() == Map::<Seq<char>, User>::empty(),
    {
        InMemoryUserRepository { users: Vec::new() }
    }
}

impl UserRepositories for InMemoryUserRepository {
    closed spec fn accounts(&self) -> Map<Seq<char>, User> {
        accounts_of(self.users@)
    }

    /// Beyond the port's contract: this store succeeds exactly when the
    /// handle is absent, and a duplicate is the only failure.
    fn create(&mut self, user: User) -> (r: Result<UserId, StoreError>)
        ensures
            !old(self).accounts().contains_key(user.username@) ==> r == Ok::<UserId, StoreError>(
                user.id,
            ),
            old(self).accounts().contains_key(user.username@) ==> r is Err,
            r is Err ==> r == Err::<UserId, StoreError>(StoreError::DuplicateUsername),
    {
        let n = self.users.len();
        let mut i: usize = 0;
        while i < n
            invariant
                n == self.users@.len(),
                0 <= i <= n,
                forall|j: int| 0 <= j < i ==> self.users@[j].username@ != user.username@,
            decreases n - i,
        {
            if self.users[i].username == user.username {
                proof {
                    lemma_accounts_has_key(self.users@, i as int);
                }
                return Err(StoreError::DuplicateUsername);
            }
            i = i + 1;
        }
        proof {
            lemma_accounts_no_key(self.users@, user.username@);
        }
        let id = user.id;
        let ghost before = self.users@;
        self.users.push(user);
        proof {
            assert(self.users@.drop_last() =~= before);
        }
        Ok(id)
    }

    fn find_by_id(&self, username: &Username) -> (r: Option<User>) {
        let mut i = self.users.len();
        while i > 0
            invariant
                i <= self.users@.len(),
                forall|j: int| i <= j < self.users@.len() ==> self.users@[j].username@ != username@,
            decreases i,
        {
            i = i - 1;
            if self.users[i].username == *username {
                proof {
                    lemma_accounts_lookup(self.users@, username@, i as int);
                }
                return Some(self.users[i].clone());
            }
        }
        proof {
            lemma_accounts_no_key(self.users@, username@);
        }
        None
    }
}

} // verus!
