//! Who last changed a record.
use vstd::prelude::*;
use vstd::string::*;

verus! {

/// The principal that last changed a record.
#[derive(Debug, PartialEq, Eq, Hash)]
pub struct UpdatedBy(String);

impl Clone for UpdatedBy {
    fn clone(&self) -> (res: UpdatedBy)
        ensures
            res == *self,
    {
        UpdatedBy(self.0.clone())
    }
}

impl View for UpdatedBy {
    type V = Seq<char>;

    closed spec fn view(&self) -> Seq<char> {
        self.0@
    }
}

impl UpdatedBy {
    /// Wraps the given principal name.
    pub fn new(updated_by: &str) -> (r: UpdatedBy)
        ensures
            r@ == updated_by@,
    {
        UpdatedBy(updated_by.to_owned())
    }

    /// The stored name.
    pub fn as_str(&self) -> (r: &str)
        ensures
            r@ == self@,
    {
        self.0.as_str()
    }
}

} // verus!
