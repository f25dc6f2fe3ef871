//! Who created a record.
use vstd::prelude::*;
use vstd::string::*;

verus! {

/// The principal that created a record.
#[derive(Debug, PartialEq, Eq, Hash)]
pub struct CreatedBy(String);

impl Clone for CreatedBy {
    fn clone(&self) -> (res: CreatedBy)
        ensures
            res == *self,
    {
        CreatedBy(self.0.clone())
    }
}

impl View for CreatedBy {
    type V = Seq<char>;

    closed spec fn view(&self) -> Seq<char> {
        self.0@
    }
}

impl CreatedBy {
    /// Wraps the given principal name.
    pub fn new(created_by: &str) -> (r: CreatedBy)
        ensures
            r@ == created_by@,
    {
        CreatedBy(created_by.to_owned())
    }

    /// The stored name.
    pub fn as_str(&self) -> (r: &str)
        ensures
            r@ == self@,
    {
        self.0.as_str()
    }
}

impl From<String> for CreatedBy {
    fn from(s: String) -> (r: CreatedBy) {
        CreatedBy(s)
    }
}

impl vstd::std_specs::convert::FromSpecImpl<String> for CreatedBy {
    open spec fn obeys_from_spec() -> bool {
        true
    }

    closed spec fn from_spec(s: String) -> CreatedBy {
        CreatedBy(s)
    }
}

impl From<&str> for CreatedBy {
    fn from(s: &str) -> (r: CreatedBy) {
        CreatedBy(s.to_owned())
    }
}

impl vstd::std_specs::convert::FromSpecImpl<&str> for CreatedBy {
    open spec fn obeys_from_spec() -> bool {
        false
    }

    closed spec fn from_spec(s: &str) -> CreatedBy {
        choose|c: CreatedBy| c@ == s@
    }
}

} // verus!
