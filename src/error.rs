use vstd::prelude::*;
use vstd::string::StringExecFns;

verus! {

/// An error of the store layer, with its message.
#[derive(Debug, Clone, PartialEq)]
pub struct DBError {
    details: String,
}

impl View for DBError {
    type V = Seq<char>;

    closed spec fn view(&self) -> Seq<char> {
        self.details@
    }
}

impl DBError {
    pub fn new(details: &str) -> (r: Self)
        ensures
            r@ == details@,
    {
        DBError { details: String::from_str(details) }
    }

    /// The message of the error.
    pub fn description(&self) -> (r: &str)
        ensures
            r@ == self@,
    {
        self.details.as_str()
    }
}

} // verus!
