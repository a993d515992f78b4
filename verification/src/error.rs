//! Why an entry could not be put together.
use vstd::prelude::*;

verus! {

/// Sitemap errors.
#[derive(Debug)]
pub enum Error {
    /// The entry is invalid; the text says why.
    Invalid(String),
}

impl Error {
    /// The text of the error, as a sequence of characters.
    pub open spec fn message(self) -> Seq<char> {
        match self {
            Error::Invalid(text) => text@,
        }
    }

    /// The text of the error.
    pub fn to_string(&self) -> (res: String)
        ensures
            res@ == self.message(),
    {
        match self {
            Error::Invalid(text) => text.clone(),
        }
    }
}

} // verus!
