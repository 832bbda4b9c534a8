//! The domain's error.

use vstd::prelude::*;

verus! {

/// An error of the domain: a value that failed validation.
#[derive(Clone, Debug)]
pub enum Error {
    Validation(String),
}

impl Error {
    /// The text of the error, as it is displayed: the validation message.
    pub fn message(&self) -> (text: &String)
        ensures
            text@ == (match self {
                Error::Validation(m) => m@,
            }),
    {
        match self {
            Error::Validation(m) => m,
        }
    }
}

} // verus!
