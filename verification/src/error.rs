//! The error that an operation of the hub answers with.

use vstd::prelude::*;

verus! {

/// An error, as the text that explains it.
#[derive(Debug, Clone, PartialEq, Eq)]
pub struct AppError(pub String);

impl View for AppError {
    type V = Seq<char>;

    open spec fn view(&self) -> Seq<char> {
        self.0@
    }
}

impl AppError {
    pub fn new(text: &str) -> (error: AppError)
        ensures
            error@ == text@,
    {
        AppError(text.to_owned())
    }

    /// The text of the error.
    pub fn message(&self) -> (text: String)
        ensures
            text@ == self@,
    {
        self.0.clone()
    }
}

} // verus!
