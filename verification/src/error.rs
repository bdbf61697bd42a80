//! The one way in which the record store fails.

use vstd::prelude::*;

verus! {

/// An error as contracts see it.
pub enum ErrorView {
    Database(Seq<char>),
}

/// A failure of the record store.
#[derive(Debug, PartialEq, Eq)]
pub enum Error {
    /// The storage engine could not carry a statement out. The field holds
    /// the engine's own words for the cause; faults are not told apart
    /// any further.
    Database(String),
}

impl View for Error {
    type V = ErrorView;

    open spec fn view(&self) -> ErrorView {
        match *self {
            Error::Database(cause) => ErrorView::Database(cause@),
        }
    }
}

impl Error {
    /// How the error presents itself, whatever its cause.
    pub fn to_string(&self) -> (text: String)
        ensures
            text@ == "database error"@,
    {
        "database error".to_owned()
    }

    /// The storage engine's words for what went wrong.
    pub fn cause(&self) -> (cause: &String)
        ensures
            self@ == ErrorView::Database(cause@),
    {
        match self {
            Error::Database(cause) => cause,
        }
    }
}

} // verus!
