//! Errors reported by the library.
use vstd::prelude::*;

verus! {

/// What went wrong while reading a card's text form.
#[derive(Debug, PartialEq, Eq)]
pub enum TrelloError {
    /// The text could not be read back as a card; the message says why.
    CardParse(String),
}

impl TrelloError {
    /// A human-readable description of the error.
    pub fn message(&self) -> (r: String)
        ensures
            match self {
                TrelloError::CardParse(m) => r@ == m@,
            },
    {
        match self {
            TrelloError::CardParse(m) => m.clone(),
        }
    }
}

} // verus!
