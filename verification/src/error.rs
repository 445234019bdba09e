//! The errors that the API answers with.
use vstd::prelude::*;

verus! {

/// Why a request failed.
#[derive(Clone, Debug, PartialEq, Eq)]
pub enum AppError {
    /// The page, or the revision asked for, does not exist.
    NotFound,
    /// Anything else, with a message.
    Internal(String),
}

} // verus!
