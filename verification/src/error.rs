//! The errors that the library's own logic reports.
use vstd::prelude::*;

verus! {

/// An error of the translation and dictionary logic; network, storage and
/// terminal failures are reported by the program around the library.
#[derive(Debug)]
pub enum AppError {
    /// The input was rejected, with the reason.
    InvalidInput(String),
    /// A dictionary entry or a stored record does not exist.
    NotFound(String),
    /// A remote service answered with something unusable.
    Protocol(String),
    /// Any other failure.
    General(String),
}

} // verus!
