//! Domain errors shared by the service and its storage backends.

use vstd::prelude::*;

verus! {

/// `Error` is the error taxonomy at the service boundary.
///
/// - `InvalidInput`: the request was understood but is not legal now
///   (for example an event that the current game phase rejects).
/// - `NotFound`: a referenced game or player id is absent in storage.
/// - `Conflict`: a creation was attempted with an id already in use.
/// - `Internal`: a storage or encoding failure unrelated to domain rules.
#[derive(Debug)]
pub enum Error {
    InvalidInput(String),
    NotFound,
    Conflict,
    Internal(String),
}

} // verus!
