//! The ways in which a search can fail.

use vstd::prelude::*;

verus! {

/// Why a query could not be built, sent or answered.
#[derive(Clone, Copy, Debug, PartialEq, Eq, Structural)]
pub enum Error {
    /// The page could not be fetched.
    ConnectionError,
    /// The page could not be read as markup at all.
    ParseError,
    /// The query names a service that is not known.
    InvalidServiceError,
    /// The query text, the one required field, is empty.
    RequiredFieldError,
    /// The operation exists in name only.
    NotImplementedError,
    /// The service answered with something other than a result page.
    InvalidResponseError,
}

} // verus!
