//! The error half of every handler's result, and its HTTP status code.

use vstd::prelude::*;

verus! {

/// Why a handler refused a request. A successful read, update or delete
/// answers 200 and a successful create 201; these are the other outcomes.
#[derive(Clone, Copy, PartialEq, Eq, Structural, Debug)]
pub enum ApiError {
    /// No entity of the kind carries the requested id.
    NotFound,
    /// The payload decoded but cannot make a valid entity: a required text
    /// field is empty, or a required field was left out.
    Unprocessable,
    /// The store failed; nothing about the request itself is wrong.
    Internal,
}

impl ApiError {
    /// The status code the error is reported under.
    pub fn http_status(&self) -> (r: u16)
        ensures
            *self == ApiError::NotFound ==> r == 404,
            *self == ApiError::Unprocessable ==> r == 422,
            *self == ApiError::Internal ==> r == 500,
    {
        match self {
            ApiError::NotFound => 404,
            ApiError::Unprocessable => 422,
            ApiError::Internal => 500,
        }
    }
}

} // verus!
