//! The boundary error: every failure a request handler can meet collapses
//! into one message-carrying value that the presentation layer renders as
//! a generic failure page.

use vstd::prelude::*;
use vstd::string::StringExecFns;
use crate::store::StoreError;

verus! {

/// A request-level failure, carrying the message the failure page shows.
pub struct AppError {
    pub message: String,
}

/// The message text for each store failure.
pub open spec fn store_error_message(e: StoreError) -> Seq<char> {
    match e {
        StoreError::NotFound => "contact not found"@,
        StoreError::Failure { cause } => "storage failure: "@ + cause@,
    }
}

impl AppError {
    /// Wrap a store failure for the boundary, keeping its cause in the
    /// rendered message.
    pub fn from_store(e: StoreError) -> (r: AppError)
        ensures
            r.message@ == store_error_message(e),
    {
        match e {
            StoreError::NotFound => AppError { message: String::from_str("contact not found") },
            StoreError::Failure { cause } => AppError {
                message: String::from_str("storage failure: ").concat(cause.as_str()),
            },
        }
    }
}

} // verus!
