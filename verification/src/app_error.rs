use vstd::prelude::*;

verus! {

/// Errors reported to API clients.
#[derive(Debug)]
pub enum AppError {
    /// The request is malformed or fails validation.
    BadRequest(String),
    /// The requested resource does not exist.
    NotFound(String),
}

/// `r` is a bad-request error carrying exactly `message`.
pub open spec fn is_bad_request<T>(r: Result<T, AppError>, message: Seq<char>) -> bool {
    r matches Err(AppError::BadRequest(m)) && m@ == message
}

} // verus!
