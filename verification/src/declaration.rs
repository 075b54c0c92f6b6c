//! Common response declarations: the error payload every route can answer
//! with, and the outcome a database call hands back to the decision logic.

use vstd::prelude::*;

verus! {

/// A user of the shop, as the database keys them.
pub type ClientId = String;

/// The error body a route answers with when a database call fails:
/// a numeric error code and a human-readable message.
#[derive(Debug)]
pub struct ApiError {
    pub code: u16,
    pub message: String,
}

impl ApiError {
    pub fn new(code: u16, message: String) -> (r: Self)
        ensures
            r.code == code,
            r.message == message,
    {
        Self { code, message }
    }
}

/// What a database call handed back: its value on success, or a failure.
/// The routes never inspect the driver's error value, only whether the
/// call succeeded, so the failure case carries nothing.
#[derive(Debug)]
pub enum DbOutcome<T> {
    Succeeded(T),
    Failed,
}

} // verus!
