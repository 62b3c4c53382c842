//! The payload that every operation answers with.

use crate::models::text_of;
use vstd::prelude::*;

verus! {

/// The answer to a request: a success flag, data on success, a reason
/// otherwise.
#[derive(Debug, PartialEq, Eq)]
pub struct ApiResponse<T> {
    pub success: bool,
    pub data: Option<T>,
    pub message: Option<String>,
}

/// A failure of storage or of the gateway. A transport reports it as an
/// internal error, apart from the payloads, and says no more.
#[derive(Clone, Copy, Debug, PartialEq, Eq, Structural)]
pub struct InternalError;

impl<T> ApiResponse<T> {
    /// Whether this is the success payload that carries `data`.
    pub open spec fn is_success_with(self, data: T) -> bool {
        self.success && self.data == Some(data) && self.message is None
    }

    /// Whether this is the refusal that gives `reason`.
    pub open spec fn is_refusal(self, reason: Seq<char>) -> bool {
        !self.success && self.data is None && text_of(self.message) == Some(reason)
    }

    /// The payload of a success.
    pub fn success(data: T) -> (r: ApiResponse<T>)
        ensures
            r.is_success_with(data),
    {
        ApiResponse { success: true, data: Some(data), message: None }
    }

    /// The payload of a refusal: no data, and the reason in words.
    pub fn failure(reason: &str) -> (r: ApiResponse<T>)
        ensures
            r.is_refusal(reason@),
    {
        ApiResponse { success: false, data: None, message: Some(reason.to_owned()) }
    }
}

} // verus!
