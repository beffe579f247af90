use vstd::prelude::*;

use crate::error::CustomError;

verus! {

/// The protocol-level error codes the handlers emit.
///
/// `InvalidArgument` reports a request rejected before any store access:
/// a missing required sub-message, a malformed identifier, an
/// unrepresentable timestamp. `Internal` reports a failure of the service
/// logic or the store.
#[derive(Clone, Copy, Debug, PartialEq, Eq, Structural)]
pub enum StatusCode {
    InvalidArgument,
    Internal,
}

/// A protocol-level error: a code together with a message for the caller.
#[derive(Debug)]
pub struct Status {
    pub code: StatusCode,
    pub message: String,
}

impl Status {
    /// A rejection of the request itself; no store access was attempted.
    pub fn invalid_argument(message: &str) -> (r: Status)
        ensures
            r.code == StatusCode::InvalidArgument,
            r.message@ == message@,
    {
        Status { code: StatusCode::InvalidArgument, message: message.to_owned() }
    }

    /// A failure inside the service.
    pub fn internal(message: String) -> (r: Status)
        ensures
            r.code == StatusCode::Internal,
            r.message == message,
    {
        Status { code: StatusCode::Internal, message }
    }

    /// Maps a service failure to its protocol-level error: every error of
    /// the persistence gateway surfaces as an internal error carrying the
    /// message it arrived with.
    pub fn from_error(e: CustomError) -> (r: Status)
        ensures
            r.code == StatusCode::Internal,
            match e {
                CustomError::Db(m) => r.message == m,
                CustomError::DbNotFound(k) => r.message == k,
                CustomError::MutexError => r.message@ == "Mutex error"@,
            },
    {
        match e {
            CustomError::Db(m) => Status { code: StatusCode::Internal, message: m },
            CustomError::DbNotFound(k) => Status { code: StatusCode::Internal, message: k },
            CustomError::MutexError => Status {
                code: StatusCode::Internal,
                message: "Mutex error".to_owned(),
            },
        }
    }
}

} // verus!
