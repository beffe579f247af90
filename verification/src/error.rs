use vstd::prelude::*;

verus! {

/// Failure taxonomy of the persistence gateway and the service logic.
///
/// `DbNotFound` reports an absent record and carries the key that was looked
/// up; `Db` reports any other store failure with its message; `MutexError`
/// reports a failure to acquire the shared store connection. Errors are
/// propagated unchanged up to the request handlers, which map them to
/// protocol-level error codes.
#[derive(Debug)]
pub enum CustomError {
    Db(String),
    DbNotFound(String),
    MutexError,
}

impl CustomError {
    /// The human-readable message carried by this error.
    pub fn message(&self) -> (r: &str)
        ensures
            match self {
                CustomError::Db(m) => r@ == m@,
                CustomError::DbNotFound(k) => r@ == k@,
                CustomError::MutexError => r@ == "Mutex error"@,
            },
    {
        match self {
            CustomError::Db(m) => m.as_str(),
            CustomError::DbNotFound(k) => k.as_str(),
            CustomError::MutexError => "Mutex error",
        }
    }
}

} // verus!
