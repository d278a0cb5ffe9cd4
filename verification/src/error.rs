use vstd::prelude::*;

verus! {

/// Error taxonomy for a single invocation.
///
/// Every variant carries the human-readable message that the surrounding
/// runtime logs when the invocation is reported as failed.
#[derive(Debug, Clone, PartialEq, Eq)]
pub enum ApplicationError {
    /// The backend client or its configuration could not be constructed.
    InitError(String),
    /// Malformed or invalid call arguments, local to one operation.
    ClientError(String),
    /// An unexpected internal fault while converting or propagating another
    /// error.
    InternalError(String),
    /// The backend store's own failure (timeout, throttling, transport
    /// fault), with its message preserved.
    SdkError(String),
}

impl ApplicationError {
    /// The message carried by this error, whichever variant holds it.
    pub open spec fn spec_message(&self) -> Seq<char> {
        match self {
            ApplicationError::InitError(msg) => msg@,
            ApplicationError::ClientError(msg) => msg@,
            ApplicationError::InternalError(msg) => msg@,
            ApplicationError::SdkError(msg) => msg@,
        }
    }

    /// Returns the carried message, for logging and for reporting the
    /// failure upward.
    pub fn message(&self) -> (r: String)
        ensures
            r@ == self.spec_message(),
    {
        match self {
            ApplicationError::InitError(msg) => msg.clone(),
            ApplicationError::ClientError(msg) => msg.clone(),
            ApplicationError::InternalError(msg) => msg.clone(),
            ApplicationError::SdkError(msg) => msg.clone(),
        }
    }
}

} // verus!
