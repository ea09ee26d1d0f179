//! The error taxonomy of the command surface.

use vstd::prelude::*;

verus! {

/// Every command failure carries one of these kinds.
///
/// `NotConfigured` is the distinguished "no active session" failure, so a
/// front end can render that state specifically rather than as a generic
/// error. `ConfigurationFailed` wraps the cause of a failed session
/// construction. `InvalidEncoding` reports a malformed add-from-bytes
/// payload, and `NotFound` an unknown job identifier.
#[derive(Debug)]
pub enum CommandError {
    NotConfigured,
    ConfigurationFailed { message: String },
    InvalidEncoding,
    NotFound,
}

impl CommandError {
    /// A human-readable description, in place of `Display`.
    pub fn message(&self) -> (r: String)
        ensures
            (self is NotConfigured) ==> r@ == "not configured"@,
            (self is ConfigurationFailed) ==> r@ == self->ConfigurationFailed_message@,
            (self is InvalidEncoding) ==> r@ == "invalid base64 payload"@,
            (self is NotFound) ==> r@ == "no such job"@,
    {
        match self {
            CommandError::NotConfigured => "not configured".to_owned(),
            CommandError::ConfigurationFailed { message } => message.clone(),
            CommandError::InvalidEncoding => "invalid base64 payload".to_owned(),
            CommandError::NotFound => "no such job".to_owned(),
        }
    }
}

} // verus!
