//! The error value every command returns, and the mapping from domain failures.

use vstd::prelude::*;

verus! {

/// The error returned across the command boundary: a machine-readable code and a message.
#[derive(Clone, Debug)]
pub struct CommandError {
    pub code: String,
    pub message: String,
}

/// The kinds of failure the domain services report.
#[derive(Clone, Debug)]
pub enum DomainError {
    Validation(String),
    Storage(String),
    NotFound(String),
    Unauthorized(String),
    Serialization(String),
    Unsupported(String),
}

/// The code a domain failure is reported under.
pub open spec fn domain_error_code(err: DomainError) -> Seq<char> {
    match err {
        DomainError::Validation(_) => "validation_error"@,
        DomainError::Storage(_) => "storage_error"@,
        DomainError::NotFound(_) => "not_found"@,
        DomainError::Unauthorized(_) => "unauthorized"@,
        DomainError::Serialization(_) => "serialization_error"@,
        DomainError::Unsupported(_) => "unsupported"@,
    }
}

/// The message a domain failure carries.
pub open spec fn domain_error_message(err: DomainError) -> Seq<char> {
    match err {
        DomainError::Validation(m) => m@,
        DomainError::Storage(m) => m@,
        DomainError::NotFound(m) => m@,
        DomainError::Unauthorized(m) => m@,
        DomainError::Serialization(m) => m@,
        DomainError::Unsupported(m) => m@,
    }
}

impl CommandError {
    /// Builds an error from a code and a message.
    pub fn new(code: &str, message: String) -> (r: CommandError)
        ensures
            r.code@ == code@,
            r.message@ == message@,
    {
        CommandError { code: code.to_string(), message }
    }

    /// Translates a domain failure into the command error the boundary reports.
    pub fn from_domain(err: DomainError) -> (r: CommandError)
        ensures
            r.code@ == domain_error_code(err),
            r.message@ == domain_error_message(err),
    {
        match err {
            DomainError::Validation(message) => CommandError::new("validation_error", message),
            DomainError::Storage(message) => CommandError::new("storage_error", message),
            DomainError::NotFound(message) => CommandError::new("not_found", message),
            DomainError::Unauthorized(message) => CommandError::new("unauthorized", message),
            DomainError::Serialization(message) => CommandError::new("serialization_error", message),
            DomainError::Unsupported(message) => CommandError::new("unsupported", message),
        }
    }
}

/// A storage failure with the message of the underlying error.
pub fn storage_error(message: String) -> (r: CommandError)
    ensures
        r.code@ == "storage_error"@,
        r.message@ == message@,
{
    CommandError::new("storage_error", message)
}

} // verus!
