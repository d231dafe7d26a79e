//! The error taxonomy of the gateway core. Nothing is swallowed or silently
//! downgraded: every failing operation returns one of these, and the two
//! transport variants carry the underlying message verbatim.

use vstd::prelude::*;

verus! {

/// Why an operation failed.
#[derive(Debug)]
pub enum OpError {
    /// The cluster connection could not be established from the given
    /// config locator and context name.
    ConfigError(String),
    /// The server rejected the call or the transport failed.
    ApiError(String),
    /// The addressed object does not exist.
    NotFound,
    /// An optimistic-concurrency precondition failed; the object was left
    /// untouched.
    Conflict,
    /// The operation is not valid for this resource type; detected before
    /// any network call.
    Unsupported,
    /// Malformed caller input.
    InvalidArgument,
    /// No terminal emulator on the probe list could be launched.
    NoTerminalFound,
    /// A terminal emulator was present but starting its process failed.
    ProcessSpawnError(String),
}

impl OpError {
    /// Sort one failed API call into the taxonomy, from its HTTP status (if
    /// the server answered) and its message: the not-found and conflict
    /// statuses keep their own kinds, and anything else — a transport
    /// failure, or any other server rejection — surfaces its message
    /// verbatim as `ApiError`.
    pub fn classify_api_failure(status: Option<u16>, message: String) -> (r: OpError)
        ensures
            status == Some(404u16) ==> r is NotFound,
            status == Some(409u16) ==> r is Conflict,
            (status != Some(404u16) && status != Some(409u16)) ==> (
            r matches OpError::ApiError(m) && m == message),
    {
        match status {
            Some(404) => OpError::NotFound,
            Some(409) => OpError::Conflict,
            _ => OpError::ApiError(message),
        }
    }

    /// A stable one-word token naming the error's kind.
    pub fn code(&self) -> (r: &'static str)
        ensures
            *self is ConfigError ==> r@ == "config-error"@,
            *self is ApiError ==> r@ == "api-error"@,
            *self is NotFound ==> r@ == "not-found"@,
            *self is Conflict ==> r@ == "conflict"@,
            *self is Unsupported ==> r@ == "unsupported"@,
            *self is InvalidArgument ==> r@ == "invalid-argument"@,
            *self is NoTerminalFound ==> r@ == "no-terminal-found"@,
            *self is ProcessSpawnError ==> r@ == "process-spawn-error"@,
    {
        match self {
            OpError::ConfigError(_) => "config-error",
            OpError::ApiError(_) => "api-error",
            OpError::NotFound => "not-found",
            OpError::Conflict => "conflict",
            OpError::Unsupported => "unsupported",
            OpError::InvalidArgument => "invalid-argument",
            OpError::NoTerminalFound => "no-terminal-found",
            OpError::ProcessSpawnError(_) => "process-spawn-error",
        }
    }
}

} // verus!
