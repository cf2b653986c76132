use vstd::prelude::*;

verus! {

/// The failure taxonomy of the composition pipeline.
///
/// Cancellation of a prompt is deliberately not a variant here: the caller
/// treats a cancelled prompt as a clean no-op outcome, never as an error.
#[derive(Debug, Clone, PartialEq, Eq)]
pub enum ReviseError {
    /// A version-control operation failed.
    Git { message: String },
    /// The AI endpoint answered with a status other than 200; carries the
    /// status and the response body as received.
    Api { status: u16, body: String },
    /// The AI response held no well-formed candidate data.
    Parse { message: String },
    /// A required input was still empty after every fallback.
    Validation { message: String },
    /// A configured hook command failed.
    Hook { message: String },
    /// A selected option was not among those offered.
    Selection { message: String },
}

pub type ReviseResult<T> = Result<T, ReviseError>;

} // verus!
