//! The review status of a session, with the same token grammar as
//! [`crate::commit::CommitStatus`].

use vstd::prelude::*;

verus! {

use crate::commit::{CommitStatus, spec_parse_status};
use crate::error::{ReviseError, ReviseResult};

/// The outcome of reviewing an assembled message.
#[derive(Debug, Clone, Copy, PartialEq, Eq)]
pub enum Status {
    Submit,
    Abort,
    Edit,
}

impl Default for Status {
    fn default() -> (r: Self)
        ensures
            r == Status::Submit,
    {
        Status::Submit
    }
}

/// The status a commit status stands for.
pub open spec fn status_of(c: CommitStatus) -> Status {
    match c {
        CommitStatus::Submit => Status::Submit,
        CommitStatus::Abort => Status::Abort,
        CommitStatus::Edit => Status::Edit,
    }
}

impl Status {
    /// Parses a confirmation token by the shared grammar; a token outside it
    /// is the local validation failure that makes the caller ask again.
    pub fn from_str(s: &str) -> (r: ReviseResult<Status>)
        ensures
            match r {
                Ok(st) => (spec_parse_status(s@) matches Some(c) && st == status_of(c)),
                Err(e) => spec_parse_status(s@) is None && e matches ReviseError::Validation {
                    ..
                },
            },
    {
        match CommitStatus::from_str(s) {
            Ok(CommitStatus::Submit) => Ok(Status::Submit),
            Ok(CommitStatus::Abort) => Ok(Status::Abort),
            Ok(CommitStatus::Edit) => Ok(Status::Edit),
            Err(e) => Err(e),
        }
    }

    /// The name of the variant.
    pub fn as_str(&self) -> (r: &'static str)
        ensures
            self is Submit ==> r@ == "Submit"@,
            self is Abort ==> r@ == "Abort"@,
            self is Edit ==> r@ == "Edit"@,
    {
        match self {
            Status::Submit => "Submit",
            Status::Abort => "Abort",
            Status::Edit => "Edit",
        }
    }
}

} // verus!
