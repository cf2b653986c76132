//! The subject prompt: a required short description.

use vstd::prelude::*;

verus! {

use crate::error::{ReviseError, ReviseResult};

/// The subject prompt's data.
#[derive(Debug, Clone)]
pub struct Part {
    pub msg: String,
    pub ans: Option<String>,
}

impl Part {
    pub fn new() -> (r: Part)
        ensures
            r.ans is None,
    {
        Part {
            msg: "Write a SHORT, IMPERATIVE tense description of the change:\n".to_owned(),
            ans: None,
        }
    }

    /// Takes the answer; an empty one is the validation failure that makes
    /// the prompt ask again, leaving the answer unset.
    pub fn resolve(&mut self, ans: &str) -> (r: ReviseResult<()>)
        ensures
            match r {
                Ok(()) => ans@.len() > 0 && (final(self).ans matches Some(a) && a@ == ans@),
                Err(e) => ans@.len() == 0 && *final(self) == *old(self)
                    && e matches ReviseError::Validation { .. },
            },
    {
        if ans.is_empty() {
            Err(
                ReviseError::Validation {
                    message: "[ERROR] Subject is required and cannot be empty".to_owned(),
                },
            )
        } else {
            self.ans = Some(ans.to_owned());
            Ok(())
        }
    }
}

impl Default for Part {
    fn default() -> (r: Self)
        ensures
            r.ans is None,
    {
        Self::new()
    }
}

} // verus!
