//! The breaking-change prompt: an optional note from the editor.

use vstd::prelude::*;

verus! {

use crate::commit::view_opt;
use crate::error::ReviseResult;
use crate::revise::prompts::{resolve_editor, spec_resolve_editor};

/// The breaking-change prompt's data.
#[derive(Debug, Clone)]
pub struct Part {
    pub msg: String,
    pub ans: Option<String>,
}

impl Part {
    pub fn new() -> (r: Part)
        ensures
            r.ans is None,
    {
        Part { msg: "List any BREAKING CHANGES (optional):".to_owned(), ans: None }
    }

    /// Takes the editor's text; an empty submission or the skip marker
    /// leaves the note unset.
    pub fn resolve(&mut self, ans: &str)
        ensures
            view_opt(final(self).ans) == spec_resolve_editor(ans@),
    {
        self.ans = resolve_editor(ans);
    }
}

impl Default for Part {
    fn default() -> (r: Self)
        ensures
            r.ans is None,
    {
        Self::new()
    }
}

/// Resolves the editor's text for the breaking-change note: an empty
/// submission or the skip marker means none was given.
pub fn inquire_commit_breaking(ans: &str) -> (r: ReviseResult<Option<String>>)
    ensures
        r matches Ok(v) && view_opt(v) == spec_resolve_editor(ans@),
{
    Ok(resolve_editor(ans))
}

} // verus!
