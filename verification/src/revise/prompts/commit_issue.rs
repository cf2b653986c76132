//! The issue prompt: an optional issue reference.

use vstd::prelude::*;

verus! {

use crate::commit::view_opt;
use crate::revise::prompts::{resolve_editor, spec_resolve_editor};

/// The issue prompt's data.
#[derive(Debug, Clone)]
pub struct Part {
    pub msg: String,
    pub ans: Option<String>,
}

impl Part {
    pub fn new() -> (r: Part)
        ensures
            r.ans is None,
    {
        Part { msg: "List any ISSUES by this change. E.g.= #31, #34:".to_owned(), ans: None }
    }

    /// Takes the answer; an empty one or the skip marker leaves the issue
    /// unset.
    pub fn resolve(&mut self, ans: &str)
        ensures
            view_opt(final(self).ans) == spec_resolve_editor(ans@),
    {
        self.ans = resolve_editor(ans);
    }
}

impl Default for Part {
    fn default() -> (r: Self)
        ensures
            r.ans is None,
    {
        Self::new()
    }
}

} // verus!
