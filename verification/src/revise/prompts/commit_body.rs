//! The body prompt: an optional longer description from the editor.

use vstd::prelude::*;

verus! {

use crate::commit::view_opt;
use crate::revise::prompts::{resolve_editor, spec_resolve_editor};

/// The body prompt's data.
#[derive(Debug, Clone)]
pub struct Part {
    pub msg: String,
    pub ans: Option<String>,
}

impl Part {
    pub fn new() -> (r: Part)
        ensures
            r.ans is None,
    {
        Part {
            msg: "Provide a LONGER description of the change (optional):".to_owned(),
            ans: None,
        }
    }

    /// Takes the editor's text; an empty submission or the skip marker
    /// leaves the body unset.
    pub fn resolve(&mut self, ans: &str)
        ensures
            view_opt(final(self).ans) == spec_resolve_editor(ans@),
    {
        self.ans = resolve_editor(ans);
    }
}

impl Default for Part {
    fn default() -> (r: Self)
        ensures
            r.ans is None,
    {
        Self::new()
    }
}

} // verus!
