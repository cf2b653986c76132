//! The manual-edit prompt: the editor seeded with the rendered message.

use vstd::prelude::*;

verus! {

/// The edit prompt's data: the message the editor is seeded with, and the
/// text it returned.
#[derive(Debug, Clone)]
pub struct Part {
    pub msg: String,
    pub ans: Option<String>,
    pub commit: String,
}

impl Part {
    /// A fresh prompt seeded with the rendered commit message.
    pub fn new(commit: String) -> (r: Part)
        ensures
            r.ans is None,
            r.commit == commit,
    {
        Part { msg: "You really want to edit this commit manually?".to_owned(), ans: None, commit }
    }

    /// Takes the editor's text verbatim as the final message.
    pub fn resolve(&mut self, edited: &str)
        ensures
            final(self).ans matches Some(a) && a@ == edited@,
    {
        self.ans = Some(edited.to_owned());
    }
}

} // verus!
