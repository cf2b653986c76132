//! The candidate-selection prompt: one fingerprint per proposed message.

use vstd::prelude::*;

verus! {

/// The candidate prompt's data.
#[derive(Debug, Clone)]
pub struct Part {
    pub msg: String,
    pub ans: Option<String>,
    pub options: Vec<String>,
}

impl Part {
    /// A fresh prompt offering the given fingerprints.
    pub fn new(options: Vec<String>) -> (r: Part)
        ensures
            r.ans is None,
            r.options == options,
    {
        Part { msg: "Select the message to be committing :".to_owned(), ans: None, options }
    }

    /// Takes the selected fingerprint.
    pub fn resolve(&mut self, selection: &str)
        ensures
            final(self).ans matches Some(a) && a@ == selection@,
    {
        self.ans = Some(selection.to_owned());
    }
}

} // verus!
