//! The commit-type prompt: its message, its padded labels, and how a
//! selected label resolves to the type's key.

use vstd::prelude::*;

verus! {

use crate::commit::type_key_for_label;
use crate::config::{ReviseConfig, spec_max_key_len, spec_type_label};
use crate::error::ReviseResult;

/// The type prompt's data.
#[derive(Debug, Clone)]
pub struct Part {
    pub msg: String,
    pub ans: Option<String>,
    pub options: Vec<String>,
}

impl Part {
    /// A fresh prompt offering the configured types' labels.
    pub fn new(config: &ReviseConfig) -> (r: Part)
        ensures
            r.ans is None,
            r.options@.len() == config.types@.len(),
            forall|i: int|
                0 <= i < r.options@.len() ==> (#[trigger] r.options@[i])@ == spec_type_label(
                    config.types@[i],
                    spec_max_key_len(config.types@, 5) + 1,
                ),
    {
        Part {
            msg: "Select the type of change that you're committing:".to_owned(),
            ans: None,
            options: config.get_types(),
        }
    }

    /// Resolves a selected label to its type key; a label no type produced
    /// is an error and leaves the answer unset.
    pub fn resolve(&mut self, config: &ReviseConfig, selection: &str) -> (r: ReviseResult<()>)
        ensures
            match r {
                Ok(()) => (final(self).ans matches Some(key) && exists|i: int|
                    0 <= i < config.types@.len() && (#[trigger] spec_type_label(
                        config.types@[i],
                        spec_max_key_len(config.types@, 5) + 1,
                    )) == selection@ && key@ == config.types@[i].key@),
                Err(_) => *final(self) == *old(self),
            },
    {
        match type_key_for_label(config, selection) {
            Ok(key) => {
                self.ans = Some(key);
                Ok(())
            }
            Err(e) => Err(e),
        }
    }
}

} // verus!
