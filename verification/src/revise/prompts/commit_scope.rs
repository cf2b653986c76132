//! The scope prompt: its options and how a selection resolves.

use vstd::prelude::*;

verus! {

use crate::cli::views;
use crate::commit::{spec_resolve_scope, view_opt};
use crate::config::ReviseConfig;
use crate::text::index_of_str;

/// The options the scope prompt offers: the configured scopes, with `empty`
/// put first and `custom` put last where the configuration lacks them.
pub open spec fn spec_scope_options(scopes: Seq<Seq<char>>) -> Seq<Seq<char>> {
    let with_empty = if scopes.contains("empty"@) {
        scopes
    } else {
        seq!["empty"@] + scopes
    };
    if with_empty.contains("custom"@) {
        with_empty
    } else {
        with_empty.push("custom"@)
    }
}

/// Whether some option in `v` reads `name`.
fn has_name(v: &Vec<String>, name: &str) -> (r: bool)
    ensures
        r == views(v@).contains(name@),
{
    let found = index_of_str(v, name);
    proof {
        match found {
            Some(i) => {
                assert(views(v@)[i as int] == name@);
            }
            None => {
                if views(v@).contains(name@) {
                    let i = choose|i: int| 0 <= i < views(v@).len() && views(v@)[i] == name@;
                    assert(v@[i]@ == name@);
                }
            }
        }
    }
    found.is_some()
}

/// The scope prompt's data.
#[derive(Debug, Clone)]
pub struct Part {
    pub msg: String,
    pub ans: Option<String>,
    pub options: Vec<String>,
}

impl Part {
    /// A fresh prompt offering the configured scopes, with `empty` put
    /// first and `custom` put last where the configuration lacks them.
    pub fn new(config: &ReviseConfig) -> (r: Part)
        ensures
            r.ans is None,
            views(r.options@) == spec_scope_options(views(config.scopes@)),
    {
        let mut options = config.get_scopes();
        proof {
            assert(views(options@) =~~= views(config.scopes@));
        }
        if !has_name(&options, "empty") {
            let ghost pre = options@;
            options.insert(0, "empty".to_owned());
            proof {
                assert(views(options@) =~~= seq!["empty"@] + views(pre));
            }
        }
        if !has_name(&options, "custom") {
            let ghost pre = options@;
            options.push("custom".to_owned());
            proof {
                assert(views(options@) =~~= views(pre).push("custom"@));
            }
        }
        Part {
            msg: "Denote the SCOPE of this change (optional):".to_owned(),
            ans: None,
            options,
        }
    }

    /// Resolves the selection: `custom` defers to the free-form text
    /// (dropped when empty), `empty` leaves the scope unset, and any other
    /// selection is the scope itself.
    pub fn resolve(&mut self, selection: &str, custom: &str)
        ensures
            view_opt(final(self).ans) == spec_resolve_scope(selection@, custom@),
    {
        if crate::text::str_eq(selection, "custom") {
            if custom.is_empty() {
                self.ans = None;
            } else {
                self.ans = Some(custom.to_owned());
            }
        } else if crate::text::str_eq(selection, "empty") {
            self.ans = None;
        } else {
            self.ans = Some(selection.to_owned());
        }
    }
}

} // verus!
