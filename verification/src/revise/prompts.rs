//! The field prompts' data and answer resolution.
//!
//! Asking the user happens outside this library. Each part here holds a
//! prompt's fixed message, its options where it has any, and the resolved
//! answer; the resolution of a raw answer into the field's value is decided
//! here, exactly.

pub mod commit_ai;
pub mod commit_body;
pub mod commit_breaking;
pub mod commit_confirm;
pub mod commit_edit;
pub mod commit_issue;
pub mod commit_scope;
pub mod commit_subject;
pub mod commit_type;

use vstd::prelude::*;

verus! {

use crate::text::chars_of;

/// One prompt capability: obtaining its own answer. A driver that asks the
/// user may implement it over the parts here; the library itself only
/// decides how answers resolve.
pub trait Inquire {
    fn inquire(&mut self) -> crate::error::ReviseResult<()>;
}

/// How an editor or free-text answer resolves: an empty answer and the
/// editor's skip marker leave the field unset.
pub open spec fn spec_resolve_editor(ans: Seq<char>) -> Option<Seq<char>> {
    if ans.len() == 0 || ans == "<skipped>"@ {
        None
    } else {
        Some(ans)
    }
}

/// Resolves an editor or free-text answer.
pub fn resolve_editor(ans: &str) -> (r: Option<String>)
    ensures
        crate::commit::view_opt(r) == spec_resolve_editor(ans@),
{
    if ans.is_empty() || crate::text::str_eq(ans, "<skipped>") {
        None
    } else {
        Some(ans.to_owned())
    }
}

/// What a prompt echoes for a submission: the skip marker for an empty one,
/// the text itself up to twenty characters, and its first seventeen
/// characters with a trailing ellipsis beyond that.
pub open spec fn spec_preview(s: Seq<char>) -> Seq<char> {
    if s.len() == 0 {
        "<skipped>"@
    } else if s.len() <= 20 {
        s
    } else {
        s.subrange(0, 17) + "..."@
    }
}

/// The echo line of a submission.
pub fn preview(s: &str) -> (r: String)
    ensures
        r@ == spec_preview(s@),
{
    let cs = chars_of(s);
    if cs.len() == 0 {
        String::from_str("<skipped>")
    } else if cs.len() <= 20 {
        s.to_owned()
    } else {
        let mut r = s.substring_char(0, 17).to_owned();
        r.append("...");
        r
    }
}

} // verus!
