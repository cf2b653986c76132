//! The confirmation prompt: reviewing the assembled message.
//!
//! Showing the preview and reading the token happen outside this library;
//! what a token means and what the answer becomes are decided here. A
//! submission keeps the rendered message; an edit replaces it verbatim with
//! the editor's text.

use vstd::prelude::*;

verus! {

use crate::commit::{spec_parse_status, spec_render_fields};
use crate::revise::status::{Status, status_of};
use crate::revise::template::Template;

/// The confirmation prompt's data: the template under review and the final
/// answer.
#[derive(Debug, Clone)]
pub struct Part {
    pub msg: String,
    pub ans: Option<String>,
    pub template: Template,
}

impl Part {
    /// A fresh prompt reviewing `template`.
    pub fn new(template: Template) -> (r: Part)
        ensures
            r.ans is None,
            r.template == template,
    {
        Part {
            msg: "Are you sure you want to proceed with the commit above?".to_owned(),
            ans: None,
            template,
        }
    }

    /// What a confirmation token decides, by the shared grammar; a token
    /// outside it decides nothing and the caller asks again.
    pub fn decide(&self, token: &str) -> (r: Option<Status>)
        ensures
            match spec_parse_status(token@) {
                Some(c) => r == Some(status_of(c)),
                None => r is None,
            },
    {
        match Status::from_str(token) {
            Ok(st) => Some(st),
            Err(_) => None,
        }
    }

    /// Takes the rendered message as the answer: what submitting keeps.
    pub fn resolve_submit(&mut self)
        requires
            old(self).template.commit_type.ans is Some,
            old(self).template.commit_subject.ans is Some,
        ensures
            final(self).ans matches Some(a) && a@ == spec_render_fields(
                old(self).template.commit_type.ans->0@,
                crate::commit::view_opt(old(self).template.commit_scope.ans),
                old(self).template.commit_subject.ans->0@,
                crate::commit::view_opt(old(self).template.commit_body.ans),
                crate::commit::view_opt(old(self).template.commit_breaking.ans),
                crate::commit::view_opt(old(self).template.commit_issue.ans),
            ),
            final(self).template == old(self).template,
    {
        let rendered = self.template.render();
        self.ans = Some(rendered);
    }

    /// Takes the editor's text verbatim as the answer, discarding the
    /// structured field breakdown: what editing keeps.
    pub fn resolve_edit(&mut self, edited: &str)
        ensures
            final(self).ans matches Some(a) && a@ == edited@,
            final(self).template == old(self).template,
    {
        self.ans = Some(edited.to_owned());
    }
}

} // verus!
