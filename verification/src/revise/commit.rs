//! A session's draft: the resolved template, the review status, and the
//! rendered message.

use vstd::prelude::*;

verus! {

use crate::commit::{spec_render_fields, view_opt};
use crate::revise::status::Status;
use crate::revise::template::Template;

/// The draft a session reviews: its template, the review status, and the
/// message the template renders to.
#[derive(Debug, Clone)]
pub struct ReviseCommit {
    pub template: Template,
    pub status: Status,
    pub message: String,
}

/// The message a resolved template renders to.
pub open spec fn spec_template_message(t: Template) -> Seq<char> {
    spec_render_fields(
        t.commit_type.ans->0@,
        view_opt(t.commit_scope.ans),
        t.commit_subject.ans->0@,
        view_opt(t.commit_body.ans),
        view_opt(t.commit_breaking.ans),
        view_opt(t.commit_issue.ans),
    )
}

impl ReviseCommit {
    /// A draft over a resolved template, with its message rendered and the
    /// status at its starting value.
    pub fn new(template: Template) -> (r: ReviseCommit)
        requires
            template.commit_type.ans is Some,
            template.commit_subject.ans is Some,
        ensures
            r.template == template,
            r.status == Status::Submit,
            r.message@ == spec_template_message(template),
    {
        let message = template.render();
        ReviseCommit { template, status: Status::Submit, message }
    }

    /// Renders the template again into the message, after its fields
    /// changed.
    pub fn run(&mut self)
        requires
            old(self).template.commit_type.ans is Some,
            old(self).template.commit_subject.ans is Some,
        ensures
            final(self).template == old(self).template,
            final(self).status == old(self).status,
            final(self).message@ == spec_template_message(old(self).template),
    {
        self.message = self.template.render();
    }
}

} // verus!
