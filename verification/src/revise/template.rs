//! The template: the six field parts, the fixed message grammar, and the
//! configurable rendering through the tera engine.
//!
//! [`Template::render`] is the deterministic message grammar the session
//! submits. [`Template::template`] feeds the same fields through the
//! configuration's template text instead; the engine's output is display
//! data and is not pinned by a contract.

use vstd::prelude::*;

verus! {

use crate::commit::{spec_render_fields, view_opt};
use crate::config::ReviseConfig;
use crate::revise::prompts::{
    commit_body,
    commit_breaking,
    commit_issue,
    commit_scope,
    commit_subject,
    commit_type,
};

/// The six field parts of one draft.
#[derive(Debug, Clone)]
pub struct Template {
    pub commit_type: commit_type::Part,
    pub commit_scope: commit_scope::Part,
    pub commit_subject: commit_subject::Part,
    pub commit_body: commit_body::Part,
    pub commit_breaking: commit_breaking::Part,
    pub commit_issue: commit_issue::Part,
}

/// Whether an emoji is configured for the key `k`.
pub open spec fn spec_has_emoji(config: ReviseConfig, k: Seq<char>) -> bool {
    exists|i: int| 0 <= i < config.emojis@.len() && (#[trigger] config.emojis@[i]).key@ == k
}

impl Template {
    /// A fresh template: every field still unanswered.
    pub fn new(config: &ReviseConfig) -> (r: Template)
        ensures
            r.commit_type.ans is None,
            r.commit_scope.ans is None,
            r.commit_subject.ans is None,
            r.commit_body.ans is None,
            r.commit_breaking.ans is None,
            r.commit_issue.ans is None,
    {
        Template {
            commit_type: commit_type::Part::new(config),
            commit_scope: commit_scope::Part::new(config),
            commit_subject: commit_subject::Part::new(),
            commit_body: commit_body::Part::new(),
            commit_breaking: commit_breaking::Part::new(),
            commit_issue: commit_issue::Part::new(),
        }
    }

    /// The resolved commit type.
    pub fn get_ctype(&self) -> (r: String)
        requires
            self.commit_type.ans is Some,
        ensures
            r@ == self.commit_type.ans->0@,
    {
        match &self.commit_type.ans {
            Some(a) => a.clone(),
            None => String::new(),
        }
    }

    /// The emoji configured for the resolved commit type.
    pub fn get_cicon(&self, config: &ReviseConfig) -> (r: String)
        requires
            self.commit_type.ans is Some,
            spec_has_emoji(*config, self.commit_type.ans->0@),
        ensures
            exists|i: int|
                {
                    &&& 0 <= i < config.emojis@.len()
                    &&& (#[trigger] config.emojis@[i]).key@ == self.commit_type.ans->0@
                    &&& r@ == config.emojis@[i].value@
                    &&& forall|j: int|
                        0 <= j < i ==> (#[trigger] config.emojis@[j]).key@
                            != self.commit_type.ans->0@
                },
    {
        let t = self.get_ctype();
        match config.get_emoji(t.as_str()) {
            Some(v) => v,
            None => String::new(),
        }
    }

    /// The resolved scope, when one was given.
    pub fn get_cscope(&self) -> (r: Option<String>)
        ensures
            view_opt(r) == view_opt(self.commit_scope.ans),
    {
        copy_opt(&self.commit_scope.ans)
    }

    /// The resolved subject.
    pub fn get_csubject(&self) -> (r: String)
        requires
            self.commit_subject.ans is Some,
        ensures
            r@ == self.commit_subject.ans->0@,
    {
        match &self.commit_subject.ans {
            Some(a) => a.clone(),
            None => String::new(),
        }
    }

    /// The resolved body, when one was given.
    pub fn get_cbody(&self) -> (r: Option<String>)
        ensures
            view_opt(r) == view_opt(self.commit_body.ans),
    {
        copy_opt(&self.commit_body.ans)
    }

    /// The resolved breaking-change note, when one was given.
    pub fn get_cbreaking(&self) -> (r: Option<String>)
        ensures
            view_opt(r) == view_opt(self.commit_breaking.ans),
    {
        copy_opt(&self.commit_breaking.ans)
    }

    /// The resolved issue reference, when one was given.
    pub fn get_cissue(&self) -> (r: Option<String>)
        ensures
            view_opt(r) == view_opt(self.commit_issue.ans),
    {
        copy_opt(&self.commit_issue.ans)
    }

    /// Renders the draft by the fixed message grammar; pure and
    /// deterministic.
    pub fn render(&self) -> (r: String)
        requires
            self.commit_type.ans is Some,
            self.commit_subject.ans is Some,
        ensures
            r@ == spec_render_fields(
                self.commit_type.ans->0@,
                view_opt(self.commit_scope.ans),
                self.commit_subject.ans->0@,
                view_opt(self.commit_body.ans),
                view_opt(self.commit_breaking.ans),
                view_opt(self.commit_issue.ans),
            ),
    {
        let draft = crate::commit::ReviseCommit {
            commit_type: self.get_ctype(),
            commit_scope: self.get_cscope(),
            commit_subject: self.get_csubject(),
            commit_body: self.get_cbody(),
            commit_breaking: self.get_cbreaking(),
            commit_issue: self.get_cissue(),
            commit_confirm_commit: String::new(),
            commit_status: crate::commit::CommitStatus::Submit,
            commit_message: String::new(),
        };
        let r = draft.render();
        proof {
            assert(view_opt(draft.commit_scope) == view_opt(self.commit_scope.ans));
        }
        r
    }

    /// The key-value pairs handed to the template engine, in a fixed order.
    /// Without colorization each value is pinned; with it, each styled value
    /// comes from the terminal-styling collaborator and only the keys and
    /// the set fields are pinned.
    pub fn render_pairs(&self, config: &ReviseConfig, color: bool) -> (r: Vec<
        (String, Option<String>),
    >)
        requires
            self.commit_type.ans is Some,
            self.commit_subject.ans is Some,
            spec_has_emoji(*config, self.commit_type.ans->0@),
        ensures
            r@.len() == 8,
            r@[0].0@ == "commit_type"@ && r@[0].1 is Some,
            r@[1].0@ == "commit_icon"@ && r@[1].1 is Some,
            r@[2].0@ == "commit_scope"@ && (r@[2].1 is Some <==> self.commit_scope.ans is Some),
            r@[3].0@ == "commit_subject"@ && r@[3].1 is Some,
            r@[4].0@ == "commit_body"@ && view_opt(r@[4].1) == view_opt(self.commit_body.ans),
            r@[5].0@ == "commit_breaking"@ && (r@[5].1 is Some <==> self.commit_breaking.ans
                is Some),
            r@[6].0@ == "commit_breaking_symbol"@ && (r@[6].1 is Some
                <==> self.commit_breaking.ans is Some),
            r@[7].0@ == "commit_issue"@ && (r@[7].1 is Some <==> self.commit_issue.ans is Some),
            !color ==> (r@[0].1->0@ == self.commit_type.ans->0@ && view_opt(r@[2].1) == view_opt(
                self.commit_scope.ans,
            ) && r@[3].1->0@ == self.commit_subject.ans->0@ && view_opt(r@[7].1) == view_opt(
                self.commit_issue.ans,
            )),
            (!color && self.commit_breaking.ans is Some) ==> ((r@[5].1 matches Some(v) && v@
                == "BREAKING CHANGE: "@ + self.commit_breaking.ans->0@) && (
            r@[6].1 matches Some(sym) && sym@ == "!"@)),
    {
        let mut r: Vec<(String, Option<String>)> = Vec::new();
        let ctype = self.get_ctype();
        let icon = self.get_cicon(config);
        let scope = self.get_cscope();
        let subject = self.get_csubject();
        let body = self.get_cbody();
        let breaking = self.get_cbreaking();
        let issue = self.get_cissue();
        if color {
            r.push(("commit_type".to_owned(), Some(crate::color::green(ctype.as_str()))));
            r.push(("commit_icon".to_owned(), Some(icon)));
            let styled_scope: Option<String> = match &scope {
                Some(s) => Some(crate::color::yellow(s.as_str())),
                None => None,
            };
            r.push(("commit_scope".to_owned(), styled_scope));
            r.push(("commit_subject".to_owned(), Some(crate::color::bright_cyan(subject.as_str()))));
            r.push(("commit_body".to_owned(), body));
            match &breaking {
                Some(b) => {
                    let mut v = crate::color::bright_red("BREAKING CHANGE");
                    v.append(": ");
                    let styled = crate::color::purple(b.as_str());
                    v.append(styled.as_str());
                    r.push(("commit_breaking".to_owned(), Some(v)));
                    r.push(("commit_breaking_symbol".to_owned(), Some(crate::color::bright_red("!"))));
                }
                None => {
                    r.push(("commit_breaking".to_owned(), None));
                    r.push(("commit_breaking_symbol".to_owned(), None));
                }
            }
            let styled_issue: Option<String> = match &issue {
                Some(s) => Some(crate::color::blue(s.as_str())),
                None => None,
            };
            r.push(("commit_issue".to_owned(), styled_issue));
        } else {
            r.push(("commit_type".to_owned(), Some(ctype)));
            r.push(("commit_icon".to_owned(), Some(icon)));
            r.push(("commit_scope".to_owned(), scope));
            r.push(("commit_subject".to_owned(), Some(subject)));
            r.push(("commit_body".to_owned(), body));
            match &breaking {
                Some(b) => {
                    let mut v = String::from_str("BREAKING CHANGE: ");
                    v.append(b.as_str());
                    r.push(("commit_breaking".to_owned(), Some(v)));
                    r.push(("commit_breaking_symbol".to_owned(), Some("!".to_owned())));
                }
                None => {
                    r.push(("commit_breaking".to_owned(), None));
                    r.push(("commit_breaking_symbol".to_owned(), None));
                }
            }
            r.push(("commit_issue".to_owned(), issue));
        }
        r
    }

    /// Renders the draft through the configuration's template text; nothing
    /// is returned when the engine refuses the text or the rendering.
    pub fn template(&self, config: &ReviseConfig, color: bool) -> (r: Option<String>)
        requires
            self.commit_type.ans is Some,
            self.commit_subject.ans is Some,
            spec_has_emoji(*config, self.commit_type.ans->0@),
    {
        let mut engine = tera_new();
        if !tera_add_raw_template(&mut engine, "template", config.template.as_str()) {
            return None;
        }
        let mut ctx = context_new();
        let pairs = self.render_pairs(config, color);
        for i in 0..pairs.len() {
            context_insert(&mut ctx, pairs[i].0.as_str(), &pairs[i].1);
        }
        tera_render(&engine, "template", &ctx)
    }
}

/// A copy of an optional string whose content reads the same.
fn copy_opt(o: &Option<String>) -> (r: Option<String>)
    ensures
        view_opt(r) == view_opt(*o),
{
    match o {
        Some(s) => Some(s.clone()),
        None => None,
    }
}

#[verifier::external_type_specification]
#[verifier::external_body]
pub struct ExTera(tera::Tera);

#[verifier::external_type_specification]
#[verifier::external_body]
pub struct ExContext(tera::Context);

/// Relies on tera::Tera::default: a fresh engine with no templates.
#[verifier::external_body]
fn tera_new() -> tera::Tera {
    tera::Tera::default()
}

/// Relies on tera::Tera::add_raw_template: registers `content` under `name`,
/// or refuses it when it is not a well-formed template.
#[verifier::external_body]
fn tera_add_raw_template(engine: &mut tera::Tera, name: &str, content: &str) -> bool {
    match engine.add_raw_template(name, content) {
        Ok(()) => true,
        Err(_) => false,
    }
}

/// Relies on tera::Context::new: a fresh, empty rendering context.
#[verifier::external_body]
fn context_new() -> tera::Context {
    tera::Context::new()
}

/// Relies on tera::Context::insert: binds `key` to `val` in the context; an
/// unset option renders as the engine's null.
#[verifier::external_body]
fn context_insert(ctx: &mut tera::Context, key: &str, val: &Option<String>) {
    ctx.insert(key.to_string(), val)
}

/// Relies on tera::Tera::render: the text of the named template over the
/// context, or nothing when the engine refuses the rendering.
#[verifier::external_body]
fn tera_render(engine: &tera::Tera, name: &str, ctx: &tera::Context) -> Option<String> {
    match engine.render(name, ctx) {
        Ok(s) => Some(s),
        Err(_) => None,
    }
}

} // verus!
