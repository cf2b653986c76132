//! The composition controller, as an explicit state machine.
//!
//! The controller decides; the caller performs. [`Session::start`] picks the
//! mode from the session's commands; each call to [`Session::step`] then
//! consumes one event — the diff, a prompt's answer, the joined AI result —
//! and returns the next action: ask a field, start or join the AI unit of
//! work, offer the candidates, show the preview, run the editor, or finish
//! with an outcome. In AI mode the unit of work starts before the local
//! field prompts and is joined only after the last of them. Cancellation at
//! any point finishes cleanly with the aborted outcome, never an error; an
//! AI failure finishes with that error unchanged.

use vstd::prelude::*;

verus! {

use crate::ai::gemini::CandidateSet;
use crate::cli::{AICommand, ReviseCommands};
use crate::config::ReviseConfig;
use crate::commit::{spec_parse_status, spec_render_fields, view_opt, CommitStatus};
use crate::error::{ReviseError, ReviseResult};
use crate::revise::prompts::{commit_body, commit_breaking, commit_issue, commit_scope,
    commit_subject, commit_type};
use crate::revise::template::Template;

/// One commit field the controller asks for.
#[derive(Debug, Clone, Copy, PartialEq, Eq, Structural)]
pub enum FieldKind {
    Type,
    Scope,
    Subject,
    Body,
    Breaking,
    Issue,
}

/// Where a session stands.
#[derive(Debug, Clone, Copy, PartialEq, Eq, Structural)]
pub enum State {
    AwaitingDiff,
    AwaitingFallback,
    SpawningAi,
    AwaitingField { field: FieldKind },
    AwaitingJoin,
    AwaitingCandidate,
    AwaitingConfirm,
    AwaitingEdit,
    Finished,
}

/// How a session ends: a message to commit, a clean no-op, or a failure.
#[derive(Debug, Clone, PartialEq, Eq)]
pub enum Outcome {
    Message { text: String },
    Aborted,
    Failed { error: ReviseError },
}

/// What the caller performs next.
#[derive(Debug)]
pub enum Action {
    /// Obtain the filtered staged diff.
    GetDiff { excludes: Vec<String> },
    /// Ask for raw text, the fallback when the resolved text was empty.
    AskText,
    /// Start the AI unit of work over `text`.
    StartAi { text: String },
    /// Ask the named field's prompt.
    AskField { field: FieldKind },
    /// Block on the AI unit of work.
    JoinAi,
    /// Offer the candidate fingerprints as a single choice.
    AskCandidate { options: Vec<String> },
    /// Show the preview and ask for a confirmation token.
    AskConfirm { preview: String },
    /// Open the editor seeded with the rendered message.
    OpenEditor { seed: String },
    /// The session is over.
    Finish { outcome: Outcome },
}

/// What the caller hands back.
#[derive(Debug)]
pub enum Event {
    /// The diff arrived, or the version-control call failed.
    Diff { result: ReviseResult<String> },
    /// The fallback text prompt's answer.
    Text { text: String },
    /// The AI unit of work is running.
    AiSpawned,
    /// A field prompt's resolved answer.
    Field { value: Option<String> },
    /// The AI unit of work finished.
    AiJoined { result: ReviseResult<CandidateSet> },
    /// A candidate fingerprint was selected.
    CandidateChosen { key: String },
    /// A confirmation token was typed.
    ConfirmInput { token: String },
    /// The editor returned.
    Edited { text: String },
    /// The user interrupted a prompt.
    Cancelled,
}

/// One composition session.
#[derive(Debug)]
pub struct Session {
    pub manual: bool,
    pub template: Template,
    pub candidates: Option<CandidateSet>,
    pub state: State,
}

/// The field asked after `f`, if one is left: manual mode asks all six in
/// order; AI mode asks type, scope, breaking and issue, deferring subject
/// and body to the selected candidate.
pub open spec fn spec_next_field(manual: bool, f: FieldKind) -> Option<FieldKind> {
    if manual {
        match f {
            FieldKind::Type => Some(FieldKind::Scope),
            FieldKind::Scope => Some(FieldKind::Subject),
            FieldKind::Subject => Some(FieldKind::Body),
            FieldKind::Body => Some(FieldKind::Breaking),
            FieldKind::Breaking => Some(FieldKind::Issue),
            FieldKind::Issue => None,
        }
    } else {
        match f {
            FieldKind::Type => Some(FieldKind::Scope),
            FieldKind::Scope => Some(FieldKind::Breaking),
            FieldKind::Breaking => Some(FieldKind::Issue),
            _ => None,
        }
    }
}

/// `t` with the named field's answer replaced.
pub open spec fn spec_with_field(t: Template, f: FieldKind, v: Option<String>) -> Template {
    match f {
        FieldKind::Type => Template {
            commit_type: commit_type::Part { ans: v, ..t.commit_type },
            ..t
        },
        FieldKind::Scope => Template {
            commit_scope: commit_scope::Part { ans: v, ..t.commit_scope },
            ..t
        },
        FieldKind::Subject => Template {
            commit_subject: commit_subject::Part { ans: v, ..t.commit_subject },
            ..t
        },
        FieldKind::Body => Template {
            commit_body: commit_body::Part { ans: v, ..t.commit_body },
            ..t
        },
        FieldKind::Breaking => Template {
            commit_breaking: commit_breaking::Part { ans: v, ..t.commit_breaking },
            ..t
        },
        FieldKind::Issue => Template {
            commit_issue: commit_issue::Part { ans: v, ..t.commit_issue },
            ..t
        },
    }
}

/// `s` with another state.
pub open spec fn with_state(s: Session, st: State) -> Session {
    Session { state: st, ..s }
}

/// `s` with another state and template.
pub open spec fn with_template_state(s: Session, t: Template, st: State) -> Session {
    Session { template: t, state: st, ..s }
}

/// The message the session's template renders to.
pub open spec fn spec_preview(s: Session) -> Seq<char> {
    spec_render_fields(
        s.template.commit_type.ans->0@,
        view_opt(s.template.commit_scope.ans),
        s.template.commit_subject.ans->0@,
        view_opt(s.template.commit_body.ans),
        view_opt(s.template.commit_breaking.ans),
        view_opt(s.template.commit_issue.ans),
    )
}

impl Session {
    /// The draft is as far along as the state says: the type is resolved
    /// once its prompt is past, the subject wherever the grammar needs it,
    /// and a well-formed candidate set is held while one is offered.
    pub open spec fn wf(&self) -> bool {
        match self.state {
            State::AwaitingField { field } => {
                &&& (field != FieldKind::Type ==> self.template.commit_type.ans is Some)
                &&& ((self.manual && (field == FieldKind::Body || field == FieldKind::Breaking
                    || field == FieldKind::Issue)) ==> self.template.commit_subject.ans is Some)
            },
            State::AwaitingJoin => self.template.commit_type.ans is Some,
            State::AwaitingCandidate => self.template.commit_type.ans is Some
                && (self.candidates matches Some(cs) && cs.wf()),
            State::AwaitingConfirm | State::AwaitingEdit => self.template.commit_type.ans is Some
                && self.template.commit_subject.ans is Some,
            _ => true,
        }
    }
}

/// Whether `e` is the event the session's state awaits.
pub open spec fn event_fits(s: Session, e: Event) -> bool {
    match e {
        Event::Cancelled => !(s.state is Finished),
        Event::Diff { .. } => s.state is AwaitingDiff,
        Event::Text { .. } => s.state is AwaitingFallback,
        Event::AiSpawned => s.state is SpawningAi,
        Event::Field { .. } => s.state is AwaitingField,
        Event::AiJoined { result } => s.state is AwaitingJoin && (result matches Ok(cs)
            ==> cs.wf()),
        Event::CandidateChosen { .. } => s.state is AwaitingCandidate,
        Event::ConfirmInput { .. } => s.state is AwaitingConfirm,
        Event::Edited { .. } => s.state is AwaitingEdit,
    }
}

/// The transition relation of [`Session::step`]: how one event moves the
/// session on, and which action it returns.
pub open spec fn spec_step(pre: Session, e: Event, post: Session, a: Action) -> bool {
    match e {
        Event::Cancelled => post == with_state(pre, State::Finished) && a == (Action::Finish {
            outcome: Outcome::Aborted,
        }),
        Event::Diff { result } => match result {
            Err(err) => post == with_state(pre, State::Finished) && a == (Action::Finish {
                outcome: Outcome::Failed { error: err },
            }),
            Ok(text) => {
                if text@.len() == 0 {
                    post == with_state(pre, State::AwaitingFallback) && a == Action::AskText
                } else {
                    post == with_state(pre, State::SpawningAi) && a == (Action::StartAi { text })
                }
            },
        },
        Event::Text { text } => {
            if text@.len() == 0 {
                &&& post == with_state(pre, State::Finished)
                &&& (a matches Action::Finish { outcome: Outcome::Failed { error } }
                    && error matches ReviseError::Validation { message } && message@
                    == "Translate message is empty"@)
            } else {
                post == with_state(pre, State::SpawningAi) && a == (Action::StartAi { text })
            }
        },
        Event::AiSpawned => post == with_state(
            pre,
            State::AwaitingField { field: FieldKind::Type },
        ) && a == (Action::AskField { field: FieldKind::Type }),
        Event::Field { value } => {
            let field = pre.state->AwaitingField_field;
            let retry = match field {
                FieldKind::Type => value is None,
                FieldKind::Subject => !(value matches Some(v) && v@.len() > 0),
                _ => false,
            };
            if retry {
                post == pre && a == (Action::AskField { field })
            } else {
                let t = spec_with_field(pre.template, field, value);
                match spec_next_field(pre.manual, field) {
                    Some(next) => post == with_template_state(
                        pre,
                        t,
                        State::AwaitingField { field: next },
                    ) && a == (Action::AskField { field: next }),
                    None => {
                        if pre.manual {
                            &&& post == with_template_state(pre, t, State::AwaitingConfirm)
                            &&& (a matches Action::AskConfirm { preview } && preview@
                                == spec_preview(post))
                        } else {
                            post == with_template_state(pre, t, State::AwaitingJoin) && a
                                == Action::JoinAi
                        }
                    },
                }
            }
        },
        Event::AiJoined { result } => match result {
            Err(err) => post == with_state(pre, State::Finished) && a == (Action::Finish {
                outcome: Outcome::Failed { error: err },
            }),
            Ok(cs) => {
                &&& post == (Session {
                    candidates: Some(cs),
                    state: State::AwaitingCandidate,
                    ..pre
                })
                &&& (a matches Action::AskCandidate { options } && options@.len()
                    == cs.spec_len() && (forall|i: int|
                    0 <= i < options@.len() ==> (#[trigger] options@[i])@ == cs.spec_keys()[i]))
            },
        },
        Event::CandidateChosen { key } => {
            let cs = pre.candidates->0;
            if cs.spec_contains_key(key@) {
                &&& (exists|i: int|
                    {
                        &&& 0 <= i < cs.spec_len()
                        &&& (#[trigger] cs.spec_keys()[i]) == key@
                        &&& post.template.commit_subject.ans matches Some(m) && m@ == cs.spec_at(
                            i,
                        ).message@
                        &&& post.template.commit_body.ans matches Some(b) && b@ == cs.spec_at(
                            i,
                        ).body@
                    })
                &&& post.template.commit_type.ans == pre.template.commit_type.ans
                &&& post.template.commit_scope.ans == pre.template.commit_scope.ans
                &&& post.template.commit_breaking.ans == pre.template.commit_breaking.ans
                &&& post.template.commit_issue.ans == pre.template.commit_issue.ans
                &&& post.manual == pre.manual
                &&& post.candidates == pre.candidates
                &&& post.state == State::AwaitingConfirm
                &&& (a matches Action::AskConfirm { preview } && preview@ == spec_preview(post))
            } else {
                &&& post == pre
                &&& (a matches Action::AskCandidate { options } && options@.len()
                    == cs.spec_len() && (forall|i: int|
                    0 <= i < options@.len() ==> (#[trigger] options@[i])@ == cs.spec_keys()[i]))
            }
        },
        Event::ConfirmInput { token } => match spec_parse_status(token@) {
            None => post == pre && (a matches Action::AskConfirm { preview } && preview@
                == spec_preview(pre)),
            Some(CommitStatus::Submit) => post == with_state(pre, State::Finished) && (
            a matches Action::Finish { outcome: Outcome::Message { text } } && text@
                == spec_preview(pre)),
            Some(CommitStatus::Abort) => post == with_state(pre, State::Finished) && a == (
            Action::Finish { outcome: Outcome::Aborted }),
            Some(CommitStatus::Edit) => post == with_state(pre, State::AwaitingEdit) && (
            a matches Action::OpenEditor { seed } && seed@ == spec_preview(pre)),
        },
        Event::Edited { text } => post == with_state(pre, State::Finished) && a == (
        Action::Finish { outcome: Outcome::Message { text } }),
    }
}

/// A negative confirmation aborts cleanly: the session finishes with the
/// no-op outcome and never yields a message, so the caller has nothing to
/// commit.
pub proof fn lemma_abort_never_commits(pre: Session, post: Session, a: Action, token: String)
    requires
        spec_step(pre, Event::ConfirmInput { token }, post, a),
        spec_parse_status(token@) == Some(CommitStatus::Abort),
    ensures
        a == (Action::Finish { outcome: Outcome::Aborted }),
        post.state is Finished,
{
}

/// A failed AI unit of work propagates unchanged: the session finishes
/// failed with exactly the error the join returned.
pub proof fn lemma_ai_failure_propagates(
    pre: Session,
    post: Session,
    a: Action,
    err: ReviseError,
)
    requires
        spec_step(pre, Event::AiJoined { result: Err(err) }, post, a),
    ensures
        a == (Action::Finish { outcome: Outcome::Failed { error: err } }),
        post.state is Finished,
{
}

/// The editor's text becomes the final message verbatim, bypassing the
/// message grammar.
pub proof fn lemma_edited_text_is_verbatim(pre: Session, post: Session, a: Action, text: String)
    requires
        spec_step(pre, Event::Edited { text }, post, a),
    ensures
        a == (Action::Finish { outcome: Outcome::Message { text } }),
        post.state is Finished,
{
}

impl Session {
    /// Opens a session for `cmd`: a given message is not composed here, so
    /// the modes are manual (no AI command), generation from the staged
    /// diff, and translation of given text; empty translation text falls
    /// back to a raw-text prompt.
    pub fn start(cmd: ReviseCommands, config: &ReviseConfig) -> (r: (Session, Action))
        ensures
            r.0.wf(),
            r.0.manual == (cmd.ai is None),
            match cmd.ai {
                None => r.0.state == (State::AwaitingField { field: FieldKind::Type }) && r.1 == (
                Action::AskField { field: FieldKind::Type }),
                Some(AICommand::Generate) => r.0.state == State::AwaitingDiff && (
                r.1 matches Action::GetDiff { excludes } && excludes == cmd.excludes),
                Some(AICommand::Translate(t)) => {
                    if t@.len() == 0 {
                        r.0.state == State::AwaitingFallback && r.1 == Action::AskText
                    } else {
                        r.0.state == State::SpawningAi && (r.1 matches Action::StartAi { text }
                            && text == t)
                    }
                },
            },
    {
        let template = Template::new(config);
        match cmd.ai {
            None => {
                let s = Session {
                    manual: true,
                    template,
                    candidates: None,
                    state: State::AwaitingField { field: FieldKind::Type },
                };
                (s, Action::AskField { field: FieldKind::Type })
            }
            Some(AICommand::Generate) => {
                let s = Session {
                    manual: false,
                    template,
                    candidates: None,
                    state: State::AwaitingDiff,
                };
                (s, Action::GetDiff { excludes: cmd.excludes })
            }
            Some(AICommand::Translate(t)) => {
                if t.as_str().is_empty() {
                    let s = Session {
                        manual: false,
                        template,
                        candidates: None,
                        state: State::AwaitingFallback,
                    };
                    (s, Action::AskText)
                } else {
                    let s = Session {
                        manual: false,
                        template,
                        candidates: None,
                        state: State::SpawningAi,
                    };
                    (s, Action::StartAi { text: t })
                }
            }
        }
    }

    /// Consumes one event and returns the next action, by the transition
    /// relation [`spec_step`].
    pub fn step(&mut self, event: Event) -> (a: Action)
        requires
            old(self).wf(),
            event_fits(*old(self), event),
        ensures
            final(self).wf(),
            spec_step(*old(self), event, *final(self), a),
    {
        match event {
            Event::Cancelled => {
                self.state = State::Finished;
                Action::Finish { outcome: Outcome::Aborted }
            }
            Event::Diff { result } => match result {
                Err(err) => {
                    self.state = State::Finished;
                    Action::Finish { outcome: Outcome::Failed { error: err } }
                }
                Ok(text) => {
                    if text.as_str().is_empty() {
                        self.state = State::AwaitingFallback;
                        Action::AskText
                    } else {
                        self.state = State::SpawningAi;
                        Action::StartAi { text }
                    }
                }
            },
            Event::Text { text } => {
                if text.as_str().is_empty() {
                    self.state = State::Finished;
                    Action::Finish {
                        outcome: Outcome::Failed {
                            error: ReviseError::Validation {
                                message: "Translate message is empty".to_owned(),
                            },
                        },
                    }
                } else {
                    self.state = State::SpawningAi;
                    Action::StartAi { text }
                }
            }
            Event::AiSpawned => {
                self.state = State::AwaitingField { field: FieldKind::Type };
                Action::AskField { field: FieldKind::Type }
            }
            Event::Field { value } => {
                let field = match self.state {
                    State::AwaitingField { field } => field,
                    _ => FieldKind::Type,
                };
                let retry = match field {
                    FieldKind::Type => value.is_none(),
                    FieldKind::Subject => match &value {
                        Some(v) => v.as_str().is_empty(),
                        None => true,
                    },
                    _ => false,
                };
                if retry {
                    return Action::AskField { field };
                }
                match field {
                    FieldKind::Type => {
                        self.template.commit_type.ans = value;
                    }
                    FieldKind::Scope => {
                        self.template.commit_scope.ans = value;
                    }
                    FieldKind::Subject => {
                        self.template.commit_subject.ans = value;
                    }
                    FieldKind::Body => {
                        self.template.commit_body.ans = value;
                    }
                    FieldKind::Breaking => {
                        self.template.commit_breaking.ans = value;
                    }
                    FieldKind::Issue => {
                        self.template.commit_issue.ans = value;
                    }
                }
                let next = if self.manual {
                    match field {
                        FieldKind::Type => Some(FieldKind::Scope),
                        FieldKind::Scope => Some(FieldKind::Subject),
                        FieldKind::Subject => Some(FieldKind::Body),
                        FieldKind::Body => Some(FieldKind::Breaking),
                        FieldKind::Breaking => Some(FieldKind::Issue),
                        FieldKind::Issue => None,
                    }
                } else {
                    match field {
                        FieldKind::Type => Some(FieldKind::Scope),
                        FieldKind::Scope => Some(FieldKind::Breaking),
                        FieldKind::Breaking => Some(FieldKind::Issue),
                        _ => None,
                    }
                };
                match next {
                    Some(f) => {
                        self.state = State::AwaitingField { field: f };
                        Action::AskField { field: f }
                    }
                    None => {
                        if self.manual {
                            self.state = State::AwaitingConfirm;
                            let preview = self.template.render();
                            Action::AskConfirm { preview }
                        } else {
                            self.state = State::AwaitingJoin;
                            Action::JoinAi
                        }
                    }
                }
            }
            Event::AiJoined { result } => match result {
                Err(err) => {
                    self.state = State::Finished;
                    Action::Finish { outcome: Outcome::Failed { error: err } }
                }
                Ok(cs) => {
                    let options = cs.keys();
                    self.candidates = Some(cs);
                    self.state = State::AwaitingCandidate;
                    Action::AskCandidate { options }
                }
            },
            Event::CandidateChosen { key } => {
                let chosen: Result<(String, String), Vec<String>> = match &self.candidates {
                    Some(set) => match set.get(key.as_str()) {
                        Some(c) => Ok((c.message.clone(), c.body.clone())),
                        None => Err(set.keys()),
                    },
                    None => {
                        proof {
                            assert(false);
                        }
                        Err(Vec::new())
                    }
                };
                match chosen {
                    Ok((message, body)) => {
                        self.template.commit_subject.ans = Some(message);
                        self.template.commit_body.ans = Some(body);
                        self.state = State::AwaitingConfirm;
                        let preview = self.template.render();
                        Action::AskConfirm { preview }
                    }
                    Err(options) => Action::AskCandidate { options },
                }
            }
            Event::ConfirmInput { token } => {
                match CommitStatus::from_str(token.as_str()) {
                    Ok(CommitStatus::Submit) => {
                        self.state = State::Finished;
                        let text = self.template.render();
                        Action::Finish { outcome: Outcome::Message { text } }
                    }
                    Ok(CommitStatus::Abort) => {
                        self.state = State::Finished;
                        Action::Finish { outcome: Outcome::Aborted }
                    }
                    Ok(CommitStatus::Edit) => {
                        self.state = State::AwaitingEdit;
                        let seed = self.template.render();
                        Action::OpenEditor { seed }
                    }
                    Err(_) => {
                        let preview = self.template.render();
                        Action::AskConfirm { preview }
                    }
                }
            }
            Event::Edited { text } => {
                self.state = State::Finished;
                Action::Finish { outcome: Outcome::Message { text } }
            }
        }
    }
}

} // verus!
