//! The commit draft, the confirmation token grammar, and the message
//! renderer.
//!
//! The renderer is a pure function of the draft's fields: first line
//! `type[(scope)][!]: subject[(issue)]`, then a blank line and the body when
//! one is set, then `BREAKING CHANGE: <note>` after two blank lines when a
//! breaking note is set.

use vstd::prelude::*;

verus! {

use crate::config::{ReviseConfig, spec_max_key_len, spec_type_label};
use crate::error::{ReviseError, ReviseResult};
use crate::text::{chars_of, eq_ignore_ascii_case, range_eq_ignore_case, trim_bounds, trimmed};

/// The outcome of reviewing an assembled message.
#[derive(Debug, Clone, Copy, PartialEq, Eq)]
pub enum CommitStatus {
    Submit,
    Abort,
    Edit,
}

impl Default for CommitStatus {
    fn default() -> (r: Self)
        ensures
            r == CommitStatus::Submit,
    {
        CommitStatus::Submit
    }
}

/// What a confirmation token means. After trimming white space (the set
/// `str::trim` removes) the token is compared without regard to ASCII case:
/// an empty answer, `y` or `yes` submits; `n` or `no` aborts; `e` or `edit`
/// edits; anything else is no transition at all and the caller asks again.
pub open spec fn spec_parse_status(s: Seq<char>) -> Option<CommitStatus> {
    let t = trimmed(s);
    if t.len() == 0 || eq_ignore_ascii_case(t, "y"@) || eq_ignore_ascii_case(t, "yes"@) {
        Some(CommitStatus::Submit)
    } else if eq_ignore_ascii_case(t, "n"@) || eq_ignore_ascii_case(t, "no"@) {
        Some(CommitStatus::Abort)
    } else if eq_ignore_ascii_case(t, "e"@) || eq_ignore_ascii_case(t, "edit"@) {
        Some(CommitStatus::Edit)
    } else {
        None
    }
}

impl CommitStatus {
    /// Parses a confirmation token; a token outside the grammar is the local
    /// validation failure that makes the caller ask again.
    pub fn from_str(s: &str) -> (r: ReviseResult<CommitStatus>)
        ensures
            match r {
                Ok(st) => spec_parse_status(s@) == Some(st),
                Err(e) => spec_parse_status(s@) is None && e matches ReviseError::Validation {
                    ..
                },
            },
    {
        let cs = chars_of(s);
        let (start, end) = trim_bounds(&cs);
        if start == end {
            return Ok(CommitStatus::Submit);
        }
        let y = chars_of("y");
        let yes = chars_of("yes");
        if range_eq_ignore_case(&cs, start, end, &y) || range_eq_ignore_case(&cs, start, end, &yes)
        {
            return Ok(CommitStatus::Submit);
        }
        let n = chars_of("n");
        let no = chars_of("no");
        if range_eq_ignore_case(&cs, start, end, &n) || range_eq_ignore_case(&cs, start, end, &no)
        {
            return Ok(CommitStatus::Abort);
        }
        let e = chars_of("e");
        let edit = chars_of("edit");
        if range_eq_ignore_case(&cs, start, end, &e) || range_eq_ignore_case(
            &cs,
            start,
            end,
            &edit,
        ) {
            return Ok(CommitStatus::Edit);
        }
        Err(ReviseError::Validation { message: "input error".to_owned() })
    }

    /// The name of the variant.
    pub fn as_str(&self) -> (r: &'static str)
        ensures
            self is Submit ==> r@ == "Submit"@,
            self is Abort ==> r@ == "Abort"@,
            self is Edit ==> r@ == "Edit"@,
    {
        match self {
            CommitStatus::Submit => "Submit",
            CommitStatus::Abort => "Abort",
            CommitStatus::Edit => "Edit",
        }
    }
}

/// The draft assembled field by field during a session.
#[derive(Debug, Clone)]
pub struct ReviseCommit {
    pub commit_type: String,
    pub commit_scope: Option<String>,
    pub commit_subject: String,
    pub commit_body: Option<String>,
    pub commit_breaking: Option<String>,
    pub commit_issue: Option<String>,
    pub commit_confirm_commit: String,
    pub commit_status: CommitStatus,
    pub commit_message: String,
}

impl Default for ReviseCommit {
    fn default() -> (r: Self)
        ensures
            r.commit_type@ == Seq::<char>::empty(),
            r.commit_scope is None,
            r.commit_subject@ == Seq::<char>::empty(),
            r.commit_body is None,
            r.commit_breaking is None,
            r.commit_issue is None,
            r.commit_confirm_commit@ == Seq::<char>::empty(),
            r.commit_status == CommitStatus::Submit,
            r.commit_message@ == Seq::<char>::empty(),
    {
        ReviseCommit {
            commit_type: String::new(),
            commit_scope: None,
            commit_subject: String::new(),
            commit_body: None,
            commit_breaking: None,
            commit_issue: None,
            commit_confirm_commit: String::new(),
            commit_status: CommitStatus::Submit,
            commit_message: String::new(),
        }
    }
}

/// The view of an optional field.
pub open spec fn view_opt(o: Option<String>) -> Option<Seq<char>> {
    match o {
        Some(s) => Some(s@),
        None => None,
    }
}

/// The message grammar over the six field views.
pub open spec fn spec_render_fields(
    ctype: Seq<char>,
    scope: Option<Seq<char>>,
    subject: Seq<char>,
    body: Option<Seq<char>>,
    breaking: Option<Seq<char>>,
    issue: Option<Seq<char>>,
) -> Seq<char> {
    ctype + (match scope {
        Some(s) => "("@ + s + ")"@,
        None => Seq::<char>::empty(),
    }) + (if breaking is Some {
        "!"@
    } else {
        Seq::<char>::empty()
    }) + ": "@ + subject + (match issue {
        Some(i) => "("@ + i + ")"@,
        None => Seq::<char>::empty(),
    }) + (match body {
        Some(b) => "\n\n"@ + b,
        None => Seq::<char>::empty(),
    }) + (match breaking {
        Some(b) => "\n\n\nBREAKING CHANGE: "@ + b,
        None => Seq::<char>::empty(),
    })
}

/// The rendered message of a draft.
pub open spec fn spec_render(c: ReviseCommit) -> Seq<char> {
    spec_render_fields(
        c.commit_type@,
        view_opt(c.commit_scope),
        c.commit_subject@,
        view_opt(c.commit_body),
        view_opt(c.commit_breaking),
        view_opt(c.commit_issue),
    )
}

/// The colorized preview's skeleton: the message grammar with the styled
/// fragments `t` (type), `sc` (scope), `bang` (the breaking marker), `sj`
/// (subject), `iss` (issue) and `lab` (the breaking label) left free, the
/// punctuation and placement fixed, and the body and the breaking note
/// verbatim.
pub open spec fn spec_show_skeleton(
    c: ReviseCommit,
    r: Seq<char>,
    t: Seq<char>,
    sc: Seq<char>,
    bang: Seq<char>,
    sj: Seq<char>,
    iss: Seq<char>,
    lab: Seq<char>,
) -> bool {
    r == t + (if c.commit_scope is Some {
        "("@ + sc + ")"@
    } else {
        Seq::<char>::empty()
    }) + (if c.commit_breaking is Some {
        bang
    } else {
        Seq::<char>::empty()
    }) + ": "@ + sj + (if c.commit_issue is Some {
        "("@ + iss + ")"@
    } else {
        Seq::<char>::empty()
    }) + (match c.commit_body {
        Some(b) => "\n\n"@ + b@,
        None => Seq::<char>::empty(),
    }) + (match c.commit_breaking {
        Some(b) => "\n\n\n"@ + lab + ": "@ + b@,
        None => Seq::<char>::empty(),
    })
}

/// Rendering is deterministic and idempotent: the output is a function of
/// the field views alone, so two drafts whose fields read the same render
/// to identical strings, however many times each is rendered.
pub proof fn lemma_render_deterministic(a: ReviseCommit, b: ReviseCommit)
    requires
        a.commit_type@ == b.commit_type@,
        view_opt(a.commit_scope) == view_opt(b.commit_scope),
        a.commit_subject@ == b.commit_subject@,
        view_opt(a.commit_body) == view_opt(b.commit_body),
        view_opt(a.commit_breaking) == view_opt(b.commit_breaking),
        view_opt(a.commit_issue) == view_opt(b.commit_issue),
    ensures
        spec_render(a) == spec_render(b),
{
}

/// How a scope answer resolves: the answer `custom` defers to the free-form
/// text (dropped when empty), the answer `empty` leaves the scope unset, and
/// any other answer is the scope itself.
pub open spec fn spec_resolve_scope(ans: Seq<char>, custom: Seq<char>) -> Option<Seq<char>> {
    if ans == "custom"@ {
        if custom.len() == 0 {
            None
        } else {
            Some(custom)
        }
    } else if ans == "empty"@ {
        None
    } else {
        Some(ans)
    }
}

/// How an optional free-text answer resolves: empty answers leave the field
/// unset.
pub open spec fn spec_resolve_optional(ans: Seq<char>) -> Option<Seq<char>> {
    if ans.len() == 0 {
        None
    } else {
        Some(ans)
    }
}

/// `c` with another commit type.
pub open spec fn with_type(c: ReviseCommit, v: String) -> ReviseCommit {
    ReviseCommit { commit_type: v, ..c }
}

/// `c` with another scope.
pub open spec fn with_scope(c: ReviseCommit, v: Option<String>) -> ReviseCommit {
    ReviseCommit { commit_scope: v, ..c }
}

/// `c` with another subject.
pub open spec fn with_subject(c: ReviseCommit, v: String) -> ReviseCommit {
    ReviseCommit { commit_subject: v, ..c }
}

/// `c` with another body.
pub open spec fn with_body(c: ReviseCommit, v: Option<String>) -> ReviseCommit {
    ReviseCommit { commit_body: v, ..c }
}

/// `c` with another breaking-change note.
pub open spec fn with_breaking(c: ReviseCommit, v: Option<String>) -> ReviseCommit {
    ReviseCommit { commit_breaking: v, ..c }
}

/// `c` with another issue reference.
pub open spec fn with_issue(c: ReviseCommit, v: Option<String>) -> ReviseCommit {
    ReviseCommit { commit_issue: v, ..c }
}

/// `c` with another rendered message.
pub open spec fn with_message(c: ReviseCommit, v: String) -> ReviseCommit {
    ReviseCommit { commit_message: v, ..c }
}

/// The answers a full manual session supplies, one per field prompt.
#[derive(Debug, Clone)]
pub struct CommitAnswers {
    pub type_label: String,
    pub scope: String,
    pub custom_scope: String,
    pub subject: String,
    pub body: String,
    pub breaking: String,
    pub issue: String,
}

/// The key of the first configured type whose padded label reads `ans`;
/// a label no type produced is a selection error.
pub fn type_key_for_label(config: &ReviseConfig, ans: &str) -> (r: ReviseResult<String>)
    ensures
        match r {
            Ok(key) => exists|i: int|
                {
                    &&& 0 <= i < config.types@.len()
                    &&& (#[trigger] spec_type_label(
                        config.types@[i],
                        spec_max_key_len(config.types@, 5) + 1,
                    )) == ans@
                    &&& key@ == config.types@[i].key@
                    &&& forall|j: int|
                        0 <= j < i ==> spec_type_label(
                            config.types@[j],
                            spec_max_key_len(config.types@, 5) + 1,
                        ) != ans@
                },
            Err(e) => ({
                &&& e matches ReviseError::Selection { .. }
                &&& forall|i: int|
                    0 <= i < config.types@.len() ==> (#[trigger] spec_type_label(
                        config.types@[i],
                        spec_max_key_len(config.types@, 5) + 1,
                    )) != ans@
            }),
        },
{
    let options = config.get_types();
    match crate::text::index_of_str(&options, ans) {
        Some(i) => {
            match config.get_type_key(i) {
                Some(key) => {
                    proof {
                        let w = spec_max_key_len(config.types@, 5) + 1;
                        let ii = i as int;
                        assert(spec_type_label(config.types@[ii], w) == ans@);
                        assert forall|j: int| 0 <= j < ii implies spec_type_label(
                            config.types@[j],
                            w,
                        ) != ans@ by {
                            assert(options@[j]@ != ans@);
                            assert(options@[j]@ == spec_type_label(config.types@[j], w));
                        }
                    }
                    Ok(key)
                }
                None => {
                    Err(
                        ReviseError::Selection {
                            message: "Error Occurs when select committing type".to_owned(),
                        },
                    )
                }
            }
        }
        None => {
            proof {
                let w = spec_max_key_len(config.types@, 5) + 1;
                assert forall|i: int| 0 <= i < config.types@.len() implies #[trigger] spec_type_label(
                    config.types@[i],
                    w,
                ) != ans@ by {
                    assert(options@[i]@ != ans@);
                    assert(options@[i]@ == spec_type_label(config.types@[i], w));
                }
            }
            Err(
                ReviseError::Selection {
                    message: "Error Occurs when select committing type".to_owned(),
                },
            )
        }
    }
}

impl ReviseCommit {
    /// Resolves the commit type from the selected label: the key of the
    /// first configured type whose padded label equals `ans`; selecting a
    /// label that no type produced is an error and changes nothing.
    pub fn inquire_commit_type(&mut self, config: &ReviseConfig, ans: &str) -> (r: ReviseResult<
        (),
    >)
        ensures
            match r {
                Ok(()) => ({
                    &&& *final(self) == with_type(*old(self), final(self).commit_type)
                    &&& exists|i: int|
                        {
                            &&& 0 <= i < config.types@.len()
                            &&& (#[trigger] spec_type_label(
                                config.types@[i],
                                spec_max_key_len(config.types@, 5) + 1,
                            )) == ans@
                            &&& final(self).commit_type@ == config.types@[i].key@
                            &&& forall|j: int|
                                0 <= j < i ==> spec_type_label(
                                    config.types@[j],
                                    spec_max_key_len(config.types@, 5) + 1,
                                ) != ans@
                        }
                }),
                Err(e) => ({
                    &&& *final(self) == *old(self)
                    &&& e matches ReviseError::Selection { .. }
                    &&& forall|i: int|
                        0 <= i < config.types@.len() ==> (#[trigger] spec_type_label(
                            config.types@[i],
                            spec_max_key_len(config.types@, 5) + 1,
                        )) != ans@
                }),
            },
    {
        match type_key_for_label(config, ans) {
            Ok(key) => {
                self.commit_type = key;
                Ok(())
            }
            Err(e) => Err(e),
        }
    }

    /// Resolves the scope from the selection answer and, when `custom` was
    /// chosen, the free-form text.
    pub fn inquire_commit_scope(&mut self, ans: &str, custom: &str)
        ensures
            view_opt(final(self).commit_scope) == spec_resolve_scope(ans@, custom@),
            *final(self) == with_scope(*old(self), final(self).commit_scope),
    {
        if crate::text::str_eq(ans, "custom") {
            if custom.is_empty() {
                self.commit_scope = None;
            } else {
                self.commit_scope = Some(custom.to_owned());
            }
        } else if crate::text::str_eq(ans, "empty") {
            self.commit_scope = None;
        } else {
            self.commit_scope = Some(ans.to_owned());
        }
    }

    /// Sets the subject; an empty answer is the validation failure that the
    /// prompt loop reports before asking again.
    pub fn inquire_commit_subject(&mut self, ans: &str) -> (r: ReviseResult<()>)
        ensures
            match r {
                Ok(()) => ans@.len() > 0 && final(self).commit_subject@ == ans@ && *final(self)
                    == with_subject(*old(self), final(self).commit_subject),
                Err(e) => ans@.len() == 0 && *final(self) == *old(self)
                    && e matches ReviseError::Validation { .. },
            },
    {
        if ans.is_empty() {
            Err(ReviseError::Validation { message: "[ERROR] subject is required".to_owned() })
        } else {
            self.commit_subject = ans.to_owned();
            Ok(())
        }
    }

    /// Sets the body; an empty answer leaves it unset.
    pub fn inquire_commit_body(&mut self, ans: &str)
        ensures
            view_opt(final(self).commit_body) == spec_resolve_optional(ans@),
            *final(self) == with_body(*old(self), final(self).commit_body),
    {
        if ans.is_empty() {
            self.commit_body = None;
        } else {
            self.commit_body = Some(ans.to_owned());
        }
    }

    /// Sets the breaking-change note; an empty answer leaves it unset.
    pub fn inquire_commit_breaking(&mut self, ans: &str)
        ensures
            view_opt(final(self).commit_breaking) == spec_resolve_optional(ans@),
            *final(self) == with_breaking(*old(self), final(self).commit_breaking),
    {
        if ans.is_empty() {
            self.commit_breaking = None;
        } else {
            self.commit_breaking = Some(ans.to_owned());
        }
    }

    /// Sets the issue reference; an empty answer leaves it unset.
    pub fn inquire_commit_issue(&mut self, ans: &str)
        ensures
            view_opt(final(self).commit_issue) == spec_resolve_optional(ans@),
            *final(self) == with_issue(*old(self), final(self).commit_issue),
    {
        if ans.is_empty() {
            self.commit_issue = None;
        } else {
            self.commit_issue = Some(ans.to_owned());
        }
    }

    /// Takes the editor's text verbatim as the final message, discarding the
    /// structured field breakdown.
    pub fn inquire_commit_edit(&mut self, ans: &str)
        ensures
            final(self).commit_message@ == ans@,
            *final(self) == with_message(*old(self), final(self).commit_message),
    {
        self.commit_message = ans.to_owned();
    }

    /// Applies a full set of manual answers in prompt order, then renders the
    /// message. An unknown type label or an empty subject is rejected with
    /// the draft left unchanged.
    pub fn commit(&mut self, config: &ReviseConfig, answers: &CommitAnswers) -> (r: ReviseResult<
        (),
    >)
        ensures
            match r {
                Ok(()) => ({
                    &&& answers.subject@.len() > 0
                    &&& exists|i: int|
                        {
                            &&& 0 <= i < config.types@.len()
                            &&& (#[trigger] spec_type_label(
                                config.types@[i],
                                spec_max_key_len(config.types@, 5) + 1,
                            )) == answers.type_label@
                            &&& final(self).commit_type@ == config.types@[i].key@
                        }
                    &&& view_opt(final(self).commit_scope) == spec_resolve_scope(
                        answers.scope@,
                        answers.custom_scope@,
                    )
                    &&& final(self).commit_subject@ == answers.subject@
                    &&& view_opt(final(self).commit_body) == spec_resolve_optional(answers.body@)
                    &&& view_opt(final(self).commit_breaking) == spec_resolve_optional(
                        answers.breaking@,
                    )
                    &&& view_opt(final(self).commit_issue) == spec_resolve_optional(answers.issue@)
                    &&& final(self).commit_message@ == spec_render(*final(self))
                }),
                Err(e) => ({
                    &&& *final(self) == *old(self)
                    &&& (e matches ReviseError::Selection { .. } || (
                    e matches ReviseError::Validation { .. } && answers.subject@.len() == 0))
                }),
            },
    {
        if answers.subject.as_str().is_empty() {
            return Err(
                ReviseError::Validation { message: "[ERROR] subject is required".to_owned() },
            );
        }
        match self.inquire_commit_type(config, answers.type_label.as_str()) {
            Ok(()) => {}
            Err(e) => {
                return Err(e);
            }
        }
        self.inquire_commit_scope(answers.scope.as_str(), answers.custom_scope.as_str());
        match self.inquire_commit_subject(answers.subject.as_str()) {
            Ok(()) => {}
            Err(e) => {
                return Err(e);
            }
        }
        self.inquire_commit_body(answers.body.as_str());
        self.inquire_commit_breaking(answers.breaking.as_str());
        self.inquire_commit_issue(answers.issue.as_str());
        self.commit_message = self.render();
        Ok(())
    }

    /// Renders the draft by the message grammar; pure and deterministic.
    #[verifier::rlimit(50)]
    pub fn render(&self) -> (r: String)
        ensures
            r@ == spec_render(*self),
    {
        let mut msg = self.commit_type.clone();
        match &self.commit_scope {
            Some(scope) => {
                msg.append("(");
                msg.append(scope.as_str());
                msg.append(")");
            }
            None => {}
        }
        if self.commit_breaking.is_some() {
            msg.append("!");
        }
        msg.append(": ");
        msg.append(self.commit_subject.as_str());
        match &self.commit_issue {
            Some(issue) => {
                msg.append("(");
                msg.append(issue.as_str());
                msg.append(")");
            }
            None => {}
        }
        match &self.commit_body {
            Some(body) => {
                msg.append("\n\n");
                msg.append(body.as_str());
            }
            None => {}
        }
        match &self.commit_breaking {
            Some(breaking) => {
                msg.append("\n\n\nBREAKING CHANGE: ");
                msg.append(breaking.as_str());
            }
            None => {}
        }
        proof {
            assert(msg@ =~= spec_render(*self));
        }
        msg
    }

    /// The colorized preview of the draft: the message grammar with each
    /// field styled for the terminal. Styling comes from the `colored`
    /// crate and depends on the environment, so the styled fragments are
    /// unpinned; the skeleton around them — punctuation, placement, and the
    /// body and breaking note verbatim — is fixed.
    #[verifier::rlimit(50)]
    pub fn show(&self) -> (r: String)
        ensures
            exists|t: Seq<char>, sc: Seq<char>, bang: Seq<char>, sj: Seq<char>, iss: Seq<
                char,
            >, lab: Seq<char>| spec_show_skeleton(*self, r@, t, sc, bang, sj, iss, lab),
    {
        let mut msg = crate::color::green(self.commit_type.as_str());
        let ghost t = msg@;
        let ghost mut sc: Seq<char> = Seq::empty();
        match &self.commit_scope {
            Some(scope) => {
                msg.append("(");
                let styled = crate::color::yellow(scope.as_str());
                proof {
                    sc = styled@;
                }
                msg.append(styled.as_str());
                msg.append(")");
            }
            None => {}
        }
        let ghost mut bang: Seq<char> = Seq::empty();
        if self.commit_breaking.is_some() {
            let marker = crate::color::bright_red("!");
            proof {
                bang = marker@;
            }
            msg.append(marker.as_str());
        }
        msg.append(": ");
        let subject = crate::color::bright_cyan(self.commit_subject.as_str());
        let ghost sj = subject@;
        msg.append(subject.as_str());
        let ghost mut iss: Seq<char> = Seq::empty();
        match &self.commit_issue {
            Some(issue) => {
                msg.append("(");
                let styled = crate::color::blue(issue.as_str());
                proof {
                    iss = styled@;
                }
                msg.append(styled.as_str());
                msg.append(")");
            }
            None => {}
        }
        match &self.commit_body {
            Some(body) => {
                msg.append("\n\n");
                msg.append(body.as_str());
            }
            None => {}
        }
        let ghost mut lab: Seq<char> = Seq::empty();
        match &self.commit_breaking {
            Some(breaking) => {
                msg.append("\n\n\n");
                let label = crate::color::red("BREAKING CHANGE");
                proof {
                    lab = label@;
                }
                msg.append(label.as_str());
                msg.append(": ");
                msg.append(breaking.as_str());
            }
            None => {}
        }
        proof {
            assert(spec_show_skeleton(*self, msg@, t, sc, bang, sj, iss, lab)) by {
                assert(msg@ =~= t + (if self.commit_scope is Some {
                    "("@ + sc + ")"@
                } else {
                    Seq::<char>::empty()
                }) + (if self.commit_breaking is Some {
                    bang
                } else {
                    Seq::<char>::empty()
                }) + ": "@ + sj + (if self.commit_issue is Some {
                    "("@ + iss + ")"@
                } else {
                    Seq::<char>::empty()
                }) + (match self.commit_body {
                    Some(b) => "\n\n"@ + b@,
                    None => Seq::<char>::empty(),
                }) + (match self.commit_breaking {
                    Some(b) => "\n\n\n"@ + lab + ": "@ + b@,
                    None => Seq::<char>::empty(),
                }));
            }
        }
        msg
    }
}

} // verus!
