//! One session: its template, review status, message, and hook plans.

pub mod commit;
pub mod compose;
pub mod prompts;
pub mod status;
pub mod template;

use vstd::prelude::*;

verus! {

use crate::cli::ReviseCommands;
use crate::config::Hook;
use crate::hook::{HookType, plan_hooks, spec_hooks_kept, spec_hooks_sorted};
use status::Status;
use template::Template;

/// One session's data: the template being filled, the review status, the
/// message, and the configured hooks by moment.
#[derive(Debug)]
pub struct Revise {
    pub template: Template,
    pub status: Status,
    pub message: String,
    pub hooks: Vec<(HookType, Vec<Hook>)>,
}

/// What a session does before any prompt: a message given up front is
/// committed as it is; otherwise the staged paths are added and the
/// interactive composition runs.
#[derive(Debug, Clone)]
pub enum RunPlan {
    CommitDirect { message: String },
    Interactive { add: Vec<String> },
}

/// The branch a session takes for `cmd`.
pub fn run_plan(cmd: ReviseCommands) -> (r: RunPlan)
    ensures
        match cmd.message {
            Some(m) => r == RunPlan::CommitDirect { message: m },
            None => r == RunPlan::Interactive { add: cmd.add },
        },
{
    match cmd.message {
        Some(m) => RunPlan::CommitDirect { message: m },
        None => RunPlan::Interactive { add: cmd.add },
    }
}

impl Revise {
    /// The configured hooks for `moment`: the first entry with that type, or
    /// none.
    fn hooks_for(&self, moment: HookType) -> (r: Vec<Hook>)
        ensures
            match spec_first_hooks(self.hooks@, moment) {
                Some(hs) => r@ == hs,
                None => r@.len() == 0,
            },
    {
        for i in 0..self.hooks.len()
            invariant
                forall|j: int| 0 <= j < i ==> (#[trigger] self.hooks@[j]).0 != moment,
        {
            if self.hooks[i].0 == moment {
                proof {
                    lemma_first_hooks(self.hooks@, moment, i as int);
                }
                return copy_hooks(&self.hooks[i].1);
            }
        }
        proof {
            lemma_first_hooks_none(self.hooks@, moment);
        }
        Vec::new()
    }

    /// The commands to run at `moment`, ordered: the first configured entry
    /// for that moment, skipped hooks dropped, the rest sorted by their
    /// ordering key.
    fn plan_for(&self, moment: HookType) -> (r: Vec<Hook>)
        ensures
            spec_hooks_sorted(r@),
            match spec_first_hooks(self.hooks@, moment) {
                Some(hs) => r@.to_multiset() == spec_hooks_kept(hs, hs.len() as int).to_multiset(),
                None => r@.len() == 0,
            },
    {
        let hs = self.hooks_for(moment);
        let r = plan_hooks(&hs);
        proof {
            broadcast use vstd::seq_lib::group_to_multiset_ensures;

            if spec_first_hooks(self.hooks@, moment) is None {
                assert(spec_hooks_kept(hs@, 0) == Seq::<Hook>::empty());
                assert(r@.len() == r@.to_multiset().len());
                assert(Seq::<Hook>::empty().to_multiset().len() == 0);
            }
        }
        r
    }

    /// The commands to run before a commit, ordered.
    pub fn pre_commit_plan(&self) -> (r: Vec<Hook>)
        ensures
            spec_hooks_sorted(r@),
            match spec_first_hooks(self.hooks@, HookType::PreCommit) {
                Some(hs) => r@.to_multiset() == spec_hooks_kept(hs, hs.len() as int).to_multiset(),
                None => r@.len() == 0,
            },
    {
        self.plan_for(HookType::PreCommit)
    }

    /// The commands to run after a commit, ordered.
    pub fn post_commit_plan(&self) -> (r: Vec<Hook>)
        ensures
            spec_hooks_sorted(r@),
            match spec_first_hooks(self.hooks@, HookType::PostCommit) {
                Some(hs) => r@.to_multiset() == spec_hooks_kept(hs, hs.len() as int).to_multiset(),
                None => r@.len() == 0,
            },
    {
        self.plan_for(HookType::PostCommit)
    }

    /// The commands to run before staging paths, ordered.
    pub fn pre_add_plan(&self) -> (r: Vec<Hook>)
        ensures
            spec_hooks_sorted(r@),
            match spec_first_hooks(self.hooks@, HookType::PreAdd) {
                Some(hs) => r@.to_multiset() == spec_hooks_kept(hs, hs.len() as int).to_multiset(),
                None => r@.len() == 0,
            },
    {
        self.plan_for(HookType::PreAdd)
    }

    /// The commands to run after staging paths, ordered.
    pub fn post_add_plan(&self) -> (r: Vec<Hook>)
        ensures
            spec_hooks_sorted(r@),
            match spec_first_hooks(self.hooks@, HookType::PostAdd) {
                Some(hs) => r@.to_multiset() == spec_hooks_kept(hs, hs.len() as int).to_multiset(),
                None => r@.len() == 0,
            },
    {
        self.plan_for(HookType::PostAdd)
    }
}

/// The hook list of the first entry for `moment`, if there is one.
pub open spec fn spec_first_hooks(hooks: Seq<(HookType, Vec<Hook>)>, moment: HookType) -> Option<
    Seq<Hook>,
>
    decreases hooks.len(),
{
    if hooks.len() == 0 {
        None
    } else if hooks[0].0 == moment {
        Some(hooks[0].1@)
    } else {
        spec_first_hooks(hooks.drop_first(), moment)
    }
}

/// The first entry for `moment` is the one at the first matching position.
proof fn lemma_first_hooks(hooks: Seq<(HookType, Vec<Hook>)>, moment: HookType, i: int)
    requires
        0 <= i < hooks.len(),
        forall|j: int| 0 <= j < i ==> (#[trigger] hooks[j]).0 != moment,
        hooks[i].0 == moment,
    ensures
        spec_first_hooks(hooks, moment) == Some(hooks[i].1@),
    decreases i,
{
    if i > 0 {
        lemma_first_hooks(hooks.drop_first(), moment, i - 1);
    }
}

/// Without a matching entry there is no first one.
proof fn lemma_first_hooks_none(hooks: Seq<(HookType, Vec<Hook>)>, moment: HookType)
    requires
        forall|j: int| 0 <= j < hooks.len() ==> (#[trigger] hooks[j]).0 != moment,
    ensures
        spec_first_hooks(hooks, moment) is None,
    decreases hooks.len(),
{
    if hooks.len() > 0 {
        lemma_first_hooks_none(hooks.drop_first(), moment);
    }
}

/// A copy of a hook list whose entries read the same.
fn copy_hooks(hs: &Vec<Hook>) -> (r: Vec<Hook>)
    ensures
        r@ == hs@,
{
    let mut r: Vec<Hook> = Vec::new();
    for i in 0..hs.len()
        invariant
            r@ =~= hs@.subrange(0, i as int),
    {
        let h = &hs[i];
        let h2 = Hook { command: h.command.clone(), order: h.order, skip: h.skip };
        proof {
            assert(h2 == hs@[i as int]);
        }
        r.push(h2);
        proof {
            assert(r@ =~= hs@.subrange(0, i + 1));
        }
    }
    proof {
        assert(r@ =~= hs@);
    }
    r
}

} // verus!
