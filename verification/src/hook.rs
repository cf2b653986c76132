//! Hook planning: which configured commands run, and in what order.
//!
//! Running a hook is a shell call and happens outside this library; the
//! selection and ordering of the commands is decided here.

use vstd::prelude::*;

verus! {

use vstd::pervasive::VecAdditionalExecFns;

use crate::config::Hook;
use crate::error::{ReviseError, ReviseResult};
use crate::text::str_eq;

/// The moments a hook can be attached to.
#[derive(Debug, Clone, Copy, PartialEq, Eq, Structural)]
pub enum HookType {
    PreAdd,
    PostAdd,
    PreCommit,
    PostCommit,
    PrePush,
    PostMerge,
}

/// The hook type a configuration name stands for.
pub open spec fn spec_hook_type(s: Seq<char>) -> Option<HookType> {
    if s == "pre-add"@ {
        Some(HookType::PreAdd)
    } else if s == "post-add"@ {
        Some(HookType::PostAdd)
    } else if s == "pre-commit"@ {
        Some(HookType::PreCommit)
    } else if s == "post-commit"@ {
        Some(HookType::PostCommit)
    } else if s == "pre-push"@ {
        Some(HookType::PrePush)
    } else if s == "post-merge"@ {
        Some(HookType::PostMerge)
    } else {
        None
    }
}

impl HookType {
    /// Parses a configuration name; an unknown name is an error.
    pub fn from_str(s: &str) -> (r: ReviseResult<HookType>)
        ensures
            match r {
                Ok(t) => spec_hook_type(s@) == Some(t),
                Err(e) => spec_hook_type(s@) is None && e matches ReviseError::Validation { .. },
            },
    {
        if str_eq(s, "pre-add") {
            Ok(HookType::PreAdd)
        } else if str_eq(s, "post-add") {
            Ok(HookType::PostAdd)
        } else if str_eq(s, "pre-commit") {
            Ok(HookType::PreCommit)
        } else if str_eq(s, "post-commit") {
            Ok(HookType::PostCommit)
        } else if str_eq(s, "pre-push") {
            Ok(HookType::PrePush)
        } else if str_eq(s, "post-merge") {
            Ok(HookType::PostMerge)
        } else {
            let mut m = String::from_str("Invalid hook type: ");
            m.append(s);
            Err(ReviseError::Validation { message: m })
        }
    }
}

pub struct HookRunner;

impl HookRunner {
    /// Applies a hook action to its arguments; the action's own contract
    /// carries over.
    pub fn run_hook<F, Args, R>(f: F, args: Args) -> (r: R) where F: FnOnce(Args) -> R
        requires
            f.requires((args,)),
        ensures
            f.ensures((args,), r),
    {
        f(args)
    }
}

/// The ordering key of a hook: its `order`, or the largest key when none is
/// set, so unordered hooks run last.
pub open spec fn spec_hook_key(h: Hook) -> int {
    match h.order {
        Some(o) => o as int,
        None => u32::MAX as int,
    }
}

/// Whether a hook is marked to be skipped.
pub open spec fn spec_hook_skipped(h: Hook) -> bool {
    h.skip == Some(true)
}

/// The first `n` hooks without those marked skipped, in order.
pub open spec fn spec_hooks_kept(hooks: Seq<Hook>, n: int) -> Seq<Hook>
    decreases n,
{
    if n <= 0 {
        Seq::empty()
    } else {
        spec_hooks_kept(hooks, n - 1) + (if spec_hook_skipped(hooks[n - 1]) {
            Seq::empty()
        } else {
            seq![hooks[n - 1]]
        })
    }
}

/// Whether `s` is sorted by the hooks' ordering key.
pub open spec fn spec_hooks_sorted(s: Seq<Hook>) -> bool {
    forall|i: int, j: int| 0 <= i < j < s.len() ==> spec_hook_key(s[i]) <= spec_hook_key(s[j])
}

/// The hooks of `s` whose ordering key is `v`, in order.
pub open spec fn spec_with_key(s: Seq<Hook>, v: int) -> Seq<Hook> {
    s.filter(|h: Hook| spec_hook_key(h) == v)
}

/// A sequence with no matching element filters to nothing.
proof fn lemma_filter_none(s: Seq<Hook>, pred: spec_fn(Hook) -> bool)
    requires
        forall|i: int| 0 <= i < s.len() ==> !pred(#[trigger] s[i]),
    ensures
        s.filter(pred) == Seq::<Hook>::empty(),
    decreases s.len(),
{
    reveal(Seq::filter);
    if s.len() > 0 {
        lemma_filter_none(s.drop_last(), pred);
    }
}

/// The ordering key of `h`, as a value.
fn hook_key(h: &Hook) -> (r: u32)
    ensures
        r as int == spec_hook_key(*h),
{
    match h.order {
        Some(o) => o,
        None => u32::MAX,
    }
}

/// The hooks that will run, in order: entries marked skipped are dropped,
/// and the rest are sorted by their ordering key ascending, hooks without a
/// key last. The result holds exactly the kept entries, and the sort is
/// stable: hooks with equal keys keep their configuration order.
pub fn plan_hooks(hooks: &Vec<Hook>) -> (r: Vec<Hook>)
    ensures
        spec_hooks_sorted(r@),
        r@.to_multiset() == spec_hooks_kept(hooks@, hooks@.len() as int).to_multiset(),
        forall|v: int| #[trigger] spec_with_key(r@, v) == spec_with_key(
            spec_hooks_kept(hooks@, hooks@.len() as int),
            v,
        ),
{
    broadcast use vstd::seq_lib::group_to_multiset_ensures;

    let mut kept: Vec<Hook> = Vec::new();
    for i in 0..hooks.len()
        invariant
            kept@ =~= spec_hooks_kept(hooks@, i as int),
    {
        let h = &hooks[i];
        let skip = match h.skip {
            Some(true) => true,
            _ => false,
        };
        if !skip {
            let h2 = Hook { command: h.command.clone(), order: h.order, skip: h.skip };
            proof {
                assert(h2 == hooks@[i as int]);
            }
            kept.push(h2);
        }
        proof {
            assert(kept@ =~= spec_hooks_kept(hooks@, i + 1));
        }
    }
    let mut out: Vec<Hook> = Vec::new();
    let mut work = kept;
    let ghost all = work@.to_multiset();
    let ghost kept_view = work@;
    proof {
        broadcast use Seq::filter_distributes_over_add;

        assert forall|v: int| #[trigger] spec_with_key(out@, v) + spec_with_key(work@, v)
            == spec_with_key(kept_view, v) by {
            reveal(Seq::filter);
            assert(spec_with_key(out@, v) + spec_with_key(work@, v) =~= spec_with_key(
                kept_view,
                v,
            ));
        }
    }
    while work.len() > 0
        invariant
            out@.to_multiset().add(work@.to_multiset()) =~= all,
            spec_hooks_sorted(out@),
            forall|a: int, b: int|
                0 <= a < out@.len() && 0 <= b < work@.len() ==> spec_hook_key(out@[a])
                    <= spec_hook_key(work@[b]),
            forall|v: int| #[trigger] spec_with_key(out@, v) + spec_with_key(work@, v)
                == spec_with_key(kept_view, v),
        decreases work@.len(),
    {
        let mut m: usize = 0;
        let mut k = hook_key(&work[0]);
        for i in 1..work.len()
            invariant
                m < work@.len(),
                m < i,
                work@.len() > 0,
                k as int == spec_hook_key(work@[m as int]),
                forall|j: int| 0 <= j < i ==> k as int <= spec_hook_key(work@[j]),
                forall|j: int| 0 <= j < m ==> (k as int) < spec_hook_key(work@[j]),
        {
            let ki = hook_key(&work[i]);
            if ki < k {
                m = i;
                k = ki;
            }
        }
        let ghost wpre = work@;
        let ghost opre = out@;
        let h = work.remove(m);
        out.push(h);
        proof {
            broadcast use vstd::seq_lib::group_to_multiset_ensures;

            assert(work@ == wpre.remove(m as int));
            assert(wpre.remove(m as int).to_multiset() == wpre.to_multiset().remove(
                wpre[m as int],
            ));
            assert(out@ == opre.push(h));
            assert(opre.push(h).to_multiset() == opre.to_multiset().insert(h));
            assert(wpre.contains(wpre[m as int]));
            assert(wpre.to_multiset().count(wpre[m as int]) > 0);
            assert(out@.to_multiset().add(work@.to_multiset()) =~= opre.to_multiset().add(
                wpre.to_multiset(),
            ));
            assert forall|b: int| 0 <= b < work@.len() implies k as int <= spec_hook_key(
                #[trigger] work@[b],
            ) by {
                if b < m {
                    assert(work@[b] == wpre[b]);
                } else {
                    assert(work@[b] == wpre[b + 1]);
                }
            }
            broadcast use Seq::filter_distributes_over_add;

            let pre1 = wpre.subrange(0, m as int);
            let pre2 = wpre.subrange(m as int + 1, wpre.len() as int);
            assert(wpre =~= pre1 + seq![h] + pre2);
            assert(work@ =~= pre1 + pre2);
            assert forall|v: int| #[trigger] spec_with_key(out@, v) + spec_with_key(work@, v)
                == spec_with_key(kept_view, v) by {
                reveal(Seq::filter);
                let pred = |x: Hook| spec_hook_key(x) == v;
                assert(h == wpre[m as int]);
                assert(spec_hook_key(h) == k as int);
                assert((pre1 + seq![h] + pre2).filter(pred) == (pre1 + seq![h]).filter(pred)
                    + pre2.filter(pred));
                assert((pre1 + seq![h]).filter(pred) == pre1.filter(pred) + seq![h].filter(pred));
                assert((pre1 + pre2).filter(pred) == pre1.filter(pred) + pre2.filter(pred));
                assert(seq![h].drop_last() =~= Seq::<Hook>::empty());
                assert(out@.drop_last() =~= opre);
                if v == k as int {
                    assert(seq![h].filter(pred) =~= seq![h]);
                    assert forall|j: int| 0 <= j < pre1.len() implies !pred(#[trigger] pre1[j]) by {
                        assert(pre1[j] == wpre[j]);
                    }
                    lemma_filter_none(pre1, pred);
                    assert(out@.filter(pred) =~= opre.filter(pred).push(h));
                    assert(opre.filter(pred).push(h) + pre2.filter(pred) =~= opre.filter(pred) + (
                    seq![h] + pre2.filter(pred)));
                    assert(spec_with_key(opre, v) + spec_with_key(wpre, v) == spec_with_key(
                        kept_view,
                        v,
                    ));
                } else {
                    lemma_filter_none(seq![h], pred);
                    assert(out@.filter(pred) =~= opre.filter(pred));
                    assert(spec_with_key(opre, v) + spec_with_key(wpre, v) == spec_with_key(
                        kept_view,
                        v,
                    ));
                    assert(spec_with_key(out@, v) + spec_with_key(work@, v) =~= spec_with_key(
                        kept_view,
                        v,
                    ));
                }
            }
        }
    }
    proof {
        assert forall|v: int| #[trigger] spec_with_key(out@, v) == spec_with_key(
            kept_view,
            v,
        ) by {
            reveal(Seq::filter);
            assert(spec_with_key(work@, v) =~= Seq::<Hook>::empty());
            assert(spec_with_key(out@, v) =~= spec_with_key(out@, v) + spec_with_key(work@, v));
        }
    }
    out
}

} // verus!
