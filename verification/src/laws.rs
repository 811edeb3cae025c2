//! The engine's guarantees, stated and proved over the transition
//! functions the executable contracts are written against: the
//! single-flight invariant, the monotone user-paced cancellation
//! escalation, the bound on the output log, and immunity to stale
//! completions.

use vstd::prelude::*;
use crate::ops::CancelSignal;
use crate::ops::CancelStage;
use crate::ops::OperationKind;
use crate::state::InflightOperation;
use crate::state::spec_cancel_step;
use crate::state::spec_clear_on_finish;
use crate::state::spec_push_all;
use crate::state::spec_push_bounded;
use crate::state::spec_try_begin;

verus! {

/// A whole sequence of start requests applied to the inflight slot: the
/// slot after all of them, and whether each was granted, in order.
pub open spec fn spec_try_begin_seq(
    slot: Option<InflightOperation>,
    reqs: Seq<(OperationKind, usize)>,
) -> (Option<InflightOperation>, Seq<bool>)
    decreases reqs.len(),
{
    if reqs.len() == 0 {
        (slot, Seq::empty())
    } else {
        let (slot1, granted) = spec_try_begin(slot, reqs[0].0, reqs[0].1);
        let (slot2, rest) = spec_try_begin_seq(slot1, reqs.skip(1));
        (slot2, seq![granted] + rest)
    }
}

/// Single flight: while an operation is inflight, every start request in
/// any sequence of them is refused, and the slot still holds the same
/// operation afterwards. Only reconciling a matching completion can free
/// it.
pub proof fn lemma_single_flight(op: InflightOperation, reqs: Seq<(OperationKind, usize)>)
    ensures
        spec_try_begin_seq(Some(op), reqs).0 == Some(op),
        spec_try_begin_seq(Some(op), reqs).1.len() == reqs.len(),
        forall|i: int|
            0 <= i < reqs.len() ==> !spec_try_begin_seq(Some(op), reqs).1[i],
    decreases reqs.len(),
{
    if reqs.len() == 0 {
    } else {
        lemma_single_flight(op, reqs.skip(1));
        let rest = spec_try_begin_seq(Some(op), reqs.skip(1)).1;
        assert((seq![false] + rest).len() == reqs.len());
        assert forall|i: int| 0 <= i < reqs.len() implies !spec_try_begin_seq(
            Some(op),
            reqs,
        ).1[i] by {
            if i > 0 {
                assert((seq![false] + rest)[i] == rest[i - 1]);
            }
        }
    }
}

/// Reconciling the completion that matches the inflight operation frees
/// the slot, and the next start request is then granted.
pub proof fn lemma_completion_frees(op: InflightOperation, kind: OperationKind, idx: usize)
    ensures
        spec_clear_on_finish(Some(op), op.kind, op.account_idx) is None,
        spec_try_begin(spec_clear_on_finish(Some(op), op.kind, op.account_idx), kind, idx).1,
{
}

/// Stale-completion immunity: a completion whose kind or account does not
/// match the inflight operation leaves the slot exactly as it was. (The
/// reconciler still appends its message line; that is part of its own
/// contract.)
pub proof fn lemma_stale_completion_ignored(
    op: InflightOperation,
    kind: OperationKind,
    idx: usize,
)
    requires
        op.kind != kind || op.account_idx != idx,
    ensures
        spec_clear_on_finish(Some(op), kind, idx) == Some(op),
{
}

/// Escalation monotonicity: for an operation whose cancellation has not
/// been requested yet, the first request yields the graceful stage and
/// pushes the graceful signal; the second yields the forced stage and
/// pushes the force signal; the third leaves the forced stage as it is
/// and pushes nothing, so the force action is never re-triggered.
pub proof fn lemma_escalation(op: InflightOperation)
    requires
        op.cancel_stage == CancelStage::NotRequested,
    ensures
        ({
            let (s1, g1) = spec_cancel_step(Some(op));
            let (s2, g2) = spec_cancel_step(s1);
            let (s3, g3) = spec_cancel_step(s2);
            &&& s1 matches Some(o1) && o1.cancel_stage == CancelStage::GracefulRequested
            &&& g1 == Some(CancelSignal::Graceful)
            &&& s2 matches Some(o2) && o2.cancel_stage == CancelStage::ForceRequested
            &&& g2 == Some(CancelSignal::Force)
            &&& s3 == s2
            &&& g3 is None
        }),
{
}

/// Escalation never goes backwards, and a cancellation request never
/// changes which operation is inflight.
pub proof fn lemma_escalation_monotone(slot: Option<InflightOperation>)
    ensures
        slot matches Some(op) ==> (spec_cancel_step(slot).0 matches Some(op2) && op2.kind
            == op.kind && op2.account_idx == op.account_idx && op2.cancel_stage.rank()
            >= op.cancel_stage.rank()),
        slot is None ==> spec_cancel_step(slot).0 is None,
{
}

/// Appending lines to the bounded log concatenates and keeps only the
/// newest entries: as long as everything fits, nothing is lost, and once
/// the capacity is exceeded exactly the oldest excess is gone.
pub proof fn lemma_push_all_is_suffix(buf: Seq<Seq<char>>, lines: Seq<Seq<char>>, cap: nat)
    requires
        buf.len() <= cap,
    ensures
        spec_push_all(buf, lines, cap) == if buf.len() + lines.len() <= cap {
            buf + lines
        } else {
            (buf + lines).skip(buf.len() + lines.len() - cap)
        },
    decreases lines.len(),
{
    if lines.len() == 0 {
        assert(buf + lines =~= buf);
    } else {
        lemma_push_all_is_suffix(buf, lines.drop_last(), cap);
        let prev = spec_push_all(buf, lines.drop_last(), cap);
        let line = lines.last();
        assert(prev.len() <= cap);
        if buf.len() + lines.len() - 1 <= cap {
            assert(prev == buf + lines.drop_last());
            if buf.len() + lines.len() <= cap {
                assert(spec_push_bounded(prev, line, cap) =~= buf + lines);
            } else {
                assert(spec_push_bounded(prev, line, cap) =~= (buf + lines).skip(
                    buf.len() + lines.len() - cap,
                ));
            }
        } else {
            assert(prev == (buf + lines.drop_last()).skip(buf.len() + lines.len() - 1 - cap));
            assert(prev.len() == cap);
            assert(spec_push_bounded(prev, line, cap) =~= (buf + lines).skip(
                buf.len() + lines.len() - cap,
            ));
        }
    }
}

/// Buffer bound: after appending more lines than the log can hold, its
/// length is exactly the capacity and it holds the most recent lines in
/// their original relative order.
pub proof fn lemma_buffer_bound(buf: Seq<Seq<char>>, lines: Seq<Seq<char>>, cap: nat)
    requires
        buf.len() <= cap,
        lines.len() > cap,
    ensures
        spec_push_all(buf, lines, cap).len() == cap,
        spec_push_all(buf, lines, cap) == lines.skip(lines.len() - cap),
{
    lemma_push_all_is_suffix(buf, lines, cap);
    assert((buf + lines).skip(buf.len() + lines.len() - cap) =~= lines.skip(lines.len() - cap));
}

} // verus!
