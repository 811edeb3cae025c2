//! The command runner's decision core. The runner owns one external
//! process and races process exit against changes of the cancellation
//! signal; this module decides, for each observation of the signal, what
//! the wait loop must do, and guarantees both escalation actions fire at
//! most once however often a signal value is observed.

use vstd::prelude::*;
use crate::ops::CancelSignal;

verus! {

/// Result of one supervised command run. `cancelled` reports whether any
/// cancellation stage was ever observed, even when the process was already
/// about to exit; success and cancellation are therefore not mutually
/// exclusive.
#[derive(Clone, Copy, Debug)]
pub struct RunOutcome {
    pub success: bool,
    pub cancelled: bool,
    pub exit_code: Option<i32>,
}

/// What the wait loop must do after one observation of the cancellation
/// signal.
#[derive(Clone, Copy, Debug, PartialEq, Eq, Structural)]
pub enum RunnerAction {
    /// Keep waiting; nothing to send.
    KeepWaiting,
    /// Send the graceful interrupt to the process, once.
    SendInterrupt,
    /// Forcibly terminate the process, once.
    ForceKill,
}

/// The runner's memory across observations of the cancellation signal: the
/// signal is observed without being consumed, so the same value may be seen
/// any number of times, and each escalation action must fire only on the
/// first.
#[derive(Clone, Copy, Debug, PartialEq, Eq, Structural)]
pub struct RunnerState {
    pub cancelled: bool,
    pub interrupt_sent: bool,
    pub kill_sent: bool,
}

/// The state after one observation of the signal, and the action it
/// requires: the first observation of `Graceful` asks for an interrupt, the
/// first of `Force` for a kill; every repetition asks for nothing.
pub open spec fn spec_observe(s: RunnerState, sig: CancelSignal) -> (RunnerState, RunnerAction) {
    match sig {
        CancelSignal::Idle => (s, RunnerAction::KeepWaiting),
        CancelSignal::Graceful => (
            RunnerState { cancelled: true, interrupt_sent: true, kill_sent: s.kill_sent },
            if s.interrupt_sent {
                RunnerAction::KeepWaiting
            } else {
                RunnerAction::SendInterrupt
            },
        ),
        CancelSignal::Force => (
            RunnerState { cancelled: true, interrupt_sent: s.interrupt_sent, kill_sent: true },
            if s.kill_sent {
                RunnerAction::KeepWaiting
            } else {
                RunnerAction::ForceKill
            },
        ),
    }
}

impl RunnerState {
    /// The state at process spawn: nothing observed, nothing sent.
    pub fn new() -> (r: Self)
        ensures
            r == (RunnerState { cancelled: false, interrupt_sent: false, kill_sent: false }),
    {
        RunnerState { cancelled: false, interrupt_sent: false, kill_sent: false }
    }

    /// Records one observation of the cancellation signal and says what the
    /// wait loop must do for it.
    pub fn observe(&mut self, sig: CancelSignal) -> (a: RunnerAction)
        ensures
            (*final(self), a) == spec_observe(*old(self), sig),
    {
        match sig {
            CancelSignal::Idle => RunnerAction::KeepWaiting,
            CancelSignal::Graceful => {
                self.cancelled = true;
                if self.interrupt_sent {
                    RunnerAction::KeepWaiting
                } else {
                    self.interrupt_sent = true;
                    RunnerAction::SendInterrupt
                }
            },
            CancelSignal::Force => {
                self.cancelled = true;
                if self.kill_sent {
                    RunnerAction::KeepWaiting
                } else {
                    self.kill_sent = true;
                    RunnerAction::ForceKill
                }
            },
        }
    }

    /// The outcome reported once the process has exited: success follows
    /// the exit status, and cancellation reports whether any stage was ever
    /// observed, however late it arrived.
    pub fn outcome(&self, exit_success: bool, exit_code: Option<i32>) -> (r: RunOutcome)
        ensures
            r.success == exit_success,
            r.cancelled == self.cancelled,
            r.exit_code == exit_code,
    {
        RunOutcome { success: exit_success, cancelled: self.cancelled, exit_code }
    }
}

/// The state after a whole sequence of observations, with the actions each
/// observation required, in order.
pub open spec fn spec_observe_seq(s: RunnerState, sigs: Seq<CancelSignal>) -> (
    RunnerState,
    Seq<RunnerAction>,
)
    decreases sigs.len(),
{
    if sigs.len() == 0 {
        (s, Seq::empty())
    } else {
        let (s1, a) = spec_observe(s, sigs[0]);
        let (s2, rest) = spec_observe_seq(s1, sigs.skip(1));
        (s2, seq![a] + rest)
    }
}

/// How many times an action occurs in a sequence of actions.
pub open spec fn action_count(acts: Seq<RunnerAction>, a: RunnerAction) -> nat
    decreases acts.len(),
{
    if acts.len() == 0 {
        0
    } else {
        (if acts[0] == a {
            1nat
        } else {
            0nat
        }) + action_count(acts.skip(1), a)
    }
}

/// Whether some observed signal asked for cancellation.
pub open spec fn any_cancel(sigs: Seq<CancelSignal>) -> bool {
    exists|i: int| 0 <= i < sigs.len() && sigs[i] != CancelSignal::Idle
}

/// Both escalation actions fire at most once over any sequence of
/// observations, starting from any state: an interrupt is asked for at most
/// once more when none was sent yet and never again afterwards, and
/// likewise a kill; and the final state records cancellation exactly when
/// the state already did or some observed signal asked for it.
pub proof fn lemma_runner_fire_once(s: RunnerState, sigs: Seq<CancelSignal>)
    ensures
        action_count(spec_observe_seq(s, sigs).1, RunnerAction::SendInterrupt) <= if s.interrupt_sent {
            0nat
        } else {
            1nat
        },
        action_count(spec_observe_seq(s, sigs).1, RunnerAction::ForceKill) <= if s.kill_sent {
            0nat
        } else {
            1nat
        },
        spec_observe_seq(s, sigs).0.cancelled == (s.cancelled || any_cancel(sigs)),
    decreases sigs.len(),
{
    if sigs.len() == 0 {
    } else {
        let (s1, a) = spec_observe(s, sigs[0]);
        lemma_runner_fire_once(s1, sigs.skip(1));
        let rest = spec_observe_seq(s1, sigs.skip(1)).1;
        assert((seq![a] + rest).skip(1) =~= rest);
        assert(spec_observe_seq(s, sigs).0.cancelled == (s.cancelled || any_cancel(sigs))) by {
            if s.cancelled || sigs[0] != CancelSignal::Idle {
                assert(any_cancel(sigs) || s.cancelled);
            } else {
                assert(s1 == s);
                if any_cancel(sigs.skip(1)) {
                    let i = choose|i: int|
                        0 <= i < sigs.skip(1).len() && sigs.skip(1)[i] != CancelSignal::Idle;
                    assert(sigs[i + 1] != CancelSignal::Idle);
                } else if any_cancel(sigs) {
                    let i = choose|i: int| 0 <= i < sigs.len() && sigs[i] != CancelSignal::Idle;
                    assert(sigs.skip(1)[i - 1] != CancelSignal::Idle);
                }
            }
        }
    }
}

/// Once cancellation has ever been observed, the reported outcome says so:
/// the runner reports cancellation regardless of how the process then
/// exited, so a cancelled run that still exited cleanly is reported as
/// cancelled.
pub proof fn lemma_cancel_reported(s: RunnerState, sigs: Seq<CancelSignal>)
    requires
        !s.cancelled,
    ensures
        spec_observe_seq(s, sigs).0.cancelled == any_cancel(sigs),
{
    lemma_runner_fire_once(s, sigs);
}

} // verus!
