//! The convergence loop as a state machine.
//!
//! A run starts with `LoopState::start`, performs one relaxation step for as
//! long as the state is `Running`, and reports after each step whether the
//! largest change of that step stayed below the tolerance. The machine
//! decides when the run is over and why.

use vstd::prelude::*;

verus! {

/// Why a run ended.
#[derive(Clone, Copy, Debug, PartialEq, Eq, Structural)]
pub enum Termination {
    /// A step stayed below the tolerance; `iterations` steps had been
    /// completed before it.
    Converged { iterations: usize },
    /// The iteration cap was used up and no step stayed below the tolerance.
    MaxIterationsReached,
}

/// Where a run stands between two relaxation steps.
#[derive(Clone, Copy, Debug, PartialEq, Eq, Structural)]
pub enum LoopState {
    /// `iterations` steps are done, none of them converged, and another one
    /// is owed.
    Running { iterations: usize },
    /// The run is over; no further step changes this.
    Terminated { reason: Termination },
}

impl LoopState {
    /// The state of a run with iteration cap `cap` before its first step.
    pub open spec fn initial(cap: usize) -> LoopState {
        if cap == 0 {
            LoopState::Terminated { reason: Termination::MaxIterationsReached }
        } else {
            LoopState::Running { iterations: 0 }
        }
    }

    /// The state that follows `self` once a step has reported `converged`.
    pub open spec fn next(self, cap: usize, converged: bool) -> LoopState {
        match self {
            LoopState::Terminated { reason } => self,
            LoopState::Running { iterations } => {
                if converged {
                    LoopState::Terminated { reason: Termination::Converged { iterations } }
                } else if iterations + 1 < cap {
                    LoopState::Running { iterations: (iterations + 1) as usize }
                } else {
                    LoopState::Terminated { reason: Termination::MaxIterationsReached }
                }
            },
        }
    }

    /// The state after the steps whose reports are `reports`, in order.
    pub open spec fn after(cap: usize, reports: Seq<bool>) -> LoopState
        decreases reports.len(),
    {
        if reports.len() == 0 {
            Self::initial(cap)
        } else {
            Self::after(cap, reports.drop_last()).next(cap, reports.last())
        }
    }

    /// The reason why the run ended, if it has.
    pub open spec fn reason(self) -> Option<Termination> {
        match self {
            LoopState::Running { iterations } => None,
            LoopState::Terminated { reason } => Some(reason),
        }
    }

    /// Begins a run: with a cap of zero the budget is used up at once,
    /// otherwise the first step is owed.
    pub fn start(cap: usize) -> (state: LoopState)
        ensures
            state == Self::initial(cap),
    {
        if cap == 0 {
            LoopState::Terminated { reason: Termination::MaxIterationsReached }
        } else {
            LoopState::Running { iterations: 0 }
        }
    }

    /// Takes in the report of one relaxation step: `converged` says whether
    /// its largest change stayed below the tolerance.
    pub fn after_step(self, cap: usize, converged: bool) -> (state: LoopState)
        ensures
            state == self.next(cap, converged),
    {
        match self {
            LoopState::Terminated { reason } => LoopState::Terminated { reason },
            LoopState::Running { iterations } => {
                if converged {
                    LoopState::Terminated { reason: Termination::Converged { iterations } }
                } else if iterations < cap && cap - iterations > 1 {
                    LoopState::Running { iterations: iterations + 1 }
                } else {
                    LoopState::Terminated { reason: Termination::MaxIterationsReached }
                }
            },
        }
    }

    /// The reason why the run ended; `None` while another step is owed.
    pub fn termination(&self) -> (reason: Option<Termination>)
        ensures
            reason == self.reason(),
    {
        match self {
            LoopState::Running { iterations } => None,
            LoopState::Terminated { reason } => Some(*reason),
        }
    }
}

/// None of the first `count` reports says that its step converged.
pub open spec fn none_converged(reports: Seq<bool>, count: int) -> bool {
    forall|j: int| 0 <= j < count && j < reports.len() ==> !reports[j]
}

/// What a run has come to after any sequence of step reports:
/// it is still running exactly when fewer steps than the cap were taken and
/// none converged; it has converged at the first step that said so, provided
/// that step lies within the cap; and it has used up its budget exactly when
/// as many steps as the cap were reported and none of those converged.
pub proof fn lemma_outcome(cap: usize, reports: Seq<bool>)
    ensures
        match LoopState::after(cap, reports) {
            LoopState::Running { iterations } => {
                &&& iterations == reports.len()
                &&& reports.len() < cap
                &&& none_converged(reports, reports.len() as int)
            },
            LoopState::Terminated { reason: Termination::Converged { iterations } } => {
                &&& iterations < cap
                &&& iterations < reports.len()
                &&& reports[iterations as int]
                &&& none_converged(reports, iterations as int)
            },
            LoopState::Terminated { reason: Termination::MaxIterationsReached } => {
                &&& cap <= reports.len()
                &&& none_converged(reports, cap as int)
            },
        },
    decreases reports.len(),
{
    if reports.len() > 0 {
        let earlier = reports.drop_last();
        lemma_outcome(cap, earlier);
        assert(forall|j: int| 0 <= j < earlier.len() ==> earlier[j] == reports[j]);
    }
}

/// A run never takes more steps than its cap: once as many steps as the cap
/// have reported, it is over.
pub proof fn lemma_terminates_within_cap(cap: usize, reports: Seq<bool>)
    requires
        reports.len() >= cap,
    ensures
        LoopState::after(cap, reports) is Terminated,
{
    lemma_outcome(cap, reports);
}

/// A run that is over stays as it ended: whatever later steps report, the
/// state and the reason do not change.
pub proof fn lemma_termination_is_final(cap: usize, reports: Seq<bool>, later: Seq<bool>)
    requires
        LoopState::after(cap, reports) is Terminated,
    ensures
        LoopState::after(cap, reports + later) == LoopState::after(cap, reports),
    decreases later.len(),
{
    if later.len() == 0 {
        assert(reports + later =~= reports);
    } else {
        lemma_termination_is_final(cap, reports, later.drop_last());
        assert((reports + later).drop_last() =~= reports + later.drop_last());
        assert((reports + later).last() == later.last());
    }
}

} // verus!
