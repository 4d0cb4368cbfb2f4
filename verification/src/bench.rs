//! The order of a benchmark: the call is run once untimed, so that the cache
//! is warm, and only then timed, a fixed number of times.

use crate::vm::CallError;
use vstd::prelude::*;

verus! {

/// How many timed runs a benchmark makes.
pub const RUNS: usize = 100000;

/// Where a benchmark stands.
#[derive(Clone, Copy, Debug, PartialEq, Eq, Structural)]
pub enum Phase {
    /// The untimed first run is still to be made.
    Priming,
    /// The first run went well; the clock is still to be started.
    Starting,
    /// The clock runs, and so many timed runs went well.
    Timing { done: usize },
    /// All timed runs went well and the clock was stopped.
    Finished,
    /// A run failed.
    Failed(CallError),
}

/// What the driver is to do next.
#[derive(Clone, Copy, Debug, PartialEq, Eq, Structural)]
pub enum Action {
    /// Run the call once, untimed, and show its output.
    Prime,
    /// Start the clock.
    Start,
    /// Run the call once under the clock.
    Run,
    /// Stop the clock and show the time; after that, nothing more.
    Finish,
    /// Give up with the error of the run that failed.
    Abort(CallError),
}

/// One benchmark of one call.
#[derive(Clone, Copy, Debug, PartialEq, Eq, Structural)]
pub struct Bench {
    pub runs: usize,
    pub phase: Phase,
}

impl Bench {
    /// What is to be done in a phase of a benchmark of `runs` timed runs.
    pub open spec fn action_in(runs: usize, phase: Phase) -> Action {
        match phase {
            Phase::Priming => Action::Prime,
            Phase::Starting => Action::Start,
            Phase::Timing { done } => if done < runs {
                Action::Run
            } else {
                Action::Finish
            },
            Phase::Finished => Action::Finish,
            Phase::Failed(error) => Action::Abort(error),
        }
    }

    /// The phase that follows when the action of a phase has been carried
    /// out with the given outcome. Only a run of the call can fail.
    pub open spec fn phase_after(
        runs: usize,
        phase: Phase,
        outcome: Result<(), CallError>,
    ) -> Phase {
        match phase {
            Phase::Priming => match outcome {
                Ok(_) => Phase::Starting,
                Err(error) => Phase::Failed(error),
            },
            Phase::Starting => Phase::Timing { done: 0 },
            Phase::Timing { done } => if done < runs {
                match outcome {
                    Ok(_) => Phase::Timing { done: (done + 1) as usize },
                    Err(error) => Phase::Failed(error),
                }
            } else {
                Phase::Finished
            },
            Phase::Finished => Phase::Finished,
            Phase::Failed(error) => Phase::Failed(error),
        }
    }

    /// The phase of a benchmark of `runs` timed runs after the outcomes of
    /// its first actions, in order.
    pub open spec fn phase_after_all(runs: usize, outcomes: Seq<Result<(), CallError>>) -> Phase
        decreases outcomes.len(),
    {
        if outcomes.len() == 0 {
            Phase::Priming
        } else {
            Bench::phase_after(
                runs,
                Bench::phase_after_all(runs, outcomes.drop_last()),
                outcomes.last(),
            )
        }
    }

    /// A benchmark of `runs` timed runs, before its first run.
    pub fn new(runs: usize) -> (r: Bench)
        ensures
            r == (Bench { runs, phase: Phase::Priming }),
    {
        Bench { runs, phase: Phase::Priming }
    }

    /// What the driver is to do now.
    pub fn action(&self) -> (r: Action)
        ensures
            r == Bench::action_in(self.runs, self.phase),
    {
        match self.phase {
            Phase::Priming => Action::Prime,
            Phase::Starting => Action::Start,
            Phase::Timing { done } => if done < self.runs {
                Action::Run
            } else {
                Action::Finish
            },
            Phase::Finished => Action::Finish,
            Phase::Failed(error) => Action::Abort(error),
        }
    }

    /// Takes the outcome of the action that `action` asked for.
    pub fn record(&mut self, outcome: Result<(), CallError>)
        ensures
            final(self).runs == old(self).runs,
            final(self).phase == Bench::phase_after(old(self).runs, old(self).phase, outcome),
    {
        let next = match self.phase {
            Phase::Priming => match outcome {
                Ok(_) => Phase::Starting,
                Err(error) => Phase::Failed(error),
            },
            Phase::Starting => Phase::Timing { done: 0 },
            Phase::Timing { done } => if done < self.runs {
                match outcome {
                    Ok(_) => Phase::Timing { done: done + 1 },
                    Err(error) => Phase::Failed(error),
                }
            } else {
                Phase::Finished
            },
            Phase::Finished => Phase::Finished,
            Phase::Failed(error) => Phase::Failed(error),
        };
        self.phase = next;
    }
}

/// A timed run is only ever asked for after the untimed first run went well
/// and the clock was started, and after every timed run before it went well;
/// and never more than `runs` of them are asked for.
pub proof fn law_primed_before_timed(runs: usize, outcomes: Seq<Result<(), CallError>>)
    requires
        Bench::action_in(runs, Bench::phase_after_all(runs, outcomes)) == Action::Run,
    ensures
        outcomes.len() >= 2,
        outcomes[0] is Ok,
        forall|i: int| 2 <= i < outcomes.len() ==> (#[trigger] outcomes[i]) is Ok,
        Bench::phase_after_all(runs, outcomes) == (Phase::Timing {
            done: (outcomes.len() - 2) as usize,
        }),
        outcomes.len() - 2 < runs,
{
    lemma_phase_counts(runs, outcomes);
}

/// When every run goes well, the benchmark asks for the untimed run, then
/// for the clock, then for exactly `runs` timed runs, then for the end.
pub proof fn law_full_benchmark(runs: usize, outcomes: Seq<Result<(), CallError>>)
    requires
        forall|i: int| 0 <= i < outcomes.len() ==> (#[trigger] outcomes[i]) is Ok,
    ensures
        Bench::action_in(runs, Bench::phase_after_all(runs, outcomes)) == if outcomes.len() == 0 {
            Action::Prime
        } else if outcomes.len() == 1 {
            Action::Start
        } else if outcomes.len() - 2 < runs {
            Action::Run
        } else {
            Action::Finish
        },
    decreases outcomes.len(),
{
    if outcomes.len() > 0 {
        let earlier = outcomes.drop_last();
        assert forall|i: int| 0 <= i < earlier.len() implies (#[trigger] earlier[i]) is Ok by {
            assert(earlier[i] == outcomes[i]);
        }
        law_full_benchmark(runs, earlier);
        lemma_phase_counts(runs, earlier);
        lemma_phase_counts(runs, outcomes);
    }
}

/// What each phase says of the outcomes that led to it.
proof fn lemma_phase_counts(runs: usize, outcomes: Seq<Result<(), CallError>>)
    ensures
        match Bench::phase_after_all(runs, outcomes) {
            Phase::Priming => outcomes.len() == 0,
            Phase::Starting => outcomes.len() == 1 && outcomes[0] is Ok,
            Phase::Timing { done } => {
                &&& outcomes.len() == done + 2
                &&& done <= runs
                &&& outcomes[0] is Ok
                &&& forall|i: int| 2 <= i < outcomes.len() ==> (#[trigger] outcomes[i]) is Ok
            },
            Phase::Finished => outcomes.len() >= runs + 3,
            Phase::Failed(_) => exists|i: int|
                0 <= i < outcomes.len() && (#[trigger] outcomes[i]) is Err,
        },
    decreases outcomes.len(),
{
    if outcomes.len() > 0 {
        let earlier = outcomes.drop_last();
        lemma_phase_counts(runs, earlier);
        let last = outcomes.len() - 1;
        assert(outcomes[last] == outcomes.last());
        assert forall|i: int| 0 <= i < earlier.len() implies earlier[i] == outcomes[i] by {}
        match Bench::phase_after_all(runs, earlier) {
            Phase::Priming => {},
            Phase::Starting => {
                assert(earlier[0] == outcomes[0]);
            },
            Phase::Timing { done } => {
                assert(earlier[0] == outcomes[0]);
                assert forall|i: int| 2 <= i < outcomes.len() && Bench::phase_after_all(
                    runs,
                    outcomes,
                ) is Timing implies (#[trigger] outcomes[i]) is Ok by {
                    if i < last {
                        assert(earlier[i] == outcomes[i]);
                    }
                }
            },
            Phase::Finished => {},
            Phase::Failed(_) => {
                let i = choose|i: int| 0 <= i < earlier.len() && (#[trigger] earlier[i]) is Err;
                assert(outcomes[i] == earlier[i]);
            },
        }
    }
}

} // verus!
