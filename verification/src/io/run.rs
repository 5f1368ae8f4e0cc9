//! The steps of a wipe and the order in which they run.
//!
//! The library names each step; the caller carries it out and reports
//! whether it succeeded. What a failure means is decided here.

use vstd::prelude::*;

verus! {

/// One thing to do to the file.
#[derive(Debug, Clone, Copy, PartialEq, Eq, Structural)]
pub enum WipeStep {
    /// Run the optimizer's hook before the first pass.
    PreWipeSetup,
    /// Overwrite the whole file with the pattern of this index.
    WritePass { pass: usize },
    /// Read the file back.
    Verify,
    /// Run the optimizer's hook after the last pass.
    PostWipeCleanup,
    /// Set access and modification time to a random instant.
    RandomizeTimestamps,
    /// Remove every extended attribute.
    ClearExtendedAttributes,
    /// Give the file a fresh random name in its directory.
    Rename { iteration: usize },
    /// Remove the file.
    Unlink,
}

/// Why a wipe failed.
#[derive(Debug, Clone, Copy, PartialEq, Eq, Structural)]
pub enum WipeError {
    /// The target does not exist, is no regular file, or cannot be written.
    PathError,
    /// No seed could be drawn for a random pattern.
    EntropyUnavailable,
    /// A write, seek or sync failed during a pass.
    WriteError,
    /// The file could not be removed at the end.
    UnlinkError,
}

/// The class of a warning. A warning never stops the wipe.
#[derive(Debug, Clone, Copy, PartialEq, Eq, Structural)]
pub enum Advisory {
    /// A hook of the optimizer did not succeed.
    Optimizer,
    /// Reading back found only zeros or a mismatch, or could not read.
    Verify,
    /// A timestamp, attribute or name could not be changed.
    Metadata,
}

/// What the failure of a step leads to.
#[derive(Debug, Clone, Copy, PartialEq, Eq, Structural)]
pub enum FailurePolicy {
    Warn(Advisory),
    Fatal(WipeError),
}

impl WipeStep {
    /// Only a failed pass and a failed removal end the wipe; everything
    /// else is reported and the wipe goes on.
    pub open spec fn policy(self) -> FailurePolicy {
        match self {
            WipeStep::PreWipeSetup => FailurePolicy::Warn(Advisory::Optimizer),
            WipeStep::WritePass { .. } => FailurePolicy::Fatal(WipeError::WriteError),
            WipeStep::Verify => FailurePolicy::Warn(Advisory::Verify),
            WipeStep::PostWipeCleanup => FailurePolicy::Warn(Advisory::Optimizer),
            WipeStep::RandomizeTimestamps => FailurePolicy::Warn(Advisory::Metadata),
            WipeStep::ClearExtendedAttributes => FailurePolicy::Warn(Advisory::Metadata),
            WipeStep::Rename { .. } => FailurePolicy::Warn(Advisory::Metadata),
            WipeStep::Unlink => FailurePolicy::Fatal(WipeError::UnlinkError),
        }
    }

    pub fn on_failure(&self) -> (policy: FailurePolicy)
        ensures
            policy == self.policy(),
    {
        match self {
            WipeStep::PreWipeSetup => FailurePolicy::Warn(Advisory::Optimizer),
            WipeStep::WritePass { .. } => FailurePolicy::Fatal(WipeError::WriteError),
            WipeStep::Verify => FailurePolicy::Warn(Advisory::Verify),
            WipeStep::PostWipeCleanup => FailurePolicy::Warn(Advisory::Optimizer),
            WipeStep::RandomizeTimestamps => FailurePolicy::Warn(Advisory::Metadata),
            WipeStep::ClearExtendedAttributes => FailurePolicy::Warn(Advisory::Metadata),
            WipeStep::Rename { .. } => FailurePolicy::Warn(Advisory::Metadata),
            WipeStep::Unlink => FailurePolicy::Fatal(WipeError::UnlinkError),
        }
    }
}

/// The first position at or after `from` that holds no rename, or the end.
pub open spec fn skip_renames(steps: Seq<WipeStep>, from: nat) -> nat
    decreases steps.len() - from,
{
    if from < steps.len() && steps[from as int] is Rename {
        skip_renames(steps, from + 1)
    } else {
        from
    }
}

/// Where a run stands: its steps, the position of the next one, and the
/// error that ended it, if one did.
pub struct RunState {
    pub steps: Seq<WipeStep>,
    pub position: nat,
    pub failure: Option<WipeError>,
}

impl RunState {
    /// A run that has not begun.
    pub open spec fn start(steps: Seq<WipeStep>) -> RunState {
        RunState { steps, position: 0, failure: None }
    }

    pub open spec fn finished(self) -> bool {
        self.failure is Some || self.position >= self.steps.len()
    }

    /// The step to carry out next.
    pub open spec fn current(self) -> Option<WipeStep> {
        if self.finished() {
            None
        } else {
            Some(self.steps[self.position as int])
        }
    }

    /// The warning to pass on when the current step ends with `ok`.
    pub open spec fn advisory(self, ok: bool) -> Option<Advisory> {
        if self.finished() || ok {
            None
        } else {
            match self.steps[self.position as int].policy() {
                FailurePolicy::Warn(advisory) => Some(advisory),
                FailurePolicy::Fatal(_) => None,
            }
        }
    }

    /// The state once the current step has ended with `ok`. A failed rename
    /// ends the renaming: the run goes on behind the last rename.
    pub open spec fn after(self, ok: bool) -> RunState {
        if self.finished() {
            self
        } else if ok {
            RunState { position: self.position + 1, ..self }
        } else {
            match self.steps[self.position as int].policy() {
                FailurePolicy::Fatal(error) => RunState { failure: Some(error), ..self },
                FailurePolicy::Warn(_) => if self.steps[self.position as int] is Rename {
                    RunState { position: skip_renames(self.steps, self.position + 1), ..self }
                } else {
                    RunState { position: self.position + 1, ..self }
                },
            }
        }
    }

    /// How the run ended, once it has.
    pub open spec fn result(self) -> Option<Result<(), WipeError>> {
        match self.failure {
            Some(error) => Some(Err(error)),
            None => if self.position >= self.steps.len() {
                Some(Ok(()))
            } else {
                None
            },
        }
    }

    /// The state after the steps ended with `outcomes`, one after another.
    /// Outcomes beyond the end of the run are ignored.
    pub open spec fn run(self, outcomes: Seq<bool>) -> RunState
        decreases outcomes.len(),
    {
        if outcomes.len() == 0 {
            self
        } else {
            self.after(outcomes[0]).run(outcomes.drop_first())
        }
    }

    /// The positions of the steps that are carried out under `outcomes`, in
    /// the order in which they run.
    pub open spec fn executed(self, outcomes: Seq<bool>) -> Seq<nat>
        decreases outcomes.len(),
    {
        if outcomes.len() == 0 || self.finished() {
            Seq::empty()
        } else {
            seq![self.position] + self.after(outcomes[0]).executed(outcomes.drop_first())
        }
    }
}

/// Whether the steps end with the removal of the file and remove it
/// nowhere else.
pub open spec fn ends_with_removal(steps: Seq<WipeStep>) -> bool {
    &&& steps.len() > 0
    &&& forall|i: int| 0 <= i < steps.len() ==> (#[trigger] steps[i] is Unlink <==> i == steps.len() - 1)
}

proof fn lemma_skip_renames_bounds(steps: Seq<WipeStep>, from: nat)
    ensures
        from <= skip_renames(steps, from),
        from <= steps.len() ==> skip_renames(steps, from) <= steps.len(),
    decreases steps.len() - from,
{
    if from < steps.len() && steps[from as int] is Rename {
        lemma_skip_renames_bounds(steps, from + 1);
    }
}

proof fn lemma_skip_renames_stops(steps: Seq<WipeStep>, from: nat, stop: nat)
    requires
        from <= stop < steps.len(),
        !(steps[stop as int] is Rename),
    ensures
        skip_renames(steps, from) <= stop,
    decreases steps.len() - from,
{
    if from < stop && steps[from as int] is Rename {
        lemma_skip_renames_stops(steps, from + 1, stop);
    }
}

proof fn lemma_finished_stays(state: RunState, outcomes: Seq<bool>)
    requires
        state.finished(),
    ensures
        state.run(outcomes) == state,
    decreases outcomes.len(),
{
    if outcomes.len() > 0 {
        lemma_finished_stays(state, outcomes.drop_first());
    }
}

proof fn lemma_after_moves_on(state: RunState, ok: bool)
    requires
        !state.finished(),
    ensures
        state.after(ok).steps == state.steps,
        state.after(ok).failure is None ==> state.after(ok).position > state.position,
{
    lemma_skip_renames_bounds(state.steps, state.position + 1);
}

proof fn lemma_runs_in_order_from(state: RunState, outcomes: Seq<bool>)
    ensures
        forall|i: int|
            0 <= i < state.executed(outcomes).len() ==> state.position <= #[trigger] state.executed(
                outcomes,
            )[i] < state.steps.len(),
        forall|i: int, j: int|
            0 <= i < j < state.executed(outcomes).len() ==> state.executed(outcomes)[i]
                < state.executed(outcomes)[j],
    decreases outcomes.len(),
{
    let all = state.executed(outcomes);
    if all.len() > 0 {
        let next = state.after(outcomes[0]);
        let rest = outcomes.drop_first();
        let tail = next.executed(rest);
        assert(all =~= seq![state.position] + tail);
        lemma_after_moves_on(state, outcomes[0]);
        lemma_runs_in_order_from(next, rest);
        assert forall|i: int| 0 <= i < all.len() implies state.position <= #[trigger] all[i]
            < state.steps.len() by {
            if i > 0 {
                assert(all[i] == tail[i - 1]);
            }
        }
        assert forall|i: int, j: int| 0 <= i < j < all.len() implies all[i] < all[j] by {
            assert(all[j] == tail[j - 1]);
            if i > 0 {
                assert(all[i] == tail[i - 1]);
            }
        }
    }
}

/// Steps run one at a time in the order of the plan and none runs twice:
/// a pass begins only when every pass before it is over.
pub proof fn lemma_steps_run_in_order(steps: Seq<WipeStep>, outcomes: Seq<bool>)
    ensures
        forall|i: int|
            0 <= i < RunState::start(steps).executed(outcomes).len() ==> (#[trigger] RunState::start(
                steps,
            ).executed(outcomes)[i]) < steps.len(),
        forall|i: int, j: int|
            0 <= i < j < RunState::start(steps).executed(outcomes).len() ==> RunState::start(
                steps,
            ).executed(outcomes)[i] < RunState::start(steps).executed(outcomes)[j],
{
    lemma_runs_in_order_from(RunState::start(steps), outcomes);
}

proof fn lemma_success_from(state: RunState, outcomes: Seq<bool>)
    requires
        !state.finished(),
        ends_with_removal(state.steps),
        state.run(outcomes).result() == Some(Ok::<(), WipeError>(())),
    ensures
        state.executed(outcomes).len() > 0,
        state.executed(outcomes).len() <= outcomes.len(),
        state.executed(outcomes).last() == state.steps.len() - 1,
        outcomes[state.executed(outcomes).len() - 1],
    decreases outcomes.len(),
{
    let steps = state.steps;
    let last = (steps.len() - 1) as nat;
    if outcomes.len() == 0 {
        assert(state.run(outcomes) == state);
    } else {
        let ok = outcomes[0];
        let next = state.after(ok);
        let rest = outcomes.drop_first();
        lemma_after_moves_on(state, ok);
        if next.finished() {
            lemma_finished_stays(next, rest);
            assert(next.failure is None);
            assert(next.executed(rest) =~= Seq::<nat>::empty());
            assert(state.executed(outcomes) =~= seq![state.position]);
            if state.position < last {
                assert(!(steps[state.position as int] is Unlink));
                assert(steps[last as int] is Unlink);
                if !ok && steps[state.position as int] is Rename {
                    lemma_skip_renames_stops(steps, state.position + 1, last);
                }
            } else {
                assert(steps[state.position as int] is Unlink);
            }
        } else {
            lemma_success_from(next, rest);
            let tail = next.executed(rest);
            assert(state.executed(outcomes) =~= seq![state.position] + tail);
            assert(rest[tail.len() - 1] == outcomes[tail.len() as int]);
        }
    }
}

/// A wipe that ends well has removed the file: the last step that ran was
/// the removal, and it succeeded.
pub proof fn lemma_success_means_removed(steps: Seq<WipeStep>, outcomes: Seq<bool>)
    requires
        ends_with_removal(steps),
        RunState::start(steps).run(outcomes).result() == Some(Ok::<(), WipeError>(())),
    ensures
        ({
            let executed = RunState::start(steps).executed(outcomes);
            &&& 0 < executed.len() <= outcomes.len()
            &&& steps[executed.last() as int] is Unlink
            &&& outcomes[executed.len() - 1]
        }),
{
    lemma_success_from(RunState::start(steps), outcomes);
}

proof fn lemma_failed_pass_from(state: RunState, outcomes: Seq<bool>, k: int)
    requires
        state.failure is None,
        ends_with_removal(state.steps),
        0 <= k < state.executed(outcomes).len(),
        k < outcomes.len(),
        state.steps[state.executed(outcomes)[k] as int] is WritePass,
        !outcomes[k],
    ensures
        state.run(outcomes).result() == Some(Err::<(), WipeError>(WipeError::WriteError)),
        k == state.executed(outcomes).len() - 1,
        forall|j: int|
            0 <= j < state.executed(outcomes).len() ==> !(state.steps[#[trigger] state.executed(
                outcomes,
            )[j] as int] is Unlink),
    decreases outcomes.len(),
{
    let steps = state.steps;
    let ok = outcomes[0];
    let next = state.after(ok);
    let rest = outcomes.drop_first();
    let tail = next.executed(rest);
    let all = state.executed(outcomes);
    assert(all =~= seq![state.position] + tail);
    lemma_after_moves_on(state, ok);
    if k == 0 {
        assert(next.failure == Some(WipeError::WriteError));
        lemma_finished_stays(next, rest);
        assert(tail =~= Seq::<nat>::empty());
    } else {
        assert(tail[k - 1] == all[k]);
        assert(rest[k - 1] == outcomes[k]);
        assert(!next.finished());
        lemma_failed_pass_from(next, rest, k - 1);
        assert(!(steps[state.position as int] is Unlink));
        assert forall|j: int| 0 <= j < all.len() implies !(steps[#[trigger] all[j] as int]
            is Unlink) by {
            if j > 0 {
                assert(all[j] == tail[j - 1]);
            }
        }
    }
}

/// A pass that fails ends the wipe with a write error: no step runs after
/// it, and the file is never removed.
pub proof fn lemma_failed_pass_keeps_file(steps: Seq<WipeStep>, outcomes: Seq<bool>, k: int)
    requires
        ends_with_removal(steps),
        0 <= k < RunState::start(steps).executed(outcomes).len(),
        k < outcomes.len(),
        steps[RunState::start(steps).executed(outcomes)[k] as int] is WritePass,
        !outcomes[k],
    ensures
        RunState::start(steps).run(outcomes).result() == Some(
            Err::<(), WipeError>(WipeError::WriteError),
        ),
        k == RunState::start(steps).executed(outcomes).len() - 1,
        forall|j: int|
            0 <= j < RunState::start(steps).executed(outcomes).len() ==> !(steps[
                #[trigger] RunState::start(steps).executed(outcomes)[j] as int] is Unlink),
{
    lemma_failed_pass_from(RunState::start(steps), outcomes, k);
}

/// A run in progress.
pub struct WipeRun {
    steps: Vec<WipeStep>,
    position: usize,
    failure: Option<WipeError>,
}

impl View for WipeRun {
    type V = RunState;

    closed spec fn view(&self) -> RunState {
        RunState { steps: self.steps@, position: self.position as nat, failure: self.failure }
    }
}

impl WipeRun {
    /// A run of the given steps, about to begin.
    pub fn new(steps: Vec<WipeStep>) -> (run: WipeRun)
        ensures
            run@ == RunState::start(steps@),
    {
        WipeRun { steps, position: 0, failure: None }
    }

    pub fn is_finished(&self) -> (finished: bool)
        ensures
            finished == self@.finished(),
    {
        self.failure.is_some() || self.position >= self.steps.len()
    }

    /// The step to carry out next, or `None` when the run is over.
    pub fn current(&self) -> (step: Option<WipeStep>)
        ensures
            step == self@.current(),
    {
        if self.is_finished() {
            None
        } else {
            Some(self.steps[self.position])
        }
    }

    /// Records how the current step ended and moves on. It returns the
    /// warning to emit, if the step failed without ending the wipe. On a
    /// finished run it changes nothing.
    pub fn complete(&mut self, ok: bool) -> (advisory: Option<Advisory>)
        ensures
            final(self)@ == old(self)@.after(ok),
            advisory == old(self)@.advisory(ok),
    {
        let count = self.steps.len();
        if self.failure.is_some() || self.position >= count {
            return None;
        }
        let step = self.steps[self.position];
        if ok {
            self.position = self.position + 1;
            return None;
        }
        match step.on_failure() {
            FailurePolicy::Fatal(error) => {
                self.failure = Some(error);
                None
            },
            FailurePolicy::Warn(advisory) => {
                let ghost first = self.position;
                self.position = self.position + 1;
                match step {
                    WipeStep::Rename { .. } => {
                        while self.position < count && is_rename(
                            &self.steps[self.position],
                        )
                            invariant
                                count == self.steps@.len(),
                                self.steps@ == old(self).steps@,
                                self.failure == old(self).failure,
                                first < self.position <= self.steps@.len(),
                                skip_renames(self.steps@, (first + 1) as nat) == skip_renames(
                                    self.steps@,
                                    self.position as nat,
                                ),
                            decreases self.steps@.len() - self.position,
                        {
                            self.position = self.position + 1;
                        }
                    },
                    _ => {},
                }
                Some(advisory)
            },
        }
    }

    /// How the run ended, or `None` while steps remain.
    pub fn result(&self) -> (result: Option<Result<(), WipeError>>)
        ensures
            result == self@.result(),
    {
        match self.failure {
            Some(error) => Some(Err(error)),
            None => if self.position >= self.steps.len() {
                Some(Ok(()))
            } else {
                None
            },
        }
    }
}

fn is_rename(step: &WipeStep) -> (rename: bool)
    ensures
        rename == (*step is Rename),
{
    match step {
        WipeStep::Rename { .. } => true,
        _ => false,
    }
}

} // verus!
