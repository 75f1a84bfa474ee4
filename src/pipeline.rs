use vstd::prelude::*;
use crate::outcome::{RunOutcome, StageOutcome};
use crate::stages::SelectedStage;

verus! {

/// The abstract state of a run: the stages in order, how many have been
/// started, whether the last one started has yet to report, and how the run
/// ended, once it has.
pub struct RunState {
    pub stages: Seq<SelectedStage>,
    pub started: nat,
    pub awaiting: bool,
    pub outcome: Option<RunOutcome>,
}

pub open spec fn run_start(stages: Seq<SelectedStage>) -> RunState {
    RunState { stages, started: 0, awaiting: false, outcome: None }
}

/// Asking for the next stage: none while one is still running or once the
/// run has ended; when every stage has run, the run ends completed; otherwise
/// the next stage in order starts.
pub open spec fn run_next(r: RunState) -> RunState {
    if r.awaiting || r.outcome.is_some() {
        r
    } else if r.started >= r.stages.len() {
        RunState { outcome: Some(RunOutcome::Completed), ..r }
    } else {
        RunState { started: r.started + 1, awaiting: true, ..r }
    }
}

/// The stage that `run_next` starts, if it starts one.
pub open spec fn stage_started_by(r: RunState) -> Option<SelectedStage> {
    if r.awaiting || r.outcome.is_some() || r.started >= r.stages.len() {
        None
    } else {
        Some(r.stages[r.started as int])
    }
}

/// Reporting the outcome of the running stage: an interruption ends the run
/// cancelled, a failure ends it failed, completion or a skip lets it go on.
pub open spec fn run_record(r: RunState, o: StageOutcome) -> RunState {
    if !r.awaiting {
        r
    } else {
        match o {
            StageOutcome::Interrupted => RunState { awaiting: false, outcome: Some(RunOutcome::Cancelled), ..r },
            StageOutcome::Failed(reason) => RunState { awaiting: false, outcome: Some(RunOutcome::Failed(reason)), ..r },
            _ => RunState { awaiting: false, ..r },
        }
    }
}

/// A request to a run: start the next stage, or report the running one.
pub enum RunOp {
    Next,
    Record(StageOutcome),
}

pub open spec fn run_op(r: RunState, op: RunOp) -> RunState {
    match op {
        RunOp::Next => run_next(r),
        RunOp::Record(o) => run_record(r, o),
    }
}

/// The state after each request of `ops`, in order.
pub open spec fn run_ops(r: RunState, ops: Seq<RunOp>) -> RunState
    decreases ops.len(),
{
    if ops.len() == 0 {
        r
    } else {
        run_ops(run_op(r, ops[0]), ops.drop_first())
    }
}

/// What holds of every state that a run reaches.
pub open spec fn run_inv(r: RunState) -> bool {
    &&& r.started <= r.stages.len()
    &&& r.awaiting ==> r.started > 0 && r.outcome.is_none()
}

/// Runs the selected stages strictly in order, one at a time, and stops at
/// the first interruption or failure.
pub struct Pipeline {
    stages: Vec<SelectedStage>,
    started: usize,
    awaiting: bool,
    outcome: Option<RunOutcome>,
}

impl View for Pipeline {
    type V = RunState;

    closed spec fn view(&self) -> RunState {
        RunState {
            stages: self.stages@,
            started: self.started as nat,
            awaiting: self.awaiting,
            outcome: self.outcome,
        }
    }
}

impl Pipeline {
    pub closed spec fn wf(&self) -> bool {
        run_inv(self@)
    }

    pub fn new(stages: Vec<SelectedStage>) -> (r: Pipeline)
        ensures
            r.wf(),
            r@ == run_start(stages@),
    {
        Pipeline { stages, started: 0, awaiting: false, outcome: None }
    }

    /// Starts the next stage and hands it out, or says that none is to run.
    pub fn next_stage(&mut self) -> (r: Option<SelectedStage>)
        requires
            old(self).wf(),
        ensures
            final(self).wf(),
            final(self)@ == run_next(old(self)@),
            r == stage_started_by(old(self)@),
    {
        if self.awaiting || self.outcome.is_some() {
            None
        } else if self.started >= self.stages.len() {
            self.outcome = Some(RunOutcome::Completed);
            None
        } else {
            let s = self.stages[self.started];
            self.started = self.started + 1;
            self.awaiting = true;
            Some(s)
        }
    }

    /// Reports how the running stage ended.
    pub fn record(&mut self, o: StageOutcome)
        requires
            old(self).wf(),
        ensures
            final(self).wf(),
            final(self)@ == run_record(old(self)@, o),
    {
        if self.awaiting {
            self.awaiting = false;
            match o {
                StageOutcome::Interrupted => {
                    self.outcome = Some(RunOutcome::Cancelled);
                },
                StageOutcome::Failed(reason) => {
                    self.outcome = Some(RunOutcome::Failed(reason));
                },
                _ => {},
            }
        }
    }

    /// How the run ended; `None` while it goes on.
    pub fn outcome(&self) -> (r: &Option<RunOutcome>)
        ensures
            *r == self@.outcome,
    {
        &self.outcome
    }
}

/// Stages start exactly in the order given: the stage that a run starts is
/// the one at the position of the count of stages started before it.
pub proof fn lemma_stages_start_in_order(r: RunState)
    requires
        run_inv(r),
        stage_started_by(r).is_some(),
    ensures
        stage_started_by(r) == Some(r.stages[r.started as int]),
        run_next(r).started == r.started + 1,
{
}

/// After a stage reports an interruption the run is cancelled, and no
/// request, however many, starts another stage or changes the run.
pub proof fn lemma_no_stage_after_interruption(r: RunState, ops: Seq<RunOp>)
    requires
        run_inv(r),
        r.awaiting,
    ensures
        run_record(r, StageOutcome::Interrupted).outcome == Some(RunOutcome::Cancelled),
        run_ops(run_record(r, StageOutcome::Interrupted), ops) == run_record(r, StageOutcome::Interrupted),
        forall|i: int|
            0 <= i <= ops.len() ==> #[trigger] stage_started_by(
                run_ops(run_record(r, StageOutcome::Interrupted), ops.take(i)),
            ).is_none(),
{
    let c = run_record(r, StageOutcome::Interrupted);
    lemma_ended_run_stays(c, ops);
    assert forall|i: int| 0 <= i <= ops.len() implies #[trigger] stage_started_by(
        run_ops(c, ops.take(i)),
    ).is_none() by {
        lemma_ended_run_stays(c, ops.take(i));
    }
}

/// A run that has ended stays as it is.
pub proof fn lemma_ended_run_stays(r: RunState, ops: Seq<RunOp>)
    requires
        r.outcome.is_some(),
        !r.awaiting,
    ensures
        run_ops(r, ops) == r,
    decreases ops.len(),
{
    if ops.len() > 0 {
        lemma_ended_run_stays(r, ops.drop_first());
    }
}

/// A stage that ends skipped, as the build stage does when its user aborts,
/// does not end the run: the next stage in order is started next.
pub proof fn lemma_skip_continues(r: RunState)
    requires
        run_inv(r),
        r.awaiting,
    ensures
        run_record(r, StageOutcome::Skipped).outcome.is_none(),
        run_record(r, StageOutcome::Skipped).started == r.started,
        r.started < r.stages.len() ==> stage_started_by(run_record(r, StageOutcome::Skipped))
            == Some(r.stages[r.started as int]),
{
}

} // verus!
