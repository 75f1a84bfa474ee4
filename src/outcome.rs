use vstd::prelude::*;

verus! {

/// How one stage's run ended.
#[derive(Clone, Debug)]
pub enum StageOutcome {
    Completed,
    /// The stage gave up on its own work without failing the installation.
    Skipped,
    /// Cancellation was seen during the stage.
    Interrupted,
    /// The stage could not complete, for the reason given.
    Failed(String),
}

/// How a whole installation run ended.
#[derive(Clone, Debug)]
pub enum RunOutcome {
    Completed,
    Cancelled,
    Failed(String),
}

/// The exit status of the process after a run: zero unless a stage failed.
pub open spec fn exit_status_of(o: RunOutcome) -> int {
    match o {
        RunOutcome::Failed(_) => 1,
        _ => 0,
    }
}

/// The process exit status for the way a run ended.
pub fn exit_code(outcome: &RunOutcome) -> (r: i32)
    ensures
        r == exit_status_of(*outcome),
{
    match outcome {
        RunOutcome::Failed(_) => 1,
        _ => 0,
    }
}

} // verus!
