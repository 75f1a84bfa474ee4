use vstd::prelude::*;
use crate::outcome::StageOutcome;
use crate::random::random_ratio;

verus! {

/// Where a build session of the retry-capable stage stands.
#[derive(Clone, Copy, Debug, PartialEq, Eq, Structural)]
pub enum BuildPhase {
    Start,
    PlayingErrors,
    Prompting,
    PlayingSuccess,
    Succeeded,
    Aborted,
    Interrupted,
}

/// What happened since the last step of a build session.
#[derive(Clone, Copy, Debug, PartialEq, Eq, Structural)]
pub enum BuildEvent {
    /// The first attempt's failure draw came out as given.
    FailureDrawn(bool),
    /// The log set being played was shown to its end.
    PlaybackDone,
    /// Cancellation was seen.
    Cancelled,
    RetryChosen,
    AbortChosen,
}

/// What the stage has to do next.
#[derive(Clone, Copy, Debug, PartialEq, Eq, Structural)]
pub enum BuildAction {
    PlayErrorLogs,
    PlaySuccessLogs,
    PromptRetry,
    FinishCompleted,
    FinishSkipped,
    FinishInterrupted,
    /// The event does not apply in this phase; nothing changes.
    Ignore,
}

/// The transition of a build session: the phase it goes to and the action
/// it asks for. Cancellation wins in every phase that is not final.
pub open spec fn build_step(p: BuildPhase, e: BuildEvent) -> (BuildPhase, BuildAction) {
    match (p, e) {
        (BuildPhase::Start, BuildEvent::FailureDrawn(true)) => (BuildPhase::PlayingErrors, BuildAction::PlayErrorLogs),
        (BuildPhase::Start, BuildEvent::FailureDrawn(false)) => (BuildPhase::PlayingSuccess, BuildAction::PlaySuccessLogs),
        (BuildPhase::PlayingErrors, BuildEvent::PlaybackDone) => (BuildPhase::Prompting, BuildAction::PromptRetry),
        (BuildPhase::PlayingSuccess, BuildEvent::PlaybackDone) => (BuildPhase::Succeeded, BuildAction::FinishCompleted),
        (BuildPhase::Prompting, BuildEvent::RetryChosen) => (BuildPhase::PlayingSuccess, BuildAction::PlaySuccessLogs),
        (BuildPhase::Prompting, BuildEvent::AbortChosen) => (BuildPhase::Aborted, BuildAction::FinishSkipped),
        (BuildPhase::Succeeded, _) => (p, BuildAction::Ignore),
        (BuildPhase::Aborted, _) => (p, BuildAction::Ignore),
        (BuildPhase::Interrupted, _) => (p, BuildAction::Ignore),
        (_, BuildEvent::Cancelled) => (BuildPhase::Interrupted, BuildAction::FinishInterrupted),
        _ => (p, BuildAction::Ignore),
    }
}

/// Runs a build session over a sequence of events.
pub open spec fn build_run(p: BuildPhase, es: Seq<BuildEvent>) -> BuildPhase
    decreases es.len(),
{
    if es.len() == 0 {
        p
    } else {
        build_run(build_step(p, es[0]).0, es.drop_first())
    }
}

/// The stage outcome that a finishing action reports.
pub open spec fn outcome_of_action(a: BuildAction) -> Option<StageOutcome> {
    match a {
        BuildAction::FinishCompleted => Some(StageOutcome::Completed),
        BuildAction::FinishSkipped => Some(StageOutcome::Skipped),
        BuildAction::FinishInterrupted => Some(StageOutcome::Interrupted),
        _ => None,
    }
}

/// The stage outcome that a finishing action reports; `None` for the others.
pub fn action_outcome(a: BuildAction) -> (r: Option<StageOutcome>)
    ensures
        r == outcome_of_action(a),
{
    match a {
        BuildAction::FinishCompleted => Some(StageOutcome::Completed),
        BuildAction::FinishSkipped => Some(StageOutcome::Skipped),
        BuildAction::FinishInterrupted => Some(StageOutcome::Interrupted),
        _ => None,
    }
}

/// The choice that a key makes at the retry prompt: `1` retries, `2`
/// aborts, every other key is ignored.
pub fn prompt_choice(key: char) -> (r: Option<BuildEvent>)
    ensures
        key == '1' ==> r == Some(BuildEvent::RetryChosen),
        key == '2' ==> r == Some(BuildEvent::AbortChosen),
        key != '1' && key != '2' ==> r.is_none(),
{
    if key == '1' {
        Some(BuildEvent::RetryChosen)
    } else if key == '2' {
        Some(BuildEvent::AbortChosen)
    } else {
        None
    }
}

/// One run of the retry-capable stage: attempt, maybe fail, prompt, retry or
/// abort.
pub struct RetrySession {
    phase: BuildPhase,
}

impl View for RetrySession {
    type V = BuildPhase;

    closed spec fn view(&self) -> BuildPhase {
        self.phase
    }
}

impl RetrySession {
    pub fn new() -> (r: RetrySession)
        ensures
            r@ == BuildPhase::Start,
    {
        RetrySession { phase: BuildPhase::Start }
    }

    pub fn phase(&self) -> (r: BuildPhase)
        ensures
            r == self@,
    {
        self.phase
    }

    /// Moves the session on by one event and says what to do next.
    pub fn on_event(&mut self, e: BuildEvent) -> (r: BuildAction)
        ensures
            (final(self)@, r) == build_step(old(self)@, e),
    {
        let (p, a) = match (self.phase, e) {
            (BuildPhase::Start, BuildEvent::FailureDrawn(true)) => (BuildPhase::PlayingErrors, BuildAction::PlayErrorLogs),
            (BuildPhase::Start, BuildEvent::FailureDrawn(false)) => (BuildPhase::PlayingSuccess, BuildAction::PlaySuccessLogs),
            (BuildPhase::PlayingErrors, BuildEvent::PlaybackDone) => (BuildPhase::Prompting, BuildAction::PromptRetry),
            (BuildPhase::PlayingSuccess, BuildEvent::PlaybackDone) => (BuildPhase::Succeeded, BuildAction::FinishCompleted),
            (BuildPhase::Prompting, BuildEvent::RetryChosen) => (BuildPhase::PlayingSuccess, BuildAction::PlaySuccessLogs),
            (BuildPhase::Prompting, BuildEvent::AbortChosen) => (BuildPhase::Aborted, BuildAction::FinishSkipped),
            (BuildPhase::Succeeded, _) => (self.phase, BuildAction::Ignore),
            (BuildPhase::Aborted, _) => (self.phase, BuildAction::Ignore),
            (BuildPhase::Interrupted, _) => (self.phase, BuildAction::Ignore),
            (_, BuildEvent::Cancelled) => (BuildPhase::Interrupted, BuildAction::FinishInterrupted),
            _ => (self.phase, BuildAction::Ignore),
        };
        self.phase = p;
        a
    }

    /// Starts the first attempt: draws whether it fails, with probability
    /// three in ten, and says which log set to play.
    pub fn begin(&mut self) -> (r: BuildAction)
        requires
            old(self)@ == BuildPhase::Start,
        ensures
            r == BuildAction::PlayErrorLogs || r == BuildAction::PlaySuccessLogs,
            r == BuildAction::PlayErrorLogs <==> final(self)@ == BuildPhase::PlayingErrors,
            r == BuildAction::PlaySuccessLogs <==> final(self)@ == BuildPhase::PlayingSuccess,
    {
        let fail = random_ratio(3, 10);
        self.on_event(BuildEvent::FailureDrawn(fail))
    }
}

/// A retry chosen after a failed first attempt plays the success log set,
/// and once that has played the stage has completed: no failure is drawn
/// again.
pub proof fn lemma_retry_always_succeeds()
    ensures
        build_step(BuildPhase::Prompting, BuildEvent::RetryChosen)
            == (BuildPhase::PlayingSuccess, BuildAction::PlaySuccessLogs),
        build_step(BuildPhase::PlayingSuccess, BuildEvent::PlaybackDone)
            == (BuildPhase::Succeeded, BuildAction::FinishCompleted),
        build_run(BuildPhase::Start, seq![BuildEvent::FailureDrawn(true), BuildEvent::PlaybackDone, BuildEvent::RetryChosen, BuildEvent::PlaybackDone])
            == BuildPhase::Succeeded,
{
    reveal_with_fuel(build_run, 5);
}

/// An abort chosen after a failed attempt ends the stage as skipped, never
/// as a failure.
pub proof fn lemma_abort_is_skip()
    ensures
        build_step(BuildPhase::Prompting, BuildEvent::AbortChosen).0 == BuildPhase::Aborted,
        outcome_of_action(build_step(BuildPhase::Prompting, BuildEvent::AbortChosen).1)
            == Some(StageOutcome::Skipped),
{
}

/// Cancellation during playback or after the prompt overrides the retry and
/// abort logic: every phase that is not final goes to the interrupted phase.
pub proof fn lemma_cancel_overrides(p: BuildPhase)
    requires
        p != BuildPhase::Succeeded && p != BuildPhase::Aborted && p != BuildPhase::Interrupted,
    ensures
        build_step(p, BuildEvent::Cancelled) == (BuildPhase::Interrupted, BuildAction::FinishInterrupted),
{
}

/// Once a session is final, no event changes it.
pub proof fn lemma_final_phases_stay(p: BuildPhase, es: Seq<BuildEvent>)
    requires
        p == BuildPhase::Succeeded || p == BuildPhase::Aborted || p == BuildPhase::Interrupted,
    ensures
        build_run(p, es) == p,
    decreases es.len(),
{
    if es.len() > 0 {
        lemma_final_phases_stay(p, es.drop_first());
    }
}

} // verus!
