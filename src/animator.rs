use vstd::prelude::*;

verus! {

/// Milliseconds between two consultations of the cancellation signal while
/// an animation runs; finer than the shortest animation.
pub const TICK_MS: u64 = 20;

/// Where an animation stands.
#[derive(Clone, Copy, Debug, PartialEq, Eq, Structural)]
pub enum AnimStatus {
    Running,
    Done,
    Interrupted,
}

/// What the display has to do next for an animation.
#[derive(Clone, Copy, Debug, PartialEq, Eq, Structural)]
pub enum AnimStep {
    /// Wait `sleep_ms`, then draw the indicator at `elapsed_ms` of the whole.
    Tick { sleep_ms: u64, elapsed_ms: u64 },
    /// The whole duration has run.
    Done,
    /// Cancellation was seen; the animation stops here.
    Interrupted,
}

/// The abstract state of an animation.
pub struct AnimState {
    pub duration: nat,
    pub elapsed: nat,
    pub ticked: bool,
    pub status: AnimStatus,
}

pub open spec fn anim_start(duration: nat) -> AnimState {
    AnimState { duration, elapsed: 0, ticked: false, status: AnimStatus::Running }
}

pub open spec fn min_nat(a: nat, b: nat) -> nat {
    if a <= b { a } else { b }
}

/// One step of an animation: cancellation first; then, once the whole
/// duration has run and at least one tick was taken, it is done; otherwise
/// one tick of at most `TICK_MS`, never past the duration.
pub open spec fn anim_next(a: AnimState, cancelled: bool) -> AnimState {
    if a.status != AnimStatus::Running {
        a
    } else if cancelled {
        AnimState { status: AnimStatus::Interrupted, ..a }
    } else if a.elapsed >= a.duration && a.ticked {
        AnimState { status: AnimStatus::Done, ..a }
    } else {
        AnimState {
            elapsed: a.elapsed + min_nat(TICK_MS as nat, (a.duration - a.elapsed) as nat),
            ticked: true,
            ..a
        }
    }
}

/// The state after one step for each cancellation reading in `cs`, in order.
pub open spec fn anim_run(a: AnimState, cs: Seq<bool>) -> AnimState
    decreases cs.len(),
{
    if cs.len() == 0 {
        a
    } else {
        anim_run(anim_next(a, cs[0]), cs.drop_first())
    }
}

/// What holds of every state that an animation reaches.
pub open spec fn anim_inv(a: AnimState) -> bool {
    &&& a.elapsed <= a.duration
    &&& a.status == AnimStatus::Done ==> a.ticked && a.elapsed == a.duration
}

/// A bounded animated indicator that consults cancellation at every tick.
pub struct Animator {
    duration: u64,
    elapsed: u64,
    ticked: bool,
    status: AnimStatus,
}

impl View for Animator {
    type V = AnimState;

    closed spec fn view(&self) -> AnimState {
        AnimState {
            duration: self.duration as nat,
            elapsed: self.elapsed as nat,
            ticked: self.ticked,
            status: self.status,
        }
    }
}

impl Animator {
    pub closed spec fn wf(&self) -> bool {
        anim_inv(self@)
    }

    /// An animation of `duration_ms` milliseconds that has not started.
    pub fn new(duration_ms: u64) -> (r: Animator)
        ensures
            r.wf(),
            r@ == anim_start(duration_ms as nat),
    {
        Animator { duration: duration_ms, elapsed: 0, ticked: false, status: AnimStatus::Running }
    }

    pub fn status(&self) -> (r: AnimStatus)
        ensures
            r == self@.status,
    {
        self.status
    }

    pub fn duration(&self) -> (r: u64)
        ensures
            r == self@.duration,
    {
        self.duration
    }

    /// Takes one step of the animation, given whether cancellation has been
    /// requested by now.
    pub fn advance(&mut self, cancelled: bool) -> (r: AnimStep)
        requires
            old(self).wf(),
        ensures
            final(self).wf(),
            final(self)@ == anim_next(old(self)@, cancelled),
            match r {
                AnimStep::Tick { sleep_ms, elapsed_ms } => {
                    &&& old(self)@.status == AnimStatus::Running
                    &&& !cancelled
                    &&& final(self)@.status == AnimStatus::Running
                    &&& sleep_ms <= TICK_MS
                    &&& elapsed_ms == final(self)@.elapsed
                    &&& elapsed_ms == old(self)@.elapsed + sleep_ms
                },
                AnimStep::Done => final(self)@.status == AnimStatus::Done,
                AnimStep::Interrupted => final(self)@.status == AnimStatus::Interrupted,
            },
    {
        match self.status {
            AnimStatus::Done => AnimStep::Done,
            AnimStatus::Interrupted => AnimStep::Interrupted,
            AnimStatus::Running => {
                if cancelled {
                    self.status = AnimStatus::Interrupted;
                    AnimStep::Interrupted
                } else if self.elapsed >= self.duration && self.ticked {
                    self.status = AnimStatus::Done;
                    AnimStep::Done
                } else {
                    let left = self.duration - self.elapsed;
                    let sleep_ms = if TICK_MS <= left { TICK_MS } else { left };
                    self.elapsed = self.elapsed + sleep_ms;
                    self.ticked = true;
                    AnimStep::Tick { sleep_ms, elapsed_ms: self.elapsed }
                }
            },
        }
    }
}

/// Whatever the cancellation readings, an animation never runs past its
/// requested duration, and it is done only after at least one tick, with the
/// whole duration run.
pub proof fn lemma_animation_bounded(duration: nat, cs: Seq<bool>)
    ensures
        anim_run(anim_start(duration), cs).elapsed <= duration,
        anim_run(anim_start(duration), cs).status == AnimStatus::Done ==> anim_run(
            anim_start(duration),
            cs,
        ).ticked && anim_run(anim_start(duration), cs).elapsed == duration,
{
    lemma_run_keeps_inv(anim_start(duration), cs);
    lemma_run_keeps_duration(anim_start(duration), cs);
}

proof fn lemma_run_keeps_inv(a: AnimState, cs: Seq<bool>)
    requires
        anim_inv(a),
    ensures
        anim_inv(anim_run(a, cs)),
    decreases cs.len(),
{
    if cs.len() > 0 {
        lemma_run_keeps_inv(anim_next(a, cs[0]), cs.drop_first());
    }
}

proof fn lemma_run_keeps_duration(a: AnimState, cs: Seq<bool>)
    ensures
        anim_run(a, cs).duration == a.duration,
    decreases cs.len(),
{
    if cs.len() > 0 {
        lemma_run_keeps_duration(anim_next(a, cs[0]), cs.drop_first());
    }
}

/// Cancellation seen by a running animation stops it at that very step:
/// nothing more elapses, and it stays interrupted on every later step.
pub proof fn lemma_cancel_stops_animation(a: AnimState, cs: Seq<bool>)
    requires
        a.status == AnimStatus::Running,
    ensures
        anim_next(a, true).status == AnimStatus::Interrupted,
        anim_next(a, true).elapsed == a.elapsed,
        anim_run(anim_next(a, true), cs) == anim_next(a, true),
    decreases cs.len(),
{
    if cs.len() > 0 {
        lemma_cancel_stops_animation(a, cs.drop_first());
    }
}

} // verus!
