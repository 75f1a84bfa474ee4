use vstd::prelude::*;
use crate::classify::{classify, kind_of, LineKind};
use crate::timing::{delay_high, delay_low, draw_delay};

verus! {

/// Where a playback stands.
#[derive(Clone, Copy, Debug, PartialEq, Eq, Structural)]
pub enum PlayStatus {
    Playing,
    Finished,
    Interrupted,
}

/// What the display has to do next for a playback.
#[derive(Clone, Copy, Debug, PartialEq, Eq, Structural)]
pub enum PlayStep {
    /// Show line `index` in the style of `kind`, then keep the display busy
    /// for `millis` milliseconds (for a compile line: animate that long).
    Show { index: usize, kind: LineKind, millis: u64 },
    /// Every line has been shown.
    Finished,
    /// Cancellation was seen; nothing more is shown.
    Interrupted,
}

/// The abstract state of a playback: its lines, how many have been shown,
/// and its status.
pub struct PlayerState {
    pub lines: Seq<Seq<char>>,
    pub shown: nat,
    pub status: PlayStatus,
}

/// A playback that has not shown anything yet.
pub open spec fn player_start(lines: Seq<Seq<char>>) -> PlayerState {
    PlayerState { lines, shown: 0, status: PlayStatus::Playing }
}

/// One step of a playback: cancellation is consulted before anything else,
/// then the next line is shown, and when none is left the playback finishes.
/// A finished or interrupted playback stays as it is.
pub open spec fn play_next(p: PlayerState, cancelled: bool) -> PlayerState {
    if p.status != PlayStatus::Playing {
        p
    } else if cancelled {
        PlayerState { status: PlayStatus::Interrupted, ..p }
    } else if p.shown >= p.lines.len() {
        PlayerState { status: PlayStatus::Finished, ..p }
    } else {
        PlayerState { shown: p.shown + 1, ..p }
    }
}

/// Plays an ordered sequence of log lines, one line per step, in order.
pub struct LogPlayer {
    lines: Vec<String>,
    next: usize,
    status: PlayStatus,
}

impl View for LogPlayer {
    type V = PlayerState;

    closed spec fn view(&self) -> PlayerState {
        PlayerState {
            lines: self.lines@.map_values(|l: String| l@),
            shown: self.next as nat,
            status: self.status,
        }
    }
}

impl LogPlayer {
    pub closed spec fn wf(&self) -> bool {
        &&& self.next <= self.lines.len()
        &&& self.status == PlayStatus::Finished ==> self.next == self.lines.len()
    }

    /// A playback of `lines` that has shown nothing yet.
    pub fn new(lines: Vec<String>) -> (r: LogPlayer)
        ensures
            r.wf(),
            r@ == player_start(lines@.map_values(|l: String| l@)),
    {
        LogPlayer { lines, next: 0, status: PlayStatus::Playing }
    }

    pub fn status(&self) -> (r: PlayStatus)
        ensures
            r == self@.status,
    {
        self.status
    }

    /// The text of line `index`.
    pub fn line(&self, index: usize) -> (r: &str)
        requires
            index < self@.lines.len(),
        ensures
            r@ == self@.lines[index as int],
    {
        self.lines[index].as_str()
    }

    /// Takes one step of the playback, given whether cancellation has been
    /// requested by now.
    pub fn advance(&mut self, cancelled: bool) -> (r: PlayStep)
        requires
            old(self).wf(),
        ensures
            final(self).wf(),
            final(self)@ == play_next(old(self)@, cancelled),
            match r {
                PlayStep::Show { index, kind, millis } => {
                    &&& old(self)@.status == PlayStatus::Playing
                    &&& !cancelled
                    &&& index == old(self)@.shown
                    &&& index < old(self)@.lines.len()
                    &&& kind == kind_of(old(self)@.lines[index as int])
                    &&& delay_low(kind) <= millis < delay_high(kind)
                },
                PlayStep::Finished => final(self)@.status == PlayStatus::Finished,
                PlayStep::Interrupted => final(self)@.status == PlayStatus::Interrupted,
            },
    {
        match self.status {
            PlayStatus::Finished => PlayStep::Finished,
            PlayStatus::Interrupted => PlayStep::Interrupted,
            PlayStatus::Playing => {
                if cancelled {
                    self.status = PlayStatus::Interrupted;
                    PlayStep::Interrupted
                } else if self.next >= self.lines.len() {
                    self.status = PlayStatus::Finished;
                    PlayStep::Finished
                } else {
                    let index = self.next;
                    let kind = classify(self.lines[index].as_str());
                    let millis = draw_delay(kind);
                    self.next = index + 1;
                    PlayStep::Show { index, kind, millis }
                }
            },
        }
    }
}

/// A playback that sees cancellation before its first line ends interrupted
/// with no line shown, whatever its lines, and stays so on every later step.
pub proof fn lemma_cancel_before_first_line(lines: Seq<Seq<char>>, later: bool)
    ensures
        play_next(player_start(lines), true).status == PlayStatus::Interrupted,
        play_next(player_start(lines), true).shown == 0,
        play_next(play_next(player_start(lines), true), later) == play_next(player_start(lines), true),
{
}

} // verus!
