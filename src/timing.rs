use vstd::prelude::*;
use crate::classify::LineKind;
use crate::random::random_in;

verus! {

/// How long a compile step takes: one of three bands of duration.
#[derive(Clone, Copy, Debug, PartialEq, Eq, Structural)]
pub enum SpeedTier {
    Short,
    Medium,
    Long,
}

/// The tier picked by a roll of ten equally likely values: three of them give
/// a short step, four a medium one and three a long one.
pub open spec fn tier_for_roll(roll: int) -> SpeedTier {
    if roll < 3 {
        SpeedTier::Short
    } else if roll < 7 {
        SpeedTier::Medium
    } else {
        SpeedTier::Long
    }
}

/// Lowest duration of a tier, in milliseconds.
pub open spec fn tier_low(t: SpeedTier) -> int {
    match t {
        SpeedTier::Short => 100,
        SpeedTier::Medium => 400,
        SpeedTier::Long => 1000,
    }
}

/// First duration past a tier, in milliseconds.
pub open spec fn tier_high(t: SpeedTier) -> int {
    match t {
        SpeedTier::Short => 400,
        SpeedTier::Medium => 1000,
        SpeedTier::Long => 2500,
    }
}

/// The half-open range of milliseconds that a line of the given kind keeps
/// the display busy: the animation of a compile line, the pause after the
/// others.
pub open spec fn delay_low(k: LineKind) -> int {
    match k {
        LineKind::Error => 0,
        LineKind::Warning => 0,
        LineKind::Compiling => 100,
        LineKind::Transfer => 10,
        LineKind::Completion => 300,
        LineKind::Plain => 20,
    }
}

pub open spec fn delay_high(k: LineKind) -> int {
    match k {
        LineKind::Error => 1,
        LineKind::Warning => 1,
        LineKind::Compiling => 2500,
        LineKind::Transfer => 40,
        LineKind::Completion => 301,
        LineKind::Plain => 80,
    }
}

/// The tier that a roll in `0..10` selects.
pub fn speed_tier(roll: u64) -> (r: SpeedTier)
    requires
        roll < 10,
    ensures
        r == tier_for_roll(roll as int),
{
    if roll < 3 {
        SpeedTier::Short
    } else if roll < 7 {
        SpeedTier::Medium
    } else {
        SpeedTier::Long
    }
}

/// The half-open range of durations of a tier.
pub fn tier_bounds(t: SpeedTier) -> (r: (u64, u64))
    ensures
        r.0 == tier_low(t),
        r.1 == tier_high(t),
{
    match t {
        SpeedTier::Short => (100, 400),
        SpeedTier::Medium => (400, 1000),
        SpeedTier::Long => (1000, 2500),
    }
}

/// Draws the duration of a compile animation: a tier by a roll of ten, then a
/// duration uniformly within that tier.
pub fn draw_compile_duration() -> (d: u64)
    ensures
        100 <= d < 2500,
        exists|roll: int|
            0 <= roll < 10 && tier_low(#[trigger] tier_for_roll(roll)) <= d < tier_high(tier_for_roll(roll)),
{
    let roll = random_in(0, 10);
    let tier = speed_tier(roll);
    let (lo, hi) = tier_bounds(tier);
    let d = random_in(lo, hi);
    assert(tier_low(tier_for_roll(roll as int)) <= d < tier_high(tier_for_roll(roll as int)));
    d
}

/// Draws how long a line of the given kind keeps the display busy.
pub fn draw_delay(kind: LineKind) -> (d: u64)
    ensures
        delay_low(kind) <= d < delay_high(kind),
{
    match kind {
        LineKind::Error => 0,
        LineKind::Warning => 0,
        LineKind::Compiling => draw_compile_duration(),
        LineKind::Transfer => random_in(10, 40),
        LineKind::Completion => 300,
        LineKind::Plain => random_in(20, 80),
    }
}

} // verus!
