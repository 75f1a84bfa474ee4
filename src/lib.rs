//! Engine of a simulated multi-stage system installation: log-line
//! classification, timed playback, a cancellable progress animation, the
//! retry decisions of the build stage, and the pipeline that sequences stages.
//! Rendering, sleeping and keyboard input happen outside; every decision is
//! made here and proved against its contract.

pub mod classify;
mod random;
pub mod timing;
pub mod player;
pub mod animator;
pub mod stages;
pub mod outcome;
pub mod retry;
pub mod pipeline;
