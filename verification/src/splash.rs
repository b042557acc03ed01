//! Splash sequence timing.
//!
//! The splash shows two full-screen brand cards of five seconds each;
//! the sequence counts as complete once the accumulated elapsed time
//! reaches their combined duration, which feeds the splash-complete
//! trigger of the game-state machine.

use vstd::prelude::*;

verus! {

/// Duration of one splash card, milliseconds.
pub const SPLASH_SCREEN_MS: u64 = 5000;

/// Number of splash cards shown in sequence.
pub const SPLASH_SCREEN_COUNT: u64 = 2;

/// Total splash sequence duration, milliseconds.
pub fn splash_total_ms() -> (r: u64)
    ensures
        r == SPLASH_SCREEN_COUNT * SPLASH_SCREEN_MS,
{
    SPLASH_SCREEN_COUNT * SPLASH_SCREEN_MS
}

/// The splash sequence has played to completion: its accumulated
/// elapsed time reaches the combined card duration.
pub fn splash_complete(elapsed_ms: u64) -> (r: bool)
    ensures
        r <==> elapsed_ms >= SPLASH_SCREEN_COUNT * SPLASH_SCREEN_MS,
{
    elapsed_ms >= SPLASH_SCREEN_COUNT * SPLASH_SCREEN_MS
}

} // verus!
