//! Autoscaling of the bridge amplifier: after each reading, whether to step the
//! rheostat wiper, and which way, so that the reading ends up inside its window.
//!
//! A round first raises the gain (wiper down) while the reading is below the window,
//! then lowers it (wiper up) while the reading is above the window, then settles.
use vstd::prelude::*;
use crate::rheo::{gain_exceeds, lemma_gain_decreases_with_position};

verus! {

/// Readings below this are too small: the gain is raised.
pub const READING_LOW: u16 = 8000;

/// Readings above this are too large: the gain is lowered.
pub const READING_HIGH: u16 = 50000;

/// Where a round of autoscaling stands.
#[derive(Clone, Copy, Debug, PartialEq, Eq, Structural)]
pub enum AutoscalePhase {
    /// Stepping the wiper down while the reading is below the window.
    RaisingGain,
    /// Stepping the wiper up while the reading is above the window.
    LoweringGain,
    /// The round is over.
    Settled,
}

/// What to do after a reading.
#[derive(Clone, Copy, Debug, PartialEq, Eq, Structural)]
pub enum AutoscaleAction {
    /// Step the wiper down (raises the gain), then take another reading.
    Decrement,
    /// Step the wiper up (lowers the gain), then take another reading.
    Increment,
    /// Stop: the round is over.
    Done,
}

/// The next phase and action for a reading taken in a phase.
pub open spec fn autoscale_step_spec(phase: AutoscalePhase, reading: u16) -> (
    AutoscalePhase,
    AutoscaleAction,
) {
    match phase {
        AutoscalePhase::RaisingGain => if reading < READING_LOW {
            (AutoscalePhase::RaisingGain, AutoscaleAction::Decrement)
        } else if reading > READING_HIGH {
            (AutoscalePhase::LoweringGain, AutoscaleAction::Increment)
        } else {
            (AutoscalePhase::Settled, AutoscaleAction::Done)
        },
        AutoscalePhase::LoweringGain => if reading > READING_HIGH {
            (AutoscalePhase::LoweringGain, AutoscaleAction::Increment)
        } else {
            (AutoscalePhase::Settled, AutoscaleAction::Done)
        },
        AutoscalePhase::Settled => (AutoscalePhase::Settled, AutoscaleAction::Done),
    }
}

/// Decides, from the phase and the reading just taken, the next phase and what to do.
pub fn autoscale_step(phase: AutoscalePhase, reading: u16) -> (r: (
    AutoscalePhase,
    AutoscaleAction,
))
    ensures
        r == autoscale_step_spec(phase, reading),
{
    match phase {
        AutoscalePhase::RaisingGain => {
            if reading < READING_LOW {
                (AutoscalePhase::RaisingGain, AutoscaleAction::Decrement)
            } else if reading > READING_HIGH {
                (AutoscalePhase::LoweringGain, AutoscaleAction::Increment)
            } else {
                (AutoscalePhase::Settled, AutoscaleAction::Done)
            }
        },
        AutoscalePhase::LoweringGain => {
            if reading > READING_HIGH {
                (AutoscalePhase::LoweringGain, AutoscaleAction::Increment)
            } else {
                (AutoscalePhase::Settled, AutoscaleAction::Done)
            }
        },
        AutoscalePhase::Settled => (AutoscalePhase::Settled, AutoscaleAction::Done),
    }
}

/// The gain is raised only on a reading below the window and lowered only on one
/// above it; a round that stops has a reading no higher than the top of the window,
/// and one that stops while still raising the gain has its reading inside the window.
pub proof fn lemma_actions_follow_window(phase: AutoscalePhase, reading: u16)
    ensures
        autoscale_step_spec(phase, reading).1 == AutoscaleAction::Decrement ==> reading
            < READING_LOW,
        autoscale_step_spec(phase, reading).1 == AutoscaleAction::Increment ==> reading
            > READING_HIGH,
        phase != AutoscalePhase::Settled && autoscale_step_spec(phase, reading).1
            == AutoscaleAction::Done ==> reading <= READING_HIGH,
        phase == AutoscalePhase::RaisingGain && autoscale_step_spec(phase, reading).1
            == AutoscaleAction::Done ==> READING_LOW <= reading <= READING_HIGH,
{
}

/// The window decides each step: in a round that has not settled, a reading above
/// 50000 always lowers the gain and moves the round to lowering; while lowering, a
/// reading of at most 50000 ends the round; while raising, a reading below 8000
/// raises the gain and one in 8000..=50000 ends the round.
pub proof fn lemma_step_by_window(phase: AutoscalePhase, reading: u16)
    ensures
        READING_LOW == 8000,
        READING_HIGH == 50000,
        phase != AutoscalePhase::Settled && reading > 50000 ==> autoscale_step_spec(
            phase,
            reading,
        ) == (AutoscalePhase::LoweringGain, AutoscaleAction::Increment),
        phase == AutoscalePhase::LoweringGain && reading <= 50000 ==> autoscale_step_spec(
            phase,
            reading,
        ) == (AutoscalePhase::Settled, AutoscaleAction::Done),
        phase == AutoscalePhase::RaisingGain && reading < 8000 ==> autoscale_step_spec(
            phase,
            reading,
        ) == (AutoscalePhase::RaisingGain, AutoscaleAction::Decrement),
        phase == AutoscalePhase::RaisingGain && 8000 <= reading <= 50000 ==> autoscale_step_spec(
            phase,
            reading,
        ) == (AutoscalePhase::Settled, AutoscaleAction::Done),
{
}

/// No decrement follows an increment in a round: an increment always leaves the
/// round lowering, and while lowering the action is never a decrement.
pub proof fn lemma_no_decrement_after_increment(
    phase: AutoscalePhase,
    reading: u16,
    later: u16,
)
    ensures
        autoscale_step_spec(phase, reading).1 == AutoscaleAction::Increment
            ==> autoscale_step_spec(phase, reading).0 == AutoscalePhase::LoweringGain,
        autoscale_step_spec(phase, reading).1 == AutoscaleAction::Increment
            ==> autoscale_step_spec(autoscale_step_spec(phase, reading).0, later).1
            != AutoscaleAction::Decrement,
        phase == AutoscalePhase::LoweringGain ==> autoscale_step_spec(phase, reading).1
            != AutoscaleAction::Decrement,
{
}

/// Once the gain has been lowered it is never raised again in the same round, and a
/// settled round stays settled.
pub proof fn lemma_phases_only_advance(phase: AutoscalePhase, reading: u16)
    ensures
        phase != AutoscalePhase::RaisingGain ==> autoscale_step_spec(phase, reading).0
            != AutoscalePhase::RaisingGain,
        phase == AutoscalePhase::Settled ==> autoscale_step_spec(phase, reading)
            == (AutoscalePhase::Settled, AutoscaleAction::Done),
        autoscale_step_spec(phase, reading).1 == AutoscaleAction::Done
            <==> autoscale_step_spec(phase, reading).0 == AutoscalePhase::Settled,
{
}

/// Each step moves the gain toward the window: a `Decrement`, issued on a reading
/// below the window, leaves a strictly higher gain, and an `Increment`, issued on a
/// reading above it, a strictly lower one (wherever the wiper can still move).
pub proof fn lemma_steps_move_gain_toward_window(
    phase: AutoscalePhase,
    reading: u16,
    wiper_position: u8,
)
    ensures
        autoscale_step_spec(phase, reading).1 == AutoscaleAction::Decrement && wiper_position
            > 0 ==> reading < READING_LOW && gain_exceeds(
            wiper_position - 1,
            wiper_position as int,
        ),
        autoscale_step_spec(phase, reading).1 == AutoscaleAction::Increment && wiper_position
            < 255 ==> reading > READING_HIGH && gain_exceeds(
            wiper_position as int,
            wiper_position + 1,
        ),
{
    if wiper_position > 0 {
        lemma_gain_decreases_with_position((wiper_position - 1) as u8, wiper_position);
    }
    if wiper_position < 255 {
        lemma_gain_decreases_with_position(wiper_position, (wiper_position + 1) as u8);
    }
}

} // verus!
