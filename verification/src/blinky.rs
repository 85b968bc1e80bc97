use vstd::prelude::*;
use crate::gpio::{opposite, PinState};

verus! {

/// Clock cycles between two toggles of the LED.
pub const PERIOD: u32 = 2_000_000;

/// One run of the toggle task: the level to drive the LED to, given the level
/// it is set to now.
pub fn led_toggle(set_level: PinState) -> (next: PinState)
    ensures
        next == opposite(set_level),
        next != set_level,
{
    match set_level {
        PinState::Low => PinState::High,
        PinState::High => PinState::Low,
    }
}

/// Toggling twice gives back the level one started from, and a toggle always
/// changes the level.
pub proof fn lemma_toggle_twice(level: PinState)
    ensures
        opposite(opposite(level)) == level,
        opposite(level) != level,
{
}

} // verus!
