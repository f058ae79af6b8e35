//! The button dispatcher: rising-edge detection over polled input levels,
//! and the action of the brightness button.

use vstd::prelude::*;
use crate::display::Display;

verus! {

/// Whether a poll fires: exactly on a low-to-high transition.
pub open spec fn edge_fires(old_level: bool, level: bool) -> bool {
    level && !old_level
}

/// How many times a run of polls fires, starting from a stored level.
pub open spec fn fire_count(prior: bool, levels: Seq<bool>) -> int
    decreases levels.len(),
{
    if levels.len() == 0 {
        0
    } else {
        (if edge_fires(prior, levels[0]) {
            1int
        } else {
            0
        }) + fire_count(levels[0], levels.drop_first())
    }
}

/// One poll of a monitored input line: updates the stored level and
/// reports whether the bound action fires. Holding the line high does
/// not refire; only the low-to-high transition does.
pub fn rising_edge(old_state: &mut bool, state: bool) -> (fired: bool)
    ensures
        *final(old_state) == state,
        fired == edge_fires(*old(old_state), state),
{
    let fired = state && !*old_state;
    *old_state = state;
    fired
}

/// Law: a button held high across three consecutive polls fires exactly
/// once, on the poll where the level transitions from low to high.
pub proof fn lemma_held_button_fires_once(prior: bool)
    requires
        !prior,
    ensures
        fire_count(prior, seq![true, true, true]) == 1,
        edge_fires(prior, true),
        !edge_fires(true, true),
{
    reveal_with_fuel(fire_count, 4);
    assert(seq![true, true, true].drop_first() =~= seq![true, true]);
    assert(seq![true, true].drop_first() =~= seq![true]);
    assert(seq![true].drop_first() =~= Seq::<bool>::empty());
    assert(fire_count(true, seq![true]) == fire_count(true, Seq::<bool>::empty()));
    assert(fire_count(true, seq![true, true]) == 0);
}

/// The brightness the display holds after one press of the brightness
/// button: stepping up by 51 per press, wrapping from full brightness
/// back to zero.
pub open spec fn stepped_brightness(b: u8) -> u8 {
    if b == 0 {
        51u8
    } else if b == 255 {
        0u8
    } else if b + 51 > 255 {
        255u8
    } else {
        (b + 51) as u8
    }
}

/// The action of the brightness button: cycles the brightness through its
/// fixed steps, and at the extremes also powers the LED driver up or down
/// so that zero brightness is a real power-down, not merely a blank
/// rendering.
pub fn brightness_button_action(display: &mut Display)
    requires
        old(display).wf(),
    ensures
        final(display).wf(),
        final(display).data == old(display).data,
        final(display).brightness == stepped_brightness(old(display).brightness),
        old(display).brightness == 0 ==> final(display).output_enabled,
        old(display).brightness == 255 ==> !final(display).output_enabled,
        0 < old(display).brightness < 255 ==> final(display).output_enabled == old(
            display,
        ).output_enabled,
{
    let current_brightness = display.brightness();
    match current_brightness {
        0 => {
            display.enable_output();
            display.set_brightness(51);
        },
        255 => {
            display.disable_output();
            display.set_brightness(0);
        },
        _ => {
            display.set_brightness(current_brightness.saturating_add(51));
        },
    }
}

} // verus!
