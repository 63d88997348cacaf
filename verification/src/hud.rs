//! The heads-up display: where the player's health bar slides to.

use vstd::prelude::*;

use crate::common::Health;

verus! {

/// The horizontal shift, in percent, of the health bar image for a given
/// health state.  The bar sheet has unevenly sized cells, so the shift
/// is fixed per fifth of missing health and zero for anything between.
pub open spec fn hud_shift_spec(h: Health) -> int {
    let missing = 100 - ((h.current as int) * 100) / (h.max as int);
    if missing == 0 {
        0
    } else if missing == 20 {
        -22
    } else if missing == 40 {
        -38
    } else if missing == 60 {
        -55
    } else if missing == 80 {
        -72
    } else if missing == 100 {
        -100
    } else {
        0
    }
}

/// The horizontal shift of the health bar image, in percent.
pub fn calculate_player_hud_shift(health: &Health) -> (r: i64)
    requires
        health.max > 0,
        0 <= health.current <= health.max,
    ensures
        r == hud_shift_spec(*health),
{
    let current_in_percent = ((health.current as i64) * 100) / (health.max as i64);
    let missing = 100 - current_in_percent;
    if missing == 0 {
        0
    } else if missing == 20 {
        -22
    } else if missing == 40 {
        -38
    } else if missing == 60 {
        -55
    } else if missing == 80 {
        -72
    } else if missing == 100 {
        -100
    } else {
        0
    }
}

} // verus!
