//! Out-of-bounds death zones: touching one kills the player outright.

use vstd::prelude::*;

use crate::common::Health;

verus! {

/// Marks a death zone below or beside the playable area.
#[derive(Debug, Clone, Copy, Default)]
pub struct DeathOutOfBounce;

/// A contact with a death zone empties the player's health on the spot;
/// without a contact nothing changes.
pub fn dead_interaction_detection(health: &mut Health, touched_death_zone: bool)
    ensures
        final(health).max == old(health).max,
        touched_death_zone ==> final(health).current == 0,
        !touched_death_zone ==> final(health).current == old(health).current,
{
    if touched_death_zone {
        health.current = 0;
    }
}

} // verus!
