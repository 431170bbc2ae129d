//! The level goal and the check that the player has reached it.

use vstd::prelude::*;

use crate::level::GridCoords;

verus! {

/// Marker for the level's exit tile.
pub struct Goal;

/// Checks whether the player stands on the goal; reaching it advances the
/// level index, and the caller then restarts into the next level.
pub fn check_goal_reached(
    player_coords: &GridCoords,
    goal_coords: &GridCoords,
    level_index: &mut u64,
) -> (reached: bool)
    requires
        *old(level_index) < u64::MAX,
    ensures
        reached == (*player_coords == *goal_coords),
        reached ==> *final(level_index) == *old(level_index) + 1,
        !reached ==> *final(level_index) == *old(level_index),
{
    if *player_coords == *goal_coords {
        *level_index = *level_index + 1;
        true
    } else {
        false
    }
}

} // verus!
