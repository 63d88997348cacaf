//! Enemies: their kind, spawn values and patrol movement decisions.

use vstd::prelude::*;

use crate::common::MovementDirection;
use crate::common::UnknownTag;
use crate::common::tag_matches;

verus! {

/// Marks an enemy entity.
#[derive(Debug, Clone, Copy, Default)]
pub struct Enemy;

/// The kind of an enemy, as the level asset names it.
#[derive(Debug, Clone, Copy, Eq, PartialEq, Structural)]
pub enum EnemyType {
    Durt,
    LongHair,
}

impl Default for EnemyType {
    fn default() -> (r: Self)
        ensures
            r == EnemyType::Durt,
    {
        EnemyType::Durt
    }
}

impl EnemyType {
    /// Parses the textual tag of a level asset into an enemy kind.
    /// Returns `Ok` exactly for the two known tags and a typed error for
    /// anything else, so a bad asset is rejected once at load time.
    pub fn parse(tag: &str) -> (r: Result<EnemyType, UnknownTag>)
        ensures
            tag@ == "Durt"@ ==> r == Ok::<EnemyType, UnknownTag>(EnemyType::Durt),
            tag@ == "LongHair"@ ==> r == Ok::<EnemyType, UnknownTag>(EnemyType::LongHair),
            tag@ != "Durt"@ && tag@ != "LongHair"@ ==> r == Err::<EnemyType, UnknownTag>(
                UnknownTag,
            ),
    {
        proof {
            reveal_strlit("Durt");
            reveal_strlit("LongHair");
            assert("Durt"@.len() == 4);
            assert("LongHair"@.len() == 8);
            assert("Durt"@ != "LongHair"@);
        }
        if tag_matches(tag, "Durt") {
            Ok(EnemyType::Durt)
        } else if tag_matches(tag, "LongHair") {
            Ok(EnemyType::LongHair)
        } else {
            Err(UnknownTag)
        }
    }
}

/// A point an enemy patrols between, in world units.
#[derive(Debug, Clone, Copy, Eq, PartialEq, Structural)]
pub struct PatrolPoint {
    pub x: i64,
    pub y: i64,
}

/// The patrol route of an enemy: the stops, and the stop currently
/// walked towards.
#[derive(Debug, Clone)]
pub struct Patrol {
    /// The stops of the route.
    pub points: Vec<PatrolPoint>,

    /// Index of the stop currently walked towards; always inside
    /// `points`.
    pub index: usize,
}

/// The next patrol stop once the current one is reached: at the first
/// stop the enemy turns right, at the last it turns left, in between it
/// keeps its direction, and the index steps one stop that way.
pub fn advance_patrol(index: usize, len: usize, direction: MovementDirection) -> (r: (
    usize,
    MovementDirection,
))
    requires
        len >= 2,
        index < len,
    ensures
        r.1 == (if index == 0 {
            MovementDirection::Right
        } else if index + 1 == len {
            MovementDirection::Left
        } else {
            direction
        }),
        r.0 as int == (if r.1 == MovementDirection::Right {
            index + 1
        } else {
            index - 1
        }),
        r.0 < len,
{
    let new_direction = if index == 0 {
        MovementDirection::Right
    } else if index + 1 == len {
        MovementDirection::Left
    } else {
        direction
    };
    let new_index = if new_direction == MovementDirection::Right {
        index + 1
    } else {
        index - 1
    };
    (new_index, new_direction)
}

/// The state a freshly spawned enemy starts with.
#[derive(Debug, Clone, Copy, Eq, PartialEq, Structural)]
pub struct EnemyInit {
    /// Starting facing.
    pub direction: MovementDirection,
    /// Patrol speed, in world units per second.
    pub speed: i64,
    /// Starting movement flag.
    pub on_move: bool,
    /// Starting health.
    pub health_current: i32,
    /// Maximum health.
    pub health_max: i32,
}

/// The initial values of a freshly spawned enemy: at rest, facing
/// right, two health points, patrol speed.
pub fn spawn_enemy() -> (r: EnemyInit)
    ensures
        r.direction == MovementDirection::Right,
        r.speed == 80,
        r.on_move == false,
        r.health_current == 2 && r.health_max == 2,
{
    EnemyInit {
        direction: MovementDirection::Right,
        speed: 80,
        on_move: false,
        health_current: 2,
        health_max: 2,
    }
}

} // verus!
