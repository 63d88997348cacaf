//! Components shared by the player, the enemies and the level logic.

use vstd::prelude::*;
use vstd::string::StrSliceExecFns;

verus! {

/// An unrecognized textual tag in a level asset, reported as a typed
/// error instead of a crash.
#[derive(Debug, Clone, Copy, Eq, PartialEq, Structural)]
pub struct UnknownTag;

/// Whether two tags are the same string, character for character.
pub fn tag_matches(a: &str, b: &str) -> (r: bool)
    ensures
        r == (a@ == b@),
{
    let n = a.unicode_len();
    if n != b.unicode_len() {
        return false;
    }
    let mut i: usize = 0;
    while i < n
        invariant
            n == a@.len(),
            n == b@.len(),
            i <= n,
            forall|k: int| 0 <= k < i ==> a@[k] == b@[k],
        decreases n - i,
    {
        if a.get_char(i) != b.get_char(i) {
            return false;
        }
        i += 1;
    }
    proof {
        assert(a@ =~= b@);
    }
    true
}

/// Whether an entity is currently moving horizontally.
#[derive(Debug, Clone, Copy, Eq, PartialEq, Structural)]
pub struct OnMove(pub bool);

/// The horizontal facing of a moving entity.
#[derive(Debug, Clone, Copy, Eq, PartialEq, Structural)]
pub enum MovementDirection {
    Left,
    Right,
}

/// Marks an element that climbers can climb on (a ladder cell).
#[derive(Debug, Clone, Copy, Default)]
pub struct Climbable;

/// State of an entity that may interact with [`Climbable`] elements.
#[derive(Debug, Clone)]
pub struct Climber {
    /// Identifiers of the climbable elements the climber currently
    /// overlaps.  Kept duplicate free so that it models a set.
    pub intersaction_elements: Vec<u64>,

    /// Whether the climber is currently climbing.
    pub climbing: bool,
}

impl Climber {
    /// The elements currently overlapped, as a set.
    pub open spec fn elements(self) -> Set<u64> {
        self.intersaction_elements@.to_set()
    }

    /// The element list holds no duplicates, so it faithfully models a set.
    pub open spec fn wf(self) -> bool {
        forall|i: int, j: int|
            0 <= i < j < self.intersaction_elements@.len()
                ==> self.intersaction_elements@[i] != self.intersaction_elements@[j]
    }

    /// A fresh climber: no overlapped elements, not climbing.
    pub fn new() -> (r: Climber)
        ensures
            r.wf(),
            r.elements() == Set::<u64>::empty(),
            !r.climbing,
    {
        let r = Climber { intersaction_elements: Vec::new(), climbing: false };
        proof {
            assert(r.elements() =~= Set::<u64>::empty());
        }
        r
    }
}

/// Hit points of a character or an enemy.
#[derive(Debug, Clone, Copy, Eq, PartialEq, Structural)]
pub struct Health {
    /// Current health.
    pub current: i32,

    /// Maximum health.
    pub max: i32,
}

/// Whether the entity is currently in its attack state.
#[derive(Debug, Clone, Copy, Eq, PartialEq, Structural)]
pub struct Attacks(pub bool);

/// Marks an entity that can receive attacks.
#[derive(Debug, Clone, Copy)]
pub struct Attackable;

/// Horizontal movement speed, in world units per second.
#[derive(Debug, Clone, Copy, Eq, PartialEq, Structural)]
pub struct Speed(pub i64);

} // verus!
