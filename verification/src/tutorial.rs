//! In-level tutorial triggers: their kind, their passed flag, and what a
//! contact with the player does to them.

use vstd::prelude::*;

use crate::common::UnknownTag;
use crate::common::tag_matches;

verus! {

/// A tutorial trigger area and the UI entities it spawned.
#[derive(Debug, Clone, Default)]
pub struct Tutorial {
    /// The UI entities shown while the tutorial is active.
    pub ui_entities: Vec<u64>,
}

/// The kind of a tutorial, as the level asset names it.
#[derive(Debug, Clone, Copy, Eq, PartialEq, Structural)]
pub enum TutorialType {
    Movement,
    Climbing,
}

impl Default for TutorialType {
    fn default() -> (r: Self)
        ensures
            r == TutorialType::Movement,
    {
        TutorialType::Movement
    }
}

impl TutorialType {
    /// Parses the textual tag of a level asset into a tutorial kind.
    /// Returns `Ok` exactly for the two known tags and a typed error for
    /// anything else, so a bad asset is rejected once at load time.
    pub fn parse(tag: &str) -> (r: Result<TutorialType, UnknownTag>)
        ensures
            tag@ == "Movement"@ ==> r == Ok::<TutorialType, UnknownTag>(TutorialType::Movement),
            tag@ == "Climbing"@ ==> r == Ok::<TutorialType, UnknownTag>(TutorialType::Climbing),
            tag@ != "Movement"@ && tag@ != "Climbing"@ ==> r == Err::<TutorialType, UnknownTag>(
                UnknownTag,
            ),
    {
        proof {
            reveal_strlit("Movement");
            reveal_strlit("Climbing");
            assert("Movement"@[0] == 'M');
            assert("Climbing"@[0] == 'C');
            assert("Movement"@ != "Climbing"@);
        }
        if tag_matches(tag, "Movement") {
            Ok(TutorialType::Movement)
        } else if tag_matches(tag, "Climbing") {
            Ok(TutorialType::Climbing)
        } else {
            Err(UnknownTag)
        }
    }
}

/// Whether the player has reached this tutorial's trigger area.
#[derive(Debug, Clone, Copy, Eq, PartialEq, Structural)]
pub struct TutorialPassed(pub bool);

impl Default for TutorialPassed {
    /// A fresh tutorial has not been passed.
    fn default() -> (r: Self)
        ensures
            r.0 == false,
    {
        TutorialPassed(false)
    }
}

/// What a player contact does to a tutorial trigger.
#[derive(Debug, Clone, Copy, Eq, PartialEq, Structural)]
pub enum TutorialAction {
    /// The player entered the area: mark the tutorial passed.
    MarkPassed,
    /// The player left the area: despawn the tutorial and its UI.
    Despawn,
}

/// The tutorial reaction to a player overlap: entering marks it passed,
/// leaving despawns it together with its UI entities.
pub fn tutorial_interaction_detection(started: bool) -> (r: TutorialAction)
    ensures
        started ==> r == TutorialAction::MarkPassed,
        !started ==> r == TutorialAction::Despawn,
{
    if started {
        TutorialAction::MarkPassed
    } else {
        TutorialAction::Despawn
    }
}

} // verus!
