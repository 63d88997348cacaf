//! Gameplay simulation core of a 2D platformer.
//!
//! The crate turns a tile-based level description into merged rectangular
//! colliders, tracks which actors touch which surfaces through overlap
//! events, and drives the playable character through a deterministic,
//! priority-ordered motion and animation state machine.  Everything the
//! engine itself does (rendering, physics stepping, asset loading, input
//! polling) stays outside: the core consumes plain values such as grid
//! cells, overlap events and key states, and returns plain values such as
//! rectangles, velocities and state-entry commands.

use vstd::prelude::*;

mod common;
pub mod audio;
pub mod combat;
pub mod enemy;
pub mod hud;
pub mod map;
pub mod out_of_bounce;
pub mod player;
pub mod ron_parsers;
pub mod settings;
pub mod tutorial;

pub use common::Attackable;
pub use common::Attacks;
pub use common::Climbable;
pub use common::Climber;
pub use common::Health;
pub use common::MovementDirection;
pub use common::OnMove;
pub use common::Speed;
pub use common::UnknownTag;
pub use common::tag_matches;

verus! {

/// Top level mode of the application: either playing or in a menu screen.
#[derive(Debug, Clone, Copy, Eq, PartialEq, Structural)]
pub enum ApplicationState {
    /// The player is in the game.
    Game,
    /// The player is in one of the menu screens.
    Menu(ApplicationStateMenu),
}

/// The menu screens of the application.
#[derive(Debug, Clone, Copy, Eq, PartialEq, Structural)]
pub enum ApplicationStateMenu {
    /// The main menu.
    Main,
    /// The menu shown when the player has died.
    Dead,
    /// The settings menu (music state and volume).
    Settings,
}

/// Raised when the game should pause and open the menu.
pub struct PauseTheGameEvent;

/// Raised when the game should resume from the menu.
pub struct ResumeTheGameEvent;

/// Raised when the application should exit.
pub struct ExitTheGameEvent;

/// Raised once when the player's health reaches zero.
#[derive(Debug)]
pub struct PlayerIsDeadEvent;

/// Raised when the player is hit but not dead; carries the damage amount.
#[derive(Debug)]
pub struct PlayerIsHitEvent(pub i32);

/// A pause or resume request raised by the escape key.
#[derive(Debug, Clone, Copy, Eq, PartialEq, Structural)]
pub enum PauseOrResume {
    Pause,
    Resume,
}

/// The escape key pauses a running game and resumes a paused one; any
/// other tick raises nothing.
pub fn keyboard_state_changer(escape_pressed: bool, state: ApplicationState) -> (r: Option<
    PauseOrResume,
>)
    ensures
        !escape_pressed ==> r is None,
        escape_pressed && state is Game ==> r == Some(PauseOrResume::Pause),
        escape_pressed && state is Menu ==> r == Some(PauseOrResume::Resume),
{
    if escape_pressed {
        match state {
            ApplicationState::Game => Some(PauseOrResume::Pause),
            ApplicationState::Menu(_) => Some(PauseOrResume::Resume),
        }
    } else {
        None
    }
}

/// What one tick of game-state bookkeeping decided.
#[derive(Debug, Clone, Copy, Eq, PartialEq, Structural)]
pub struct GameStateChange {
    /// The application state to switch to, if any.
    pub next_state: Option<ApplicationState>,
    /// Whether the physics pipeline should run afterwards, if that
    /// changes.
    pub physics_active: Option<bool>,
    /// Whether the application should exit.
    pub exit: bool,
}

/// Applies the pending pause, resume and exit requests of one tick.
/// Pausing opens the main menu and freezes physics, resuming returns to
/// the game and thaws it; a resume in the same tick outranks a pause,
/// and an exit request ends the application.
pub fn change_game_state(pause: bool, resume: bool, exit_requested: bool) -> (r: GameStateChange)
    ensures
        resume ==> r.next_state == Some(ApplicationState::Game) && r.physics_active == Some(true),
        pause && !resume ==> r.next_state == Some(
            ApplicationState::Menu(ApplicationStateMenu::Main),
        ) && r.physics_active == Some(false),
        !pause && !resume ==> r.next_state is None && r.physics_active is None,
        r.exit == exit_requested,
{
    let next_state: Option<ApplicationState> = if resume {
        Some(ApplicationState::Game)
    } else if pause {
        Some(ApplicationState::Menu(ApplicationStateMenu::Main))
    } else {
        None
    };
    let physics_active: Option<bool> = if resume {
        Some(true)
    } else if pause {
        Some(false)
    } else {
        None
    };
    GameStateChange { next_state, physics_active, exit: exit_requested }
}

} // verus!
