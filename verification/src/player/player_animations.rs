//! The animation state machine of the player.
//!
//! Every tick exactly one [`PlayerAnimationState`] is current.  The next
//! state is resolved from the tick's inputs by a fixed priority order, and
//! the side effects of entering a state are applied exactly once, at the
//! tick the state changes.

use vstd::prelude::*;

verus! {

/// Phase of an animation that runs to completion before handing control
/// back (hit, death, attack).
#[derive(Debug, Clone, Copy, Eq, PartialEq, Structural)]
pub enum PlayerProcessAnimation {
    Start,
    End,
}

impl Default for PlayerProcessAnimation {
    fn default() -> (r: Self)
        ensures
            r == PlayerProcessAnimation::Start,
    {
        PlayerProcessAnimation::Start
    }
}

/// The closed set of animation states of the player.  Exactly one is
/// current per tick.
#[derive(Debug, Clone, Copy, Eq, PartialEq, Structural)]
pub enum PlayerAnimationState {
    /// Player does nothing.
    Idle,
    /// Player runs.
    Run,
    /// Player climbs.
    Climb,
    /// Player slides down a wall.
    WallSlide,
    /// Player has taken damage but did not die.
    Hit(PlayerProcessAnimation),
    /// Player died.
    Death(PlayerProcessAnimation),
    /// Player jumps or falls.
    Jump,
    /// Player attacks.
    Attack(PlayerProcessAnimation),
}

impl Default for PlayerAnimationState {
    fn default() -> (r: Self)
        ensures
            r == PlayerAnimationState::Idle,
    {
        PlayerAnimationState::Idle
    }
}

/// Everything the state machine reads in one tick.
#[derive(Debug, Clone, Copy, Eq, PartialEq, Structural)]
pub struct AnimationInput {
    /// The player's health reached zero this tick.
    pub death_event: bool,
    /// The player was hit this tick.
    pub hit_event: bool,
    /// The attack flag is set.
    pub attacking: bool,
    /// The climber is currently climbing.
    pub climbing: bool,
    /// The ground sensor currently overlaps something.
    pub on_ground: bool,
    /// The side sensor currently overlaps a wall.
    pub on_wall: bool,
    /// The player currently moves horizontally.
    pub on_move: bool,
}

/// The transition function of the state machine: first match wins, later
/// checks are skipped.  Priority, highest first: death, hit, an
/// uninterruptible animation in progress, attack, climb, wall slide,
/// jump, run, idle.
pub open spec fn next_state_spec(cur: PlayerAnimationState, inp: AnimationInput) -> PlayerAnimationState {
    if inp.death_event {
        PlayerAnimationState::Death(PlayerProcessAnimation::Start)
    } else if inp.hit_event {
        PlayerAnimationState::Hit(PlayerProcessAnimation::Start)
    } else if cur == PlayerAnimationState::Hit(PlayerProcessAnimation::Start)
        || cur == PlayerAnimationState::Death(PlayerProcessAnimation::Start) {
        cur
    } else if inp.attacking {
        PlayerAnimationState::Attack(PlayerProcessAnimation::Start)
    } else if inp.climbing {
        PlayerAnimationState::Climb
    } else if !inp.on_ground && inp.on_wall {
        PlayerAnimationState::WallSlide
    } else if !inp.on_ground {
        PlayerAnimationState::Jump
    } else if inp.on_move {
        PlayerAnimationState::Run
    } else {
        PlayerAnimationState::Idle
    }
}

/// Resolves the animation state for this tick.
pub fn next_animation_state(cur: PlayerAnimationState, inp: AnimationInput) -> (r: PlayerAnimationState)
    ensures
        r == next_state_spec(cur, inp),
{
    if inp.death_event {
        PlayerAnimationState::Death(PlayerProcessAnimation::Start)
    } else if inp.hit_event {
        PlayerAnimationState::Hit(PlayerProcessAnimation::Start)
    } else if cur == PlayerAnimationState::Hit(PlayerProcessAnimation::Start)
        || cur == PlayerAnimationState::Death(PlayerProcessAnimation::Start) {
        cur
    } else if inp.attacking {
        PlayerAnimationState::Attack(PlayerProcessAnimation::Start)
    } else if inp.climbing {
        PlayerAnimationState::Climb
    } else if !inp.on_ground && inp.on_wall {
        PlayerAnimationState::WallSlide
    } else if !inp.on_ground {
        PlayerAnimationState::Jump
    } else if inp.on_move {
        PlayerAnimationState::Run
    } else {
        PlayerAnimationState::Idle
    }
}

/// A hit outranks an attack: whenever the player is alive and a hit event
/// fired this tick, the machine resolves to `Hit(Start)`, whatever the
/// current state and the attack flag say.
pub proof fn lemma_hit_outranks_attack(cur: PlayerAnimationState, inp: AnimationInput)
    requires
        !inp.death_event,
        inp.hit_event,
    ensures
        next_state_spec(cur, inp) == PlayerAnimationState::Hit(PlayerProcessAnimation::Start),
{
}

/// Grounded movement resolves to the run state: with no trigger events,
/// no attack, no climbing, the ground under foot and a movement intent,
/// the machine runs — from every state except a hit or death animation
/// still playing, which by the priority order runs to completion first.
pub proof fn lemma_grounded_movement_runs(cur: PlayerAnimationState, inp: AnimationInput)
    requires
        !inp.death_event,
        !inp.hit_event,
        !inp.attacking,
        !inp.climbing,
        inp.on_ground,
        inp.on_move,
        cur != PlayerAnimationState::Hit(PlayerProcessAnimation::Start),
        cur != PlayerAnimationState::Death(PlayerProcessAnimation::Start),
    ensures
        next_state_spec(cur, inp) == PlayerAnimationState::Run,
{
}

/// Which sprite sheet a state plays.
#[derive(Debug, Clone, Copy, Eq, PartialEq, Structural)]
pub enum SheetKind {
    Idle,
    Run,
    Climb,
    Hurt,
    Death,
    Jump,
    Attack,
    WallSlide,
}

/// The sheet shown while a state is current, if entering it swaps the
/// texture.  The end phases swap nothing: they only hand control back.
pub open spec fn sheet_for_state_spec(state: PlayerAnimationState) -> Option<SheetKind> {
    match state {
        PlayerAnimationState::Idle => Some(SheetKind::Idle),
        PlayerAnimationState::Run => Some(SheetKind::Run),
        PlayerAnimationState::Climb => Some(SheetKind::Climb),
        PlayerAnimationState::WallSlide => Some(SheetKind::WallSlide),
        PlayerAnimationState::Jump => Some(SheetKind::Jump),
        PlayerAnimationState::Hit(phase) => if phase == PlayerProcessAnimation::Start {
            Some(SheetKind::Hurt)
        } else {
            None
        },
        PlayerAnimationState::Attack(phase) => if phase == PlayerProcessAnimation::Start {
            Some(SheetKind::Attack)
        } else {
            None
        },
        PlayerAnimationState::Death(phase) => if phase == PlayerProcessAnimation::Start {
            Some(SheetKind::Death)
        } else {
            None
        },
    }
}

/// The sheet shown while a state is current, if any.
pub fn sheet_for_state(state: PlayerAnimationState) -> (r: Option<SheetKind>)
    ensures
        r == sheet_for_state_spec(state),
{
    match state {
        PlayerAnimationState::Idle => Some(SheetKind::Idle),
        PlayerAnimationState::Run => Some(SheetKind::Run),
        PlayerAnimationState::Climb => Some(SheetKind::Climb),
        PlayerAnimationState::WallSlide => Some(SheetKind::WallSlide),
        PlayerAnimationState::Jump => Some(SheetKind::Jump),
        PlayerAnimationState::Hit(phase) => if phase == PlayerProcessAnimation::Start {
            Some(SheetKind::Hurt)
        } else {
            None
        },
        PlayerAnimationState::Attack(phase) => if phase == PlayerProcessAnimation::Start {
            Some(SheetKind::Attack)
        } else {
            None
        },
        PlayerAnimationState::Death(phase) => if phase == PlayerProcessAnimation::Start {
            Some(SheetKind::Death)
        } else {
            None
        },
    }
}

/// What the physics engine should do with the character's gravity
/// multiplier when a state is entered.
#[derive(Debug, Clone, Copy, Eq, PartialEq, Structural)]
pub enum GravityCommand {
    /// Force the multiplier to zero (climbing).
    Zero,
    /// Restore the default multiplier.
    Restore,
}

/// The side effects of entering a state.  The host applies them in the
/// tick the state changed, exactly once.
#[derive(Debug, Clone, Copy, Eq, PartialEq, Structural)]
pub struct EntryEffects {
    /// Reset the animation frame index to zero.
    pub reset_frame: bool,
    /// Swap the active sheet to this one.
    pub sheet: Option<SheetKind>,
    /// Force or restore the gravity multiplier.
    pub gravity: GravityCommand,
    /// Clear the attack flag (end of a hit or attack animation).
    pub clear_attacking: bool,
    /// Hand control back to this state next tick (end of a hit animation).
    pub follow_up: Option<PlayerAnimationState>,
    /// Spawn the free-standing, visual-only death animation entity at the
    /// character's last position.
    pub spawn_death_visual: bool,
    /// Remove the live character and all its children from the simulation.
    pub despawn_player: bool,
    /// Remove the visual-only death animation entity.
    pub despawn_death_visual: bool,
}

/// The effects of entering `next`; `player_alive` says whether the live
/// character entity still exists.
pub open spec fn entry_effects_spec(next: PlayerAnimationState, player_alive: bool) -> EntryEffects {
    EntryEffects {
        reset_frame: player_alive,
        sheet: if player_alive {
            sheet_for_state_spec(next)
        } else {
            None
        },
        gravity: if next == PlayerAnimationState::Climb {
            GravityCommand::Zero
        } else {
            GravityCommand::Restore
        },
        clear_attacking: next == PlayerAnimationState::Hit(PlayerProcessAnimation::End)
            || next == PlayerAnimationState::Attack(PlayerProcessAnimation::End),
        follow_up: if next == PlayerAnimationState::Hit(PlayerProcessAnimation::End) {
            Some(PlayerAnimationState::Idle)
        } else {
            None
        },
        spawn_death_visual: next == PlayerAnimationState::Death(PlayerProcessAnimation::Start),
        despawn_player: next == PlayerAnimationState::Death(PlayerProcessAnimation::Start),
        despawn_death_visual: !player_alive && next == PlayerAnimationState::Death(
            PlayerProcessAnimation::End,
        ),
    }
}

/// The side effects of this tick: `None` when the state did not change
/// (nothing fires), the entry effects of `next` otherwise.
///
/// Reaching `Death(End)` while the live character still exists would mean
/// the end of a death animation that never started; that input is a
/// programming error and is excluded.
pub fn tick_effects(prev: PlayerAnimationState, next: PlayerAnimationState, player_alive: bool) -> (r: Option<
    EntryEffects,
>)
    requires
        player_alive ==> next != PlayerAnimationState::Death(PlayerProcessAnimation::End),
    ensures
        prev == next ==> r is None,
        prev != next ==> r == Some(entry_effects_spec(next, player_alive)),
{
    if prev == next {
        return None;
    }
    let sheet = if player_alive {
        sheet_for_state(next)
    } else {
        None
    };
    let gravity = if next == PlayerAnimationState::Climb {
        GravityCommand::Zero
    } else {
        GravityCommand::Restore
    };
    let clear_attacking = next == PlayerAnimationState::Hit(PlayerProcessAnimation::End) || next
        == PlayerAnimationState::Attack(PlayerProcessAnimation::End);
    let follow_up = if next == PlayerAnimationState::Hit(PlayerProcessAnimation::End) {
        Some(PlayerAnimationState::Idle)
    } else {
        None
    };
    let dying = next == PlayerAnimationState::Death(PlayerProcessAnimation::Start);
    let despawn_death_visual = !player_alive && next == PlayerAnimationState::Death(
        PlayerProcessAnimation::End,
    );
    Some(
        EntryEffects {
            reset_frame: player_alive,
            sheet,
            gravity,
            clear_attacking,
            follow_up,
            spawn_death_visual: dying,
            despawn_player: dying,
            despawn_death_visual,
        },
    )
}

/// Advances an animation frame index: the next index, and whether the
/// sheet just finished (the index wrapped past the last item).
pub fn advance_frame(frame: usize, items: usize) -> (r: (usize, bool))
    requires
        items >= 1,
        frame < items,
    ensures
        r.1 == (frame + 1 == items),
        r.0 == if frame + 1 == items {
            0usize
        } else {
            (frame + 1) as usize
        },
{
    if frame + 1 >= items {
        (0, true)
    } else {
        (frame + 1, false)
    }
}

/// The event the playback sub-routine raises when the current sheet
/// finished: the hit, death and attack animations raise their end phase;
/// the looping states raise nothing.
pub fn playback_raised(state: PlayerAnimationState, finished: bool) -> (r: Option<
    PlayerAnimationState,
>)
    ensures
        r == playback_raised_spec(state, finished),
{
    if !finished {
        return None;
    }
    match state {
        PlayerAnimationState::Hit(phase) => if phase == PlayerProcessAnimation::Start {
            Some(PlayerAnimationState::Hit(PlayerProcessAnimation::End))
        } else {
            None
        },
        PlayerAnimationState::Attack(phase) => if phase == PlayerProcessAnimation::Start {
            Some(PlayerAnimationState::Attack(PlayerProcessAnimation::End))
        } else {
            None
        },
        PlayerAnimationState::Death(phase) => if phase == PlayerProcessAnimation::Start {
            Some(PlayerAnimationState::Death(PlayerProcessAnimation::End))
        } else {
            None
        },
        _ => None,
    }
}

/// What [`playback_raised`] returns.
pub open spec fn playback_raised_spec(state: PlayerAnimationState, finished: bool) -> Option<
    PlayerAnimationState,
> {
    if !finished {
        None
    } else if state == PlayerAnimationState::Hit(PlayerProcessAnimation::Start) {
        Some(PlayerAnimationState::Hit(PlayerProcessAnimation::End))
    } else if state == PlayerAnimationState::Attack(PlayerProcessAnimation::Start) {
        Some(PlayerAnimationState::Attack(PlayerProcessAnimation::End))
    } else if state == PlayerAnimationState::Death(PlayerProcessAnimation::Start) {
        Some(PlayerAnimationState::Death(PlayerProcessAnimation::End))
    } else {
        None
    }
}

/// The climb animation advances its frame only while the character
/// actually moves along the ladder.
pub fn climb_frame_advances(y_velocity: i64) -> (r: bool)
    ensures
        r == (y_velocity > 20 || y_velocity < -20),
{
    y_velocity > 20 || y_velocity < -20
}

/// Entering the climb state forces the gravity multiplier to zero, and
/// entering any other state restores the default multiplier.
pub proof fn lemma_climb_gravity(next: PlayerAnimationState, player_alive: bool)
    ensures
        next == PlayerAnimationState::Climb ==> entry_effects_spec(next, player_alive).gravity
            == GravityCommand::Zero,
        next != PlayerAnimationState::Climb ==> entry_effects_spec(next, player_alive).gravity
            == GravityCommand::Restore,
{
}

/// The death lifecycle: a death event this tick resolves to
/// `Death(Start)` whatever the current state was; entering it spawns the
/// visual-only death entity and removes the live character; once its
/// sheet finishes, playback raises `Death(End)`; entering that removes
/// the visual entity.
pub proof fn lemma_death_lifecycle(cur: PlayerAnimationState, inp: AnimationInput)
    requires
        inp.death_event,
    ensures
        next_state_spec(cur, inp) == PlayerAnimationState::Death(PlayerProcessAnimation::Start),
        entry_effects_spec(
            PlayerAnimationState::Death(PlayerProcessAnimation::Start),
            true,
        ).spawn_death_visual,
        entry_effects_spec(
            PlayerAnimationState::Death(PlayerProcessAnimation::Start),
            true,
        ).despawn_player,
        playback_raised_spec(PlayerAnimationState::Death(PlayerProcessAnimation::Start), true)
            == Some(PlayerAnimationState::Death(PlayerProcessAnimation::End)),
        entry_effects_spec(
            PlayerAnimationState::Death(PlayerProcessAnimation::End),
            false,
        ).despawn_death_visual,
{
}

} // verus!
