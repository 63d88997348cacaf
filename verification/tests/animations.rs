//! Tests of the animation state machine: priority order, entry effects,
//! playback, and the death lifecycle.

use dungeon_rogue::player::AnimationInput;
use dungeon_rogue::player::GravityCommand;
use dungeon_rogue::player::PlayerAnimationState;
use dungeon_rogue::player::PlayerProcessAnimation;
use dungeon_rogue::player::SheetKind;
use dungeon_rogue::player::advance_frame;
use dungeon_rogue::player::climb_frame_advances;
use dungeon_rogue::player::next_animation_state;
use dungeon_rogue::player::playback_raised;
use dungeon_rogue::player::sheet_for_state;
use dungeon_rogue::player::tick_effects;

fn calm() -> AnimationInput {
    AnimationInput {
        death_event: false,
        hit_event: false,
        attacking: false,
        climbing: false,
        on_ground: true,
        on_wall: false,
        on_move: false,
    }
}

/// A hit event outranks a raised attack flag.
#[test]
fn hit_outranks_attack() {
    let mut input = calm();
    input.attacking = true;
    input.hit_event = true;
    let next = next_animation_state(PlayerAnimationState::Idle, input);
    assert_eq!(next, PlayerAnimationState::Hit(PlayerProcessAnimation::Start));
}

/// On the ground with a movement intent and nothing else, the machine
/// resolves to the run state.
#[test]
fn grounded_movement_resolves_to_run() {
    let mut input = calm();
    input.on_move = true;
    let next = next_animation_state(PlayerAnimationState::Idle, input);
    assert_eq!(next, PlayerAnimationState::Run);
}

/// Entering the climb state zeroes gravity; leaving it restores the
/// default.
#[test]
fn climb_toggles_gravity() {
    let enter = tick_effects(PlayerAnimationState::Idle, PlayerAnimationState::Climb, true)
        .expect("state changed");
    assert_eq!(enter.gravity, GravityCommand::Zero);
    let leave = tick_effects(PlayerAnimationState::Climb, PlayerAnimationState::Idle, true)
        .expect("state changed");
    assert_eq!(leave.gravity, GravityCommand::Restore);
}

/// The full priority ladder, checked rung by rung.
#[test]
fn priority_order() {
    let mut input = calm();
    input.death_event = true;
    input.hit_event = true;
    input.attacking = true;
    assert_eq!(
        next_animation_state(PlayerAnimationState::Run, input),
        PlayerAnimationState::Death(PlayerProcessAnimation::Start)
    );

    input.death_event = false;
    assert_eq!(
        next_animation_state(PlayerAnimationState::Run, input),
        PlayerAnimationState::Hit(PlayerProcessAnimation::Start)
    );

    input.hit_event = false;
    // An uninterruptible animation in progress swallows lower inputs.
    assert_eq!(
        next_animation_state(PlayerAnimationState::Hit(PlayerProcessAnimation::Start), input),
        PlayerAnimationState::Hit(PlayerProcessAnimation::Start)
    );

    assert_eq!(
        next_animation_state(PlayerAnimationState::Run, input),
        PlayerAnimationState::Attack(PlayerProcessAnimation::Start)
    );

    input.attacking = false;
    input.climbing = true;
    assert_eq!(next_animation_state(PlayerAnimationState::Run, input), PlayerAnimationState::Climb);

    input.climbing = false;
    input.on_ground = false;
    input.on_wall = true;
    assert_eq!(
        next_animation_state(PlayerAnimationState::Run, input),
        PlayerAnimationState::WallSlide
    );

    input.on_wall = false;
    assert_eq!(next_animation_state(PlayerAnimationState::Run, input), PlayerAnimationState::Jump);

    input.on_ground = true;
    input.on_move = true;
    assert_eq!(next_animation_state(PlayerAnimationState::Idle, input), PlayerAnimationState::Run);

    input.on_move = false;
    assert_eq!(next_animation_state(PlayerAnimationState::Run, input), PlayerAnimationState::Idle);
}

/// Effects fire only when the state changes.
#[test]
fn no_effects_without_a_change() {
    assert!(tick_effects(PlayerAnimationState::Run, PlayerAnimationState::Run, true).is_none());
    assert!(tick_effects(PlayerAnimationState::Run, PlayerAnimationState::Idle, true).is_some());
}

/// The death lifecycle: the death event forces the death state; entering
/// it spawns the visual-only entity and removes the live character; the
/// end of its sheet raises the end phase, which removes the visual.
#[test]
fn death_lifecycle() {
    let mut input = calm();
    input.death_event = true;
    let started = next_animation_state(PlayerAnimationState::Run, input);
    assert_eq!(started, PlayerAnimationState::Death(PlayerProcessAnimation::Start));

    let entry = tick_effects(PlayerAnimationState::Run, started, true).expect("state changed");
    assert!(entry.spawn_death_visual);
    assert!(entry.despawn_player);

    // Play the death sheet to its end.
    let items: usize = 36;
    let mut frame: usize = 0;
    let mut finished = false;
    for _ in 0..items {
        let (next, done) = advance_frame(frame, items);
        frame = next;
        finished = done;
    }
    assert!(finished);
    assert_eq!(frame, 0);

    let raised = playback_raised(started, finished).expect("end phase raised");
    assert_eq!(raised, PlayerAnimationState::Death(PlayerProcessAnimation::End));

    // The live character is gone by now.
    let end_entry = tick_effects(started, raised, false).expect("state changed");
    assert!(end_entry.despawn_death_visual);
}

/// The end of a hit animation clears the attack flag and hands control
/// back to idle.
#[test]
fn hit_end_returns_to_idle() {
    let effects = tick_effects(
        PlayerAnimationState::Hit(PlayerProcessAnimation::Start),
        PlayerAnimationState::Hit(PlayerProcessAnimation::End),
        true,
    )
    .expect("state changed");
    assert!(effects.clear_attacking);
    assert_eq!(effects.follow_up, Some(PlayerAnimationState::Idle));
}

/// The end of an attack animation clears the attack flag.
#[test]
fn attack_end_clears_attacking() {
    let raised = playback_raised(PlayerAnimationState::Attack(PlayerProcessAnimation::Start), true)
        .expect("end phase raised");
    assert_eq!(raised, PlayerAnimationState::Attack(PlayerProcessAnimation::End));
    let effects = tick_effects(
        PlayerAnimationState::Attack(PlayerProcessAnimation::Start),
        raised,
        true,
    )
    .expect("state changed");
    assert!(effects.clear_attacking);
}

/// Looping states raise nothing when their sheet wraps.
#[test]
fn looping_states_raise_nothing() {
    assert!(playback_raised(PlayerAnimationState::Run, true).is_none());
    assert!(playback_raised(PlayerAnimationState::Idle, true).is_none());
    assert!(playback_raised(PlayerAnimationState::Attack(PlayerProcessAnimation::Start), false)
        .is_none());
}

/// A frame index advances by one and wraps at the sheet's item count.
#[test]
fn frame_advance_wraps() {
    assert_eq!(advance_frame(0, 3), (1, false));
    assert_eq!(advance_frame(1, 3), (2, false));
    assert_eq!(advance_frame(2, 3), (0, true));
    assert_eq!(advance_frame(0, 1), (0, true));
}

/// The climb animation advances only while actually moving on the
/// ladder.
#[test]
fn climb_animation_needs_movement() {
    assert!(climb_frame_advances(21));
    assert!(climb_frame_advances(-21));
    assert!(!climb_frame_advances(20));
    assert!(!climb_frame_advances(-20));
    assert!(!climb_frame_advances(0));
}

/// Each state picks its sheet; end phases swap nothing.
#[test]
fn sheets_per_state() {
    assert_eq!(sheet_for_state(PlayerAnimationState::Run), Some(SheetKind::Run));
    assert_eq!(
        sheet_for_state(PlayerAnimationState::Hit(PlayerProcessAnimation::Start)),
        Some(SheetKind::Hurt)
    );
    assert_eq!(sheet_for_state(PlayerAnimationState::Hit(PlayerProcessAnimation::End)), None);
    assert_eq!(
        sheet_for_state(PlayerAnimationState::Death(PlayerProcessAnimation::Start)),
        Some(SheetKind::Death)
    );
}
