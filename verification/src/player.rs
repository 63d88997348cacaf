//! The playable character: physics decisions and the animation state
//! machine.

mod player_animations;
mod player_physics;

pub use player_animations::AnimationInput;
pub use player_animations::EntryEffects;
pub use player_animations::GravityCommand;
pub use player_animations::PlayerAnimationState;
pub use player_animations::PlayerProcessAnimation;
pub use player_animations::SheetKind;
pub use player_animations::advance_frame;
pub use player_animations::climb_frame_advances;
pub use player_animations::entry_effects_spec;
pub use player_animations::lemma_climb_gravity;
pub use player_animations::lemma_death_lifecycle;
pub use player_animations::lemma_grounded_movement_runs;
pub use player_animations::lemma_hit_outranks_attack;
pub use player_animations::next_animation_state;
pub use player_animations::next_state_spec;
pub use player_animations::playback_raised;
pub use player_animations::playback_raised_spec;
pub use player_animations::sheet_for_state;
pub use player_animations::sheet_for_state_spec;
pub use player_animations::tick_effects;

pub use player_physics::ColliderShape;
pub use player_physics::GroundDetection;
pub use player_physics::Impulse;
pub use player_physics::GroundSensor;
pub use player_physics::JumpOutcome;
pub use player_physics::JUMP_IMPULSE;
pub use player_physics::MovementInput;
pub use player_physics::MovementOutcome;
pub use player_physics::OverlapEvent;
pub use player_physics::Player;
pub use player_physics::PlayerInit;
pub use player_physics::SensorRect;
pub use player_physics::ShapeMismatch;
pub use player_physics::SideDetector;
pub use player_physics::SideSensor;
pub use player_physics::Velocity;
pub use player_physics::dead;
pub use player_physics::detect_climb_event;
pub use player_physics::gravity_scale;
pub use player_physics::ground_detection;
pub use player_physics::ground_sensor_shape;
pub use player_physics::lemma_contact_boolean;
pub use player_physics::nodup;
pub use player_physics::player_jump;
pub use player_physics::player_movement;
pub use player_physics::side_sensor_shape;
pub use player_physics::spawn_player;
pub use player_physics::spec_apply_overlap;
pub use player_physics::spec_drain_overlaps;
pub use player_physics::wall_detection;
