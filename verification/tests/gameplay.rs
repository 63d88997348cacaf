//! Tests of combat resolution, movement and climbing, the HUD shift,
//! settings, audio, enemies, tutorials, textures and game-state changes.

use dungeon_rogue::ApplicationState;
use dungeon_rogue::ApplicationStateMenu;
use dungeon_rogue::Attacks;
use dungeon_rogue::Climber;
use dungeon_rogue::Health;
use dungeon_rogue::MovementDirection;
use dungeon_rogue::PauseOrResume;
use dungeon_rogue::audio::AudioCommand;
use dungeon_rogue::audio::AudioState;
use dungeon_rogue::audio::BackgroundMusicState;
use dungeon_rogue::audio::load_audio;
use dungeon_rogue::audio::start_bg_music;
use dungeon_rogue::audio::stop_bg_music;
use dungeon_rogue::audio::sync_audio_state_and_settings;
use dungeon_rogue::change_game_state;
use dungeon_rogue::combat::attack_detection;
use dungeon_rogue::combat::combat_interaction_detection;
use dungeon_rogue::combat::player_attacks;
use dungeon_rogue::combat::player_receives_damage;
use dungeon_rogue::enemy::EnemyType;
use dungeon_rogue::enemy::advance_patrol;
use dungeon_rogue::enemy::spawn_enemy;
use dungeon_rogue::hud::calculate_player_hud_shift;
use dungeon_rogue::keyboard_state_changer;
use dungeon_rogue::out_of_bounce::dead_interaction_detection;
use dungeon_rogue::player::MovementInput;
use dungeon_rogue::player::SheetKind;
use dungeon_rogue::player::spawn_player;
use dungeon_rogue::player::player_movement;
use dungeon_rogue::ron_parsers::EnemySpriteEntry;
use dungeon_rogue::ron_parsers::EnemySpriteKind;
use dungeon_rogue::ron_parsers::GameTextures;
use dungeon_rogue::ron_parsers::PlayerSpriteEntry;
use dungeon_rogue::ron_parsers::SpriteAssetInfo;
use dungeon_rogue::ron_parsers::TutorialSpriteEntry;
use dungeon_rogue::ron_parsers::TutorialSpriteKind;
use dungeon_rogue::ron_parsers::prepare_enemies_textures;
use dungeon_rogue::ron_parsers::prepare_player_textures;
use dungeon_rogue::ron_parsers::prepare_tutorial_textures;
use dungeon_rogue::settings::Settings;
use dungeon_rogue::settings::change_music_volume;
use dungeon_rogue::tag_matches;
use dungeon_rogue::tutorial::TutorialAction;
use dungeon_rogue::tutorial::TutorialType;
use dungeon_rogue::tutorial::tutorial_interaction_detection;

/// An enemy whose upper edge is level with the player's lower edge takes
/// damage; one hitting from the side hits the player.  Knockback pushes
/// the two apart.
#[test]
fn combat_contact_resolution() {
    // The player lands on the enemy.
    let out = combat_interaction_detection(9, 10, 0, 5, 2);
    assert!(!out.player_is_hit);
    assert_eq!(out.enemy_damage, 1);
    assert_eq!((out.player_impulse.x, out.player_impulse.y), (-120, 30));
    assert_eq!((out.enemy_impulse.x, out.enemy_impulse.y), (120, 30));

    // The enemy hits the player from the side.
    let out = combat_interaction_detection(0, 10, 8, 5, 2);
    assert!(out.player_is_hit);
    assert_eq!(out.enemy_damage, 0);
    assert_eq!((out.player_impulse.x, out.player_impulse.y), (120, 30));

    // A drained enemy takes no more damage.
    let out = combat_interaction_detection(9, 10, 0, 5, 0);
    assert_eq!(out.enemy_damage, 0);
}

/// An attack contact only matters while the attack flag is raised; a
/// landed attack deals one damage point and knocks the target away from
/// the attacker.
#[test]
fn attack_contact_resolution() {
    assert!(attack_detection(false, 0, 5).is_none());
    let outcome = attack_detection(true, 0, 5).unwrap();
    assert_eq!(outcome.damage, 1);
    assert_eq!((outcome.impulse.x, outcome.impulse.y), (50, 30));
    let outcome = attack_detection(true, 9, 5).unwrap();
    assert_eq!(outcome.damage, 1);
    assert_eq!((outcome.impulse.x, outcome.impulse.y), (-50, 30));
}

/// Damage reaches only a living player, and the maximum stays.
#[test]
fn damage_application() {
    let mut health = Health { current: 5, max: 10 };
    player_receives_damage(&mut health, 2);
    assert_eq!(health, Health { current: 3, max: 10 });
    let mut gone = Health { current: 0, max: 10 };
    player_receives_damage(&mut gone, 2);
    assert_eq!(gone, Health { current: 0, max: 10 });
}

/// The attack key raises the attack flag; pressing it while already
/// attacking is silently ignored.
#[test]
fn attack_key_raises_flag() {
    let mut attacks = Attacks(false);
    player_attacks(true, &mut attacks);
    assert!(attacks.0);
    player_attacks(false, &mut attacks);
    assert!(attacks.0);
    player_attacks(true, &mut attacks);
    assert!(attacks.0);
}

/// A death zone contact empties the health on the spot.
#[test]
fn death_zone_kills() {
    let mut health = Health { current: 7, max: 10 };
    dead_interaction_detection(&mut health, true);
    assert_eq!(health, Health { current: 0, max: 10 });
    let mut health = Health { current: 7, max: 10 };
    dead_interaction_detection(&mut health, false);
    assert_eq!(health.current, 7);
}

/// Climbing starts on a held climbable with an up or down press, ends
/// when the last climbable is left, and drives the vertical velocity.
#[test]
fn climbing_through_movement() {
    let init = spawn_player();
    let mut climber = Climber::new();
    climber.intersaction_elements.push(40);
    let input = MovementInput {
        left: false,
        right: false,
        up_pressed: true,
        down_pressed: false,
        up: true,
        down: false,
    };
    let out = player_movement(&init.speed, &init.on_move, &climber, &init.direction, &input);
    assert!(out.climbing);
    assert_eq!(out.velocity_y, Some(init.speed.0));

    // Away from every climbable, climbing ends at once.
    let empty = Climber::new();
    let out = player_movement(&init.speed, &init.on_move, &empty, &init.direction, &input);
    assert!(!out.climbing);
    assert_eq!(out.velocity_y, None);
}

/// The movement flag is rewritten only when it changes.
#[test]
fn on_move_flips_only_on_change() {
    let init = spawn_player();
    let still = MovementInput {
        left: false,
        right: false,
        up_pressed: false,
        down_pressed: false,
        up: false,
        down: false,
    };
    let out = player_movement(&init.speed, &init.on_move, &init.climber, &init.direction, &still);
    assert!(!out.on_move && !out.on_move_changed);
    let mut run = still;
    run.left = true;
    let out = player_movement(&init.speed, &init.on_move, &init.climber, &init.direction, &run);
    assert!(out.on_move && out.on_move_changed);
    assert_eq!(out.velocity_x, -init.speed.0);
}

/// The health bar shift per fifth of missing health.
#[test]
fn hud_shift_values() {
    let shift = |current: i32| calculate_player_hud_shift(&Health { current, max: 5 });
    assert_eq!(shift(5), 0);
    assert_eq!(shift(4), -22);
    assert_eq!(shift(3), -38);
    assert_eq!(shift(2), -55);
    assert_eq!(shift(1), -72);
    assert_eq!(shift(0), -100);
    // A fraction between the fixed steps falls back to no shift.
    assert_eq!(calculate_player_hud_shift(&Health { current: 1, max: 3 }), 0);
}

/// Volume steps stay on the zero-to-ten scale.
#[test]
fn volume_stays_on_scale() {
    assert_eq!(change_music_volume(0, -1), 0);
    assert_eq!(change_music_volume(10, 1), 10);
    assert_eq!(change_music_volume(5, 1), 6);
    assert_eq!(change_music_volume(5, -1), 4);
    assert_eq!(change_music_volume(5, 3), 5);
    let defaults = Settings::get_default_config();
    assert!(defaults.audio.state);
    assert_eq!(defaults.audio.volume, 5);
}

/// Entering and leaving the game drives the background music machine.
#[test]
fn background_music_machine() {
    let settings = Settings::get_default_config();
    let mut audio = load_audio(&settings);
    assert_eq!(audio.bg_state, BackgroundMusicState::Stopped);

    let (cmd, next) = start_bg_music(&audio);
    assert_eq!(cmd, AudioCommand::PlayLooped);
    assert_eq!(next, BackgroundMusicState::Playing);
    audio.bg_state = next;

    let (cmd, next) = start_bg_music(&audio);
    assert_eq!(cmd, AudioCommand::Keep);
    audio.bg_state = next;

    let (cmd, next) = stop_bg_music(&audio);
    assert_eq!(cmd, AudioCommand::Pause);
    assert_eq!(next, BackgroundMusicState::Paused);
    audio.bg_state = next;

    let (cmd, _) = start_bg_music(&audio);
    assert_eq!(cmd, AudioCommand::Resume);

    let muted = AudioState { state: false, ..audio };
    let (cmd, _) = start_bg_music(&muted);
    assert_eq!(cmd, AudioCommand::Stop);

    // Changes flow back into the settings.
    let mut settings = settings;
    let changed = AudioState { state: false, volume: 2, bg_state: BackgroundMusicState::Stopped };
    sync_audio_state_and_settings(&changed, &mut settings);
    assert!(!settings.audio.state);
    assert_eq!(settings.audio.volume, 2);
}

/// Enemy tags parse into kinds; an unknown tag is a typed error.
#[test]
fn enemy_tag_parsing() {
    assert_eq!(EnemyType::parse("Durt").unwrap(), EnemyType::Durt);
    assert_eq!(EnemyType::parse("LongHair").unwrap(), EnemyType::LongHair);
    assert!(EnemyType::parse("Slime").is_err());
    assert_eq!(EnemyType::default(), EnemyType::Durt);
    let init = spawn_enemy();
    assert_eq!(init.health_current, 2);
    assert_eq!(init.direction, MovementDirection::Right);
}

/// Patrolling turns at both ends of the route and keeps its direction in
/// between.
#[test]
fn patrol_turnaround() {
    assert_eq!(advance_patrol(0, 3, MovementDirection::Left), (1, MovementDirection::Right));
    assert_eq!(advance_patrol(2, 3, MovementDirection::Right), (1, MovementDirection::Left));
    assert_eq!(advance_patrol(1, 3, MovementDirection::Right), (2, MovementDirection::Right));
    assert_eq!(advance_patrol(1, 3, MovementDirection::Left), (0, MovementDirection::Left));
}

/// Tutorial tags parse into kinds; entering marks the tutorial passed
/// and leaving despawns it.
#[test]
fn tutorial_parsing_and_contact() {
    assert_eq!(TutorialType::parse("Movement").unwrap(), TutorialType::Movement);
    assert_eq!(TutorialType::parse("Climbing").unwrap(), TutorialType::Climbing);
    assert!(TutorialType::parse("Swimming").is_err());
    assert_eq!(tutorial_interaction_detection(true), TutorialAction::MarkPassed);
    assert_eq!(tutorial_interaction_detection(false), TutorialAction::Despawn);
}

/// Tag comparison is an exact, character-for-character match.
#[test]
fn tag_comparison() {
    assert!(tag_matches("Movement", "Movement"));
    assert!(!tag_matches("Movement", "Movemen"));
    assert!(!tag_matches("Movement", "movement"));
    assert!(tag_matches("", ""));
}

fn sheet(items: usize) -> SpriteAssetInfo {
    SpriteAssetInfo { width: 32, height: 32, texture: 1, items }
}

/// A complete texture configuration builds the registry, the last entry
/// of a kind winning; a missing animation is a typed error.
#[test]
fn texture_registry_building() {
    let kinds = [
        SheetKind::Idle,
        SheetKind::Run,
        SheetKind::Climb,
        SheetKind::Hurt,
        SheetKind::Death,
        SheetKind::Jump,
        SheetKind::Attack,
        SheetKind::WallSlide,
    ];
    let mut entries: Vec<PlayerSpriteEntry> = kinds
        .iter()
        .enumerate()
        .map(|(i, &sprite_type)| PlayerSpriteEntry { sprite_type, info: sheet(i + 1) })
        .collect();
    let sprites = prepare_player_textures(&entries).unwrap();
    assert_eq!(sprites.idle.items, 1);
    assert_eq!(sprites.wall_slide.items, 8);
    assert_eq!(sprites.sheet_for(SheetKind::Attack).items, 7);

    // A later entry overrides an earlier one of the same kind.
    entries.push(PlayerSpriteEntry { sprite_type: SheetKind::Idle, info: sheet(24) });
    let sprites = prepare_player_textures(&entries).unwrap();
    assert_eq!(sprites.idle.items, 24);

    // Losing one animation is rejected.
    let incomplete: Vec<PlayerSpriteEntry> =
        entries.iter().copied().filter(|e| e.sprite_type != SheetKind::Death).collect();
    assert!(prepare_player_textures(&incomplete).is_err());

    let enemies = vec![
        EnemySpriteEntry { sprite_type: EnemySpriteKind::Gray, info: sheet(4) },
        EnemySpriteEntry { sprite_type: EnemySpriteKind::Long, info: sheet(6) },
    ];
    let es = prepare_enemies_textures(&enemies).unwrap();
    assert_eq!(es.gray.items, 4);
    assert!(prepare_enemies_textures(&enemies[..1].to_vec()).is_err());

    let tutorials =
        vec![TutorialSpriteEntry { sprite_type: TutorialSpriteKind::Movement, texture: 9 }];
    assert_eq!(prepare_tutorial_textures(&tutorials).unwrap().movement, 9);
    assert!(prepare_tutorial_textures(&Vec::new()).is_err());

    let gt = GameTextures::new(&entries, &enemies, &tutorials).unwrap();
    assert_eq!(gt.player.idle.items, 24);
    assert_eq!(gt.tutorials.movement, 9);
    assert!(GameTextures::new(&incomplete, &enemies, &tutorials).is_err());
}

/// The escape key pauses a running game and resumes a paused one, and
/// the state change freezes or thaws physics.
#[test]
fn pause_and_resume() {
    assert_eq!(
        keyboard_state_changer(true, ApplicationState::Game),
        Some(PauseOrResume::Pause)
    );
    assert_eq!(
        keyboard_state_changer(true, ApplicationState::Menu(ApplicationStateMenu::Main)),
        Some(PauseOrResume::Resume)
    );
    assert_eq!(keyboard_state_changer(false, ApplicationState::Game), None);

    let change = change_game_state(true, false, false);
    assert_eq!(change.next_state, Some(ApplicationState::Menu(ApplicationStateMenu::Main)));
    assert_eq!(change.physics_active, Some(false));
    let change = change_game_state(false, true, false);
    assert_eq!(change.next_state, Some(ApplicationState::Game));
    assert_eq!(change.physics_active, Some(true));
    let change = change_game_state(false, false, true);
    assert_eq!(change.next_state, None);
    assert!(change.exit);
}
