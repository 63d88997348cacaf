//! The sprite sheet registry: which texture sheet each animation plays
//! and how many frames it holds.
//!
//! The host deserializes the texture configuration and hands over plain
//! entry lists; building the registry checks once, at load time, that
//! every animation is mapped, and reports a typed error otherwise.  When
//! one kind appears twice, the last entry wins, as a later configuration
//! line overrides an earlier one.

use vstd::prelude::*;

use crate::player::SheetKind;

verus! {

/// One sprite sheet: the cell size, the texture it lives in, and how
/// many frames it holds.
#[derive(Debug, Clone, Copy, Eq, PartialEq, Structural)]
pub struct SpriteAssetInfo {
    /// Width of one sprite cell, in pixels.
    pub width: u32,
    /// Height of one sprite cell, in pixels.
    pub height: u32,
    /// The texture atlas this sheet was loaded into.
    pub texture: u64,
    /// Number of frames in the sheet.
    pub items: usize,
}

/// One line of the player texture configuration.
#[derive(Debug, Clone, Copy, Eq, PartialEq, Structural)]
pub struct PlayerSpriteEntry {
    /// Which animation the sheet belongs to.
    pub sprite_type: SheetKind,
    /// The sheet itself.
    pub info: SpriteAssetInfo,
}

/// The player's sheets, one per animation.
#[derive(Debug, Clone, Copy, Eq, PartialEq, Structural)]
pub struct PlayerSprites {
    pub idle: SpriteAssetInfo,
    pub run: SpriteAssetInfo,
    pub climb: SpriteAssetInfo,
    pub hurt: SpriteAssetInfo,
    pub death: SpriteAssetInfo,
    pub jump: SpriteAssetInfo,
    pub attack: SpriteAssetInfo,
    pub wall_slide: SpriteAssetInfo,
}

impl PlayerSprites {
    /// The sheet an animation plays.
    pub open spec fn sheet_for_spec(self, kind: SheetKind) -> SpriteAssetInfo {
        match kind {
            SheetKind::Idle => self.idle,
            SheetKind::Run => self.run,
            SheetKind::Climb => self.climb,
            SheetKind::Hurt => self.hurt,
            SheetKind::Death => self.death,
            SheetKind::Jump => self.jump,
            SheetKind::Attack => self.attack,
            SheetKind::WallSlide => self.wall_slide,
        }
    }

    /// The sheet an animation plays.
    pub fn sheet_for(&self, kind: SheetKind) -> (r: &SpriteAssetInfo)
        ensures
            *r == self.sheet_for_spec(kind),
    {
        match kind {
            SheetKind::Idle => &self.idle,
            SheetKind::Run => &self.run,
            SheetKind::Climb => &self.climb,
            SheetKind::Hurt => &self.hurt,
            SheetKind::Death => &self.death,
            SheetKind::Jump => &self.jump,
            SheetKind::Attack => &self.attack,
            SheetKind::WallSlide => &self.wall_slide,
        }
    }
}

/// A kind of enemy sheet.
#[derive(Debug, Clone, Copy, Eq, PartialEq, Structural)]
pub enum EnemySpriteKind {
    Gray,
    Long,
}

/// One line of the enemy texture configuration.
#[derive(Debug, Clone, Copy, Eq, PartialEq, Structural)]
pub struct EnemySpriteEntry {
    pub sprite_type: EnemySpriteKind,
    pub info: SpriteAssetInfo,
}

/// The enemies' sheets.
#[derive(Debug, Clone, Copy, Eq, PartialEq, Structural)]
pub struct EnemiesSprites {
    pub gray: SpriteAssetInfo,
    pub long: SpriteAssetInfo,
}

/// A kind of tutorial image.
#[derive(Debug, Clone, Copy, Eq, PartialEq, Structural)]
pub enum TutorialSpriteKind {
    Movement,
}

/// One line of the tutorial texture configuration.
#[derive(Debug, Clone, Copy, Eq, PartialEq, Structural)]
pub struct TutorialSpriteEntry {
    pub sprite_type: TutorialSpriteKind,
    /// The image handle.
    pub texture: u64,
}

/// The tutorial images.
#[derive(Debug, Clone, Copy, Eq, PartialEq, Structural)]
pub struct TutorialSprites {
    pub movement: u64,
}

/// The configuration leaves at least one animation without a sheet.
#[derive(Debug, Clone, Copy, Eq, PartialEq, Structural)]
pub struct MissingAnimation;

/// Everything the game draws with.
#[derive(Debug, Clone, Copy, Eq, PartialEq, Structural)]
pub struct GameTextures {
    pub player: PlayerSprites,
    pub enemies: EnemiesSprites,
    pub tutorials: TutorialSprites,
}

/// The last sheet configured for a player animation, if any.
pub open spec fn last_player_info(entries: Seq<PlayerSpriteEntry>, k: SheetKind) -> Option<
    SpriteAssetInfo,
>
    decreases entries.len(),
{
    if entries.len() == 0 {
        None
    } else if entries.last().sprite_type == k {
        Some(entries.last().info)
    } else {
        last_player_info(entries.drop_last(), k)
    }
}

/// The last sheet configured for an enemy kind, if any.
pub open spec fn last_enemy_info(entries: Seq<EnemySpriteEntry>, k: EnemySpriteKind) -> Option<
    SpriteAssetInfo,
>
    decreases entries.len(),
{
    if entries.len() == 0 {
        None
    } else if entries.last().sprite_type == k {
        Some(entries.last().info)
    } else {
        last_enemy_info(entries.drop_last(), k)
    }
}

/// The last image configured for a tutorial kind, if any.
pub open spec fn last_tutorial_texture(
    entries: Seq<TutorialSpriteEntry>,
    k: TutorialSpriteKind,
) -> Option<u64>
    decreases entries.len(),
{
    if entries.len() == 0 {
        None
    } else if entries.last().sprite_type == k {
        Some(entries.last().texture)
    } else {
        last_tutorial_texture(entries.drop_last(), k)
    }
}

/// Every player animation has a sheet.
pub open spec fn player_entries_complete(entries: Seq<PlayerSpriteEntry>) -> bool {
    &&& last_player_info(entries, SheetKind::Idle) is Some
    &&& last_player_info(entries, SheetKind::Run) is Some
    &&& last_player_info(entries, SheetKind::Climb) is Some
    &&& last_player_info(entries, SheetKind::Hurt) is Some
    &&& last_player_info(entries, SheetKind::Death) is Some
    &&& last_player_info(entries, SheetKind::Jump) is Some
    &&& last_player_info(entries, SheetKind::Attack) is Some
    &&& last_player_info(entries, SheetKind::WallSlide) is Some
}

/// Both enemy kinds have a sheet.
pub open spec fn enemy_entries_complete(entries: Seq<EnemySpriteEntry>) -> bool {
    &&& last_enemy_info(entries, EnemySpriteKind::Gray) is Some
    &&& last_enemy_info(entries, EnemySpriteKind::Long) is Some
}

/// The tutorial image is present.
pub open spec fn tutorial_entries_complete(entries: Seq<TutorialSpriteEntry>) -> bool {
    last_tutorial_texture(entries, TutorialSpriteKind::Movement) is Some
}

/// Builds the player's sheet registry from the configuration entries.
/// Succeeds if and only if every animation is mapped, with each field
/// holding the last entry of its kind; otherwise reports the missing
/// mapping as a typed error.
pub fn prepare_player_textures(entries: &Vec<PlayerSpriteEntry>) -> (r: Result<
    PlayerSprites,
    MissingAnimation,
>)
    ensures
        r is Ok <==> player_entries_complete(entries@),
        r matches Ok(ps) ==> Some(ps.idle) == last_player_info(entries@, SheetKind::Idle)
            && Some(ps.run) == last_player_info(entries@, SheetKind::Run) && Some(ps.climb)
            == last_player_info(entries@, SheetKind::Climb) && Some(ps.hurt) == last_player_info(
            entries@,
            SheetKind::Hurt,
        ) && Some(ps.death) == last_player_info(entries@, SheetKind::Death) && Some(ps.jump)
            == last_player_info(entries@, SheetKind::Jump) && Some(ps.attack) == last_player_info(
            entries@,
            SheetKind::Attack,
        ) && Some(ps.wall_slide) == last_player_info(entries@, SheetKind::WallSlide),
{
    let mut idle: Option<SpriteAssetInfo> = None;
    let mut run: Option<SpriteAssetInfo> = None;
    let mut climb: Option<SpriteAssetInfo> = None;
    let mut hurt: Option<SpriteAssetInfo> = None;
    let mut death: Option<SpriteAssetInfo> = None;
    let mut jump: Option<SpriteAssetInfo> = None;
    let mut attack: Option<SpriteAssetInfo> = None;
    let mut wall_slide: Option<SpriteAssetInfo> = None;
    let mut i: usize = 0;
    proof {
        assert(entries@.take(0).len() == 0);
    }
    while i < entries.len()
        invariant
            i <= entries@.len(),
            idle == last_player_info(entries@.take(i as int), SheetKind::Idle),
            run == last_player_info(entries@.take(i as int), SheetKind::Run),
            climb == last_player_info(entries@.take(i as int), SheetKind::Climb),
            hurt == last_player_info(entries@.take(i as int), SheetKind::Hurt),
            death == last_player_info(entries@.take(i as int), SheetKind::Death),
            jump == last_player_info(entries@.take(i as int), SheetKind::Jump),
            attack == last_player_info(entries@.take(i as int), SheetKind::Attack),
            wall_slide == last_player_info(entries@.take(i as int), SheetKind::WallSlide),
        decreases entries@.len() - i,
    {
        let e = entries[i];
        proof {
            assert(entries@.take(i as int + 1).drop_last() =~= entries@.take(i as int));
            assert(entries@.take(i as int + 1).last() == entries@[i as int]);
        }
        match e.sprite_type {
            SheetKind::Idle => {
                idle = Some(e.info);
            },
            SheetKind::Run => {
                run = Some(e.info);
            },
            SheetKind::Climb => {
                climb = Some(e.info);
            },
            SheetKind::Hurt => {
                hurt = Some(e.info);
            },
            SheetKind::Death => {
                death = Some(e.info);
            },
            SheetKind::Jump => {
                jump = Some(e.info);
            },
            SheetKind::Attack => {
                attack = Some(e.info);
            },
            SheetKind::WallSlide => {
                wall_slide = Some(e.info);
            },
        }
        i += 1;
    }
    proof {
        assert(entries@.take(entries@.len() as int) =~= entries@);
    }
    if idle.is_some() && run.is_some() && climb.is_some() && hurt.is_some() && death.is_some()
        && jump.is_some() && attack.is_some() && wall_slide.is_some() {
        Ok(
            PlayerSprites {
                idle: idle.unwrap(),
                run: run.unwrap(),
                climb: climb.unwrap(),
                hurt: hurt.unwrap(),
                death: death.unwrap(),
                jump: jump.unwrap(),
                attack: attack.unwrap(),
                wall_slide: wall_slide.unwrap(),
            },
        )
    } else {
        Err(MissingAnimation)
    }
}

/// Builds the enemies' sheet registry, with the same rules as the
/// player's.
pub fn prepare_enemies_textures(entries: &Vec<EnemySpriteEntry>) -> (r: Result<
    EnemiesSprites,
    MissingAnimation,
>)
    ensures
        r is Ok <==> enemy_entries_complete(entries@),
        r matches Ok(es) ==> Some(es.gray) == last_enemy_info(entries@, EnemySpriteKind::Gray)
            && Some(es.long) == last_enemy_info(entries@, EnemySpriteKind::Long),
{
    let mut gray: Option<SpriteAssetInfo> = None;
    let mut long: Option<SpriteAssetInfo> = None;
    let mut i: usize = 0;
    proof {
        assert(entries@.take(0).len() == 0);
    }
    while i < entries.len()
        invariant
            i <= entries@.len(),
            gray == last_enemy_info(entries@.take(i as int), EnemySpriteKind::Gray),
            long == last_enemy_info(entries@.take(i as int), EnemySpriteKind::Long),
        decreases entries@.len() - i,
    {
        let e = entries[i];
        proof {
            assert(entries@.take(i as int + 1).drop_last() =~= entries@.take(i as int));
            assert(entries@.take(i as int + 1).last() == entries@[i as int]);
        }
        match e.sprite_type {
            EnemySpriteKind::Gray => {
                gray = Some(e.info);
            },
            EnemySpriteKind::Long => {
                long = Some(e.info);
            },
        }
        i += 1;
    }
    proof {
        assert(entries@.take(entries@.len() as int) =~= entries@);
    }
    if gray.is_some() && long.is_some() {
        Ok(EnemiesSprites { gray: gray.unwrap(), long: long.unwrap() })
    } else {
        Err(MissingAnimation)
    }
}

/// Builds the tutorial image registry, with the same rules as the
/// player's.
pub fn prepare_tutorial_textures(entries: &Vec<TutorialSpriteEntry>) -> (r: Result<
    TutorialSprites,
    MissingAnimation,
>)
    ensures
        r is Ok <==> tutorial_entries_complete(entries@),
        r matches Ok(ts) ==> Some(ts.movement) == last_tutorial_texture(
            entries@,
            TutorialSpriteKind::Movement,
        ),
{
    let mut movement: Option<u64> = None;
    let mut i: usize = 0;
    proof {
        assert(entries@.take(0).len() == 0);
    }
    while i < entries.len()
        invariant
            i <= entries@.len(),
            movement == last_tutorial_texture(
                entries@.take(i as int),
                TutorialSpriteKind::Movement,
            ),
        decreases entries@.len() - i,
    {
        let e = entries[i];
        proof {
            assert(entries@.take(i as int + 1).drop_last() =~= entries@.take(i as int));
            assert(entries@.take(i as int + 1).last() == entries@[i as int]);
        }
        match e.sprite_type {
            TutorialSpriteKind::Movement => {
                movement = Some(e.texture);
            },
        }
        i += 1;
    }
    proof {
        assert(entries@.take(entries@.len() as int) =~= entries@);
    }
    if movement.is_some() {
        Ok(TutorialSprites { movement: movement.unwrap() })
    } else {
        Err(MissingAnimation)
    }
}

impl GameTextures {
    /// Builds the whole registry from the three configuration lists.
    /// Succeeds if and only if each list is complete.
    pub fn new(
        player_entries: &Vec<PlayerSpriteEntry>,
        enemy_entries: &Vec<EnemySpriteEntry>,
        tutorial_entries: &Vec<TutorialSpriteEntry>,
    ) -> (r: Result<GameTextures, MissingAnimation>)
        ensures
            r is Ok <==> (player_entries_complete(player_entries@) && enemy_entries_complete(
                enemy_entries@,
            ) && tutorial_entries_complete(tutorial_entries@)),
            r matches Ok(gt) ==> Some(gt.player.idle) == last_player_info(
                player_entries@,
                SheetKind::Idle,
            ) && Some(gt.player.run) == last_player_info(player_entries@, SheetKind::Run) && Some(
                gt.player.climb,
            ) == last_player_info(player_entries@, SheetKind::Climb) && Some(gt.player.hurt)
                == last_player_info(player_entries@, SheetKind::Hurt) && Some(gt.player.death)
                == last_player_info(player_entries@, SheetKind::Death) && Some(gt.player.jump)
                == last_player_info(player_entries@, SheetKind::Jump) && Some(gt.player.attack)
                == last_player_info(player_entries@, SheetKind::Attack) && Some(
                gt.player.wall_slide,
            ) == last_player_info(player_entries@, SheetKind::WallSlide) && Some(gt.enemies.gray)
                == last_enemy_info(enemy_entries@, EnemySpriteKind::Gray) && Some(gt.enemies.long)
                == last_enemy_info(enemy_entries@, EnemySpriteKind::Long) && Some(
                gt.tutorials.movement,
            ) == last_tutorial_texture(tutorial_entries@, TutorialSpriteKind::Movement),
    {
        let player = match prepare_player_textures(player_entries) {
            Ok(p) => p,
            Err(e) => {
                return Err(e);
            },
        };
        let enemies = match prepare_enemies_textures(enemy_entries) {
            Ok(e) => e,
            Err(e) => {
                return Err(e);
            },
        };
        let tutorials = match prepare_tutorial_textures(tutorial_entries) {
            Ok(t) => t,
            Err(e) => {
                return Err(e);
            },
        };
        Ok(GameTextures { player, enemies, tutorials })
    }
}

} // verus!
