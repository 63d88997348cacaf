//! Combat decisions: who takes damage on contact, which impulses push
//! the fighters apart, and the attack flag.

use vstd::prelude::*;

use crate::common::Attacks;
use crate::common::Health;
use crate::player::Impulse;

verus! {

/// What a contact between the player and an enemy resolves to.
#[derive(Debug, Clone, Copy, Eq, PartialEq, Structural)]
pub struct CombatOutcome {
    /// The enemy hit the player from the side or above.
    pub player_is_hit: bool,
    /// Damage the enemy takes (the player landed on it).
    pub enemy_damage: i32,
    /// Knockback applied to the player.
    pub player_impulse: Impulse,
    /// Knockback applied to the enemy.
    pub enemy_impulse: Impulse,
}

/// Resolves a contact between the player and an enemy.  When the
/// player's lower edge is clearly above the enemy's upper edge, the
/// enemy takes one damage point (never below zero health); otherwise the
/// player is hit.  Both bodies are pushed apart, away from each other.
pub fn combat_interaction_detection(
    player_bottom: i32,
    enemy_top: i32,
    player_x: i32,
    enemy_x: i32,
    enemy_health: i32,
) -> (r: CombatOutcome)
    ensures
        r.player_is_hit == (player_bottom - enemy_top < -3),
        r.enemy_damage == (if !(player_bottom - enemy_top < -3) && enemy_health > 0 {
            1int
        } else {
            0int
        }),
        r.player_impulse.y == 30 && r.enemy_impulse.y == 30,
        player_x < enemy_x ==> r.player_impulse.x == -120 && r.enemy_impulse.x == 120,
        player_x >= enemy_x ==> r.player_impulse.x == 120 && r.enemy_impulse.x == -120,
{
    let landed_on_enemy = (player_bottom as i64) - (enemy_top as i64) >= -3;
    let player_is_hit = !landed_on_enemy;
    let enemy_damage: i32 = if landed_on_enemy && enemy_health > 0 {
        1
    } else {
        0
    };
    if player_x < enemy_x {
        CombatOutcome {
            player_is_hit,
            enemy_damage,
            player_impulse: Impulse { x: -120, y: 30 },
            enemy_impulse: Impulse { x: 120, y: 30 },
        }
    } else {
        CombatOutcome {
            player_is_hit,
            enemy_damage,
            player_impulse: Impulse { x: 120, y: 30 },
            enemy_impulse: Impulse { x: -120, y: 30 },
        }
    }
}

/// What a landed attack does to its target.
#[derive(Debug, Clone, Copy, Eq, PartialEq, Structural)]
pub struct AttackOutcome {
    /// Damage dealt to the target.
    pub damage: i32,
    /// Knockback applied to the target, away from the attacker.
    pub impulse: Impulse,
}

/// Resolves one attack contact: an attacker whose attack flag is raised
/// deals one damage point and knocks the target away from itself;
/// without the flag nothing happens.
pub fn attack_detection(attacks: bool, attacker_x: i32, target_x: i32) -> (r: Option<AttackOutcome>)
    ensures
        !attacks ==> r is None,
        attacks && attacker_x < target_x ==> r == Some(
            AttackOutcome { damage: 1i32, impulse: Impulse { x: 50i64, y: 30i64 } },
        ),
        attacks && attacker_x >= target_x ==> r == Some(
            AttackOutcome { damage: 1i32, impulse: Impulse { x: -50i64, y: 30i64 } },
        ),
{
    if attacks {
        if attacker_x < target_x {
            Some(AttackOutcome { damage: 1, impulse: Impulse { x: 50, y: 30 } })
        } else {
            Some(AttackOutcome { damage: 1, impulse: Impulse { x: -50, y: 30 } })
        }
    } else {
        None
    }
}

/// Applies incoming damage to the player: a living player loses the
/// damage amount, a dead one is left alone.  The maximum never changes.
pub fn player_receives_damage(health: &mut Health, damage: i32)
    requires
        damage >= 0,
        old(health).current - damage >= i32::MIN,
    ensures
        final(health).max == old(health).max,
        old(health).current > 0 ==> final(health).current == old(health).current - damage,
        old(health).current <= 0 ==> final(health).current == old(health).current,
{
    if health.current > 0 {
        health.current = health.current - damage;
    }
}

/// The attack key raises the attack flag; pressing it while already
/// attacking is silently ignored, and without the key press the flag
/// stays as it is.
pub fn player_attacks(pressed: bool, attacks: &mut Attacks)
    ensures
        pressed && old(attacks).0 ==> final(attacks).0,
        pressed && !old(attacks).0 ==> final(attacks).0,
        !pressed ==> final(attacks).0 == old(attacks).0,
{
    if pressed && !attacks.0 {
        attacks.0 = true;
    }
}

} // verus!
