//! The damage of an attack.
//!
//! The rules are stated in fractions: a power such as one and a half times
//! the strength, a reduction of the defense and a three-hundredth of the
//! defense for each point of power, a fifth of that for magic. Here every
//! quantity is kept as a whole number over a fixed denominator, so that
//! the result is exact, and it is rounded once at the end, halves away
//! from zero.

use crate::attack::{EnemyAttack, EnemyAttackType, PlayerAttack, PlayerAttackType};
use crate::combatant::{Enemy, Player};
use crate::element::{affinity, element_modifier, Element};
use crate::stats::{clamp_between, Stats};
use vstd::prelude::*;

verus! {

/// The denominator of `player_damage_num`.
pub const PLAYER_DAMAGE_DEN: i128 = 30000;

/// The denominator of `enemy_damage_num`.
pub const ENEMY_DAMAGE_DEN: i128 = 150000;

/// The whole number nearest to `num / den`; a fraction of exactly one half
/// goes away from zero.
pub open spec fn round_half_away(num: int, den: int) -> int
    recommends
        den > 0,
{
    if num >= 0 {
        (2 * num + den) / (2 * den)
    } else {
        -((den - 2 * num) / (2 * den))
    }
}

/// `x` held within the range of `i32`.
pub open spec fn clamp_i32(x: int) -> int {
    clamp_between(x, i32::MIN as int, i32::MAX as int)
}

/// The power of a player's attack before any affinity, in tenths.
///
/// A limit break has 40, 80 or 120 and one and a half, two or two and a
/// half times the strength, by tier. Magic has 5, 15 or 45 and eight
/// tenths, one or twelve tenths of the wisdom. A standard attack has one
/// and a half times the strength. A tier other than 2 or 3 counts as 1.
pub open spec fn player_power_tenths(
    attack_type: Option<PlayerAttackType>,
    tier: u8,
    strength: int,
    wisdom: int,
) -> int {
    match attack_type {
        Some(PlayerAttackType::Limit) => if tier == 3 {
            1200 + 25 * strength
        } else if tier == 2 {
            800 + 20 * strength
        } else {
            400 + 15 * strength
        },
        Some(PlayerAttackType::Magic) => if tier == 3 {
            450 + 12 * wisdom
        } else if tier == 2 {
            150 + 10 * wisdom
        } else {
            50 + 8 * wisdom
        },
        None => 15 * strength,
    }
}

/// How much of the reduction counts, in fifths: magic passes four fifths
/// of the defense by.
pub open spec fn reduction_fifths(magic: bool) -> int {
    if magic {
        1
    } else {
        5
    }
}

/// The damage of a player's attack before rounding, as a number of
/// thirty-thousandths.
///
/// With `p` the power in twentieths (tenths times twice the affinity), the
/// power is `p / 20` and the reduction `defense * (1 + p / 6000)`, of which
/// `k` fifths count. Their difference over the common denominator 30000 is
/// what is given here.
pub open spec fn player_damage_num(
    attack: PlayerAttack,
    player: Stats,
    enemy: Stats,
    enemy_element: Option<Element>,
) -> int {
    let p = player_power_tenths(
        attack.attack_type,
        attack.tier,
        player.strength as int,
        player.wisdom as int,
    ) * affinity(attack.element, enemy_element).halves();
    1500 * p - reduction_fifths(attack.is_magic()) * enemy.defense * (6000 + p)
}

/// The damage of a player's attack: power less reduction, rounded. It may
/// be negative, and then heals the enemy.
pub open spec fn player_attack_damage(
    attack: PlayerAttack,
    player: Stats,
    enemy: Stats,
    enemy_element: Option<Element>,
) -> int {
    clamp_i32(
        round_half_away(
            player_damage_num(attack, player, enemy, enemy_element),
            PLAYER_DAMAGE_DEN as int,
        ),
    )
}

/// The stat an enemy's attack builds on: the enemy's wisdom for magic, the
/// player's highest hit points for a percentile attack, the enemy's
/// strength otherwise.
pub open spec fn enemy_base_stat(
    attack_type: Option<EnemyAttackType>,
    enemy: Stats,
    player: Stats,
) -> int {
    match attack_type {
        Some(EnemyAttackType::Magic) => enemy.wisdom as int,
        Some(EnemyAttackType::Percentile) => player.hp_max as int,
        None => enemy.strength as int,
    }
}

/// The damage of an enemy's attack before rounding, as a number of
/// hundred-and-fifty-thousandths.
///
/// With `q` the power in hundredths, the power is `q / 100` and the
/// reduction `defense * (1 + q / 30000)`, of which `k` fifths count, twice
/// that where the player blocks.
pub open spec fn enemy_damage_num(
    attack: EnemyAttack,
    enemy: Stats,
    player: Stats,
    player_block: bool,
) -> int {
    let q = attack.damage_modifier * enemy_base_stat(attack.attack_type, enemy, player);
    let k = reduction_fifths(attack.is_magic()) * (if player_block {
        2int
    } else {
        1int
    });
    1500 * q - k * player.defense * (30000 + q)
}

/// The damage of an enemy's attack: power less reduction, rounded, and
/// never below zero.
pub open spec fn enemy_attack_damage(
    attack: EnemyAttack,
    enemy: Stats,
    player: Stats,
    player_block: bool,
) -> int {
    let rounded = clamp_i32(
        round_half_away(
            enemy_damage_num(attack, enemy, player, player_block),
            ENEMY_DAMAGE_DEN as int,
        ),
    );
    if rounded < 0 {
        0
    } else {
        rounded
    }
}

/// Rounds `num / den` to the nearest whole number and holds the result
/// within the range of `i32`.
fn rounded_to_i32(num: i128, den: i128) -> (r: i32)
    requires
        0 < den <= 1_000_000,
        -1_000_000_000_000_000_000_000_000_000_000_000 <= num
            <= 1_000_000_000_000_000_000_000_000_000_000_000,
    ensures
        r == clamp_i32(round_half_away(num as int, den as int)),
{
    let magnitude: i128 = if num >= 0 {
        (2 * num + den) / (2 * den)
    } else {
        (den - 2 * num) / (2 * den)
    };
    let rounded: i128 = if num >= 0 {
        magnitude
    } else {
        -magnitude
    };
    if rounded < i32::MIN as i128 {
        i32::MIN
    } else if rounded > i32::MAX as i128 {
        i32::MAX
    } else {
        rounded as i32
    }
}

/// The power of a player's attack before any affinity, in tenths.
fn power_tenths(attack: &PlayerAttack, stats: &Stats) -> (r: i64)
    ensures
        r == player_power_tenths(
            attack.attack_type,
            attack.tier,
            stats.strength as int,
            stats.wisdom as int,
        ),
        -60_000_000_000 <= r <= 60_000_000_000,
{
    let strength: i64 = stats.strength as i64;
    let wisdom: i64 = stats.wisdom as i64;
    match attack.attack_type {
        Some(PlayerAttackType::Limit) => if attack.tier == 3 {
            1200 + 25 * strength
        } else if attack.tier == 2 {
            800 + 20 * strength
        } else {
            400 + 15 * strength
        },
        Some(PlayerAttackType::Magic) => if attack.tier == 3 {
            450 + 12 * wisdom
        } else if attack.tier == 2 {
            150 + 10 * wisdom
        } else {
            50 + 8 * wisdom
        },
        None => 15 * strength,
    }
}

/// The damage of the player's `attack` on `enemy`. A negative result heals
/// the enemy.
pub fn calculate_player_attack_damage(attack: &PlayerAttack, player: &Player, enemy: &Enemy) -> (r:
    i32)
    ensures
        r == player_attack_damage(*attack, player.stats, enemy.stats, enemy.enemy_stats.element),
{
    let tenths: i64 = power_tenths(attack, &player.stats);
    let affinity = element_modifier(&attack.element, &enemy.enemy_stats.element);
    let halves: i64 = affinity.doubled() as i64;
    assert(-240_000_000_000 <= tenths * halves <= 240_000_000_000) by (nonlinear_arith)
        requires
            -60_000_000_000 <= tenths <= 60_000_000_000,
            -2 <= halves <= 4,
    ;
    let p: i128 = (tenths * halves) as i128;
    let magic: bool = match attack.attack_type {
        Some(PlayerAttackType::Magic) => true,
        _ => false,
    };
    let k: i128 = if magic {
        1
    } else {
        5
    };
    let defense: i128 = enemy.stats.defense as i128;
    let span: i128 = 6000 + p;
    assert(-1_000_000_000_000_000_000_000 <= defense * span <= 1_000_000_000_000_000_000_000)
        by (nonlinear_arith)
        requires
            -0x8000_0000 <= defense <= 0x8000_0000,
            -300_000_000_000 <= span <= 300_000_000_000,
    ;
    let scaled: i128 = defense * span;
    assert(-5_000_000_000_000_000_000_000 <= k * scaled <= 5_000_000_000_000_000_000_000)
        by (nonlinear_arith)
        requires
            1 <= k <= 5,
            -1_000_000_000_000_000_000_000 <= scaled <= 1_000_000_000_000_000_000_000,
    ;
    let reduction: i128 = k * scaled;
    assert(k * (defense * span) == k * defense * span) by (nonlinear_arith);
    rounded_to_i32(1500 * p - reduction, PLAYER_DAMAGE_DEN)
}

/// The damage of the enemy's `attack` on the player, who may be blocking.
pub fn calculate_enemy_attack_damage(
    attack: &EnemyAttack,
    enemy: &Enemy,
    player: &Player,
    player_block: bool,
) -> (r: i32)
    ensures
        r == enemy_attack_damage(*attack, enemy.stats, player.stats, player_block),
        r >= 0,
{
    let base: i128 = match attack.attack_type {
        Some(EnemyAttackType::Magic) => enemy.stats.wisdom as i128,
        Some(EnemyAttackType::Percentile) => player.stats.hp_max as i128,
        None => enemy.stats.strength as i128,
    };
    let modifier: i128 = attack.damage_modifier as i128;
    assert(-0x4000_0000_0000_0000 <= modifier * base <= 0x4000_0000_0000_0000)
        by (nonlinear_arith)
        requires
            -0x8000_0000 <= modifier <= 0x8000_0000,
            -0x8000_0000 <= base <= 0x8000_0000,
    ;
    let q: i128 = modifier * base;
    let magic: bool = match attack.attack_type {
        Some(EnemyAttackType::Magic) => true,
        _ => false,
    };
    let fifths: i128 = if magic {
        1
    } else {
        5
    };
    let k: i128 = if player_block {
        fifths * 2
    } else {
        fifths
    };
    let defense: i128 = player.stats.defense as i128;
    let span: i128 = 30000 + q;
    assert(-10_000_000_000_000_000_000_000_000_000 <= defense * span
        <= 10_000_000_000_000_000_000_000_000_000) by (nonlinear_arith)
        requires
            -0x8000_0000 <= defense <= 0x8000_0000,
            -0x4000_0000_0001_0000 <= span <= 0x4000_0000_0001_0000,
    ;
    let scaled: i128 = defense * span;
    assert(-100_000_000_000_000_000_000_000_000_000 <= k * scaled
        <= 100_000_000_000_000_000_000_000_000_000) by (nonlinear_arith)
        requires
            1 <= k <= 10,
            -10_000_000_000_000_000_000_000_000_000 <= scaled
                <= 10_000_000_000_000_000_000_000_000_000,
    ;
    let reduction: i128 = k * scaled;
    assert(k * (defense * span) == k * defense * span) by (nonlinear_arith);
    let rounded: i32 = rounded_to_i32(1500 * q - reduction, ENEMY_DAMAGE_DEN);
    if rounded < 0 {
        0
    } else {
        rounded
    }
}

/// An attack of the enemy's own element heals the enemy: where the power
/// is at least one half and the defense is neither negative nor so high
/// that the reduction turns round, the damage is negative.
pub proof fn lemma_absorbed_attack_heals(
    attack: PlayerAttack,
    player: Stats,
    enemy: Stats,
    element: Element,
)
    requires
        attack.element == Some(element),
        player_power_tenths(
            attack.attack_type,
            attack.tier,
            player.strength as int,
            player.wisdom as int,
        ) >= 5,
        0 <= enemy.defense,
        reduction_fifths(attack.is_magic()) * enemy.defense < 1500,
    ensures
        player_attack_damage(attack, player, enemy, Some(element)) < 0,
{
    let t = player_power_tenths(
        attack.attack_type,
        attack.tier,
        player.strength as int,
        player.wisdom as int,
    );
    let kd = reduction_fifths(attack.is_magic()) * enemy.defense;
    let num = player_damage_num(attack, player, enemy, Some(element));
    assert(affinity(Some(element), Some(element)).halves() == -2);
    assert(num == 1500 * (t * -2) - kd * (6000 + t * -2)) by (nonlinear_arith)
        requires
            num == 1500 * (t * -2) - reduction_fifths(attack.is_magic()) * enemy.defense * (6000
                + t * -2),
            kd == reduction_fifths(attack.is_magic()) * enemy.defense,
    ;
    assert(num <= -15000) by (nonlinear_arith)
        requires
            num == 1500 * (t * -2) - kd * (6000 + t * -2),
            t >= 5,
            0 <= kd < 1500,
    ;
    assert((30000 - 2 * num) / 60000 >= 1) by (nonlinear_arith)
        requires
            num <= -15000,
    ;
}

} // verus!
