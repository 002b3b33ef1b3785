use rapid_fantasy::{
    calculate_enemy_attack_damage, calculate_player_attack_damage, element_modifier, Affinity,
    Element, Enemy, EnemyAttack, EnemyAttackType, EnemyStats, Player, PlayerAttack,
    PlayerAttackInventory, PlayerAttackType, PlayerItemInventory, Stats,
};

fn player_with(strength: i32, wisdom: i32, defense: i32) -> Player {
    let mut stats = Stats::new();
    stats.strength = strength;
    stats.wisdom = wisdom;
    stats.defense = defense;
    Player {
        stats,
        limit: 0,
        attacks: PlayerAttackInventory::new(),
        magic_equipped: [None, None, None, None],
        limit_equipped: PlayerAttack::new(1, "Sonic Spike", Some(PlayerAttackType::Limit), None, 0, 1),
        items: PlayerItemInventory::new(),
    }
}

fn enemy_with(strength: i32, wisdom: i32, defense: i32, element: Option<Element>) -> Enemy {
    let mut stats = Stats::new();
    stats.strength = strength;
    stats.wisdom = wisdom;
    stats.defense = defense;
    Enemy {
        stats,
        enemy_stats: EnemyStats {
            id: 0,
            name: "Slime".to_string(),
            description: "I wonder if it's edible?".to_string(),
            element,
            next_phase: None,
        },
        attacks: vec![EnemyAttack::new("Bounce", 200, None, 0)],
        loot_table: vec![],
    }
}

#[test]
fn standard_attack_matches_the_formula() {
    let player = player_with(12, 12, 5);
    let enemy = enemy_with(8, 8, 5, None);
    let tackle = PlayerAttack::new(0, "Tackle", None, None, 0, 1);
    // power 18, reduction 5 + 5/300 * 18 = 5.3, damage round(12.7)
    assert_eq!(calculate_player_attack_damage(&tackle, &player, &enemy), 13);
}

#[test]
fn elemental_affinity_is_one_sided() {
    let fire_on_water = element_modifier(&Some(Element::Fire), &Some(Element::Water));
    let water_on_fire = element_modifier(&Some(Element::Water), &Some(Element::Fire));
    assert_eq!(fire_on_water, Affinity::Weak);
    assert_eq!(water_on_fire, Affinity::Strong);
    assert_eq!(fire_on_water.doubled() as f64 / 2.0, 0.5);
    assert_eq!(water_on_fire.doubled() as f64 / 2.0, 2.0);
    assert_ne!(fire_on_water, water_on_fire);
}

#[test]
fn affinity_table_is_complete() {
    let all = [
        Element::Fire,
        Element::Earth,
        Element::Electric,
        Element::Water,
        Element::Light,
        Element::Dark,
    ];
    let strong = [
        (Element::Water, Element::Fire),
        (Element::Fire, Element::Earth),
        (Element::Earth, Element::Electric),
        (Element::Electric, Element::Water),
        (Element::Dark, Element::Light),
        (Element::Light, Element::Dark),
    ];
    let weak = [
        (Element::Fire, Element::Water),
        (Element::Earth, Element::Fire),
        (Element::Electric, Element::Earth),
        (Element::Water, Element::Electric),
    ];
    for a in all {
        for b in all {
            let expected = if strong.contains(&(a, b)) {
                Affinity::Strong
            } else if weak.contains(&(a, b)) {
                Affinity::Weak
            } else if a == b {
                Affinity::Absorbed
            } else {
                Affinity::Neutral
            };
            assert_eq!(element_modifier(&Some(a), &Some(b)), expected, "{:?} on {:?}", a, b);
        }
        assert_eq!(element_modifier(&Some(a), &None), Affinity::Neutral);
        assert_eq!(element_modifier(&None, &Some(a)), Affinity::Neutral);
    }
    assert_eq!(element_modifier(&None, &None), Affinity::Neutral);
}

#[test]
fn multipliers_of_the_affinities() {
    assert_eq!(Affinity::Strong.doubled(), 4);
    assert_eq!(Affinity::Weak.doubled(), 1);
    assert_eq!(Affinity::Absorbed.doubled(), -2);
    assert_eq!(Affinity::Neutral.doubled(), 2);
}

#[test]
fn same_element_heals_the_enemy() {
    let fire_on_fire = element_modifier(&Some(Element::Fire), &Some(Element::Fire));
    assert_eq!(fire_on_fire, Affinity::Absorbed);
    assert_eq!(fire_on_fire.doubled() as f64 / 2.0, -1.0);
    let player = player_with(12, 12, 5);
    let enemy = enemy_with(8, 8, 5, Some(Element::Fire));
    let fire_ball =
        PlayerAttack::new(4, "Fire Ball", Some(PlayerAttackType::Magic), Some(Element::Fire), 10, 1);
    // power -(5 + 0.8 * 12) = -14.6, reduction 0.2 * (5 - 5/300 * 14.6) = 0.9513
    let damage = calculate_player_attack_damage(&fire_ball, &player, &enemy);
    assert_eq!(damage, -16);
    assert!(damage < 0);
}

#[test]
fn limit_breaks_by_tier() {
    let player = player_with(12, 12, 5);
    let enemy = enemy_with(8, 8, 0, None);
    for (tier, expected) in [(1u8, 58), (2, 104), (3, 150), (0, 58), (9, 58)] {
        let attack = PlayerAttack::new(1, "Limit", Some(PlayerAttackType::Limit), None, 0, tier);
        assert_eq!(calculate_player_attack_damage(&attack, &player, &enemy), expected);
    }
}

#[test]
fn magic_by_tier_passes_most_of_the_defense_by() {
    let player = player_with(12, 10, 5);
    let enemy = enemy_with(8, 8, 30, None);
    // tier 1: power 13, reduction 0.2 * (30 + 0.1 * 13) = 6.26 -> 6.74
    // tier 2: power 25, reduction 0.2 * (30 + 2.5) = 6.5 -> 18.5
    // tier 3: power 57, reduction 0.2 * (30 + 5.7) = 7.14 -> 49.86
    for (tier, expected) in [(1u8, 7), (2, 19), (3, 50)] {
        let attack = PlayerAttack::new(4, "Spell", Some(PlayerAttackType::Magic), None, 10, tier);
        assert_eq!(calculate_player_attack_damage(&attack, &player, &enemy), expected);
    }
}

#[test]
fn strong_and_weak_elements_scale_the_power() {
    let player = player_with(12, 10, 5);
    let water =
        PlayerAttack::new(5, "Bubble Beam", Some(PlayerAttackType::Magic), Some(Element::Water), 10, 1);
    // power 13 doubled: 26 - 0.2 * (10 + 10/300 * 26) = 26 - 2.1733
    let fire_enemy = enemy_with(8, 8, 10, Some(Element::Fire));
    assert_eq!(calculate_player_attack_damage(&water, &player, &fire_enemy), 24);
    // power 13 halved: 6.5 - 0.2 * (10 + 10/300 * 6.5) = 6.5 - 2.0433
    let electric_enemy = enemy_with(8, 8, 10, Some(Element::Electric));
    assert_eq!(calculate_player_attack_damage(&water, &player, &electric_enemy), 4);
}

#[test]
fn halves_round_away_from_zero() {
    let enemy = enemy_with(8, 8, 0, None);
    let tackle = PlayerAttack::new(0, "Tackle", None, None, 0, 1);
    assert_eq!(calculate_player_attack_damage(&tackle, &player_with(3, 0, 0), &enemy), 5);
    assert_eq!(calculate_player_attack_damage(&tackle, &player_with(-3, 0, 0), &enemy), -5);
    assert_eq!(calculate_player_attack_damage(&tackle, &player_with(0, 0, 0), &enemy), 0);
}

#[test]
fn player_damage_stays_within_the_integers() {
    let enemy = enemy_with(8, 8, i32::MIN, None);
    let limit = PlayerAttack::new(3, "Oblivion Strike", Some(PlayerAttackType::Limit), None, 0, 3);
    let player = player_with(i32::MAX, 0, 0);
    assert_eq!(calculate_player_attack_damage(&limit, &player, &enemy), i32::MAX);
    let enemy = enemy_with(8, 8, i32::MAX, None);
    assert_eq!(calculate_player_attack_damage(&limit, &player, &enemy), i32::MIN);
}

#[test]
fn enemy_physical_attack() {
    let player = player_with(12, 12, 5);
    let enemy = enemy_with(8, 8, 5, None);
    let bounce = EnemyAttack::new("Bounce", 200, None, 0);
    // power 16, reduction 5 + 5/300 * 16 = 5.2667
    assert_eq!(calculate_enemy_attack_damage(&bounce, &enemy, &player, false), 11);
    // blocked: reduction doubled, 16 - 10.5333
    assert_eq!(calculate_enemy_attack_damage(&bounce, &enemy, &player, true), 5);
}

#[test]
fn enemy_magic_attack_uses_wisdom() {
    let player = player_with(12, 12, 5);
    let enemy = enemy_with(8, 20, 5, None);
    let curse = EnemyAttack::new("Curse", 180, Some(EnemyAttackType::Magic), 5);
    // power 36, reduction 0.2 * (5 + 5/300 * 36) = 1.12
    assert_eq!(calculate_enemy_attack_damage(&curse, &enemy, &player, false), 35);
    // blocked: 36 - 2.24
    assert_eq!(calculate_enemy_attack_damage(&curse, &enemy, &player, true), 34);
}

#[test]
fn enemy_percentile_attack_uses_the_players_hit_points() {
    let mut player = player_with(12, 12, 5);
    player.stats.hp_max = 400;
    let enemy = enemy_with(8, 8, 5, None);
    let decree = EnemyAttack::new("Royal Decree", 50, Some(EnemyAttackType::Percentile), 30);
    // power 200, reduction 5 + 5/300 * 200 = 8.3333
    assert_eq!(calculate_enemy_attack_damage(&decree, &enemy, &player, false), 192);
}

#[test]
fn enemy_damage_is_never_negative() {
    let player = player_with(12, 12, 500);
    let enemy = enemy_with(8, 8, 5, None);
    let bounce = EnemyAttack::new("Bounce", 200, None, 0);
    assert_eq!(calculate_enemy_attack_damage(&bounce, &enemy, &player, false), 0);
    assert_eq!(calculate_enemy_attack_damage(&bounce, &enemy, &player, true), 0);
    let negative = EnemyAttack::new("Backfire", -300, None, 0);
    assert_eq!(calculate_enemy_attack_damage(&negative, &enemy, &player_with(1, 1, 0), false), 0);
}
