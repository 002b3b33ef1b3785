use rapid_fantasy::{Stats, MAX_LEVEL};

fn stats(hp: i32, hp_max: i32, mp: i32, mp_max: i32) -> Stats {
    let mut stats = Stats::new();
    stats.hp = hp;
    stats.hp_max = hp_max;
    stats.mp = mp;
    stats.mp_max = mp_max;
    stats
}

#[test]
fn a_new_player_has_the_starting_stats() {
    let stats = Stats::new();
    assert_eq!(
        stats,
        Stats {
            hp_max: 100,
            mp_max: 100,
            hp: 100,
            mp: 100,
            strength: 12,
            wisdom: 12,
            defense: 5,
            level: 1,
            experience: 0,
            gold: 0,
        }
    );
    assert!(stats.is_well_formed());
}

#[test]
fn damage_is_held_between_zero_and_the_maximum() {
    let mut s = stats(39, 39, 10, 10);
    s.take_damage(13);
    assert_eq!(s.hp, 26);
    s.take_damage(13);
    s.take_damage(13);
    assert_eq!(s.hp, 0);
    s.take_damage(1000);
    assert_eq!(s.hp, 0);
    s.take_damage(-10);
    assert_eq!(s.hp, 10);
    s.take_damage(-1000);
    assert_eq!(s.hp, 39);
    s.take_damage(i32::MIN);
    assert_eq!(s.hp, 39);
    s.take_damage(i32::MAX);
    assert_eq!(s.hp, 0);
    assert_eq!((s.mp, s.mp_max, s.hp_max), (10, 10, 39));
}

#[test]
fn restoring_stops_at_the_maximum() {
    let mut s = stats(70, 100, 95, 100);
    s.restore_hp(20);
    assert_eq!(s.hp, 90);
    s.restore_hp(20);
    assert_eq!(s.hp, 100);
    s.restore_hp(0);
    s.restore_hp(-5);
    assert_eq!(s.hp, 100);
    s.restore_mp(15);
    assert_eq!(s.mp, 100);
    s.mp = 1;
    s.restore_mp(i32::MAX);
    assert_eq!(s.mp, 100);
    s.mp = 1;
    s.restore_mp(-3);
    assert_eq!(s.mp, 1);
}

#[test]
fn spending_stops_at_zero() {
    let mut s = stats(100, 100, 50, 100);
    s.spend_mp(10);
    assert_eq!(s.mp, 40);
    s.spend_mp(75);
    assert_eq!(s.mp, 0);
    s.spend_mp(-30);
    assert_eq!(s.mp, 30);
    s.spend_mp(-300);
    assert_eq!(s.mp, 100);
    assert_eq!(s.hp, 100);
}

#[test]
fn every_change_keeps_the_bounds() {
    let mut s = stats(50, 80, 20, 60);
    let amounts = [0, 1, -1, 13, -13, 79, 80, 81, -200, 200, i32::MAX, i32::MIN];
    for (round, amount) in amounts.iter().cycle().take(200).enumerate() {
        match round % 4 {
            0 => s.take_damage(*amount),
            1 => s.restore_hp(*amount),
            2 => s.spend_mp(*amount),
            _ => s.restore_mp(*amount),
        }
        assert!(s.is_well_formed());
        assert!(0 <= s.hp && s.hp <= s.hp_max);
        assert!(0 <= s.mp && s.mp <= s.mp_max);
        assert_eq!((s.hp_max, s.mp_max), (80, 60));
    }
}

#[test]
fn thresholds_by_level() {
    assert_eq!(MAX_LEVEL, 5);
    assert_eq!(Stats::threshold(1), 1000);
    assert_eq!(Stats::threshold(2), 8000);
    assert_eq!(Stats::threshold(3), 27000);
    assert_eq!(Stats::threshold(4), 64000);
    assert_eq!(Stats::threshold(5), 1);
}

#[test]
fn experience_below_the_threshold_is_kept() {
    let mut s = Stats::new();
    assert!(s.can_gain_experience(999));
    assert!(!s.will_level_up(999));
    assert!(!s.gain_experience(999));
    assert_eq!(s.experience, 999);
    assert_eq!(s.level, 1);
    assert_eq!(s.hp_max, 100);
}

#[test]
fn level_threshold_carries_the_remainder() {
    let mut s = Stats::new();
    s.experience = 950;
    s.hp = 3;
    s.mp = 4;
    assert!(s.will_level_up(100));
    assert!(s.gain_experience(100));
    assert_eq!(
        s,
        Stats {
            hp_max: 200,
            mp_max: 250,
            hp: 200,
            mp: 250,
            strength: 22,
            wisdom: 22,
            defense: 5,
            level: 2,
            experience: 50,
            gold: 0,
        }
    );
}

#[test]
fn one_level_at_a_time() {
    let mut s = Stats::new();
    assert!(s.gain_experience(30000));
    assert_eq!(s.level, 2);
    assert_eq!(s.experience, 0);
    assert!(s.gain_experience(8000 + 7999));
    assert_eq!(s.level, 3);
    assert_eq!(s.experience, 7999);
    assert_eq!(s.hp_max, 100 + 100 + 150);
    assert_eq!(s.strength, 12 + 10 + 15);
    assert_eq!(s.wisdom, 12 + 10 + 15);
    assert_eq!(s.mp_max, 100 + (40 + 22 * 5) + (40 + 37 * 5));
    assert!(s.gain_experience(19001));
    assert_eq!(s.level, 4);
    assert_eq!(s.experience, 0);
    assert!(s.gain_experience(64000));
    assert_eq!(s.level, 5);
    assert_eq!(s.experience, 0);
}

#[test]
fn the_highest_level_pins_experience() {
    let mut s = Stats::new();
    s.level = 5;
    s.experience = 12345;
    assert!(!s.will_level_up(1000000));
    assert!(!s.gain_experience(1000000));
    assert_eq!(s.level, 5);
    assert_eq!(s.experience, 1);
    assert!(!s.gain_experience(0));
    assert_eq!(s.experience, 1);
}

#[test]
fn limits_of_the_integers_are_told() {
    let mut s = Stats::new();
    s.experience = i32::MAX;
    assert!(!s.can_gain_experience(1));
    assert!(s.can_gain_experience(0));
    s.experience = 0;
    s.level = 0;
    assert!(!s.can_gain_experience(10));
    s.level = 1;
    s.hp_max = i32::MAX - 99;
    assert!(s.can_gain_experience(999));
    assert!(!s.can_gain_experience(1000));
    s.hp_max = i32::MAX - 100;
    assert!(s.can_gain_experience(1000));
}

#[test]
fn shares_of_the_maximum() {
    let s = stats(50, 80, 20, 60);
    assert_eq!(s.hp_share(100), 62);
    assert_eq!(s.hp_share(256), 160);
    assert_eq!(s.hp_share(10000), 6250);
    assert_eq!(s.mp_share(100), 33);
    assert_eq!(s.mp_share(0), 0);
    let full = stats(39, 39, 10, 10);
    assert_eq!(full.hp_share(256), 256);
    assert_eq!(full.mp_share(100), 100);
    assert_eq!(full.hp_share(u32::MAX), u32::MAX as i64);
}

#[test]
fn shares_without_a_maximum_count_as_nothing() {
    assert_eq!(stats(0, 0, 0, 0).hp_share(100), 0);
    assert_eq!(stats(0, 0, 0, 0).mp_share(100), 0);
    assert_eq!(stats(5, 0, 5, -3).hp_share(100), 0);
    assert_eq!(stats(5, 0, 5, -3).mp_share(100), 0);
    assert_eq!(stats(-5, 10, -5, 10).hp_share(100), 0);
    assert_eq!(stats(-5, 10, -5, 10).mp_share(100), 0);
    assert_eq!(stats(0, 10, 0, 10).hp_share(100), 0);
}
