use rapid_fantasy::{
    cheapest_attack, pick_enemy_attack, raise_limit, roll_loot, EnemyAttack, EnemyAttackType,
    LootTable,
};

fn attacks(costs: &[i32]) -> Vec<EnemyAttack> {
    costs
        .iter()
        .map(|cost| EnemyAttack::new("Attack", 200, Some(EnemyAttackType::Magic), *cost))
        .collect()
}

#[test]
fn limit_rises_with_the_share_of_hit_points_lost() {
    assert_eq!(raise_limit(0, 11, 100), 22);
    assert_eq!(raise_limit(0, 1, 3), 66);
    assert_eq!(raise_limit(10, 0, 100), 10);
    assert_eq!(raise_limit(99, 1, 200), 100);
    assert_eq!(raise_limit(98, 1, 201), 98);
    assert_eq!(raise_limit(50, 25, 100), 100);
    assert_eq!(raise_limit(50, 26, 100), 100);
    assert_eq!(raise_limit(0, i32::MAX, 1), 100);
    assert_eq!(raise_limit(100, 500, 100), 100);
}

#[test]
fn limit_stays_without_hit_points() {
    assert_eq!(raise_limit(40, 30, 0), 40);
    assert_eq!(raise_limit(40, 30, -5), 40);
}

#[test]
fn cheapest_is_the_first_of_the_least() {
    assert_eq!(cheapest_attack(&attacks(&[5])), 0);
    assert_eq!(cheapest_attack(&attacks(&[5, 3, 9, 3])), 1);
    assert_eq!(cheapest_attack(&attacks(&[0, 0, 0])), 0);
    assert_eq!(cheapest_attack(&attacks(&[9, 8, 7, -1])), 3);
}

#[test]
fn enemy_mp_gated_attack_selection() {
    let list = attacks(&[0, 999]);
    for _ in 0..2000 {
        assert_eq!(pick_enemy_attack(&list, 5), 0);
    }
}

#[test]
fn picks_are_always_affordable_where_one_is() {
    let list = attacks(&[12, 0, 7, 5, 30]);
    let mut seen = [false; 5];
    for _ in 0..3000 {
        let picked = pick_enemy_attack(&list, 7);
        assert!(list[picked].mp_use <= 7);
        seen[picked] = true;
    }
    assert_eq!(seen, [false, true, true, true, false]);
}

#[test]
fn without_an_affordable_attack_the_cheapest_is_used() {
    let list = attacks(&[12, 8, 30, 8]);
    for _ in 0..100 {
        assert_eq!(pick_enemy_attack(&list, 7), 1);
    }
}

#[test]
fn every_table_is_rolled_once() {
    let tables = vec![
        LootTable::new(0, vec![(4, 2)]),
        LootTable::new(5, vec![]),
        LootTable::new(0, vec![]),
        LootTable::new(0, vec![(9, 1)]),
        LootTable::new(1, vec![(1, 1)]),
    ];
    for _ in 0..200 {
        let outcomes = roll_loot(&tables);
        assert_eq!(outcomes.len(), 5);
        assert_eq!(outcomes[0], Some(4));
        assert_eq!(outcomes[1], None);
        assert_eq!(outcomes[2], None);
        assert_eq!(outcomes[3], Some(9));
        assert!(outcomes[4] == None || outcomes[4] == Some(1));
    }
    assert!(roll_loot(&vec![]).is_empty());
}
