use rapid_fantasy::LootTable;

#[test]
fn loot_table_get_total_weight() {
    let loot_table = LootTable {
        no_drop_weight: 6,
        items: vec![(1, 7), (2, 8)],
    };
    assert_eq!(6 + 7 + 8, loot_table.get_total_weight());
}

#[test]
fn loot_table_get_no_item() {
    let loot_table = LootTable {
        no_drop_weight: 6,
        items: vec![],
    };
    assert_eq!(None, loot_table.get_item_id());
}

#[test]
fn loot_table_get_item() {
    let loot_table = LootTable {
        no_drop_weight: 0,
        items: vec![(32, 1)],
    };
    assert_eq!(Some(32), loot_table.get_item_id());
}

#[test]
fn pick_walks_the_stretches_in_order() {
    let table = LootTable::new(10, vec![(0, 9), (5, 6)]);
    assert_eq!(table.get_total_weight(), 25);
    assert_eq!(table.pick(0), None);
    assert_eq!(table.pick(9), None);
    assert_eq!(table.pick(10), Some(0));
    assert_eq!(table.pick(18), Some(0));
    assert_eq!(table.pick(19), Some(5));
    assert_eq!(table.pick(24), Some(5));
    assert_eq!(table.pick(25), None);
}

#[test]
fn pick_skips_items_without_weight() {
    let table = LootTable::new(0, vec![(7, 0), (8, 2), (9, 0), (10, 1)]);
    assert_eq!(table.pick(0), Some(8));
    assert_eq!(table.pick(1), Some(8));
    assert_eq!(table.pick(2), Some(10));
}

#[test]
fn table_without_weight_never_drops() {
    let table = LootTable::new(0, vec![(3, 0), (4, 0)]);
    assert_eq!(table.get_total_weight(), 0);
    for _ in 0..50 {
        assert_eq!(table.get_item_id(), None);
    }
    let empty = LootTable::new(0, vec![]);
    assert_eq!(empty.get_item_id(), None);
}

#[test]
fn sole_item_always_drops() {
    let table = LootTable::new(0, vec![(77, 3)]);
    for _ in 0..200 {
        assert_eq!(table.get_item_id(), Some(77));
    }
}

#[test]
fn no_items_never_drop_whatever_the_weight() {
    for weight in [0usize, 1, 6, 1000] {
        let table = LootTable::new(weight, vec![]);
        for _ in 0..20 {
            assert_eq!(table.get_item_id(), None);
        }
    }
}

#[test]
fn rolls_stay_among_the_weighted_items() {
    let table = LootTable::new(2, vec![(1, 3), (2, 0), (3, 5)]);
    let mut seen_none = false;
    let mut seen_one = false;
    let mut seen_three = false;
    for _ in 0..2000 {
        match table.get_item_id() {
            None => seen_none = true,
            Some(1) => seen_one = true,
            Some(3) => seen_three = true,
            other => panic!("a roll dropped {:?}", other),
        }
    }
    assert!(seen_none && seen_one && seen_three);
}

#[test]
fn well_formedness_is_about_the_sum() {
    assert!(LootTable::new(usize::MAX, vec![]).is_well_formed());
    assert!(LootTable::new(usize::MAX - 3, vec![(1, 1), (2, 2)]).is_well_formed());
    assert!(!LootTable::new(usize::MAX - 2, vec![(1, 1), (2, 2)]).is_well_formed());
}
