use rapid_fantasy::{
    enemy_table, item_table, player_attack_table, spawn_enemy, BattleError, Element,
    EnemyAttackType, ItemStats, ItemType, Player, PlayerAttack, PlayerAttackInventory,
    PlayerAttackTable, PlayerAttackType, Stats, Table, ATTACK_COUNT, ENEMY_COUNT, ITEM_COUNT,
};

#[test]
fn attack_table_lists_every_attack() {
    let table = player_attack_table();
    let mut ids = table.ids();
    ids.sort();
    assert_eq!(ids, (0..ATTACK_COUNT).collect::<Vec<usize>>());
    assert_eq!(ATTACK_COUNT, 22);
    let tackle = table.get(0).unwrap();
    assert_eq!(*tackle, PlayerAttack::new(0, "Tackle", None, None, 0, 1));
    let names = ["Sonic Spike", "Sword Dance", "Oblivion Strike"];
    for id in 1..4usize {
        let limit = table.get(id).unwrap();
        assert_eq!(
            *limit,
            PlayerAttack::new(id, names[id - 1], Some(PlayerAttackType::Limit), None, 0, id as u8)
        );
    }
    let spells = [
        ("Fire Ball", Element::Fire),
        ("Bubble Beam", Element::Water),
        ("Lightning Bolt", Element::Electric),
        ("Stone Edge", Element::Earth),
        ("Holy Light", Element::Light),
        ("Dark Spear", Element::Dark),
        ("Red Blaze", Element::Fire),
        ("Waterfall", Element::Water),
        ("Electrocute", Element::Electric),
        ("Landslide", Element::Earth),
        ("Piercing Light", Element::Light),
        ("Pitch Black", Element::Dark),
        ("Inferno", Element::Fire),
        ("Tsunami", Element::Water),
        ("Plasma", Element::Electric),
        ("Earthquake", Element::Earth),
        ("Genesis", Element::Light),
        ("Blackhole", Element::Dark),
    ];
    for (k, (name, element)) in spells.iter().enumerate() {
        let id = 4 + k;
        let tier = (k / 6 + 1) as u8;
        let cost = [10, 40, 75][k / 6];
        assert_eq!(
            *table.get(id).unwrap(),
            PlayerAttack::new(id, name, Some(PlayerAttackType::Magic), Some(*element), cost, tier)
        );
    }
    assert!(table.get(22).is_none());
    assert!(!table.contains(22));
}

#[test]
fn item_table_lists_every_item() {
    let table = item_table();
    let mut ids = table.ids();
    ids.sort();
    assert_eq!(ids, (0..ITEM_COUNT).collect::<Vec<usize>>());
    assert_eq!(ITEM_COUNT, 37);
    let red = ["Red Potion I", "Red Potion II", "Red Potion III", "Red Potion IV", "Red Potion V"];
    let blue =
        ["Blue Potion I", "Blue Potion II", "Blue Potion III", "Blue Potion IV", "Blue Potion V"];
    for rank in 0..5usize {
        let potion = table.get(rank).unwrap();
        assert_eq!(potion.id, rank);
        assert_eq!(potion.name, red[rank]);
        assert_eq!(potion.item_type, ItemType::Consumable);
        assert_eq!(potion.stats, ItemStats::new_potion(20 << rank, 0));
        let potion = table.get(5 + rank).unwrap();
        assert_eq!(potion.id, 5 + rank);
        assert_eq!(potion.name, blue[rank]);
        assert_eq!(potion.item_type, ItemType::Consumable);
        assert_eq!(potion.stats, ItemStats::new_potion(0, 15 << rank));
    }
    for id in 10..ITEM_COUNT {
        let item = table.get(id).unwrap();
        assert_eq!(item.id, id);
        let kind = if id < 19 {
            ItemType::Weapon
        } else if id < 28 {
            ItemType::Armor
        } else {
            ItemType::Accessory
        };
        assert_eq!(item.item_type, kind);
        assert_eq!((item.stats.hp, item.stats.mp), (0, 0));
    }
    let shield = table.get(11).unwrap();
    assert_eq!(shield.name, "Steel Shield");
    assert_eq!(shield.stats, ItemStats::new_eqiup(25, 0, 5, 0, 6));
    let armor = table.get(26).unwrap();
    assert_eq!(armor.name, "Titan Armor");
    assert_eq!(armor.stats, ItemStats::new_eqiup(200, 0, 0, 0, 36));
    let necklace = table.get(36).unwrap();
    assert_eq!(necklace.name, "Ultimate Necklace");
    assert_eq!(necklace.stats, ItemStats::new_eqiup(0, 0, 0, 50, 0));
    assert!(table.get(37).is_none());
}

#[test]
fn item_stats_builders() {
    let potion = ItemStats::new_potion(7, 9);
    assert_eq!(
        potion,
        ItemStats { hp_max: 0, mp_max: 0, hp: 7, mp: 9, strength: 0, wisdom: 0, defense: 0 }
    );
    let gear = ItemStats::new_eqiup(1, 2, 3, 4, 5);
    assert_eq!(
        gear,
        ItemStats { hp_max: 1, mp_max: 2, hp: 0, mp: 0, strength: 3, wisdom: 4, defense: 5 }
    );
}

#[test]
fn enemy_table_lists_every_enemy() {
    let table = enemy_table();
    let items = item_table();
    let mut ids = table.ids();
    ids.sort();
    assert_eq!(ids, (0..ENEMY_COUNT).collect::<Vec<usize>>());
    assert_eq!(ENEMY_COUNT, 14);
    for id in 0..ENEMY_COUNT {
        let enemy = table.get(id).unwrap();
        assert_eq!(enemy.enemy_stats.id, id);
        assert!(enemy.is_well_formed());
        assert_eq!(enemy.stats.hp, enemy.stats.hp_max);
        assert_eq!(enemy.stats.mp, enemy.stats.mp_max);
        assert!(enemy.attacks.iter().any(|attack| attack.mp_use == 0));
        for loot in &enemy.loot_table {
            assert!(loot.is_well_formed());
            for (item, _) in &loot.items {
                assert!(items.contains(*item));
            }
        }
    }
}

#[test]
fn slime_is_the_first_enemy() {
    let table = enemy_table();
    let slime = table.get(0).unwrap();
    assert_eq!(slime.enemy_stats.name, "Slime");
    assert_eq!(slime.enemy_stats.description, "I wonder if it's edible?");
    assert_eq!(slime.enemy_stats.element, None);
    assert_eq!(slime.enemy_stats.next_phase, None);
    assert_eq!(
        slime.stats,
        Stats {
            hp_max: 39,
            mp_max: 10,
            hp: 39,
            mp: 10,
            strength: 8,
            wisdom: 8,
            defense: 5,
            level: 1,
            experience: 180,
            gold: 50,
        }
    );
    assert_eq!(slime.attacks.len(), 1);
    assert_eq!(slime.attacks[0].name, "Bounce");
    assert_eq!(slime.attacks[0].damage_modifier, 200);
    assert_eq!(slime.attacks[0].mp_use, 0);
    assert_eq!(slime.attacks[0].attack_type, None);
    assert_eq!(slime.loot_table.len(), 2);
    assert_eq!(slime.loot_table[0].no_drop_weight, 10);
    assert_eq!(slime.loot_table[0].items, vec![(0, 9), (5, 6)]);
    assert_eq!(slime.loot_table[1].no_drop_weight, 13);
    assert_eq!(
        slime.loot_table[1].items,
        vec![(10, 1), (11, 1), (12, 1), (19, 1), (20, 1), (21, 1), (28, 1), (29, 1), (30, 1)]
    );
}

#[test]
fn later_enemies_drop_better_things() {
    let table = enemy_table();
    let skeleton = table.get(5).unwrap();
    assert_eq!(skeleton.enemy_stats.name, "Skeleton");
    assert_eq!(skeleton.enemy_stats.element, Some(Element::Dark));
    assert_eq!(skeleton.loot_table[0].items, vec![(2, 9), (7, 6)]);
    assert_eq!(
        skeleton.loot_table[1].items,
        vec![(13, 1), (14, 1), (15, 1), (22, 1), (23, 1), (24, 1), (31, 1), (32, 1), (33, 1)]
    );
    let mixtape = table.get(6).unwrap();
    assert_eq!(mixtape.attacks.len(), 3);
    assert_eq!(mixtape.attacks[1].name, "Lay A Verse");
    assert_eq!(mixtape.attacks[1].damage_modifier, 180);
    assert_eq!(mixtape.attacks[1].attack_type, Some(EnemyAttackType::Magic));
    assert_eq!(mixtape.attacks[1].mp_use, 4);
    let penguin = table.get(10).unwrap();
    assert_eq!(penguin.loot_table[0].items, vec![(4, 9), (9, 6)]);
    assert_eq!(
        penguin.loot_table[1].items,
        vec![(16, 1), (17, 1), (18, 1), (25, 1), (26, 1), (27, 1), (34, 1), (35, 1), (36, 1)]
    );
}

#[test]
fn the_last_enemy_has_three_forms() {
    let table = enemy_table();
    let elements = [Element::Fire, Element::Electric, Element::Water];
    let next = [Some(13), Some(14), None];
    for form in 0..3usize {
        let emperor = table.get(11 + form).unwrap();
        assert_eq!(emperor.enemy_stats.name, "Emperor Penguin");
        assert_eq!(emperor.enemy_stats.description, "");
        assert_eq!(emperor.enemy_stats.element, Some(elements[form]));
        assert_eq!(emperor.enemy_stats.next_phase, next[form]);
        assert!(emperor.loot_table.is_empty());
        assert_eq!(emperor.stats.level, 5);
    }
    let last = table.get(13).unwrap();
    assert_eq!(last.stats.experience, 1000000);
    assert_eq!(last.stats.gold, 1000000);
    assert_eq!(last.attacks[2].name, "Royal Decree");
    assert_eq!(last.attacks[2].damage_modifier, 50);
    assert_eq!(last.attacks[2].attack_type, Some(EnemyAttackType::Percentile));
    assert_eq!(last.attacks[2].mp_use, 30);
    assert_eq!(table.get(12).unwrap().attacks[3].name, "Monarch's Thunder");
}

#[test]
fn spawned_enemies_are_copies_of_the_listed() {
    let table = enemy_table();
    let mut duck = spawn_enemy(&table, 3).unwrap();
    assert_eq!(duck.enemy_stats.name, "Duck");
    assert_eq!(duck.enemy_stats.description, "He's a blast in the bath!");
    assert_eq!(duck.stats.hp, 72);
    assert_eq!(duck.attacks.len(), 2);
    assert_eq!(duck.attacks[1].name, "Explosion");
    assert_eq!(duck.attacks[1].damage_modifier, 300);
    assert_eq!(duck.loot_table.len(), 2);
    assert_eq!(duck.loot_table[0].items, vec![(1, 9), (6, 6)]);
    duck.stats.hp = 1;
    assert_eq!(table.get(3).unwrap().stats.hp, 72);
    assert_eq!(spawn_enemy(&table, 14).err(), Some(BattleError::UnknownEnemy(14)));
}

#[test]
fn a_new_player_is_equipped_from_the_table() {
    let table = player_attack_table();
    let player = Player::new(&table).unwrap();
    assert_eq!(player.stats, Stats::new());
    assert_eq!(player.limit, 0);
    let mut owned = player.attacks.listing();
    owned.sort_by_key(|attack| attack.id);
    let ids: Vec<usize> = owned.iter().map(|attack| attack.id).collect();
    assert_eq!(ids, vec![0, 1, 4, 5, 6, 7, 8, 9]);
    for attack in &owned {
        assert_eq!(Some(attack), table.get(attack.id));
        assert!(player.attacks.contains(attack));
    }
    assert!(!player.attacks.contains(table.get(2).unwrap()));
    for slot in 0..4 {
        assert_eq!(player.magic_equipped[slot].as_ref(), table.get(4 + slot));
    }
    assert_eq!(player.limit_equipped.name, "Sonic Spike");
    let mut items = player.items.listing();
    items.sort();
    assert_eq!(items, vec![(0, 5), (5, 5)]);
}

#[test]
fn a_new_player_needs_the_starting_attacks() {
    let empty: PlayerAttackTable = Table::new();
    assert_eq!(Player::new(&empty).err(), Some(BattleError::UnknownAttack(0)));
    let mut table: PlayerAttackTable = Table::new();
    for id in [0usize, 1, 4, 5, 7, 8, 9] {
        table.insert(id, PlayerAttack::new(id, "Attack", None, None, 0, 1));
    }
    assert_eq!(Player::new(&table).err(), Some(BattleError::UnknownAttack(6)));
}

#[test]
fn tables_replace_what_is_stored_under_an_id() {
    let mut table: Table<i32> = Table::new();
    assert!(table.ids().is_empty());
    assert_eq!(table.get(3), None);
    table.insert(3, 30);
    table.insert(usize::MAX, -1);
    table.insert(0, 7);
    assert_eq!(table.get(3), Some(&30));
    assert_eq!(table.get(usize::MAX), Some(&-1));
    table.insert(3, 31);
    assert_eq!(table.get(3), Some(&31));
    assert_eq!(table.get(0), Some(&7));
    assert!(table.contains(0) && !table.contains(1));
    let mut ids = table.ids();
    ids.sort();
    assert_eq!(ids, vec![0, 3, usize::MAX]);
}

#[test]
fn items_are_used_outside_of_battle_too() {
    let table = player_attack_table();
    let items = item_table();
    let mut player = Player::new(&table).unwrap();
    assert!(player.is_well_formed());
    player.stats.hp = 50;
    player.stats.mp = 90;
    assert_eq!(player.use_item(items.get(0).unwrap()), Ok(()));
    assert_eq!(player.stats.hp, 70);
    assert_eq!(player.items.quantity(0), 4);
    assert_eq!(player.use_item(items.get(5).unwrap()), Ok(()));
    assert_eq!(player.stats.mp, 100);
    assert_eq!(player.items.quantity(5), 4);
    assert_eq!(
        player.use_item(items.get(1).unwrap()),
        Err(BattleError::ItemNotOwned(1))
    );
    assert_eq!(player.stats.hp, 70);
    for _ in 0..4 {
        assert_eq!(player.use_item(items.get(0).unwrap()), Ok(()));
    }
    assert_eq!(player.stats.hp, 100);
    assert_eq!(player.items.quantity(0), 0);
    assert_eq!(
        player.use_item(items.get(0).unwrap()),
        Err(BattleError::ItemNotOwned(0))
    );
    player.limit = 101;
    assert!(!player.is_well_formed());
}

#[test]
fn magic_slots_take_any_attack() {
    let table = player_attack_table();
    let mut player = Player::new(&table).unwrap();
    let spear = table.get(9).unwrap().clone();
    player.equip_magic(2, spear.clone());
    assert_eq!(player.magic_equipped[0].as_ref(), table.get(4));
    assert_eq!(player.magic_equipped[1].as_ref(), table.get(5));
    assert_eq!(player.magic_equipped[2], Some(spear));
    assert_eq!(player.magic_equipped[3].as_ref(), table.get(7));
    player.equip_magic(0, table.get(8).unwrap().clone());
    assert_eq!(player.magic_equipped[0].as_ref(), table.get(8));
}

#[test]
fn owned_attacks_are_told_apart_by_every_field() {
    let mut owned = PlayerAttackInventory::new();
    assert!(owned.listing().is_empty());
    let spike = PlayerAttack::new(1, "Sonic Spike", Some(PlayerAttackType::Limit), None, 0, 1);
    assert!(!owned.contains(&spike));
    assert!(owned.insert(spike.clone()));
    assert!(owned.contains(&spike));
    assert!(!owned.insert(spike.clone()));
    assert_eq!(owned.listing(), vec![spike.clone()]);
    let same = PlayerAttack::new(1, "Sonic Spike", Some(PlayerAttackType::Limit), None, 0, 1);
    assert!(owned.contains(&same));
    let renamed = PlayerAttack::new(1, "Sonic Spikes", Some(PlayerAttackType::Limit), None, 0, 1);
    let dearer = PlayerAttack::new(1, "Sonic Spike", Some(PlayerAttackType::Limit), None, 5, 1);
    let higher = PlayerAttack::new(1, "Sonic Spike", Some(PlayerAttackType::Limit), None, 0, 2);
    let fiery =
        PlayerAttack::new(1, "Sonic Spike", Some(PlayerAttackType::Limit), Some(Element::Fire), 0, 1);
    let magic = PlayerAttack::new(1, "Sonic Spike", Some(PlayerAttackType::Magic), None, 0, 1);
    let other = PlayerAttack::new(2, "Sonic Spike", Some(PlayerAttackType::Limit), None, 0, 1);
    for attack in [renamed, dearer, higher, fiery, magic, other] {
        assert!(!owned.contains(&attack));
        assert!(owned.insert(attack.clone()));
        assert!(owned.contains(&attack));
    }
    assert_eq!(owned.listing().len(), 7);
    assert!(owned.contains(&spike));
}
