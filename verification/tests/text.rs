use rapid_fantasy::text::{
    block_message, decimal_string, defeat_message, enemy_attack_message, experience_message,
    item_message, level_up_message, loot_message, player_attack_message, push_decimal,
    unlock_message, victory_message,
};

#[test]
fn numbers_are_written_in_decimal() {
    for n in [
        0i64,
        1,
        9,
        10,
        11,
        99,
        100,
        101,
        12345,
        1000000,
        i32::MAX as i64,
        i32::MIN as i64,
        -1,
        -10,
        -907,
        i64::MAX,
        i64::MIN,
        i64::MIN + 1,
    ] {
        assert_eq!(decimal_string(n), n.to_string());
    }
}

#[test]
fn numbers_are_appended() {
    let mut text = String::from("x = ");
    push_decimal(&mut text, -42);
    push_decimal(&mut text, 7);
    assert_eq!(text, "x = -427");
}

#[test]
fn player_attack_wording() {
    assert_eq!(player_attack_message("Tackle", 13), "You used Tackle, dealing 13 damage.");
    assert_eq!(player_attack_message("Tackle", 0), "You used Tackle, dealing 0 damage.");
    assert_eq!(
        player_attack_message("Fire Ball", -16),
        "You used Fire Ball, healing 16 to the enemy!"
    );
    assert_eq!(
        player_attack_message("Inferno", i32::MIN),
        "You used Inferno, healing 2147483648 to the enemy!"
    );
}

#[test]
fn item_wording() {
    assert_eq!(item_message("Red Potion I", 20, 0), "You used Red Potion I, healing 20 HP");
    assert_eq!(item_message("Blue Potion I", 0, 15), "You used Blue Potion I, healing 15 MP");
    assert_eq!(item_message("Elixir", 30, 25), "You used Elixir, healing 30 HP 25 MP");
    assert_eq!(item_message("Steel Sword", 0, 0), "You used Steel Sword, healing");
    assert_eq!(item_message("Poison", -5, -5), "You used Poison, healing");
}

#[test]
fn other_wording() {
    assert_eq!(block_message(), "You blocked their next attack.");
    assert_eq!(
        enemy_attack_message("Slime", "Bounce", 11),
        "Slime used Bounce, dealing 11 damage to you!"
    );
    assert_eq!(victory_message("Slime"), "You defeated Slime!");
    assert_eq!(experience_message(180), "You gained 180 experience!");
    assert_eq!(level_up_message(), "You leveled up!");
    assert_eq!(loot_message("Red Potion I"), "You've gained Red Potion I");
    assert_eq!(defeat_message("Slime"), "Slime defeated you!");
}

#[test]
fn unlock_wording() {
    assert_eq!(unlock_message(1), None);
    assert_eq!(unlock_message(2).as_deref(), Some("You've unlocked tier 2 magic!"));
    assert_eq!(unlock_message(3).as_deref(), Some("You've unlocked tier 2 limit break!"));
    assert_eq!(unlock_message(4).as_deref(), Some("You've unlocked tier 3 magic!"));
    assert_eq!(unlock_message(5).as_deref(), Some("You've unlocked tier 3 limit break!"));
    assert_eq!(unlock_message(6), None);
}
