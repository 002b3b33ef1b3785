use rapid_fantasy::{
    enemy_table, item_table, player_attack_table, spawn_enemy, BattleContext, BattleState,
    BattleTimer, BattleUpdate, PacedBattle, Player, PlayerButtonAction, ACTION_DELAY,
};

#[test]
fn a_timer_runs_down_once() {
    let mut timer = BattleTimer::new(ACTION_DELAY);
    assert_eq!(ACTION_DELAY, 2000);
    assert_eq!(timer.remaining, 2000);
    assert!(!timer.finished());
    assert!(!timer.tick(1999));
    assert_eq!(timer.remaining, 1);
    assert!(timer.tick(1));
    assert!(timer.finished());
    assert!(timer.tick(0));
    assert!(timer.tick(u64::MAX));
    assert_eq!(timer.remaining, 0);
    timer.restart();
    assert_eq!(timer.remaining, 2000);
    assert!(timer.tick(u64::MAX));
    assert_eq!(timer.delay, 2000);
}

#[test]
fn a_timer_without_delay_is_always_finished() {
    let mut timer = BattleTimer::new(0);
    assert!(timer.finished());
    assert!(timer.tick(0));
    timer.restart();
    assert!(timer.finished());
}

#[test]
fn messages_stay_for_a_full_delay() {
    let attacks = player_attack_table();
    let items = item_table();
    let enemies = enemy_table();
    let player = Player::new(&attacks).unwrap();
    let slime = spawn_enemy(&enemies, 0).unwrap();
    let mut paced = PacedBattle::new(BattleContext::new(player, slime), 1500);
    assert!(paced.battle.is_well_formed());

    // the opening phase lasts one delay
    assert!(matches!(paced.tick(700, &items, &attacks), Ok(BattleUpdate::Waiting)));
    assert!(matches!(paced.tick(700, &items, &attacks), Ok(BattleUpdate::Waiting)));
    assert_eq!(paced.battle.state, BattleState::Initialization);
    assert_eq!(paced.timer.remaining, 100);
    assert!(matches!(
        paced.tick(100, &items, &attacks),
        Ok(BattleUpdate::Entered(BattleState::Idle))
    ));
    assert_eq!(paced.timer.remaining, 0);

    // while the player thinks, frames pass and nothing happens
    for _ in 0..5 {
        assert!(matches!(paced.tick(16, &items, &attacks), Ok(BattleUpdate::Waiting)));
        assert_eq!(paced.battle.state, BattleState::Idle);
    }

    // the first message is shown at once and then stays
    assert_eq!(
        paced.battle.action_menu_button_action(PlayerButtonAction::Attack, &attacks),
        Ok(true)
    );
    match paced.tick(16, &items, &attacks) {
        Ok(BattleUpdate::Announced(text)) => {
            assert_eq!(text, "You used Tackle, dealing 13 damage.")
        }
        other => panic!("expected a message, got {:?}", other),
    }
    assert_eq!(paced.timer.remaining, 1500);
    assert!(matches!(paced.tick(1499, &items, &attacks), Ok(BattleUpdate::Waiting)));
    assert_eq!(paced.battle.state, BattleState::PlayerAction);

    // then the enemy acts, and its message is shown on the next frame
    assert!(matches!(
        paced.tick(1, &items, &attacks),
        Ok(BattleUpdate::Entered(BattleState::EnemyAction))
    ));
    assert_eq!(paced.timer.remaining, 0);
    match paced.tick(0, &items, &attacks) {
        Ok(BattleUpdate::Announced(text)) => {
            assert_eq!(text, "Slime used Bounce, dealing 11 damage to you!")
        }
        other => panic!("expected a message, got {:?}", other),
    }
    assert_eq!(paced.timer.remaining, 1500);
    assert!(matches!(paced.tick(1000, &items, &attacks), Ok(BattleUpdate::Waiting)));
    assert!(matches!(
        paced.tick(1000, &items, &attacks),
        Ok(BattleUpdate::Entered(BattleState::Idle))
    ));
    assert_eq!(paced.battle.player.stats.hp, 89);
    assert_eq!(paced.battle.player.limit, 22);
}

#[test]
fn the_next_battle_winds_the_timer_up() {
    let attacks = player_attack_table();
    let items = item_table();
    let enemies = enemy_table();
    let player = Player::new(&attacks).unwrap();
    let slime = spawn_enemy(&enemies, 0).unwrap();
    let mut paced = PacedBattle::new(BattleContext::new(player, slime), 1500);
    assert!(matches!(
        paced.tick(1500, &items, &attacks),
        Ok(BattleUpdate::Entered(BattleState::Idle))
    ));
    paced.battle.state = BattleState::Deinitialize;
    assert_eq!(paced.timer.remaining, 0);
    let before = paced.battle.player.stats;

    paced.battle_setup(spawn_enemy(&enemies, 1).unwrap());
    assert_eq!(paced.battle.state, BattleState::Initialization);
    assert_eq!(paced.battle.enemy.enemy_stats.name, "Rocky");
    assert_eq!(paced.battle.enemy.stats.hp, 50);
    assert_eq!(paced.battle.player.stats, before);
    assert_eq!(paced.timer.delay, 1500);
    assert_eq!(paced.timer.remaining, 1500);
    assert!(!paced.timer.finished());
    assert!(paced.battle.is_well_formed());

    // the opening phase of the repeated battle lasts one full delay again
    assert!(matches!(paced.tick(1499, &items, &attacks), Ok(BattleUpdate::Waiting)));
    assert_eq!(paced.battle.state, BattleState::Initialization);
    assert!(matches!(
        paced.tick(1, &items, &attacks),
        Ok(BattleUpdate::Entered(BattleState::Idle))
    ));

    // in any other phase the phase stays, and the timer is wound up all the same
    paced.battle_setup(spawn_enemy(&enemies, 2).unwrap());
    assert_eq!(paced.battle.state, BattleState::Idle);
    assert_eq!(paced.timer.remaining, 1500);
}
