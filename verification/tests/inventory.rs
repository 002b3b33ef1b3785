use rapid_fantasy::{AnnouncementQueue, BattleError, PlayerItemInventory};

#[test]
fn a_new_inventory_is_empty() {
    let items = PlayerItemInventory::new();
    assert!(items.listing().is_empty());
    assert_eq!(items.quantity(0), 0);
    assert!(items.can_take(usize::MAX));
}

#[test]
fn the_player_starts_with_potions() {
    let items = PlayerItemInventory::starting();
    let mut listing = items.listing();
    listing.sort();
    assert_eq!(listing, vec![(0, 5), (5, 5)]);
    assert_eq!(items.quantity(0), 5);
    assert_eq!(items.quantity(5), 5);
    assert_eq!(items.quantity(1), 0);
}

#[test]
fn items_come_in_one_by_one() {
    let mut items = PlayerItemInventory::new();
    items.add_one(12);
    assert_eq!(items.quantity(12), 1);
    items.add_one(12);
    items.add_one(3);
    assert_eq!(items.quantity(12), 2);
    assert_eq!(items.quantity(3), 1);
    let mut listing = items.listing();
    listing.sort();
    assert_eq!(listing, vec![(3, 1), (12, 2)]);
}

#[test]
fn the_last_one_takes_the_entry_along() {
    let mut items = PlayerItemInventory::new();
    items.add_one(7);
    items.add_one(7);
    items.add_one(8);
    assert_eq!(items.take_one(7), Ok(()));
    assert_eq!(items.quantity(7), 1);
    assert_eq!(items.listing().len(), 2);
    assert_eq!(items.take_one(7), Ok(()));
    assert_eq!(items.quantity(7), 0);
    assert_eq!(items.listing(), vec![(8, 1)]);
    assert_eq!(items.take_one(7), Err(BattleError::ItemNotOwned(7)));
    assert_eq!(items.listing(), vec![(8, 1)]);
}

#[test]
fn room_is_counted_against_the_fullest_entry() {
    let mut items = PlayerItemInventory::starting();
    assert!(items.can_take(usize::MAX - 5));
    assert!(!items.can_take(usize::MAX - 4));
    items.add_one(0);
    assert!(!items.can_take(usize::MAX - 5));
    assert!(items.can_take(usize::MAX - 6));
}

#[test]
fn messages_leave_in_the_order_they_came() {
    let mut queue = AnnouncementQueue::new();
    assert!(queue.is_empty());
    assert_eq!(queue.len(), 0);
    assert_eq!(queue.pop(), None);
    queue.push("first".to_string());
    queue.push("second".to_string());
    queue.push("third".to_string());
    assert!(!queue.is_empty());
    assert_eq!(queue.len(), 3);
    assert_eq!(queue.peek().as_deref(), Some("first"));
    assert_eq!(queue.len(), 3);
    assert_eq!(queue.pop().as_deref(), Some("first"));
    assert_eq!(queue.peek().as_deref(), Some("second"));
    assert_eq!(queue.len(), 2);
    queue.push("fourth".to_string());
    assert_eq!(queue.pop().as_deref(), Some("second"));
    assert_eq!(queue.pop().as_deref(), Some("third"));
    assert_eq!(queue.pop().as_deref(), Some("fourth"));
    assert_eq!(queue.pop(), None);
    assert_eq!(queue.peek(), None);
    assert!(queue.is_empty());
}
