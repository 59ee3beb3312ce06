//! Tests of collision resolution, trigger classification and the item
//! exchange state machine.

use baobei_needs::collisions::{
    boxes_overlap, classify_transition, resolve_collision, trigger_contains, BoxCollider,
    ConfigError, TriggerArea, TriggerEvent,
};
use baobei_needs::cooldown::Cooldown;
use baobei_needs::geometry::Position;
use baobei_needs::items::{exchange_step, random_item, Carried, ExchangeAction, Item};

fn at(x: i64, y: i64) -> Position {
    Position { x, y, z: 0 }
}

#[test]
fn zero_sized_collider_is_rejected() {
    assert_eq!(BoxCollider::new(0, 10, 0, 0), Err(ConfigError::NonPositiveExtent));
    assert_eq!(BoxCollider::new(10, -1, 0, 0), Err(ConfigError::NonPositiveExtent));
    assert!(BoxCollider::new(1, 1, -5, 5).is_ok());
    assert_eq!(TriggerArea::new(5, 0), Err(ConfigError::NonPositiveExtent));
    assert!(TriggerArea::new(5, 5).is_ok());
}

#[test]
fn overlap_is_strict_on_both_axes() {
    let c = BoxCollider::new(10, 10, 0, 0).unwrap();
    assert!(boxes_overlap(&at(0, 0), &c, &at(19, 0), &c));
    assert!(!boxes_overlap(&at(0, 0), &c, &at(20, 0), &c));
    assert!(!boxes_overlap(&at(19, 20), &c, &at(0, 0), &c));
}

#[test]
fn resolution_pushes_along_minimum_penetration_axis() {
    let c = BoxCollider::new(10, 10, 0, 0).unwrap();
    // Deeper on y than on x: push out along x, away from the anchor.
    let r = resolve_collision(&at(0, 0), &c, &at(5, 0), &c);
    assert_eq!((r.x, r.y), (-15, 0));
    // Deeper on x than on y: push out along y.
    let r = resolve_collision(&at(0, 0), &c, &at(0, 5), &c);
    assert_eq!((r.x, r.y), (0, -15));
}

#[test]
fn resolution_separates_overlapping_boxes() {
    let c = BoxCollider::new(10, 10, 0, 0).unwrap();
    let cases = [(5, 0), (0, 5), (-3, 7), (9, -9), (0, 0), (19, 19)];
    for (ax, ay) in cases {
        let anchor = at(ax, ay);
        let r = resolve_collision(&at(0, 0), &c, &anchor, &c);
        assert!(!boxes_overlap(&r, &c, &anchor, &c), "still overlapping for {:?}", (ax, ay));
    }
}

#[test]
fn resolution_leaves_separated_boxes_alone() {
    let c = BoxCollider::new(10, 10, 0, 0).unwrap();
    let r = resolve_collision(&at(100, 50), &c, &at(0, 0), &c);
    assert_eq!((r.x, r.y), (100, 50));
}

#[test]
fn resolution_respects_collider_offsets() {
    // The moved box sits 10 below its position; effective centres coincide.
    let moved = BoxCollider::new(10, 10, 0, -10).unwrap();
    let anchor = BoxCollider::new(10, 10, 0, 0).unwrap();
    let r = resolve_collision(&at(0, 10), &moved, &at(5, 0), &anchor);
    assert_eq!((r.x, r.y), (-15, 10));
}

#[test]
fn trigger_containment_is_strict_and_ignores_z() {
    let area = TriggerArea::new(10, 10).unwrap();
    let owner = at(0, 0);
    assert!(trigger_contains(&owner, &area, &Position { x: 9, y: -9, z: 500 }));
    assert!(!trigger_contains(&owner, &area, &at(10, 0)));
    assert!(!trigger_contains(&owner, &area, &at(0, -10)));
}

#[test]
fn trigger_transitions_classify_all_four_cases() {
    assert_eq!(classify_transition(false, true), Some(TriggerEvent::Entered));
    assert_eq!(classify_transition(true, true), Some(TriggerEvent::StillInside));
    assert_eq!(classify_transition(true, false), Some(TriggerEvent::Exited));
    assert_eq!(classify_transition(false, false), None);
}

fn ready_cooldown() -> Cooldown {
    let mut cd = Cooldown::from_millis(200);
    cd.tick(200);
    cd
}

#[test]
fn pickup_fills_the_empty_slot_from_the_producer() {
    let mut cd = ready_cooldown();
    let (carried, act) =
        exchange_step(Carried::Empty, Item::WaterGlass, Some(Item::IceCream), false, true, &mut cd);
    assert_eq!(carried, Carried::Carrying(Item::IceCream));
    assert_eq!(act, ExchangeAction::PickedUp(Item::IceCream));
}

#[test]
fn pickup_needs_a_producer_zone() {
    let mut cd = ready_cooldown();
    let (carried, act) = exchange_step(Carried::Empty, Item::Chips, None, true, true, &mut cd);
    assert_eq!(carried, Carried::Empty);
    assert_eq!(act, ExchangeAction::NoAction);
}

#[test]
fn matching_item_in_companion_zone_delivers() {
    let mut cd = ready_cooldown();
    let (carried, act) = exchange_step(
        Carried::Carrying(Item::WaterGlass),
        Item::WaterGlass,
        None,
        true,
        true,
        &mut cd,
    );
    assert_eq!(carried, Carried::Empty);
    assert_eq!(act, ExchangeAction::Delivered);
}

#[test]
fn wrong_item_in_companion_zone_drops_instead() {
    let mut cd = ready_cooldown();
    let (carried, act) = exchange_step(
        Carried::Carrying(Item::Chips),
        Item::WaterGlass,
        None,
        true,
        true,
        &mut cd,
    );
    assert_eq!(carried, Carried::Empty);
    assert_eq!(act, ExchangeAction::Dropped(Item::Chips));
}

#[test]
fn matching_item_outside_companion_zone_drops() {
    let mut cd = ready_cooldown();
    let (carried, act) = exchange_step(
        Carried::Carrying(Item::WaterGlass),
        Item::WaterGlass,
        None,
        false,
        true,
        &mut cd,
    );
    assert_eq!(carried, Carried::Empty);
    assert_eq!(act, ExchangeAction::Dropped(Item::WaterGlass));
}

#[test]
fn no_action_input_means_no_transition() {
    let mut cd = ready_cooldown();
    let (carried, act) = exchange_step(
        Carried::Carrying(Item::Chips),
        Item::Chips,
        Some(Item::IceCream),
        true,
        false,
        &mut cd,
    );
    assert_eq!(carried, Carried::Carrying(Item::Chips));
    assert_eq!(act, ExchangeAction::NoAction);
    // The cooldown was not consumed: the next asserted action fires.
    let (_, act) =
        exchange_step(Carried::Carrying(Item::Chips), Item::Chips, None, true, true, &mut cd);
    assert_eq!(act, ExchangeAction::Delivered);
}

#[test]
fn second_action_within_cooldown_window_is_ignored() {
    let mut cd = ready_cooldown();
    let (carried, act) =
        exchange_step(Carried::Empty, Item::Chips, Some(Item::Chips), false, true, &mut cd);
    assert_eq!(act, ExchangeAction::PickedUp(Item::Chips));
    // Asserted again within the window: the timer is not ready, nothing fires.
    cd.tick(100);
    let (carried, act) = exchange_step(carried, Item::Chips, Some(Item::Chips), true, true, &mut cd);
    assert_eq!(carried, Carried::Carrying(Item::Chips));
    assert_eq!(act, ExchangeAction::NoAction);
    // Once the window has elapsed the next action fires again.
    cd.tick(100);
    let (carried, act) = exchange_step(carried, Item::Chips, Some(Item::Chips), true, true, &mut cd);
    assert_eq!(carried, Carried::Empty);
    assert_eq!(act, ExchangeAction::Delivered);
}

#[test]
fn random_item_always_draws_from_the_closed_set() {
    for _ in 0..100 {
        let it = random_item();
        assert!(matches!(it, Item::WaterGlass | Item::Chips | Item::IceCream));
    }
}
