//! Whole-simulation tests: mode gating, the phase order over real ticks, and
//! the delivery scenarios in the default room.

use baobei_needs::game::{Game, GameConfig, GameState, GamepadAxes, Producer, TickInput};
use baobei_needs::collisions::{BoxCollider, ConfigError, TriggerArea, TriggerEvent};
use baobei_needs::geometry::Position;
use baobei_needs::input::{ConnectionEvent, KeyDirections};
use baobei_needs::items::{Carried, ExchangeAction, Item};

fn no_keys() -> KeyDirections {
    KeyDirections { up: false, down: false, left: false, right: false }
}

fn idle(delta_ms: u64) -> TickInput {
    TickInput { keys: no_keys(), axes: Vec::new(), action: false, escape: false, delta_ms }
}

fn action(delta_ms: u64) -> TickInput {
    TickInput { keys: no_keys(), axes: Vec::new(), action: true, escape: false, delta_ms }
}

fn keyed(keys: KeyDirections, delta_ms: u64) -> TickInput {
    TickInput { keys, axes: Vec::new(), action: false, escape: false, delta_ms }
}

#[test]
fn menu_tick_mutates_nothing() {
    let mut g = Game::default_room();
    assert_eq!(g.mode, GameState::Menu);
    let pos = g.player_pos;
    let keys = KeyDirections { up: false, down: false, left: false, right: true };
    let input = TickInput { keys, axes: Vec::new(), action: true, escape: false, delta_ms: 5000 };
    let report = g.tick(&input);
    assert_eq!(g.mode, GameState::Menu);
    assert_eq!(g.player_pos, pos);
    assert_eq!(g.carried, Carried::Empty);
    assert_eq!(g.happiness.value_milli(), 1000);
    assert_eq!(report.action, ExchangeAction::NoAction);
    assert_eq!(report.companion_event, None);
    assert!(report.producer_events.is_empty());
    assert!(!report.decay_fired);
}

#[test]
fn escape_switches_to_menu_after_the_tick_has_run() {
    let mut g = Game::default_room();
    g.set_in_game();
    let keys = KeyDirections { up: false, down: false, left: true, right: false };
    let input = TickInput { keys, axes: Vec::new(), action: false, escape: true, delta_ms: 100 };
    g.tick(&input);
    // The gameplay phases still ran on the escape tick: the player moved.
    assert_eq!(g.player_pos, Position { x: 610_000, y: 260_000, z: 0 });
    assert_eq!(g.mode, GameState::Menu);
    // Once in the menu, further ticks change nothing.
    let keys = KeyDirections { up: false, down: false, left: true, right: false };
    let input = TickInput { keys, axes: Vec::new(), action: true, escape: false, delta_ms: 1000 };
    let report = g.tick(&input);
    assert_eq!(g.player_pos, Position { x: 610_000, y: 260_000, z: 0 });
    assert_eq!(g.happiness.value_milli(), 1000);
    assert_eq!(report.action, ExchangeAction::NoAction);
    assert!(!report.decay_fired);
}

#[test]
fn delivery_still_fires_on_the_escape_tick() {
    let mut g = Game::default_room();
    g.set_in_game();
    g.carried = Carried::Carrying(Item::WaterGlass);
    g.requested = Item::WaterGlass;
    g.player_pos = Position { x: 1_050_000, y: 130_000, z: 0 };
    let input =
        TickInput { keys: no_keys(), axes: Vec::new(), action: true, escape: true, delta_ms: 200 };
    let report = g.tick(&input);
    assert_eq!(report.action, ExchangeAction::Delivered);
    assert_eq!(g.carried, Carried::Empty);
    assert_eq!(g.mode, GameState::Menu);
}

#[test]
fn holding_right_moves_by_speed_times_time() {
    let mut g = Game::default_room();
    g.set_in_game();
    let keys = KeyDirections { up: false, down: false, left: false, right: true };
    g.tick(&keyed(keys, 100));
    // 300_000 units/s for 100 ms moves 30_000 units right from (640_000, 260_000).
    assert_eq!(g.player_pos, Position { x: 670_000, y: 260_000, z: 0 });
}

#[test]
fn left_wall_blocks_the_player() {
    let mut g = Game::default_room();
    g.set_in_game();
    let keys = KeyDirections { up: false, down: false, left: true, right: false };
    // 1867 ms of walking left would reach x = 79_900, inside the left wall's
    // box; the correction pushes the player back out to touch it.
    g.tick(&keyed(keys, 1867));
    assert_eq!(g.player_pos, Position { x: 87_500, y: 260_000, z: 0 });
}

#[test]
fn room_bounds_catch_a_tunnelling_jump() {
    let mut g = Game::default_room();
    g.set_in_game();
    let keys = KeyDirections { up: false, down: false, left: true, right: false };
    // A huge tick jumps far past every wall; the room keeps the coordinate.
    g.tick(&keyed(keys, 60_000));
    assert_eq!(g.player_pos.x, 0);
    assert_eq!(g.player_pos.y, 260_000);
}

#[test]
fn pickup_in_producer_zone_with_ready_cooldown() {
    let mut g = Game::default_room();
    g.set_in_game();
    // Inside the ice-cream producer's zone, clear of the fridge's box.
    g.player_pos = Position { x: 720_000, y: 475_000, z: 0 };
    let report = g.tick(&action(200));
    assert_eq!(report.action, ExchangeAction::PickedUp(Item::IceCream));
    assert_eq!(g.carried, Carried::Carrying(Item::IceCream));
}

#[test]
fn cooldown_window_ignores_the_second_action() {
    let mut g = Game::default_room();
    g.set_in_game();
    g.player_pos = Position { x: 720_000, y: 475_000, z: 0 };
    let report = g.tick(&action(200));
    assert_eq!(report.action, ExchangeAction::PickedUp(Item::IceCream));
    // 100 ms later the window (200 ms) has not elapsed: nothing fires.
    let report = g.tick(&action(100));
    assert_eq!(report.action, ExchangeAction::NoAction);
    assert_eq!(g.carried, Carried::Carrying(Item::IceCream));
    // Another 100 ms readies the timer; the carried item is dropped here.
    let report = g.tick(&action(100));
    assert_eq!(report.action, ExchangeAction::Dropped(Item::IceCream));
    assert_eq!(g.carried, Carried::Empty);
}

#[test]
fn wrong_item_in_companion_zone_drops_without_delivery() {
    let mut g = Game::default_room();
    g.set_in_game();
    g.carried = Carried::Carrying(Item::Chips);
    g.requested = Item::WaterGlass;
    // Inside the companion's zone, clear of the couch's box.
    g.player_pos = Position { x: 1_050_000, y: 130_000, z: 0 };
    let report = g.tick(&action(200));
    assert_eq!(report.action, ExchangeAction::Dropped(Item::Chips));
    assert_eq!(g.carried, Carried::Empty);
    assert_eq!(g.requested, Item::WaterGlass);
    assert_eq!(g.happiness.value_milli(), 1000);
}

#[test]
fn matching_delivery_rewards_the_mood_and_reassigns_the_request() {
    let mut g = Game::default_room();
    g.set_in_game();
    g.carried = Carried::Carrying(Item::WaterGlass);
    g.requested = Item::WaterGlass;
    g.player_pos = Position { x: 1_050_000, y: 130_000, z: 0 };
    g.happiness.sub(500);
    let report = g.tick(&action(200));
    assert_eq!(report.action, ExchangeAction::Delivered);
    assert_eq!(g.carried, Carried::Empty);
    // 500 plus the reward of 200.
    assert_eq!(g.happiness.value_milli(), 700);
    assert!(matches!(g.requested, Item::WaterGlass | Item::Chips | Item::IceCream));
}

#[test]
fn spawn_rejects_a_zero_sized_zone() {
    let config = GameConfig {
        room_width: 100_000,
        room_height: 100_000,
        speed: 10_000,
        cooldown_ms: 200,
        decay_interval_ms: 1000,
        decay_amount: 50,
        reward_amount: 200,
    };
    let r = Game::spawn(
        config,
        Position { x: 50_000, y: 50_000, z: 0 },
        BoxCollider { half_width: 1000, half_height: 1000, offset_x: 0, offset_y: 0 },
        Vec::new(),
        Position { x: 80_000, y: 50_000, z: 0 },
        TriggerArea { half_width: 5000, half_height: 5000 },
        Item::Chips,
        vec![Producer {
            position: Position { x: 20_000, y: 20_000, z: 0 },
            area: TriggerArea { half_width: 0, half_height: 5000 },
            item: Item::WaterGlass,
        }],
    );
    assert_eq!(r.err(), Some(ConfigError::NonPositiveExtent));
}

#[test]
fn trigger_events_classify_a_scripted_path() {
    let mut g = Game::default_room();
    g.set_in_game();
    // Outside the companion's zone.
    g.player_pos = Position { x: 1_050_000, y: 250_000, z: 0 };
    let report = g.tick(&idle(10));
    assert_eq!(report.companion_event, None);
    // Step into the zone: Entered, then StillInside while staying.
    g.player_pos = Position { x: 1_050_000, y: 130_000, z: 0 };
    let report = g.tick(&idle(10));
    assert_eq!(report.companion_event, Some(TriggerEvent::Entered));
    let report = g.tick(&idle(10));
    assert_eq!(report.companion_event, Some(TriggerEvent::StillInside));
    // Step back out: Exited, then nothing.
    g.player_pos = Position { x: 1_050_000, y: 250_000, z: 0 };
    let report = g.tick(&idle(10));
    assert_eq!(report.companion_event, Some(TriggerEvent::Exited));
    let report = g.tick(&idle(10));
    assert_eq!(report.companion_event, None);
    // Every tick reports one slot per producer zone.
    assert_eq!(report.producer_events.len(), 3);
}

#[test]
fn mood_decays_on_the_fixed_interval() {
    let mut g = Game::default_room();
    g.set_in_game();
    let report = g.tick(&idle(1000));
    assert!(report.decay_fired);
    assert_eq!(g.happiness.value_milli(), 950);
    let report = g.tick(&idle(500));
    assert!(!report.decay_fired);
    assert_eq!(g.happiness.value_milli(), 950);
    let report = g.tick(&idle(500));
    assert!(report.decay_fired);
    assert_eq!(g.happiness.value_milli(), 900);
}

#[test]
fn mood_never_leaves_its_bounds_over_many_ticks() {
    let mut g = Game::default_room();
    g.set_in_game();
    for _ in 0..30 {
        g.tick(&idle(1000));
        assert!(g.happiness.value_milli() <= 1000);
    }
    assert_eq!(g.happiness.value_milli(), 0);
}

#[test]
fn connected_gamepad_moves_the_player() {
    let mut g = Game::default_room();
    g.set_in_game();
    g.apply_connections(&vec![ConnectionEvent::Connected(7)]);
    let input = TickInput {
        keys: no_keys(),
        axes: vec![GamepadAxes { id: 7, x: 500, y: 500 }],
        action: false,
        escape: false,
        delta_ms: 100,
    };
    g.tick(&input);
    assert_eq!(g.player_pos, Position { x: 661_210, y: 281_210, z: 0 });
}

#[test]
fn single_axis_gamepad_deflection_moves_nothing() {
    let mut g = Game::default_room();
    g.set_in_game();
    g.apply_connections(&vec![ConnectionEvent::Connected(7)]);
    let input = TickInput {
        keys: no_keys(),
        axes: vec![GamepadAxes { id: 7, x: 800, y: 0 }],
        action: false,
        escape: false,
        delta_ms: 100,
    };
    g.tick(&input);
    assert_eq!(g.player_pos, Position { x: 640_000, y: 260_000, z: 0 });
}

#[test]
fn disconnected_gamepad_is_ignored() {
    let mut g = Game::default_room();
    g.set_in_game();
    g.apply_connections(&vec![ConnectionEvent::Connected(7)]);
    g.apply_connections(&vec![ConnectionEvent::Disconnected(7)]);
    let input = TickInput {
        keys: no_keys(),
        axes: vec![GamepadAxes { id: 7, x: 500, y: 500 }],
        action: false,
        escape: false,
        delta_ms: 100,
    };
    g.tick(&input);
    assert_eq!(g.player_pos, Position { x: 640_000, y: 260_000, z: 0 });
}

#[test]
fn matching_item_outside_companion_zone_only_drops() {
    let mut g = Game::default_room();
    g.set_in_game();
    g.carried = Carried::Carrying(Item::WaterGlass);
    g.requested = Item::WaterGlass;
    // Far from the companion's zone and from every producer.
    g.player_pos = Position { x: 640_000, y: 260_000, z: 0 };
    let report = g.tick(&action(200));
    assert_eq!(report.action, ExchangeAction::Dropped(Item::WaterGlass));
    assert_eq!(g.carried, Carried::Empty);
    assert_eq!(g.requested, Item::WaterGlass);
}

#[test]
fn every_connected_gamepad_is_tracked() {
    let mut g = Game::default_room();
    g.set_in_game();
    // Connect many gamepads; a late one is tracked like the first.
    let events: Vec<ConnectionEvent> = (1..=12).map(ConnectionEvent::Connected).collect();
    g.apply_connections(&events);
    let input = TickInput {
        keys: no_keys(),
        axes: vec![GamepadAxes { id: 12, x: 500, y: 500 }],
        action: false,
        escape: false,
        delta_ms: 100,
    };
    g.tick(&input);
    assert_eq!(g.player_pos, Position { x: 661_210, y: 281_210, z: 0 });
    // A repeated connect is not tracked twice: one pad moves once per tick.
    g.apply_connections(&vec![ConnectionEvent::Connected(12)]);
    let input = TickInput {
        keys: no_keys(),
        axes: vec![GamepadAxes { id: 12, x: 500, y: 500 }],
        action: false,
        escape: false,
        delta_ms: 100,
    };
    g.tick(&input);
    assert_eq!(g.player_pos, Position { x: 682_420, y: 302_420, z: 0 });
}

#[test]
fn keyboard_and_gamepad_both_move_in_one_tick() {
    let mut g = Game::default_room();
    g.set_in_game();
    g.apply_connections(&vec![ConnectionEvent::Connected(3)]);
    let keys = KeyDirections { up: false, down: false, left: false, right: true };
    let input = TickInput {
        keys,
        axes: vec![GamepadAxes { id: 3, x: 500, y: 500 }],
        action: false,
        escape: false,
        delta_ms: 100,
    };
    g.tick(&input);
    // Keyboard contributes 30_000 right; the gamepad 21_210 on each axis.
    assert_eq!(g.player_pos, Position { x: 691_210, y: 281_210, z: 0 });
}
