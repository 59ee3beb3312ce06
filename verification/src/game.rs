//! The simulation world and its tick scheduler.
//!
//! A tick runs the gameplay phases in a fixed order — input normalization,
//! movement integration, collision correction, trigger detection, item
//! exchange, mood update — and only while the outer mode is `InGame`. The
//! return-to-menu key is checked independently of the gameplay order: the
//! phases still run on the tick it is pressed, and the mode switches to
//! `Menu` as that tick ends. In `Menu` mode a tick changes nothing at all.

use vstd::prelude::*;
use vstd::pervasive::VecAdditionalExecFns;

use crate::collisions::{
    BoxCollider, ConfigError, TriggerArea, TriggerEvent, classify_spec, classify_transition,
    collider_ok, area_ok, in_trigger, trigger_contains, resolved_position, resolve_collision,
};
use crate::cooldown::Cooldown;
use crate::geometry::{Position, Vec2, UNIT, EXTENT_LIMIT, pos_ok, dir_ok, clamp_spec, clamp_coord};
use crate::happiness::{
    Happiness, DecayTimer, MoodOp, apply_op, MOOD_SCALE, INTERVAL_LIMIT_MS,
};
use crate::input::{
    KeyDirections, GamepadLobby, ConnectionEvent, keyboard_dir_spec, gamepad_dir_spec,
    keyboard_direction, gamepad_direction, lobby_after,
};
use crate::items::{
    Item, Carried, ExchangeAction, exchange_step, random_item, pickup_fires, delivery_fires,
    drop_fires, any_transition_fires,
};
use crate::movement::{
    SPEED_LIMIT, TICK_LIMIT_MS, MOVE_COORD_LIMIT, moved_position, apply_directions,
};

verus! {

/// The outer mode gating the gameplay phases.
#[derive(Clone, Copy, PartialEq, Eq, Structural, Debug)]
pub enum GameState {
    Menu,
    InGame,
}

/// Most solid anchors a world may hold; keeps a tick's accumulated collision
/// pushes within `i64`.
pub const MAX_SOLIDS: usize = 64;

/// Largest room side length, in coordinate units.
pub const ROOM_LIMIT: i64 = 1_000_000_000;

/// A static solid entity: room walls and furniture.
#[derive(Clone, Copy, PartialEq, Eq, Structural, Debug)]
pub struct Solid {
    pub position: Position,
    pub collider: BoxCollider,
}

/// A fixed, never-depleted item dispenser with a trigger zone.
#[derive(Clone, Copy, PartialEq, Eq, Structural, Debug)]
pub struct Producer {
    pub position: Position,
    pub area: TriggerArea,
    pub item: Item,
}

/// One gamepad's analog stick snapshot at the start of a tick, components in
/// thousandths of full deflection.
#[derive(Clone, Copy, PartialEq, Eq, Structural, Debug)]
pub struct GamepadAxes {
    pub id: u64,
    pub x: i64,
    pub y: i64,
}

/// The input snapshot one tick consumes.
pub struct TickInput {
    /// Pressed state of the four arrow keys.
    pub keys: KeyDirections,
    /// Stick snapshot of each readable gamepad; an absent entry reads as a
    /// centred stick.
    pub axes: Vec<GamepadAxes>,
    /// Whether the pick/drop/deliver action is asserted this tick.
    pub action: bool,
    /// Whether the return-to-menu key was pressed this tick.
    pub escape: bool,
    /// Elapsed time since the previous tick, in milliseconds.
    pub delta_ms: u64,
}

/// An input snapshot the tick accepts: bounded tick time and stick
/// deflections.
pub open spec fn input_ok(input: TickInput) -> bool {
    &&& input.delta_ms <= TICK_LIMIT_MS
    &&& forall|i: int|
        0 <= i < input.axes@.len() ==> -UNIT <= (#[trigger] input.axes@[i]).x <= UNIT && -UNIT
            <= input.axes@[i].y <= UNIT
}

/// The stick snapshot of the gamepad `id`: the first entry for it, or a
/// centred stick when none is readable.
pub open spec fn axis_pair(axes: Seq<GamepadAxes>, id: u64) -> Vec2
    decreases axes.len(),
{
    if axes.len() == 0 {
        Vec2 { x: 0, y: 0 }
    } else if axes[0].id == id {
        Vec2 { x: axes[0].x, y: axes[0].y }
    } else {
        axis_pair(axes.skip(1), id)
    }
}

proof fn lemma_axis_pair_skip(axes: Seq<GamepadAxes>, id: u64, i: int)
    requires
        0 <= i <= axes.len(),
        forall|j: int| 0 <= j < i ==> axes[j].id != id,
    ensures
        axis_pair(axes.skip(i), id) == axis_pair(axes, id),
    decreases i,
{
    if i > 0 {
        assert(axes.skip(1).skip(i - 1) =~= axes.skip(i));
        assert(forall|j: int| 0 <= j < i - 1 ==> axes.skip(1)[j].id != id);
        lemma_axis_pair_skip(axes.skip(1), id, i - 1);
        assert(axes[0].id != id);
        assert(axis_pair(axes, id) == axis_pair(axes.skip(1), id));
    } else {
        assert(axes.skip(0) =~= axes);
    }
}

/// Reads the stick snapshot of the gamepad `id`; a missing entry defaults to
/// a centred stick rather than erroring.
pub fn lookup_axes(axes: &Vec<GamepadAxes>, id: u64) -> (r: Vec2)
    ensures
        r == axis_pair(axes@, id),
{
    let mut i: usize = 0;
    while i < axes.len()
        invariant
            i <= axes@.len(),
            forall|j: int| 0 <= j < i ==> axes@[j].id != id,
        decreases axes@.len() - i,
    {
        if axes[i].id == id {
            proof {
                lemma_axis_pair_skip(axes@, id, i as int);
                assert(axes@.skip(i as int)[0] == axes@[i as int]);
            }
            return Vec2 { x: axes[i].x, y: axes[i].y };
        }
        i = i + 1;
    }
    proof {
        lemma_axis_pair_skip(axes@, id, axes@.len() as int);
    }
    Vec2 { x: 0, y: 0 }
}

/// A direction message as a (possibly empty) sequence.
pub open spec fn opt_dir_seq(o: Option<Vec2>) -> Seq<Vec2> {
    match o {
        Some(v) => seq![v],
        None => Seq::empty(),
    }
}

/// The direction messages the connected gamepads emit, in registry order.
pub open spec fn pad_directions(lobby: Seq<u64>, axes: Seq<GamepadAxes>) -> Seq<Vec2>
    decreases lobby.len(),
{
    if lobby.len() == 0 {
        Seq::empty()
    } else {
        pad_directions(lobby.drop_last(), axes) + opt_dir_seq(
            {
                let a = axis_pair(axes, lobby.last());
                gamepad_dir_spec(a.x as int, a.y as int)
            },
        )
    }
}

/// Every direction message of one tick: the keyboard's, then one per
/// connected gamepad.
pub open spec fn tick_directions(
    keys: KeyDirections,
    lobby: Seq<u64>,
    axes: Seq<GamepadAxes>,
) -> Seq<Vec2> {
    opt_dir_seq(keyboard_dir_spec(keys)) + pad_directions(lobby, axes)
}

/// The stick snapshot read for any gamepad stays within the deflection bound.
proof fn lemma_axis_pair_bounded(axes: Seq<GamepadAxes>, id: u64)
    requires
        forall|i: int|
            0 <= i < axes.len() ==> -UNIT <= (#[trigger] axes[i]).x <= UNIT && -UNIT <= axes[i].y
                <= UNIT,
    ensures
        -UNIT <= axis_pair(axes, id).x <= UNIT,
        -UNIT <= axis_pair(axes, id).y <= UNIT,
    decreases axes.len(),
{
    if axes.len() > 0 && axes[0].id != id {
        assert(forall|i: int|
            0 <= i < axes.skip(1).len() ==> -UNIT <= (#[trigger] axes.skip(1)[i]).x <= UNIT && -UNIT
                <= axes.skip(1)[i].y <= UNIT);
        lemma_axis_pair_bounded(axes.skip(1), id);
    }
}

/// A tick's direction messages are few and each within the fixed-point
/// bound: at most one from the keyboard and one per connected gamepad.
pub proof fn lemma_tick_directions_ok(keys: KeyDirections, lobby: Seq<u64>, axes: Seq<GamepadAxes>)
    requires
        forall|i: int|
            0 <= i < axes.len() ==> -UNIT <= (#[trigger] axes[i]).x <= UNIT && -UNIT <= axes[i].y
                <= UNIT,
    ensures
        tick_directions(keys, lobby, axes).len() <= 1 + lobby.len(),
        forall|i: int|
            0 <= i < tick_directions(keys, lobby, axes).len() ==> dir_ok(
                #[trigger] tick_directions(keys, lobby, axes)[i],
            ),
{
    crate::input::lemma_keyboard_emits_unit(keys);
    lemma_pad_directions_ok(lobby, axes);
    let kb = opt_dir_seq(keyboard_dir_spec(keys));
    let pads = pad_directions(lobby, axes);
    assert(forall|i: int| 0 <= i < kb.len() ==> dir_ok(#[trigger] kb[i]));
    assert(forall|i: int|
        0 <= i < tick_directions(keys, lobby, axes).len() ==> tick_directions(keys, lobby, axes)[i]
            == if i < kb.len() {
            kb[i]
        } else {
            pads[i - kb.len()]
        });
}

/// The gamepads' message sequence is one message or none per registry entry,
/// each within the fixed-point bound.
proof fn lemma_pad_directions_ok(lobby: Seq<u64>, axes: Seq<GamepadAxes>)
    requires
        forall|i: int|
            0 <= i < axes.len() ==> -UNIT <= (#[trigger] axes[i]).x <= UNIT && -UNIT <= axes[i].y
                <= UNIT,
    ensures
        pad_directions(lobby, axes).len() <= lobby.len(),
        forall|i: int|
            0 <= i < pad_directions(lobby, axes).len() ==> dir_ok(
                #[trigger] pad_directions(lobby, axes)[i],
            ),
    decreases lobby.len(),
{
    if lobby.len() > 0 {
        lemma_pad_directions_ok(lobby.drop_last(), axes);
        let a = axis_pair(axes, lobby.last());
        lemma_axis_pair_bounded(axes, lobby.last());
        crate::input::lemma_gamepad_dir_ok(a.x as int, a.y as int);
    }
}

/// Collects the direction messages of one tick: the keyboard's first, then
/// one per connected gamepad, in registry order.
pub fn gather_directions(
    keys: KeyDirections,
    lobby: &GamepadLobby,
    axes: &Vec<GamepadAxes>,
) -> (dirs: Vec<Vec2>)
    requires
        lobby.wf(),
        forall|i: int|
            0 <= i < axes@.len() ==> -UNIT <= (#[trigger] axes@[i]).x <= UNIT && -UNIT <= axes@[i].y
                <= UNIT,
    ensures
        dirs@ == tick_directions(keys, lobby.ids(), axes@),
{
    let mut dirs: Vec<Vec2> = Vec::new();
    match keyboard_direction(keys) {
        Some(v) => {
            dirs.push(v);
        },
        None => {},
    }
    proof {
        assert(dirs@ =~= opt_dir_seq(keyboard_dir_spec(keys)));
        assert(lobby.ids().take(0) =~= Seq::<u64>::empty());
        assert(dirs@ =~= opt_dir_seq(keyboard_dir_spec(keys)) + pad_directions(
            lobby.ids().take(0),
            axes@,
        ));
    }
    let n = lobby.count();
    let mut i: usize = 0;
    while i < n
        invariant
            i <= n,
            n == lobby.ids().len(),
            lobby.wf(),
            forall|k: int|
                0 <= k < axes@.len() ==> -UNIT <= (#[trigger] axes@[k]).x <= UNIT && -UNIT
                    <= axes@[k].y <= UNIT,
            dirs@ == opt_dir_seq(keyboard_dir_spec(keys)) + pad_directions(
                lobby.ids().take(i as int),
                axes@,
            ),
        decreases n - i,
    {
        let id = lobby.pad_at(i);
        let a = lookup_axes(axes, id);
        proof {
            lemma_axis_pair_bounded(axes@, id);
        }
        match gamepad_direction(a.x, a.y) {
            Some(v) => {
                dirs.push(v);
            },
            None => {},
        }
        proof {
            assert(lobby.ids().take(i + 1).drop_last() =~= lobby.ids().take(i as int));
            assert(lobby.ids().take(i + 1).last() == lobby.ids()[i as int]);
            assert(dirs@ =~= opt_dir_seq(keyboard_dir_spec(keys)) + pad_directions(
                lobby.ids().take(i + 1),
                axes@,
            ));
        }
        i = i + 1;
    }
    proof {
        assert(lobby.ids().take(n as int) =~= lobby.ids());
    }
    dirs
}

/// Where the player's box ends after being pushed out of each anchor in
/// order.
pub open spec fn resolved_through(p: Position, col: BoxCollider, solids: Seq<Solid>) -> Position
    decreases solids.len(),
{
    if solids.len() == 0 {
        p
    } else {
        resolved_position(
            resolved_through(p, col, solids.drop_last()),
            col,
            solids.last().position,
            solids.last().collider,
        )
    }
}

/// Pushes the player's box out of each static anchor, in order.
pub fn resolve_against_all(p: &Position, col: &BoxCollider, solids: &Vec<Solid>) -> (r: Position)
    requires
        -MOVE_COORD_LIMIT <= p.x <= MOVE_COORD_LIMIT,
        -MOVE_COORD_LIMIT <= p.y <= MOVE_COORD_LIMIT,
        -EXTENT_LIMIT <= p.z <= EXTENT_LIMIT,
        collider_ok(*col),
        solids@.len() <= MAX_SOLIDS,
        forall|i: int|
            0 <= i < solids@.len() ==> pos_ok((#[trigger] solids@[i]).position) && collider_ok(
                solids@[i].collider,
            ),
    ensures
        r == resolved_through(*p, *col, solids@),
        r.z == p.z,
        -MOVE_COORD_LIMIT - solids@.len() * 4 * EXTENT_LIMIT <= r.x <= MOVE_COORD_LIMIT
            + solids@.len() * 4 * EXTENT_LIMIT,
        -MOVE_COORD_LIMIT - solids@.len() * 4 * EXTENT_LIMIT <= r.y <= MOVE_COORD_LIMIT
            + solids@.len() * 4 * EXTENT_LIMIT,
{
    let mut cur: Position = *p;
    let mut i: usize = 0;
    while i < solids.len()
        invariant
            i <= solids@.len(),
            solids@.len() <= MAX_SOLIDS,
            collider_ok(*col),
            forall|j: int|
                0 <= j < solids@.len() ==> pos_ok((#[trigger] solids@[j]).position) && collider_ok(
                    solids@[j].collider,
                ),
            -MOVE_COORD_LIMIT <= p.x <= MOVE_COORD_LIMIT,
            -MOVE_COORD_LIMIT <= p.y <= MOVE_COORD_LIMIT,
            -EXTENT_LIMIT <= p.z <= EXTENT_LIMIT,
            cur == resolved_through(*p, *col, solids@.take(i as int)),
            cur.z == p.z,
            -MOVE_COORD_LIMIT - i as int * 4 * EXTENT_LIMIT <= cur.x <= MOVE_COORD_LIMIT + i
                as int * 4 * EXTENT_LIMIT,
            -MOVE_COORD_LIMIT - i as int * 4 * EXTENT_LIMIT <= cur.y <= MOVE_COORD_LIMIT + i
                as int * 4 * EXTENT_LIMIT,
        decreases solids@.len() - i,
    {
        let s = &solids[i];
        let next = resolve_collision(&cur, col, &s.position, &s.collider);
        proof {
            assert(solids@.take(i + 1).drop_last() =~= solids@.take(i as int));
            assert(solids@.take(i + 1).last() == solids@[i as int]);
        }
        cur = next;
        i = i + 1;
    }
    proof {
        assert(solids@.take(solids@.len() as int) =~= solids@);
    }
    cur
}

/// What one tick reported: the exchange outcome, the trigger events of the
/// player against the companion's zone and against each producer's zone, and
/// whether the decay interval elapsed.
pub struct TickReport {
    pub action: ExchangeAction,
    pub companion_event: Option<TriggerEvent>,
    pub producer_events: Vec<Option<TriggerEvent>>,
    pub decay_fired: bool,
}

/// The configuration constants the simulation consumes.
#[derive(Clone, Copy, PartialEq, Eq, Structural, Debug)]
pub struct GameConfig {
    /// Room width, in coordinate units (thousandths of a world unit).
    pub room_width: i64,
    /// Room height, in coordinate units.
    pub room_height: i64,
    /// Player speed, in coordinate units per second.
    pub speed: i64,
    /// Debounce window of the pick/drop/deliver action, in milliseconds.
    pub cooldown_ms: u64,
    /// Interval of the mood decay, in milliseconds.
    pub decay_interval_ms: u64,
    /// Mood lost per decay, in thousandths of full happiness.
    pub decay_amount: u32,
    /// Mood gained per delivery, in thousandths of full happiness.
    pub reward_amount: u32,
}

/// A configuration the simulation accepts.
pub open spec fn config_ok(c: GameConfig) -> bool {
    &&& 0 < c.room_width <= ROOM_LIMIT
    &&& 0 < c.room_height <= ROOM_LIMIT
    &&& 0 < c.speed <= SPEED_LIMIT
    &&& 0 < c.decay_interval_ms <= INTERVAL_LIMIT_MS
}

/// The item of the first producer whose zone contains the position, if any.
pub open spec fn first_producer_item(producers: Seq<Producer>, p: Position) -> Option<Item>
    decreases producers.len(),
{
    if producers.len() == 0 {
        None
    } else if in_trigger(producers[0].position, producers[0].area, p) {
        Some(producers[0].item)
    } else {
        first_producer_item(producers.skip(1), p)
    }
}

proof fn lemma_first_producer_skip(producers: Seq<Producer>, p: Position, i: int)
    requires
        0 <= i <= producers.len(),
        forall|j: int|
            0 <= j < i ==> !in_trigger((#[trigger] producers[j]).position, producers[j].area, p),
    ensures
        first_producer_item(producers.skip(i), p) == first_producer_item(producers, p),
    decreases i,
{
    if i > 0 {
        assert(producers.skip(1).skip(i - 1) =~= producers.skip(i));
        assert(forall|j: int|
            0 <= j < i - 1 ==> !in_trigger(
                (#[trigger] producers.skip(1)[j]).position,
                producers.skip(1)[j].area,
                p,
            ));
        lemma_first_producer_skip(producers.skip(1), p, i - 1);
        assert(!in_trigger(producers[0].position, producers[0].area, p));
        assert(first_producer_item(producers, p) == first_producer_item(producers.skip(1), p));
    } else {
        assert(producers.skip(0) =~= producers);
    }
}

/// Finds the item of the first producer whose zone contains the position.
pub fn producer_at(producers: &Vec<Producer>, p: &Position) -> (r: Option<Item>)
    requires
        pos_ok(*p),
        forall|i: int|
            0 <= i < producers@.len() ==> pos_ok((#[trigger] producers@[i]).position) && area_ok(
                producers@[i].area,
            ),
    ensures
        r == first_producer_item(producers@, *p),
{
    let mut i: usize = 0;
    while i < producers.len()
        invariant
            i <= producers@.len(),
            pos_ok(*p),
            forall|j: int|
                0 <= j < producers@.len() ==> pos_ok((#[trigger] producers@[j]).position)
                    && area_ok(producers@[j].area),
            forall|j: int|
                0 <= j < i ==> !in_trigger(
                    (#[trigger] producers@[j]).position,
                    producers@[j].area,
                    *p,
                ),
        decreases producers@.len() - i,
    {
        let prod = &producers[i];
        if trigger_contains(&prod.position, &prod.area, p) {
            proof {
                lemma_first_producer_skip(producers@, *p, i as int);
                assert(producers@.skip(i as int)[0] == producers@[i as int]);
            }
            return Some(prod.item);
        }
        i = i + 1;
    }
    proof {
        lemma_first_producer_skip(producers@, *p, producers@.len() as int);
    }
    None
}

/// The simulation world: the player, the companion, the static solids and
/// producers, the carried and requested item slots, the mood, the timers and
/// the input registry, gated by the outer mode.
pub struct Game {
    pub mode: GameState,
    pub room_width: i64,
    pub room_height: i64,
    pub speed: i64,
    pub player_pos: Position,
    pub player_collider: BoxCollider,
    pub carried: Carried,
    pub solids: Vec<Solid>,
    pub companion_pos: Position,
    pub companion_area: TriggerArea,
    pub requested: Item,
    pub happiness: Happiness,
    pub prev_in_companion: bool,
    pub producers: Vec<Producer>,
    pub prev_in_producer: Vec<bool>,
    pub action_cooldown: Cooldown,
    pub decay_timer: DecayTimer,
    pub decay_amount: u32,
    pub reward_amount: u32,
    pub lobby: GamepadLobby,
}

/// A report of a tick in which no gameplay phase ran or nothing fired.
pub open spec fn noop_report(r: TickReport) -> bool {
    &&& r.action is NoAction
    &&& r.companion_event is None
    &&& r.producer_events@.len() == 0
    &&& !r.decay_fired
}

/// The configuration and the static world are the same in both states.
pub open spec fn same_world(a: Game, b: Game) -> bool {
    &&& b.room_width == a.room_width
    &&& b.room_height == a.room_height
    &&& b.speed == a.speed
    &&& b.player_collider == a.player_collider
    &&& b.solids == a.solids
    &&& b.companion_pos == a.companion_pos
    &&& b.companion_area == a.companion_area
    &&& b.producers == a.producers
    &&& b.decay_amount == a.decay_amount
    &&& b.reward_amount == a.reward_amount
    &&& b.lobby == a.lobby
}

/// No gameplay phase mutated anything: every entity slot, position, flag and
/// timer is the same in both states.
pub open spec fn gameplay_untouched(a: Game, b: Game) -> bool {
    &&& b.player_pos == a.player_pos
    &&& b.carried == a.carried
    &&& b.requested == a.requested
    &&& b.happiness == a.happiness
    &&& b.prev_in_companion == a.prev_in_companion
    &&& b.prev_in_producer == a.prev_in_producer
    &&& b.action_cooldown == a.action_cooldown
    &&& b.decay_timer == a.decay_timer
}

/// A world the tick accepts.
pub open spec fn game_ok(g: Game) -> bool {
    &&& 0 < g.room_width <= ROOM_LIMIT
    &&& 0 < g.room_height <= ROOM_LIMIT
    &&& 0 <= g.player_pos.x <= g.room_width
    &&& 0 <= g.player_pos.y <= g.room_height
    &&& -EXTENT_LIMIT <= g.player_pos.z <= EXTENT_LIMIT
    &&& collider_ok(g.player_collider)
    &&& 0 < g.speed <= SPEED_LIMIT
    &&& g.solids@.len() <= MAX_SOLIDS
    &&& forall|i: int|
        0 <= i < g.solids@.len() ==> pos_ok((#[trigger] g.solids@[i]).position) && collider_ok(
            g.solids@[i].collider,
        )
    &&& pos_ok(g.companion_pos)
    &&& area_ok(g.companion_area)
    &&& forall|i: int|
        0 <= i < g.producers@.len() ==> pos_ok((#[trigger] g.producers@[i]).position) && area_ok(
            g.producers@[i].area,
        )
    &&& g.prev_in_producer@.len() == g.producers@.len()
    &&& g.lobby.wf()
}

/// Where the movement and collision phases leave the player: every direction
/// message integrated, each anchor's push applied in order, the result kept
/// inside the room.
pub open spec fn post_move_position(g: Game, input: TickInput) -> Position {
    let dirs = tick_directions(input.keys, g.lobby.ids(), input.axes@);
    let moved = moved_position(g.player_pos, dirs, g.speed as int, input.delta_ms as int);
    let resolved = resolved_through(moved, g.player_collider, g.solids@);
    Position {
        x: clamp_spec(resolved.x as int, 0, g.room_width as int) as i64,
        y: clamp_spec(resolved.y as int, 0, g.room_height as int) as i64,
        z: resolved.z,
    }
}

/// Whether the action cooldown reports ready during this tick's exchange
/// phase, after accumulating the tick's elapsed time.
pub open spec fn cooldown_ready_at(g: Game, input: TickInput) -> bool {
    g.action_cooldown.elapsed() + input.delta_ms >= g.action_cooldown.duration()
}

/// Where the player starts in the fixed room.
pub open spec fn default_player_position() -> Position {
    Position { x: 640_000, y: 260_000, z: 0 }
}

/// The player's solid box in the fixed room: its centre sits slightly below
/// the position.
pub open spec fn default_player_collider() -> BoxCollider {
    BoxCollider { half_width: 37_500, half_height: 25_000, offset_x: 0, offset_y: -10_000i64 }
}

/// Where the companion sits in the fixed room, lifted for presentation.
pub open spec fn default_companion_position() -> Position {
    Position { x: 1_050_000, y: 150_000, z: 85_000 }
}

/// The companion's request zone in the fixed room.
pub open spec fn default_companion_area() -> TriggerArea {
    TriggerArea { half_width: 75_000, half_height: 75_000 }
}

/// The static solids of the fixed room: the sink, the kitchen, the fridge,
/// the couch and the table, then the four boundary walls ringing the room
/// (top, bottom, left, right), the immovable anchors of collision
/// correction.
pub open spec fn default_solids() -> Seq<Solid> {
    seq![
        Solid {
            position: Position { x: 1_050_000, y: 500_000, z: 0 },
            collider: BoxCollider {
                half_width: 110_000,
                half_height: 20_000,
                offset_x: 0,
                offset_y: 10_000,
            },
        },
        Solid {
            position: Position { x: 300_000, y: 540_000, z: 0 },
            collider: BoxCollider {
                half_width: 200_000,
                half_height: 50_000,
                offset_x: 0,
                offset_y: 0,
            },
        },
        Solid {
            position: Position { x: 720_000, y: 540_000, z: 0 },
            collider: BoxCollider {
                half_width: 50_000,
                half_height: 50_000,
                offset_x: 0,
                offset_y: 0,
            },
        },
        Solid {
            position: Position { x: 1_000_000, y: 150_000, z: 0 },
            collider: BoxCollider {
                half_width: 150_000,
                half_height: 20_000,
                offset_x: 10_000,
                offset_y: 15_000,
            },
        },
        Solid {
            position: Position { x: 300_000, y: 200_000, z: 0 },
            collider: BoxCollider {
                half_width: 150_000,
                half_height: 20_000,
                offset_x: 0,
                offset_y: 25_000,
            },
        },
        Solid {
            position: Position { x: 640_000, y: 560_000, z: 0 },
            collider: BoxCollider {
                half_width: 640_000,
                half_height: 25_000,
                offset_x: 0,
                offset_y: 0,
            },
        },
        Solid {
            position: Position { x: 640_000, y: 25_000, z: 0 },
            collider: BoxCollider {
                half_width: 640_000,
                half_height: 25_000,
                offset_x: 0,
                offset_y: 0,
            },
        },
        Solid {
            position: Position { x: 25_000, y: 360_000, z: 0 },
            collider: BoxCollider {
                half_width: 25_000,
                half_height: 360_000,
                offset_x: 0,
                offset_y: 0,
            },
        },
        Solid {
            position: Position { x: 1_255_000, y: 360_000, z: 0 },
            collider: BoxCollider {
                half_width: 25_000,
                half_height: 360_000,
                offset_x: 0,
                offset_y: 0,
            },
        },
    ]
}

/// The three stateless producers of the fixed room: the water glass at the
/// sink, the chips on the shelf, the ice cream at the fridge, each with its
/// trigger zone.
pub open spec fn default_producers() -> Seq<Producer> {
    seq![
        Producer {
            position: Position { x: 1_050_000, y: 500_000, z: 0 },
            area: TriggerArea { half_width: 115_000, half_height: 25_000 },
            item: Item::WaterGlass,
        },
        Producer {
            position: Position { x: 210_000, y: 480_000, z: 0 },
            area: TriggerArea { half_width: 37_500, half_height: 37_500 },
            item: Item::Chips,
        },
        Producer {
            position: Position { x: 720_000, y: 540_000, z: 0 },
            area: TriggerArea { half_width: 87_500, half_height: 87_500 },
            item: Item::IceCream,
        },
    ]
}

impl Game {
    /// Assembles a world, rejecting any zero or negative collider or trigger
    /// half-extent, as the configuration error taxonomy demands. The world
    /// starts in the menu, with an empty carried slot, full happiness, both
    /// timers empty and no gamepad connected.
    #[verifier::loop_isolation(false)]
    pub fn spawn(
        config: GameConfig,
        player_pos: Position,
        player_collider: BoxCollider,
        solids: Vec<Solid>,
        companion_pos: Position,
        companion_area: TriggerArea,
        requested: Item,
        producers: Vec<Producer>,
    ) -> (r: Result<Game, ConfigError>)
        requires
            config_ok(config),
            0 <= player_pos.x <= config.room_width,
            0 <= player_pos.y <= config.room_height,
            -EXTENT_LIMIT <= player_pos.z <= EXTENT_LIMIT,
            player_collider.half_width <= EXTENT_LIMIT,
            player_collider.half_height <= EXTENT_LIMIT,
            -EXTENT_LIMIT <= player_collider.offset_x <= EXTENT_LIMIT,
            -EXTENT_LIMIT <= player_collider.offset_y <= EXTENT_LIMIT,
            solids@.len() <= MAX_SOLIDS,
            forall|i: int|
                0 <= i < solids@.len() ==> pos_ok((#[trigger] solids@[i]).position)
                    && solids@[i].collider.half_width <= EXTENT_LIMIT
                    && solids@[i].collider.half_height <= EXTENT_LIMIT && -EXTENT_LIMIT
                    <= solids@[i].collider.offset_x <= EXTENT_LIMIT && -EXTENT_LIMIT
                    <= solids@[i].collider.offset_y <= EXTENT_LIMIT,
            pos_ok(companion_pos),
            companion_area.half_width <= EXTENT_LIMIT,
            companion_area.half_height <= EXTENT_LIMIT,
            forall|i: int|
                0 <= i < producers@.len() ==> pos_ok((#[trigger] producers@[i]).position)
                    && producers@[i].area.half_width <= EXTENT_LIMIT
                    && producers@[i].area.half_height <= EXTENT_LIMIT,
        ensures
            r is Ok <==> ({
                &&& player_collider.half_width > 0 && player_collider.half_height > 0
                &&& forall|i: int|
                    0 <= i < solids@.len() ==> (#[trigger] solids@[i]).collider.half_width > 0
                        && solids@[i].collider.half_height > 0
                &&& companion_area.half_width > 0 && companion_area.half_height > 0
                &&& forall|i: int|
                    0 <= i < producers@.len() ==> (#[trigger] producers@[i]).area.half_width > 0
                        && producers@[i].area.half_height > 0
            }),
            r matches Ok(g) ==> ({
                &&& game_ok(g)
                &&& g.mode is Menu
                &&& g.room_width == config.room_width
                &&& g.room_height == config.room_height
                &&& g.speed == config.speed
                &&& g.player_pos == player_pos
                &&& g.player_collider == player_collider
                &&& g.carried is Empty
                &&& g.solids == solids
                &&& g.companion_pos == companion_pos
                &&& g.companion_area == companion_area
                &&& g.requested == requested
                &&& g.happiness.value() == MOOD_SCALE
                &&& !g.prev_in_companion
                &&& g.producers == producers
                &&& g.prev_in_producer@.len() == producers@.len()
                &&& forall|i: int|
                    0 <= i < producers@.len() ==> !(#[trigger] g.prev_in_producer@[i])
                &&& g.action_cooldown.duration() == config.cooldown_ms
                &&& g.action_cooldown.elapsed() == 0
                &&& g.decay_timer.interval() == config.decay_interval_ms
                &&& g.decay_timer.accumulated() == 0
                &&& g.decay_amount == config.decay_amount
                &&& g.reward_amount == config.reward_amount
                &&& g.lobby.ids() =~= Seq::<u64>::empty()
            }),
            r is Err ==> r == Result::<Game, ConfigError>::Err(ConfigError::NonPositiveExtent),
    {
        if player_collider.half_width <= 0 || player_collider.half_height <= 0 {
            return Err(ConfigError::NonPositiveExtent);
        }
        if companion_area.half_width <= 0 || companion_area.half_height <= 0 {
            return Err(ConfigError::NonPositiveExtent);
        }
        let mut i: usize = 0;
        while i < solids.len()
            invariant
                i <= solids@.len(),
                forall|j: int|
                    0 <= j < i ==> (#[trigger] solids@[j]).collider.half_width > 0
                        && solids@[j].collider.half_height > 0,
            decreases solids@.len() - i,
        {
            if solids[i].collider.half_width <= 0 || solids[i].collider.half_height <= 0 {
                return Err(ConfigError::NonPositiveExtent);
            }
            i = i + 1;
        }
        let mut k: usize = 0;
        while k < producers.len()
            invariant
                k <= producers@.len(),
                forall|j: int|
                    0 <= j < k ==> (#[trigger] producers@[j]).area.half_width > 0
                        && producers@[j].area.half_height > 0,
            decreases producers@.len() - k,
        {
            if producers[k].area.half_width <= 0 || producers[k].area.half_height <= 0 {
                return Err(ConfigError::NonPositiveExtent);
            }
            k = k + 1;
        }
        let mut prev_in_producer: Vec<bool> = Vec::new();
        let mut m: usize = 0;
        while m < producers.len()
            invariant
                m <= producers@.len(),
                prev_in_producer@.len() == m,
                forall|j: int| 0 <= j < m ==> !(#[trigger] prev_in_producer@[j]),
            decreases producers@.len() - m,
        {
            prev_in_producer.push(false);
            m = m + 1;
        }
        Ok(
            Game {
                mode: GameState::Menu,
                room_width: config.room_width,
                room_height: config.room_height,
                speed: config.speed,
                player_pos,
                player_collider,
                carried: Carried::Empty,
                solids,
                companion_pos,
                companion_area,
                requested,
                happiness: Happiness::happy(),
                prev_in_companion: false,
                producers,
                prev_in_producer,
                action_cooldown: Cooldown::from_millis(config.cooldown_ms),
                decay_timer: DecayTimer::new(config.decay_interval_ms),
                decay_amount: config.decay_amount,
                reward_amount: config.reward_amount,
                lobby: GamepadLobby::new(),
            },
        )
    }

    /// The fixed room of the simulation: the player and the companion, the
    /// furniture and the four boundary walls, and the three item producers,
    /// with the default configuration. The companion's first request is drawn
    /// at random.
    pub fn default_room() -> (g: Game)
        ensures
            game_ok(g),
            g.mode is Menu,
            g.carried is Empty,
            g.happiness.value() == MOOD_SCALE,
            g.room_width == 1_280_000 && g.room_height == 720_000,
            g.speed == 300_000,
            g.player_pos == default_player_position(),
            g.player_collider == default_player_collider(),
            g.companion_pos == default_companion_position(),
            g.companion_area == default_companion_area(),
            g.solids@ =~= default_solids(),
            g.producers@ =~= default_producers(),
            !g.prev_in_companion,
            g.prev_in_producer@ =~= seq![false, false, false],
            g.action_cooldown.duration() == 200,
            g.action_cooldown.elapsed() == 0,
            g.decay_timer.interval() == 1000,
            g.decay_timer.accumulated() == 0,
            g.decay_amount == 50,
            g.reward_amount == 200,
            g.lobby.ids() =~= Seq::<u64>::empty(),
    {
        let config = GameConfig {
            room_width: 1_280_000,
            room_height: 720_000,
            speed: 300_000,
            cooldown_ms: 200,
            decay_interval_ms: 1000,
            decay_amount: 50,
            reward_amount: 200,
        };
        let player_pos = Position { x: 640_000, y: 260_000, z: 0 };
        let player_collider = BoxCollider {
            half_width: 37_500,
            half_height: 25_000,
            offset_x: 0,
            offset_y: -10_000,
        };
        let solids: Vec<Solid> = vec![
            // Sink
            Solid {
                position: Position { x: 1_050_000, y: 500_000, z: 0 },
                collider: BoxCollider {
                    half_width: 110_000,
                    half_height: 20_000,
                    offset_x: 0,
                    offset_y: 10_000,
                },
            },
            // Kitchen
            Solid {
                position: Position { x: 300_000, y: 540_000, z: 0 },
                collider: BoxCollider {
                    half_width: 200_000,
                    half_height: 50_000,
                    offset_x: 0,
                    offset_y: 0,
                },
            },
            // Fridge
            Solid {
                position: Position { x: 720_000, y: 540_000, z: 0 },
                collider: BoxCollider {
                    half_width: 50_000,
                    half_height: 50_000,
                    offset_x: 0,
                    offset_y: 0,
                },
            },
            // Couch
            Solid {
                position: Position { x: 1_000_000, y: 150_000, z: 0 },
                collider: BoxCollider {
                    half_width: 150_000,
                    half_height: 20_000,
                    offset_x: 10_000,
                    offset_y: 15_000,
                },
            },
            // Table
            Solid {
                position: Position { x: 300_000, y: 200_000, z: 0 },
                collider: BoxCollider {
                    half_width: 150_000,
                    half_height: 20_000,
                    offset_x: 0,
                    offset_y: 25_000,
                },
            },
            // Room boundaries: top, bottom, left, right
            Solid {
                position: Position { x: 640_000, y: 560_000, z: 0 },
                collider: BoxCollider {
                    half_width: 640_000,
                    half_height: 25_000,
                    offset_x: 0,
                    offset_y: 0,
                },
            },
            Solid {
                position: Position { x: 640_000, y: 25_000, z: 0 },
                collider: BoxCollider {
                    half_width: 640_000,
                    half_height: 25_000,
                    offset_x: 0,
                    offset_y: 0,
                },
            },
            Solid {
                position: Position { x: 25_000, y: 360_000, z: 0 },
                collider: BoxCollider {
                    half_width: 25_000,
                    half_height: 360_000,
                    offset_x: 0,
                    offset_y: 0,
                },
            },
            Solid {
                position: Position { x: 1_255_000, y: 360_000, z: 0 },
                collider: BoxCollider {
                    half_width: 25_000,
                    half_height: 360_000,
                    offset_x: 0,
                    offset_y: 0,
                },
            },
        ];
        let companion_pos = Position { x: 1_050_000, y: 150_000, z: 85_000 };
        let companion_area = TriggerArea { half_width: 75_000, half_height: 75_000 };
        let producers: Vec<Producer> = vec![
            Producer {
                position: Position { x: 1_050_000, y: 500_000, z: 0 },
                area: TriggerArea { half_width: 115_000, half_height: 25_000 },
                item: Item::WaterGlass,
            },
            Producer {
                position: Position { x: 210_000, y: 480_000, z: 0 },
                area: TriggerArea { half_width: 37_500, half_height: 37_500 },
                item: Item::Chips,
            },
            Producer {
                position: Position { x: 720_000, y: 540_000, z: 0 },
                area: TriggerArea { half_width: 87_500, half_height: 87_500 },
                item: Item::IceCream,
            },
        ];
        let requested = random_item();
        let r = Game::spawn(
            config,
            player_pos,
            player_collider,
            solids,
            companion_pos,
            companion_area,
            requested,
            producers,
        );
        r.unwrap()
    }

    /// Switches from the menu into the game; the external transition that
    /// starts gameplay. Nothing else changes.
    pub fn set_in_game(&mut self)
        ensures
            final(self).mode is InGame,
            same_world(*old(self), *final(self)),
            gameplay_untouched(*old(self), *final(self)),
    {
        self.mode = GameState::InGame;
    }

    /// Applies the tick's gamepad connect and disconnect messages to the
    /// registry. This runs before the gameplay phases and regardless of the
    /// mode, as input plumbing rather than gameplay.
    pub fn apply_connections(&mut self, events: &Vec<ConnectionEvent>)
        requires
            old(self).lobby.wf(),
        ensures
            final(self).lobby.wf(),
            final(self).lobby.ids() == lobby_after(old(self).lobby.ids(), events@),
            final(self).mode == old(self).mode,
            final(self).room_width == old(self).room_width,
            final(self).room_height == old(self).room_height,
            final(self).speed == old(self).speed,
            final(self).player_collider == old(self).player_collider,
            final(self).solids == old(self).solids,
            final(self).companion_pos == old(self).companion_pos,
            final(self).companion_area == old(self).companion_area,
            final(self).producers == old(self).producers,
            final(self).decay_amount == old(self).decay_amount,
            final(self).reward_amount == old(self).reward_amount,
            gameplay_untouched(*old(self), *final(self)),
            game_ok(*old(self)) ==> game_ok(*final(self)),
    {
        self.lobby.apply_events(events);
    }

    /// Runs one simulation step.
    ///
    /// In `Menu` mode nothing at all changes: no gameplay phase runs. In
    /// `InGame` mode the phases run in their fixed order — input
    /// normalization, movement integration, collision correction, trigger
    /// detection, item exchange, mood update — whether or not the
    /// return-to-menu key is pressed: that key is checked independently of
    /// the gameplay ordering, and when pressed the mode switches to `Menu`
    /// as the tick ends, discarding no in-flight state.
    #[verifier::loop_isolation(false)]
    pub fn tick(&mut self, input: &TickInput) -> (report: TickReport)
        requires
            game_ok(*old(self)),
            input_ok(*input),
        ensures
            game_ok(*final(self)),
            same_world(*old(self), *final(self)),
            old(self).mode is Menu ==> *final(self) == *old(self) && noop_report(report),
            old(self).mode is InGame ==> final(self).mode == (if input.escape {
                GameState::Menu
            } else {
                GameState::InGame
            }),
            old(self).mode is InGame ==> ({
                let g = *old(self);
                let newpos = post_move_position(g, *input);
                let ready = cooldown_ready_at(g, *input);
                let at_comp = in_trigger(g.companion_pos, g.companion_area, newpos);
                let at_prod = first_producer_item(g.producers@, newpos);
                let delivered = delivery_fires(
                    g.carried,
                    g.requested,
                    at_comp,
                    input.action,
                    ready,
                );
                let dropped = drop_fires(g.carried, g.requested, at_comp, input.action, ready);
                let picked = pickup_fires(g.carried, at_prod, input.action, ready);
                let any = any_transition_fires(
                    g.carried,
                    g.requested,
                    at_prod,
                    at_comp,
                    input.action,
                    ready,
                );
                let after_reward = if delivered {
                    apply_op(g.happiness.value() as int, MoodOp::Reward(g.reward_amount))
                } else {
                    g.happiness.value() as int
                };
                let decays = g.decay_timer.accumulated() + input.delta_ms
                    >= g.decay_timer.interval();
                &&& final(self).player_pos == newpos
                &&& final(self).prev_in_companion == at_comp
                &&& report.companion_event == classify_spec(g.prev_in_companion, at_comp)
                &&& report.producer_events@.len() == g.producers@.len()
                &&& forall|i: int|
                    0 <= i < g.producers@.len() ==> (#[trigger] report.producer_events@[i])
                        == classify_spec(
                        g.prev_in_producer@[i],
                        in_trigger(g.producers@[i].position, g.producers@[i].area, newpos),
                    )
                &&& forall|i: int|
                    0 <= i < g.producers@.len() ==> (#[trigger] final(self).prev_in_producer@[i])
                        == in_trigger(g.producers@[i].position, g.producers@[i].area, newpos)
                &&& (delivered ==> final(self).carried is Empty && report.action is Delivered)
                &&& (report.action is Delivered ==> delivered)
                &&& (dropped ==> final(self).carried is Empty && (g.carried matches
                    Carried::Carrying(x) ==> report.action == ExchangeAction::Dropped(x)))
                &&& (picked ==> (at_prod matches Some(it) ==> final(self).carried
                    == Carried::Carrying(it) && report.action == ExchangeAction::PickedUp(it)))
                &&& (!any ==> final(self).carried == g.carried && report.action is NoAction)
                &&& (!delivered ==> final(self).requested == g.requested)
                &&& final(self).action_cooldown.duration() == g.action_cooldown.duration()
                &&& final(self).action_cooldown.elapsed() == (if any {
                    0u64
                } else if ready {
                    g.action_cooldown.duration()
                } else {
                    (g.action_cooldown.elapsed() + input.delta_ms) as u64
                })
                &&& report.decay_fired == decays
                &&& final(self).decay_timer.interval() == g.decay_timer.interval()
                &&& final(self).happiness.value() == (if decays {
                    apply_op(after_reward, MoodOp::Decay(g.decay_amount))
                } else {
                    after_reward
                })
            }),
    {
        match self.mode {
            GameState::Menu => {
                return TickReport {
                    action: ExchangeAction::NoAction,
                    companion_event: None,
                    producer_events: Vec::new(),
                    decay_fired: false,
                };
            },
            GameState::InGame => {},
        }
        // Input normalization.
        let dirs = gather_directions(input.keys, &self.lobby, &input.axes);
        proof {
            lemma_tick_directions_ok(input.keys, self.lobby.ids(), input.axes@);
        }
        // Movement integration.
        let moved = apply_directions(&self.player_pos, &dirs, self.speed, input.delta_ms);
        // Collision correction against the static anchors.
        let resolved = resolve_against_all(&moved, &self.player_collider, &self.solids);
        let newpos = Position {
            x: clamp_coord(resolved.x, 0, self.room_width),
            y: clamp_coord(resolved.y, 0, self.room_height),
            z: resolved.z,
        };
        self.player_pos = newpos;
        proof {
            assert(newpos == post_move_position(*old(self), *input));
        }
        // Trigger detection.
        let at_comp = trigger_contains(&self.companion_pos, &self.companion_area, &self.player_pos);
        let companion_event = classify_transition(self.prev_in_companion, at_comp);
        self.prev_in_companion = at_comp;
        let mut producer_events: Vec<Option<TriggerEvent>> = Vec::new();
        let mut i: usize = 0;
        while i < self.producers.len()
            invariant
                i <= self.producers@.len(),
                self.mode == GameState::InGame,
                self.room_width == old(self).room_width,
                self.room_height == old(self).room_height,
                self.speed == old(self).speed,
                self.player_pos == newpos,
                self.player_collider == old(self).player_collider,
                self.carried == old(self).carried,
                self.solids == old(self).solids,
                self.companion_pos == old(self).companion_pos,
                self.companion_area == old(self).companion_area,
                self.requested == old(self).requested,
                self.happiness == old(self).happiness,
                self.prev_in_companion == at_comp,
                self.producers == old(self).producers,
                self.action_cooldown == old(self).action_cooldown,
                self.decay_timer == old(self).decay_timer,
                self.decay_amount == old(self).decay_amount,
                self.reward_amount == old(self).reward_amount,
                self.lobby == old(self).lobby,
                self.prev_in_producer@.len() == old(self).prev_in_producer@.len(),
                producer_events@.len() == i,
                forall|j: int|
                    0 <= j < i ==> (#[trigger] producer_events@[j]) == classify_spec(
                        old(self).prev_in_producer@[j],
                        in_trigger(
                            self.producers@[j].position,
                            self.producers@[j].area,
                            newpos,
                        ),
                    ),
                forall|j: int|
                    0 <= j < i ==> (#[trigger] self.prev_in_producer@[j]) == in_trigger(
                        self.producers@[j].position,
                        self.producers@[j].area,
                        newpos,
                    ),
                forall|j: int|
                    i <= j < self.prev_in_producer@.len() ==> (#[trigger] self.prev_in_producer@[j])
                        == old(self).prev_in_producer@[j],
            decreases self.producers@.len() - i,
        {
            let inside = trigger_contains(
                &self.producers[i].position,
                &self.producers[i].area,
                &self.player_pos,
            );
            let prev = self.prev_in_producer[i];
            producer_events.push(classify_transition(prev, inside));
            self.prev_in_producer.set(i, inside);
            i = i + 1;
        }
        // Item exchange, debounced by the action cooldown.
        let at_prod = producer_at(&self.producers, &self.player_pos);
        self.action_cooldown.tick(input.delta_ms);
        let (new_carried, act) = exchange_step(
            self.carried,
            self.requested,
            at_prod,
            at_comp,
            input.action,
            &mut self.action_cooldown,
        );
        self.carried = new_carried;
        let delivered = matches!(act, ExchangeAction::Delivered);
        if delivered {
            self.requested = random_item();
            self.happiness.add(self.reward_amount);
        }
        // Mood decay on its fixed interval.
        let decay_fired = self.decay_timer.tick(input.delta_ms);
        if decay_fired {
            self.happiness.sub(self.decay_amount);
        }
        // Return-to-menu transition, checked independently of the gameplay
        // phases: it takes effect as the tick ends.
        if input.escape {
            self.mode = GameState::Menu;
        }
        TickReport { action: act, companion_event, producer_events, decay_fired }
    }
}

} // verus!
