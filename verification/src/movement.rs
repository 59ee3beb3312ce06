//! Movement integration: advances the player's position from the direction
//! messages of the tick, the configured speed and the elapsed tick time.
//!
//! Each direction message displaces the position by
//! `direction * speed * elapsed`, where the direction components are in
//! thousandths (`UNIT` is one), speed is in coordinate units per second and
//! the elapsed time is in milliseconds; the product is divided by
//! `UNIT * 1000` with the quotient rounded toward zero. Each step saturates
//! at `MOVE_COORD_LIMIT`, a bound far beyond any room, which keeps a tick's
//! arithmetic inside `i64` however many sources emit a message. Integration
//! never consults colliders: collision correction follows in the same tick.

use vstd::prelude::*;

use crate::geometry::{Position, Vec2, UNIT, dir_ok, clamp_spec, clamp_coord};

verus! {

/// Largest speed the movement phase accepts, in coordinate units per second.
pub const SPEED_LIMIT: i64 = 10_000_000;

/// Largest tick duration the simulation accepts, in milliseconds.
pub const TICK_LIMIT_MS: u64 = 1_000_000;

/// Largest displacement one direction message can cause along one axis.
pub const STEP_LIMIT: i64 = 10_000_000_000;

/// The coordinate magnitude each integration step saturates at; far above
/// any room, so only positions already outside every wall can reach it.
pub const MOVE_COORD_LIMIT: i64 = 100_000_000_000;

/// The displacement along one axis: component times speed times elapsed
/// milliseconds, scaled down by `UNIT * 1000`, rounded toward zero.
pub open spec fn scaled_delta(c: int, speed: int, dt_ms: int) -> int {
    if c >= 0 {
        (c * speed * dt_ms) / 1_000_000
    } else {
        -((-c * speed * dt_ms) / 1_000_000)
    }
}

/// Where one direction message moves a position, each coordinate saturating
/// at `MOVE_COORD_LIMIT`. The visual lift `z` never changes.
pub open spec fn stepped_position(p: Position, v: Vec2, speed: int, dt_ms: int) -> Position {
    Position {
        x: clamp_spec(
            p.x + scaled_delta(v.x as int, speed, dt_ms),
            -MOVE_COORD_LIMIT as int,
            MOVE_COORD_LIMIT as int,
        ) as i64,
        y: clamp_spec(
            p.y + scaled_delta(v.y as int, speed, dt_ms),
            -MOVE_COORD_LIMIT as int,
            MOVE_COORD_LIMIT as int,
        ) as i64,
        z: p.z,
    }
}

/// Where a sequence of direction messages moves a position, applied in order.
pub open spec fn moved_position(p: Position, dirs: Seq<Vec2>, speed: int, dt_ms: int) -> Position
    decreases dirs.len(),
{
    if dirs.len() == 0 {
        p
    } else {
        stepped_position(moved_position(p, dirs.drop_last(), speed, dt_ms), dirs.last(), speed, dt_ms)
    }
}

/// The displacement of one direction message stays within `STEP_LIMIT`.
pub proof fn lemma_step_bound(c: int, speed: int, dt_ms: int)
    requires
        -UNIT <= c <= UNIT,
        0 < speed <= SPEED_LIMIT,
        0 <= dt_ms <= TICK_LIMIT_MS,
    ensures
        -STEP_LIMIT <= scaled_delta(c, speed, dt_ms) <= STEP_LIMIT,
        c >= 0 ==> scaled_delta(c, speed, dt_ms) >= 0,
        c < 0 ==> scaled_delta(c, speed, dt_ms) <= 0,
{
    if c >= 0 {
        assert(0 <= c * speed * dt_ms / 1_000_000 <= STEP_LIMIT) by (nonlinear_arith)
            requires 0 <= c <= UNIT, 0 < speed <= SPEED_LIMIT, 0 <= dt_ms <= TICK_LIMIT_MS;
    } else {
        assert(0 <= -c * speed * dt_ms / 1_000_000 <= STEP_LIMIT) by (nonlinear_arith)
            requires 0 < -c <= UNIT, 0 < speed <= SPEED_LIMIT, 0 <= dt_ms <= TICK_LIMIT_MS;
    }
}

/// Integrates one direction message into a position.
pub fn integrate(p: &Position, v: Vec2, speed: i64, dt_ms: u64) -> (r: Position)
    requires
        -MOVE_COORD_LIMIT <= p.x <= MOVE_COORD_LIMIT,
        -MOVE_COORD_LIMIT <= p.y <= MOVE_COORD_LIMIT,
        dir_ok(v),
        0 < speed <= SPEED_LIMIT,
        dt_ms <= TICK_LIMIT_MS,
    ensures
        r == stepped_position(*p, v, speed as int, dt_ms as int),
        r.z == p.z,
        -MOVE_COORD_LIMIT <= r.x <= MOVE_COORD_LIMIT,
        -MOVE_COORD_LIMIT <= r.y <= MOVE_COORD_LIMIT,
{
    proof {
        lemma_step_bound(v.x as int, speed as int, dt_ms as int);
        lemma_step_bound(v.y as int, speed as int, dt_ms as int);
    }
    let ax: u64 = (if v.x >= 0 { v.x } else { -v.x }) as u64;
    let ay: u64 = (if v.y >= 0 { v.y } else { -v.y }) as u64;
    proof {
        assert(ax * (speed as u64) <= 10_000_000_000 && ay * (speed as u64) <= 10_000_000_000)
            by (nonlinear_arith)
            requires ax <= 1000, ay <= 1000, 0 < speed as u64 <= SPEED_LIMIT as u64;
        assert(ax * (speed as u64) * dt_ms <= 10_000_000_000_000_000 && ay * (speed as u64) * dt_ms
            <= 10_000_000_000_000_000) by (nonlinear_arith)
            requires
                ax * (speed as u64) <= 10_000_000_000,
                ay * (speed as u64) <= 10_000_000_000,
                dt_ms <= TICK_LIMIT_MS;
    }
    let mx: u64 = ax * (speed as u64) * dt_ms / 1_000_000;
    let my: u64 = ay * (speed as u64) * dt_ms / 1_000_000;
    proof {
        assert(mx <= STEP_LIMIT as u64 && my <= STEP_LIMIT as u64) by (nonlinear_arith)
            requires
                mx == ax * (speed as u64) * dt_ms / 1_000_000,
                my == ay * (speed as u64) * dt_ms / 1_000_000,
                ax * (speed as u64) * dt_ms <= 10_000_000_000_000_000,
                ay * (speed as u64) * dt_ms <= 10_000_000_000_000_000;
    }
    let x: i64 = if v.x >= 0 { p.x + mx as i64 } else { p.x - mx as i64 };
    let y: i64 = if v.y >= 0 { p.y + my as i64 } else { p.y - my as i64 };
    Position {
        x: clamp_coord(x, -MOVE_COORD_LIMIT, MOVE_COORD_LIMIT),
        y: clamp_coord(y, -MOVE_COORD_LIMIT, MOVE_COORD_LIMIT),
        z: p.z,
    }
}

/// Integrates every direction message of the tick, in order: one from the
/// keyboard and one per connected gamepad, however many there are. With no
/// message the position does not move.
pub fn apply_directions(p: &Position, dirs: &Vec<Vec2>, speed: i64, dt_ms: u64) -> (r: Position)
    requires
        -MOVE_COORD_LIMIT <= p.x <= MOVE_COORD_LIMIT,
        -MOVE_COORD_LIMIT <= p.y <= MOVE_COORD_LIMIT,
        forall|i: int| 0 <= i < dirs@.len() ==> dir_ok(#[trigger] dirs@[i]),
        0 < speed <= SPEED_LIMIT,
        dt_ms <= TICK_LIMIT_MS,
    ensures
        r == moved_position(*p, dirs@, speed as int, dt_ms as int),
        r.z == p.z,
        -MOVE_COORD_LIMIT <= r.x <= MOVE_COORD_LIMIT,
        -MOVE_COORD_LIMIT <= r.y <= MOVE_COORD_LIMIT,
{
    let mut cur: Position = *p;
    let mut i: usize = 0;
    while i < dirs.len()
        invariant
            i <= dirs@.len(),
            forall|j: int| 0 <= j < dirs@.len() ==> dir_ok(#[trigger] dirs@[j]),
            0 < speed <= SPEED_LIMIT,
            dt_ms <= TICK_LIMIT_MS,
            cur == moved_position(*p, dirs@.take(i as int), speed as int, dt_ms as int),
            cur.z == p.z,
            -MOVE_COORD_LIMIT <= cur.x <= MOVE_COORD_LIMIT,
            -MOVE_COORD_LIMIT <= cur.y <= MOVE_COORD_LIMIT,
        decreases dirs@.len() - i,
    {
        let next = integrate(&cur, dirs[i], speed, dt_ms);
        proof {
            assert(dirs@.take(i + 1).drop_last() =~= dirs@.take(i as int));
            assert(dirs@.take(i + 1).last() == dirs@[i as int]);
        }
        cur = next;
        i = i + 1;
    }
    proof {
        assert(dirs@.take(dirs@.len() as int) =~= dirs@);
    }
    cur
}

} // verus!
