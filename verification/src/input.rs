//! Input normalization: turns a per-tick snapshot of the arrow keys and of
//! each connected gamepad's stick axes into direction messages, and keeps the
//! registry of connected gamepads.
//!
//! Keyboard: the pressed arrow keys are summed into a net direction on the
//! grid `{-1, 0, 1}^2`; a zero net direction emits nothing, anything else is
//! normalized to one of the eight unit directions.
//!
//! Gamepad: a stick deflection `(x, y)` (components in thousandths, full
//! deflection `UNIT`) emits a message only when both axes are non-zero, so a
//! pure single-axis deflection emits nothing — a documented, deliberate
//! quirk of this normalizer. The emitted vector is the deflection scaled by
//! `UNIT` and divided by the floor square root of its squared length.

use vstd::prelude::*;

use crate::geometry::{
    Vec2, is_unit_dir, dir_ok, UNIT, DIAG, sqrt_floor, lemma_sqrt_floor_bounds, isqrt,
};

verus! {

/// Pressed state of the four directional keys at the start of a tick.
#[derive(Clone, Copy, PartialEq, Eq, Structural, Debug)]
pub struct KeyDirections {
    pub up: bool,
    pub down: bool,
    pub left: bool,
    pub right: bool,
}

/// Net horizontal key direction: right minus left.
pub open spec fn net_x(k: KeyDirections) -> int {
    (if k.right { 1int } else { 0int }) - (if k.left { 1int } else { 0int })
}

/// Net vertical key direction: up minus down.
pub open spec fn net_y(k: KeyDirections) -> int {
    (if k.up { 1int } else { 0int }) - (if k.down { 1int } else { 0int })
}

/// The unit direction for a net key direction: axis components have length
/// `UNIT`; when both axes are active each component shrinks to `DIAG`.
pub open spec fn unit_from_net(nx: int, ny: int) -> Vec2 {
    Vec2 {
        x: (if nx == 0 {
            0int
        } else if ny != 0 {
            if nx > 0 { DIAG as int } else { -(DIAG as int) }
        } else {
            if nx > 0 { UNIT as int } else { -(UNIT as int) }
        }) as i64,
        y: (if ny == 0 {
            0int
        } else if nx != 0 {
            if ny > 0 { DIAG as int } else { -(DIAG as int) }
        } else {
            if ny > 0 { UNIT as int } else { -(UNIT as int) }
        }) as i64,
    }
}

/// The direction message the keyboard emits for a key snapshot, if any.
pub open spec fn keyboard_dir_spec(k: KeyDirections) -> Option<Vec2> {
    if net_x(k) == 0 && net_y(k) == 0 {
        None
    } else {
        Some(unit_from_net(net_x(k), net_y(k)))
    }
}

/// Normalizes the arrow-key snapshot into at most one direction message.
pub fn keyboard_direction(k: KeyDirections) -> (r: Option<Vec2>)
    ensures
        r == keyboard_dir_spec(k),
{
    let nx: i64 = (if k.right { 1i64 } else { 0i64 }) - (if k.left { 1i64 } else { 0i64 });
    let ny: i64 = (if k.up { 1i64 } else { 0i64 }) - (if k.down { 1i64 } else { 0i64 });
    if nx == 0 && ny == 0 {
        None
    } else {
        let x: i64 = if nx == 0 {
            0
        } else if ny != 0 {
            if nx > 0 { DIAG } else { -DIAG }
        } else {
            if nx > 0 { UNIT } else { -UNIT }
        };
        let y: i64 = if ny == 0 {
            0
        } else if nx != 0 {
            if ny > 0 { DIAG } else { -DIAG }
        } else {
            if ny > 0 { UNIT } else { -UNIT }
        };
        Some(Vec2 { x, y })
    }
}

/// The keyboard normalizer only ever emits unit directions, and emits
/// nothing exactly when the net key direction is zero.
pub proof fn lemma_keyboard_emits_unit(k: KeyDirections)
    ensures
        keyboard_dir_spec(k) matches Some(v) ==> is_unit_dir(v),
        keyboard_dir_spec(k) is None <==> (net_x(k) == 0 && net_y(k) == 0),
{
}

/// Floor length of a stick deflection, in the fixed-point scale.
pub open spec fn stick_len(x: int, y: int) -> int {
    sqrt_floor((x * x + y * y) as nat) as int
}

/// A deflection component scaled by `UNIT` and divided by the deflection
/// length, rounded toward zero.
pub open spec fn norm_component(c: int, len: int) -> int {
    if c >= 0 {
        (c * UNIT) / len
    } else {
        -((-c * UNIT) / len)
    }
}

/// The direction message a gamepad stick emits, if any: nothing unless both
/// axes are deflected (the documented quirk), otherwise the scaled
/// deflection.
pub open spec fn gamepad_dir_spec(x: int, y: int) -> Option<Vec2> {
    if x == 0 || y == 0 {
        None
    } else {
        Some(Vec2 {
            x: norm_component(x, stick_len(x, y)) as i64,
            y: norm_component(y, stick_len(x, y)) as i64,
        })
    }
}

/// Normalizes one gamepad's stick snapshot into at most one direction
/// message. Axis components measure deflection in thousandths, full
/// deflection being `UNIT` in magnitude.
pub fn gamepad_direction(x: i64, y: i64) -> (r: Option<Vec2>)
    requires
        -UNIT <= x <= UNIT,
        -UNIT <= y <= UNIT,
    ensures
        r == gamepad_dir_spec(x as int, y as int),
{
    if x == 0 || y == 0 {
        return None;
    }
    let ax: u64 = (if x >= 0 { x } else { -x }) as u64;
    let ay: u64 = (if y >= 0 { y } else { -y }) as u64;
    proof {
        assert(1 <= ax <= 1000 && 1 <= ay <= 1000);
        assert(ax * ax + ay * ay <= 2_000_000 && ax * ax >= 1) by (nonlinear_arith)
            requires 1 <= ax <= 1000, 1 <= ay <= 1000;
        assert(ax * ax == x * x && ay * ay == y * y) by (nonlinear_arith)
            requires ax == (if x >= 0 { x as int } else { -(x as int) }),
                ay == (if y >= 0 { y as int } else { -(y as int) });
    }
    let sq: u64 = ax * ax + ay * ay;
    let len: u64 = isqrt(sq);
    proof {
        lemma_sqrt_floor_bounds(sq as nat);
        if len == 0 {
            assert((sqrt_floor(sq as nat) + 1) * (sqrt_floor(sq as nat) + 1) == 1) by (
            nonlinear_arith)
                requires sqrt_floor(sq as nat) == 0;
            assert(false);
        }
        assert(len as int == stick_len(x as int, y as int));
    }
    let mx: u64 = ax * 1000 / len;
    let my: u64 = ay * 1000 / len;
    proof {
        assert(mx <= ax * 1000 && my <= ay * 1000) by (nonlinear_arith)
            requires len >= 1, mx == ax * 1000 / (len as int), my == ay * 1000 / (len as int);
    }
    let vx: i64 = if x >= 0 { mx as i64 } else { -(mx as i64) };
    let vy: i64 = if y >= 0 { my as i64 } else { -(my as i64) };
    proof {
        let l = stick_len(x as int, y as int);
        assert(vx as int == norm_component(x as int, l));
        assert(vy as int == norm_component(y as int, l));
    }
    Some(Vec2 { x: vx, y: vy })
}

/// A gamepad direction message never exceeds the fixed-point scale in either
/// component: the deflection's length bounds each of its components.
pub proof fn lemma_gamepad_dir_ok(x: int, y: int)
    requires
        -UNIT <= x <= UNIT,
        -UNIT <= y <= UNIT,
    ensures
        gamepad_dir_spec(x, y) matches Some(v) ==> dir_ok(v),
{
    if x != 0 && y != 0 {
        let sq = (x * x + y * y) as nat;
        let l = sqrt_floor(sq);
        lemma_sqrt_floor_bounds(sq);
        assert(1 <= x * x && 1 <= y * y && x * x + y * y <= 2_000_000) by (nonlinear_arith)
            requires x != 0, y != 0, -UNIT <= x <= UNIT, -UNIT <= y <= UNIT;
        if l == 0 {
            assert((l + 1) * (l + 1) == 1) by (nonlinear_arith)
                requires l == 0;
            assert(false);
        }
        let ax = if x >= 0 { x } else { -x };
        let ay = if y >= 0 { y } else { -y };
        assert(ax * ax == x * x && ay * ay == y * y) by (nonlinear_arith)
            requires ax == x || ax == -x, ay == y || ay == -y;
        assert(ax <= l && ay <= l) by (nonlinear_arith)
            requires
                0 <= ax,
                0 <= ay,
                l * l <= ax * ax + ay * ay,
                ax * ax + ay * ay < (l + 1) * (l + 1),
                0 < l;
        assert(0 <= ax * UNIT / (l as int) <= UNIT && 0 <= ay * UNIT / (l as int) <= UNIT) by (
        nonlinear_arith)
            requires 0 < l, 0 <= ax <= l, 0 <= ay <= l;
    }
}

/// What a connect message does to the registry contents: an unknown gamepad
/// is appended, a known one changes nothing.
pub open spec fn apply_connect(ids: Seq<u64>, id: u64) -> Seq<u64> {
    if ids.contains(id) {
        ids
    } else {
        ids.push(id)
    }
}

/// What a disconnect message does to the registry contents: a connected
/// gamepad is removed, an unknown one changes nothing.
pub open spec fn apply_disconnect(ids: Seq<u64>, id: u64) -> Seq<u64> {
    if ids.contains(id) {
        ids.remove(ids.index_of(id))
    } else {
        ids
    }
}

/// What one connection message does to the registry contents.
pub open spec fn apply_event(ids: Seq<u64>, ev: ConnectionEvent) -> Seq<u64> {
    match ev {
        ConnectionEvent::Connected(id) => apply_connect(ids, id),
        ConnectionEvent::Disconnected(id) => apply_disconnect(ids, id),
    }
}

/// The registry contents after a batch of connection messages, in order.
pub open spec fn lobby_after(ids: Seq<u64>, evs: Seq<ConnectionEvent>) -> Seq<u64>
    decreases evs.len(),
{
    if evs.len() == 0 {
        ids
    } else {
        apply_event(lobby_after(ids, evs.drop_last()), evs.last())
    }
}

/// A connect or disconnect message from one gamepad.
#[derive(Clone, Copy, PartialEq, Eq, Structural, Debug)]
pub enum ConnectionEvent {
    Connected(u64),
    Disconnected(u64),
}

/// Registry of the connected gamepads, owned by the input normalizer and
/// mutated only by connect and disconnect messages.
pub struct GamepadLobby {
    ids: Vec<u64>,
}

impl GamepadLobby {
    /// The connected gamepad identifiers, in connection order.
    pub closed spec fn ids(&self) -> Seq<u64> {
        self.ids@
    }

    /// Each connected gamepad appears once.
    pub open spec fn wf(&self) -> bool {
        self.ids().no_duplicates()
    }

    /// A registry that starts empty.
    pub fn new() -> (l: Self)
        ensures
            l.ids() =~= Seq::<u64>::empty(),
            l.wf(),
    {
        GamepadLobby { ids: Vec::new() }
    }

    /// Whether the gamepad is currently connected.
    pub fn contains(&self, id: u64) -> (r: bool)
        ensures
            r == self.ids().contains(id),
    {
        let mut i: usize = 0;
        while i < self.ids.len()
            invariant
                i <= self.ids@.len(),
                forall|j: int| 0 <= j < i ==> self.ids@[j] != id,
            decreases self.ids@.len() - i,
        {
            if self.ids[i] == id {
                assert(self.ids@.contains(id));
                return true;
            }
            i = i + 1;
        }
        false
    }

    /// Records a connect message: an unknown gamepad is appended, a known
    /// one changes nothing.
    pub fn connect(&mut self, id: u64)
        requires
            old(self).wf(),
        ensures
            final(self).wf(),
            final(self).ids() == apply_connect(old(self).ids(), id),
    {
        if !self.contains(id) {
            self.ids.push(id);
        }
    }

    /// Records a disconnect message: a connected gamepad is removed, an
    /// unknown one changes nothing.
    pub fn disconnect(&mut self, id: u64)
        requires
            old(self).wf(),
        ensures
            final(self).wf(),
            final(self).ids() == apply_disconnect(old(self).ids(), id),
            forall|other: u64| other != id ==> final(self).ids().contains(other) == old(
                self,
            ).ids().contains(other),
            !final(self).ids().contains(id),
    {
        let ghost orig = self.ids@;
        let mut i: usize = 0;
        while i < self.ids.len()
            invariant
                self.ids@ == orig,
                orig == old(self).ids(),
                old(self).wf(),
                i <= orig.len(),
                forall|j: int| 0 <= j < i ==> orig[j] != id,
                orig.no_duplicates(),
            decreases orig.len() - i,
        {
            if self.ids[i] == id {
                self.ids.remove(i);
                proof {
                    assert(orig.contains(id));
                    assert(self.ids@ == orig.remove(i as int));
                    lemma_remove_keeps_others(orig, i as int, id);
                    let j = orig.index_of(id);
                    assert(exists|k: int| 0 <= k < orig.len() && orig[k] == id);
                    assert(0 <= j < orig.len() && orig[j] == id);
                    assert(j == i as int);
                }
                return;
            }
            i = i + 1;
        }
        proof {
            assert(forall|j: int| 0 <= j < orig.len() ==> orig[j] != id);
            assert(!orig.contains(id));
        }
    }

    /// How many gamepads are connected.
    pub fn count(&self) -> (n: usize)
        ensures
            n == self.ids().len(),
    {
        self.ids.len()
    }

    /// The identifier of the connected gamepad at the given registry index.
    pub fn pad_at(&self, i: usize) -> (id: u64)
        requires
            i < self.ids().len(),
        ensures
            id == self.ids()[i as int],
    {
        self.ids[i]
    }

    /// Applies a batch of connect and disconnect messages, in order.
    pub fn apply_events(&mut self, events: &Vec<ConnectionEvent>)
        requires
            old(self).wf(),
        ensures
            final(self).wf(),
            final(self).ids() == lobby_after(old(self).ids(), events@),
    {
        let mut i: usize = 0;
        while i < events.len()
            invariant
                i <= events@.len(),
                self.wf(),
                self.ids() == lobby_after(old(self).ids(), events@.take(i as int)),
            decreases events@.len() - i,
        {
            match events[i] {
                ConnectionEvent::Connected(id) => self.connect(id),
                ConnectionEvent::Disconnected(id) => self.disconnect(id),
            }
            proof {
                assert(events@.take(i + 1).drop_last() =~= events@.take(i as int));
                assert(events@.take(i + 1).last() == events@[i as int]);
            }
            i = i + 1;
        }
        proof {
            assert(events@.take(events@.len() as int) =~= events@);
        }
    }
}

/// Removing the only occurrence of `id` from a duplicate-free sequence keeps
/// every other element's membership and drops `id`.
proof fn lemma_remove_keeps_others(s: Seq<u64>, i: int, id: u64)
    requires
        s.no_duplicates(),
        0 <= i < s.len(),
        s[i] == id,
    ensures
        s.remove(i).no_duplicates(),
        !s.remove(i).contains(id),
        forall|other: u64| other != id ==> s.remove(i).contains(other) == s.contains(other),
{
    let t = s.remove(i);
    assert forall|other: u64| other != id implies t.contains(other) == s.contains(other) by {
        if s.contains(other) {
            let j = choose|j: int| 0 <= j < s.len() && s[j] == other;
            if j < i {
                assert(t[j] == other);
            } else {
                assert(j != i);
                assert(t[j - 1] == other);
            }
            assert(t.contains(other));
        }
        if t.contains(other) {
            let j = choose|j: int| 0 <= j < t.len() && t[j] == other;
            if j < i {
                assert(s[j] == other);
            } else {
                assert(s[j + 1] == other);
            }
            assert(s.contains(other));
        }
    }
    assert forall|j: int| 0 <= j < t.len() implies t[j] != id by {
        if j < i {
            assert(t[j] == s[j]);
        } else {
            assert(t[j] == s[j + 1]);
        }
    }
    if t.contains(id) {
        let j = choose|j: int| 0 <= j < t.len() && t[j] == id;
    }
    assert forall|j1: int, j2: int| 0 <= j1 < j2 < t.len() implies t[j1] != t[j2] by {
        let s1: int = if j1 < i { j1 } else { j1 + 1 };
        let s2: int = if j2 < i { j2 } else { j2 + 1 };
        assert(t[j1] == s[s1] && t[j2] == s[s2]);
        assert(s1 < s2);
    }
}

} // verus!
