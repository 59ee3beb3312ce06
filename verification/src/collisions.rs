//! Solid collision resolution and trigger-zone detection.
//!
//! A solid entity carries a box collider: half-extents centred at its
//! position plus an offset. When a moved entity's box overlaps a static
//! anchor's box, the moved entity is pushed out along the axis of minimum
//! penetration, so that the boxes touch but no longer overlap.
//!
//! A trigger area is a non-solid zone centred at its owner's position; other
//! entities are tested point-against-zone, and each (owner, other) pair's
//! overlap flag is remembered across ticks to classify enter, stay and exit
//! events.

use vstd::prelude::*;

use crate::geometry::{Position, abs_int, pos_ok, EXTENT_LIMIT};

verus! {

/// A configuration fault found while setting an entity up.
#[derive(Clone, Copy, PartialEq, Eq, Structural, Debug)]
pub enum ConfigError {
    /// A collider or trigger area was given a zero or negative half-extent.
    NonPositiveExtent,
}

/// A solid axis-aligned box: half-extents, centred at the owning entity's
/// position displaced by an offset.
#[derive(Clone, Copy, PartialEq, Eq, Structural, Debug)]
pub struct BoxCollider {
    pub half_width: i64,
    pub half_height: i64,
    pub offset_x: i64,
    pub offset_y: i64,
}

/// A collider the spatial phases accept: positive half-extents, everything
/// within the extent bound.
pub open spec fn collider_ok(c: BoxCollider) -> bool {
    &&& 0 < c.half_width <= EXTENT_LIMIT
    &&& 0 < c.half_height <= EXTENT_LIMIT
    &&& -EXTENT_LIMIT <= c.offset_x <= EXTENT_LIMIT
    &&& -EXTENT_LIMIT <= c.offset_y <= EXTENT_LIMIT
}

impl BoxCollider {
    /// Builds a collider, rejecting zero or negative half-extents.
    pub fn new(half_width: i64, half_height: i64, offset_x: i64, offset_y: i64) -> (r: Result<
        Self,
        ConfigError,
    >)
        requires
            half_width <= EXTENT_LIMIT,
            half_height <= EXTENT_LIMIT,
            -EXTENT_LIMIT <= offset_x <= EXTENT_LIMIT,
            -EXTENT_LIMIT <= offset_y <= EXTENT_LIMIT,
        ensures
            r is Ok <==> (half_width > 0 && half_height > 0),
            r matches Ok(c) ==> c == (BoxCollider { half_width, half_height, offset_x, offset_y }),
            r matches Ok(c) ==> collider_ok(c),
            r is Err ==> r == Result::<Self, ConfigError>::Err(ConfigError::NonPositiveExtent),
    {
        if half_width > 0 && half_height > 0 {
            Ok(BoxCollider { half_width, half_height, offset_x, offset_y })
        } else {
            Err(ConfigError::NonPositiveExtent)
        }
    }
}

/// Horizontal centre of an entity's effective box.
pub open spec fn center_x(p: Position, c: BoxCollider) -> int {
    p.x + c.offset_x
}

/// Vertical centre of an entity's effective box.
pub open spec fn center_y(p: Position, c: BoxCollider) -> int {
    p.y + c.offset_y
}

/// Two solid boxes overlap when they interpenetrate strictly on both axes;
/// touching edges do not overlap. The visual lift `z` plays no part.
pub open spec fn overlaps(p1: Position, c1: BoxCollider, p2: Position, c2: BoxCollider) -> bool {
    &&& abs_int(center_x(p1, c1) - center_x(p2, c2)) < c1.half_width + c2.half_width
    &&& abs_int(center_y(p1, c1) - center_y(p2, c2)) < c1.half_height + c2.half_height
}

/// Reports whether two solid boxes overlap.
pub fn boxes_overlap(p1: &Position, c1: &BoxCollider, p2: &Position, c2: &BoxCollider) -> (r: bool)
    requires
        pos_ok(*p1),
        pos_ok(*p2),
        collider_ok(*c1),
        collider_ok(*c2),
    ensures
        r == overlaps(*p1, *c1, *p2, *c2),
{
    let dx = (p1.x + c1.offset_x) - (p2.x + c2.offset_x);
    let dy = (p1.y + c1.offset_y) - (p2.y + c2.offset_y);
    let adx = if dx >= 0 { dx } else { -dx };
    let ady = if dy >= 0 { dy } else { -dy };
    adx < c1.half_width + c2.half_width && ady < c1.half_height + c2.half_height
}

/// Where a moved entity ends up after being pushed out of a static anchor:
/// unchanged when the boxes do not overlap, otherwise displaced along the
/// axis of minimum penetration, away from the anchor's centre (ties push
/// toward positive coordinates and prefer the horizontal axis).
pub open spec fn resolved_position(
    moved_p: Position,
    moved_c: BoxCollider,
    anchor_p: Position,
    anchor_c: BoxCollider,
) -> Position {
    if !overlaps(moved_p, moved_c, anchor_p, anchor_c) {
        moved_p
    } else {
        let dx = center_x(moved_p, moved_c) - center_x(anchor_p, anchor_c);
        let dy = center_y(moved_p, moved_c) - center_y(anchor_p, anchor_c);
        let ox = moved_c.half_width + anchor_c.half_width - abs_int(dx);
        let oy = moved_c.half_height + anchor_c.half_height - abs_int(dy);
        if ox <= oy {
            Position {
                x: (moved_p.x + if dx >= 0 { ox } else { -ox }) as i64,
                y: moved_p.y,
                z: moved_p.z,
            }
        } else {
            Position {
                x: moved_p.x,
                y: (moved_p.y + if dy >= 0 { oy } else { -oy }) as i64,
                z: moved_p.z,
            }
        }
    }
}

/// Pushing the moved box out of the anchor leaves the two boxes separated:
/// after correction they no longer overlap.
pub proof fn lemma_resolution_separates(
    moved_p: Position,
    moved_c: BoxCollider,
    anchor_p: Position,
    anchor_c: BoxCollider,
)
    requires
        pos_ok(moved_p),
        pos_ok(anchor_p),
        collider_ok(moved_c),
        collider_ok(anchor_c),
    ensures
        !overlaps(
            resolved_position(moved_p, moved_c, anchor_p, anchor_c),
            moved_c,
            anchor_p,
            anchor_c,
        ),
{
}

/// Pushes a moved entity out of a static anchor, along the axis of minimum
/// penetration. The result no longer overlaps the anchor; an entity that did
/// not overlap it is left where it was.
pub fn resolve_collision(
    moved_p: &Position,
    moved_c: &BoxCollider,
    anchor_p: &Position,
    anchor_c: &BoxCollider,
) -> (r: Position)
    requires
        pos_ok(*moved_p),
        pos_ok(*anchor_p),
        collider_ok(*moved_c),
        collider_ok(*anchor_c),
    ensures
        r == resolved_position(*moved_p, *moved_c, *anchor_p, *anchor_c),
        !overlaps(r, *moved_c, *anchor_p, *anchor_c),
        !overlaps(*moved_p, *moved_c, *anchor_p, *anchor_c) ==> r == *moved_p,
        r.z == moved_p.z,
        abs_int(r.x - moved_p.x) + abs_int(r.y - moved_p.y) <= moved_c.half_width
            + anchor_c.half_width + moved_c.half_height + anchor_c.half_height,
{
    proof {
        lemma_resolution_separates(*moved_p, *moved_c, *anchor_p, *anchor_c);
    }
    if !boxes_overlap(moved_p, moved_c, anchor_p, anchor_c) {
        return *moved_p;
    }
    let dx = (moved_p.x + moved_c.offset_x) - (anchor_p.x + anchor_c.offset_x);
    let dy = (moved_p.y + moved_c.offset_y) - (anchor_p.y + anchor_c.offset_y);
    let adx = if dx >= 0 { dx } else { -dx };
    let ady = if dy >= 0 { dy } else { -dy };
    let ox = moved_c.half_width + anchor_c.half_width - adx;
    let oy = moved_c.half_height + anchor_c.half_height - ady;
    if ox <= oy {
        Position {
            x: if dx >= 0 { moved_p.x + ox } else { moved_p.x - ox },
            y: moved_p.y,
            z: moved_p.z,
        }
    } else {
        Position {
            x: moved_p.x,
            y: if dy >= 0 { moved_p.y + oy } else { moved_p.y - oy },
            z: moved_p.z,
        }
    }
}

/// A non-solid trigger zone: half-extents centred at the owner's position.
#[derive(Clone, Copy, PartialEq, Eq, Structural, Debug)]
pub struct TriggerArea {
    pub half_width: i64,
    pub half_height: i64,
}

/// A trigger area the detection phase accepts.
pub open spec fn area_ok(a: TriggerArea) -> bool {
    0 < a.half_width <= EXTENT_LIMIT && 0 < a.half_height <= EXTENT_LIMIT
}

impl TriggerArea {
    /// Builds a trigger area, rejecting zero or negative half-extents.
    pub fn new(half_width: i64, half_height: i64) -> (r: Result<Self, ConfigError>)
        requires
            half_width <= EXTENT_LIMIT,
            half_height <= EXTENT_LIMIT,
        ensures
            r is Ok <==> (half_width > 0 && half_height > 0),
            r matches Ok(a) ==> a == (TriggerArea { half_width, half_height }),
            r matches Ok(a) ==> area_ok(a),
            r is Err ==> r == Result::<Self, ConfigError>::Err(ConfigError::NonPositiveExtent),
    {
        if half_width > 0 && half_height > 0 {
            Ok(TriggerArea { half_width, half_height })
        } else {
            Err(ConfigError::NonPositiveExtent)
        }
    }
}

/// Whether another entity's position lies strictly inside a trigger zone.
/// Solidity plays no part; neither does the visual lift `z`.
pub open spec fn in_trigger(owner: Position, area: TriggerArea, other: Position) -> bool {
    abs_int(other.x - owner.x) < area.half_width && abs_int(other.y - owner.y) < area.half_height
}

/// Tests whether another entity's position lies inside a trigger zone.
pub fn trigger_contains(owner: &Position, area: &TriggerArea, other: &Position) -> (r: bool)
    requires
        pos_ok(*owner),
        pos_ok(*other),
        area_ok(*area),
    ensures
        r == in_trigger(*owner, *area, *other),
{
    let dx = other.x - owner.x;
    let dy = other.y - owner.y;
    let adx = if dx >= 0 { dx } else { -dx };
    let ady = if dy >= 0 { dy } else { -dy };
    adx < area.half_width && ady < area.half_height
}

/// How one (trigger owner, other entity) pair's overlap changed between the
/// previous tick and this one.
#[derive(Clone, Copy, PartialEq, Eq, Structural, Debug)]
pub enum TriggerEvent {
    /// Outside on the previous tick, inside now.
    Entered,
    /// Inside on both ticks.
    StillInside,
    /// Inside on the previous tick, outside now.
    Exited,
}

/// The event reported for a pair whose overlap flag went from `prev` to
/// `cur`; a pair outside the zone on both ticks reports nothing.
pub open spec fn classify_spec(prev: bool, cur: bool) -> Option<TriggerEvent> {
    if !prev && cur {
        Some(TriggerEvent::Entered)
    } else if prev && cur {
        Some(TriggerEvent::StillInside)
    } else if prev && !cur {
        Some(TriggerEvent::Exited)
    } else {
        None
    }
}

/// Classifies one pair's overlap transition between consecutive ticks.
pub fn classify_transition(prev: bool, cur: bool) -> (r: Option<TriggerEvent>)
    ensures
        r == classify_spec(prev, cur),
{
    if !prev && cur {
        Some(TriggerEvent::Entered)
    } else if prev && cur {
        Some(TriggerEvent::StillInside)
    } else if prev && !cur {
        Some(TriggerEvent::Exited)
    } else {
        None
    }
}

/// Trigger transitions classify exactly: entering is reported iff the pair
/// was outside and is now inside, staying iff inside on both ticks, exiting
/// iff inside and now outside, and nothing iff outside on both.
pub proof fn lemma_trigger_classification(prev: bool, cur: bool)
    ensures
        classify_spec(prev, cur) == Some(TriggerEvent::Entered) <==> (!prev && cur),
        classify_spec(prev, cur) == Some(TriggerEvent::StillInside) <==> (prev && cur),
        classify_spec(prev, cur) == Some(TriggerEvent::Exited) <==> (prev && !cur),
        classify_spec(prev, cur) is None <==> (!prev && !cur),
{
}

} // verus!
