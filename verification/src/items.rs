//! The item pick-up / drop / delivery protocol: a small request-fulfilment
//! state machine over the player's carried-item slot and the companion's
//! requested-item slot, debounced by the cooldown timer.
//!
//! At most one transition fires per tick, and only when the action input is
//! asserted and the cooldown timer is ready; firing consumes the timer's
//! accumulated time. Delivery takes precedence structurally: picking up is
//! only possible with an empty slot, so a carried item is always delivered or
//! dropped before anything can be picked up.

use vstd::prelude::*;

use crate::cooldown::Cooldown;

verus! {

/// The closed set of items producers dispense and the companion requests.
#[derive(Clone, Copy, PartialEq, Eq, Structural, Debug)]
pub enum Item {
    WaterGlass,
    Chips,
    IceCream,
}

/// The player's carried-item slot: at most one item at a time.
#[derive(Clone, Copy, PartialEq, Eq, Structural, Debug)]
pub enum Carried {
    Empty,
    Carrying(Item),
}

/// What the exchange state machine did this tick.
#[derive(Clone, Copy, PartialEq, Eq, Structural, Debug)]
pub enum ExchangeAction {
    /// No transition fired.
    NoAction,
    /// The player took this item from a producer's zone.
    PickedUp(Item),
    /// The carried item matched the request inside the companion's zone.
    Delivered,
    /// The carried item was discarded, not placed in the world.
    Dropped(Item),
}

/// A pick-up fires: slot empty, inside a producer's zone, action asserted,
/// cooldown ready.
pub open spec fn pickup_fires(
    carried: Carried,
    at_producer: Option<Item>,
    action: bool,
    ready: bool,
) -> bool {
    action && ready && carried is Empty && at_producer is Some
}

/// A delivery fires: the carried item equals the requested item, the player
/// is inside the companion's zone, action asserted, cooldown ready.
pub open spec fn delivery_fires(
    carried: Carried,
    requested: Item,
    at_companion: bool,
    action: bool,
    ready: bool,
) -> bool {
    action && ready && (carried matches Carried::Carrying(x) && at_companion && x == requested)
}

/// A drop fires: something is carried and the action is asserted with the
/// cooldown ready, but the delivery condition is not met.
pub open spec fn drop_fires(
    carried: Carried,
    requested: Item,
    at_companion: bool,
    action: bool,
    ready: bool,
) -> bool {
    action && ready && carried is Carrying && !delivery_fires(
        carried,
        requested,
        at_companion,
        action,
        ready,
    )
}

/// Some transition fires this tick.
pub open spec fn any_transition_fires(
    carried: Carried,
    requested: Item,
    at_producer: Option<Item>,
    at_companion: bool,
    action: bool,
    ready: bool,
) -> bool {
    ||| pickup_fires(carried, at_producer, action, ready)
    ||| delivery_fires(carried, requested, at_companion, action, ready)
    ||| drop_fires(carried, requested, at_companion, action, ready)
}

/// Runs the exchange state machine for one tick.
///
/// `at_producer` names the item of the producer whose zone the player is
/// inside, if any; `at_companion` says whether the player is inside the
/// companion's request zone. Returns the new carried slot and what happened.
/// Delivery succeeds exactly when the carried item equals the requested item
/// inside the companion's zone, with the action asserted and the cooldown
/// ready; a transition that fires consumes the cooldown's accumulated time.
pub fn exchange_step(
    carried: Carried,
    requested: Item,
    at_producer: Option<Item>,
    at_companion: bool,
    action: bool,
    cd: &mut Cooldown,
) -> (r: (Carried, ExchangeAction))
    ensures
        final(cd).duration() == old(cd).duration(),
        final(cd).elapsed() == if any_transition_fires(
            carried,
            requested,
            at_producer,
            at_companion,
            action,
            old(cd).is_ready(),
        ) {
            0u64
        } else {
            old(cd).elapsed()
        },
        delivery_fires(carried, requested, at_companion, action, old(cd).is_ready()) ==> r.0
            is Empty && r.1 is Delivered,
        r.1 is Delivered ==> delivery_fires(carried, requested, at_companion, action, old(
            cd,
        ).is_ready()),
        forall|x: Item|
            carried == Carried::Carrying(x) && drop_fires(
                carried,
                requested,
                at_companion,
                action,
                old(cd).is_ready(),
            ) ==> r.0 is Empty && r.1 == ExchangeAction::Dropped(x),
        forall|it: Item|
            at_producer == Some(it) && pickup_fires(carried, at_producer, action, old(
                cd,
            ).is_ready()) ==> r.0 == Carried::Carrying(it) && r.1 == ExchangeAction::PickedUp(it),
        !any_transition_fires(
            carried,
            requested,
            at_producer,
            at_companion,
            action,
            old(cd).is_ready(),
        ) ==> r.0 == carried && r.1 is NoAction,
{
    if !action {
        return (carried, ExchangeAction::NoAction);
    }
    match carried {
        Carried::Empty => {
            match at_producer {
                Some(it) => {
                    if cd.try_fire() {
                        (Carried::Carrying(it), ExchangeAction::PickedUp(it))
                    } else {
                        (carried, ExchangeAction::NoAction)
                    }
                },
                None => (carried, ExchangeAction::NoAction),
            }
        },
        Carried::Carrying(x) => {
            if cd.try_fire() {
                if at_companion && x == requested {
                    (Carried::Empty, ExchangeAction::Delivered)
                } else {
                    (Carried::Empty, ExchangeAction::Dropped(x))
                }
            } else {
                (carried, ExchangeAction::NoAction)
            }
        },
    }
}

/// Two action inputs within one cooldown window fire at most one transition:
/// after a fire empties the timer, a second action before the window has
/// elapsed finds the timer not ready, so no transition of the state machine
/// can fire, whatever the slots and zones say.
///
/// `fired` is the timer right after the first transition; `next` is the same
/// timer after the tick that carries the second action, related to `fired`
/// exactly as `Cooldown::tick` relates its final and old states.
pub proof fn lemma_second_action_within_window_gated(
    fired: Cooldown,
    next: Cooldown,
    dt_ms: u64,
    carried: Carried,
    requested: Item,
    at_producer: Option<Item>,
    at_companion: bool,
)
    requires
        fired.elapsed() == 0,
        dt_ms < fired.duration(),
        next.duration() == fired.duration(),
        next.elapsed() == if fired.elapsed() + dt_ms >= fired.duration() {
            fired.duration()
        } else {
            (fired.elapsed() + dt_ms) as u64
        },
    ensures
        !next.is_ready(),
        !any_transition_fires(carried, requested, at_producer, at_companion, true, next.is_ready()),
{
}

/// Delivery takes precedence over pickup by construction: the two can never
/// be eligible at once, since a pickup needs an empty carried slot and a
/// delivery a full one, so simultaneous eligibility resolves deterministically.
pub proof fn lemma_delivery_pickup_exclusive(
    carried: Carried,
    requested: Item,
    at_producer: Option<Item>,
    at_companion: bool,
    action: bool,
    ready: bool,
)
    ensures
        !(delivery_fires(carried, requested, at_companion, action, ready) && pickup_fires(
            carried,
            at_producer,
            action,
            ready,
        )),
        !(drop_fires(carried, requested, at_companion, action, ready) && pickup_fires(
            carried,
            at_producer,
            action,
            ready,
        )),
{
}

/// Relies on rand::Rng::gen_range over the range `0..n`, which returns a
/// uniformly distributed integer in that range and panics only when the
/// range is empty.
#[verifier::external_body]
fn random_below(n: u32) -> (r: u32)
    requires
        n > 0,
    ensures
        r < n,
{
    rand::Rng::gen_range(&mut rand::thread_rng(), 0..n)
}

/// Draws a uniformly random item of the closed set, used to assign the
/// companion's request at spawn and after each successful delivery. Nothing
/// more can be promised of a random draw than that it is one of the three
/// items, which its type already says.
pub fn random_item() -> (it: Item) {
    let r = random_below(3);
    if r == 0 {
        Item::WaterGlass
    } else if r == 1 {
        Item::Chips
    } else {
        Item::IceCream
    }
}

} // verus!
