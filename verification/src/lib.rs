//! Core of a small real-time care-taking simulation: a player moves around a
//! room, picks up items from fixed producers, and delivers the requested item
//! to a companion before its mood decays to zero.
//!
//! All spatial quantities are fixed-point integers: a position coordinate is
//! measured in thousandths of a world unit, so `1000` stands for one unit.
//! Durations are measured in milliseconds, and the mood value in parts per
//! thousand of full happiness. This keeps every computation exact and lets
//! each phase of the simulation carry a precise contract.
//!
//! The modules, leaf-first: [`geometry`] holds the fixed-point points,
//! vectors and bounds; [`cooldown`] the debounce timer of the action;
//! [`input`] the keyboard and gamepad normalizers and the gamepad registry;
//! [`movement`] the position integration; [`collisions`] solid resolution
//! and trigger detection; [`items`] the pick-up/drop/delivery state machine;
//! [`happiness`] the decaying mood; and [`game`] the world and the tick
//! scheduler that orders the phases and gates them by the outer mode.

pub mod collisions;
pub mod cooldown;
pub mod game;
pub mod geometry;
pub mod happiness;
pub mod input;
pub mod items;
pub mod movement;
