//! Entity component data used by the state handlers and the object system.
//! Spatial quantities are fixed-point integers in thousandths of a world
//! unit.

use vstd::prelude::*;

verus! {

/// A three-component vector, in fixed-point thousandths.
#[derive(Clone, Copy, Debug, PartialEq, Eq, Structural)]
pub struct Vec3i {
    pub x: i64,
    pub y: i64,
    pub z: i64,
}

/// World position of an entity.
#[derive(Clone, Copy, Debug, PartialEq, Eq, Structural)]
pub struct Pos(pub Vec3i);

/// Velocity of an entity.
#[derive(Clone, Copy, Debug, PartialEq, Eq, Structural)]
pub struct Vel(pub Vec3i);

/// Orientation of an entity.
#[derive(Clone, Copy, Debug, PartialEq, Eq, Structural)]
pub struct Ori(pub Vec3i);

/// What a character is currently doing.
#[derive(Clone, Copy, Debug, PartialEq, Eq, Structural)]
pub enum CharacterState {
    Idle,
    Wielding,
    Sitting,
    Climbing,
    Rolling,
    Gliding,
}

} // verus!
