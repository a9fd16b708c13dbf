//! The idle character state: it proposes no change of its own, so handling
//! it reproduces the entity's current components. The movement and action
//! adjustments layered on top of every state belong to the input system.

use vstd::prelude::*;
use crate::comp::{CharacterState, Ori, Pos, Vel};

verus! {

/// The components a state handler reads.
#[derive(Clone, Copy, Debug, PartialEq, Eq, Structural)]
pub struct EcsStateData {
    pub character: CharacterState,
    pub pos: Pos,
    pub vel: Vel,
    pub ori: Ori,
}

/// The components a state handler proposes.
#[derive(Clone, Copy, Debug, PartialEq, Eq, Structural)]
pub struct StateUpdate {
    pub character: CharacterState,
    pub pos: Pos,
    pub vel: Vel,
    pub ori: Ori,
}

/// The idle state.
#[derive(Clone, Copy, Debug, PartialEq, Eq, Structural, Default)]
pub struct State;

impl State {
    /// Idle carries no per-entity data of its own.
    pub fn new(_ecs_data: &EcsStateData) -> (r: State)
        ensures
            r == State,
    {
        State
    }

    /// Idle leaves every component as it is.
    pub fn handle(&self, ecs_data: &EcsStateData) -> (update: StateUpdate)
        ensures
            update.character == ecs_data.character,
            update.pos == ecs_data.pos,
            update.vel == ecs_data.vel,
            update.ori == ecs_data.ori,
    {
        StateUpdate {
            character: ecs_data.character,
            pos: ecs_data.pos,
            vel: ecs_data.vel,
            ori: ecs_data.ori,
        }
    }
}

} // verus!
