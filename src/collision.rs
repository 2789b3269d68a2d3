use crate::kinematics::Vec2;
use crate::state::PlayerState;
use vstd::prelude::*;

verus! {

/// Default height of the ground plane.
pub const DEFAULT_GROUND_LEVEL: i64 = 0;

/// Position, velocity and state after ground collision: a body at or below
/// the ground is put on it, loses its vertical velocity and becomes idle.
pub open spec fn resolve_ground_spec(position: Vec2, velocity: Vec2, state: PlayerState, ground_level: i64) -> (
    Vec2,
    Vec2,
    PlayerState,
) {
    if position.y <= ground_level {
        (Vec2 { y: ground_level, ..position }, Vec2 { y: 0, ..velocity }, PlayerState::Idle)
    } else {
        (position, velocity, state)
    }
}

/// Clamps a body to the ground plane: at or below `ground_level` its height
/// becomes `ground_level`, its vertical velocity zero and its state `Idle`;
/// above it nothing changes.
pub fn resolve_ground(position: Vec2, velocity: Vec2, state: PlayerState, ground_level: i64) -> (r: (
    Vec2,
    Vec2,
    PlayerState,
))
    ensures
        r == resolve_ground_spec(position, velocity, state, ground_level),
{
    if position.y <= ground_level {
        (Vec2 { x: position.x, y: ground_level }, Vec2 { x: velocity.x, y: 0 }, PlayerState::Idle)
    } else {
        (position, velocity, state)
    }
}

/// Resolving a collision a second time changes nothing.
pub proof fn lemma_resolve_ground_idempotent(position: Vec2, velocity: Vec2, state: PlayerState, ground_level: i64)
    ensures
        ({
            let once = resolve_ground_spec(position, velocity, state, ground_level);
            resolve_ground_spec(once.0, once.1, once.2, ground_level) == once
        }),
{
}

/// A body resting on the ground with no vertical velocity keeps its position
/// and velocity under collision resolution and is idle afterwards.
pub proof fn lemma_resting_body_unchanged(position: Vec2, velocity: Vec2, state: PlayerState, ground_level: i64)
    requires
        position.y == ground_level,
        velocity.y == 0,
    ensures
        resolve_ground_spec(position, velocity, state, ground_level) == (position, velocity, PlayerState::Idle),
{
}

} // verus!
