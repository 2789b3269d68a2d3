use crate::animation::AnimationType;
use vstd::prelude::*;

verus! {

/// Discrete state of the player character.
#[derive(Clone, Copy, Debug, PartialEq, Eq, Structural)]
pub enum PlayerState {
    Idle,
    Running,
    Jumping,
}

/// Horizontal direction the sprite faces.
#[derive(Clone, Copy, Debug, PartialEq, Eq, Structural)]
pub enum Facing {
    Left,
    Right,
}

impl Facing {
    /// Sign of the sprite's horizontal scale: `-1` flips it to face left.
    pub fn scale_sign(&self) -> (r: i8)
        ensures
            r == (if *self == Facing::Left { -1i8 } else { 1i8 }),
    {
        match self {
            Facing::Left => -1,
            Facing::Right => 1,
        }
    }
}

/// Key state for one tick. `jump` says the jump key is held; `jump_just_pressed`
/// says it went from released to pressed on this very tick.
#[derive(Clone, Copy, Debug, PartialEq, Eq, Structural)]
pub struct InputSnapshot {
    pub left: bool,
    pub right: bool,
    pub jump: bool,
    pub jump_just_pressed: bool,
}

/// Direction asked for by the horizontal keys: none when neither or both are held.
pub open spec fn direction_spec(input: InputSnapshot) -> Option<Facing> {
    if input.left && !input.right {
        Some(Facing::Left)
    } else if input.right && !input.left {
        Some(Facing::Right)
    } else {
        None
    }
}

impl InputSnapshot {
    /// A snapshot with no key held.
    pub fn none() -> (r: InputSnapshot)
        ensures
            !r.left && !r.right && !r.jump && !r.jump_just_pressed,
    {
        InputSnapshot { left: false, right: false, jump: false, jump_just_pressed: false }
    }

    /// Direction asked for by the horizontal keys; opposite keys held together
    /// cancel out.
    pub fn direction(&self) -> (r: Option<Facing>)
        ensures
            r == direction_spec(*self),
    {
        if self.left && !self.right {
            Some(Facing::Left)
        } else if self.right && !self.left {
            Some(Facing::Right)
        } else {
            None
        }
    }
}

impl PlayerState {
    pub open spec fn animation_type_spec(self) -> AnimationType {
        match self {
            PlayerState::Running => AnimationType::Loop,
            PlayerState::Idle => AnimationType::PlayOnceHold,
            PlayerState::Jumping => AnimationType::PlayOnceHold,
        }
    }

    /// Running loops its frames; idling and jumping play once and hold.
    pub fn animation_type(&self) -> (r: AnimationType)
        ensures
            r == self.animation_type_spec(),
    {
        match self {
            PlayerState::Running => AnimationType::Loop,
            PlayerState::Idle => AnimationType::PlayOnceHold,
            PlayerState::Jumping => AnimationType::PlayOnceHold,
        }
    }

    /// The frame timer is paused while idle, so the idle frame holds.
    pub fn timer_paused(&self) -> (r: bool)
        ensures
            r == (*self == PlayerState::Idle),
    {
        match self {
            PlayerState::Idle => true,
            _ => false,
        }
    }
}

} // verus!
