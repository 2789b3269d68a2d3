use crate::animation::{
    advance_index, advance_spec, normalize_index, normalize_spec, AnimationRange, AnimationType,
};
use crate::collision::{resolve_ground, resolve_ground_spec, DEFAULT_GROUND_LEVEL};
use crate::kinematics::{
    fits_i64, integrate, integrate_checked, integrate_fits, integrate_spec, Gravity, Vec2, DEFAULT_GRAVITY_Y,
};
use crate::state::{direction_spec, Facing, InputSnapshot, PlayerState};
use crate::timer::FrameTimer;
use crate::ConfigError;
use vstd::prelude::*;

verus! {

/// Default vertical velocity given by a jump: 300 world units per second.
pub const DEFAULT_JUMP_IMPULSE: i64 = 300_000;

/// Default horizontal speed: 150 world units per second.
pub const DEFAULT_RUN_SPEED: i64 = 150_000;

/// Default time between two animation frames, in milliseconds.
pub const DEFAULT_FRAME_INTERVAL_MS: u64 = 100;

/// Settings shared by every player, fixed at start-up.
#[derive(Clone, Copy, Debug, PartialEq, Eq, Structural)]
pub struct Config {
    pub gravity: Gravity,
    pub ground_level: i64,
    /// Vertical velocity set when a jump starts.
    pub jump_impulse: i64,
    /// Horizontal distance covered per millisecond while running.
    pub run_speed: i64,
    pub frame_interval_ms: u64,
    pub idle_frames: AnimationRange,
    pub run_frames: AnimationRange,
    pub jump_frames: AnimationRange,
}

impl Config {
    pub open spec fn wf(&self) -> bool {
        &&& self.frame_interval_ms > 0
        &&& self.idle_frames.wf()
        &&& self.run_frames.wf()
        &&& self.jump_frames.wf()
    }

    pub open spec fn frames_spec(&self, state: PlayerState) -> AnimationRange {
        match state {
            PlayerState::Idle => self.idle_frames,
            PlayerState::Running => self.run_frames,
            PlayerState::Jumping => self.jump_frames,
        }
    }

    /// Frame range shown in the given state.
    pub fn frames(&self, state: PlayerState) -> (r: AnimationRange)
        ensures
            r == self.frames_spec(state),
    {
        match state {
            PlayerState::Idle => self.idle_frames,
            PlayerState::Running => self.run_frames,
            PlayerState::Jumping => self.jump_frames,
        }
    }

    /// Checks a configuration: the frame interval must be positive and each
    /// frame range must not be inverted.
    pub fn validate(&self) -> (r: Result<(), ConfigError>)
        ensures
            r is Ok <==> self.wf(),
            r is Err ==> (r->Err_0 == ConfigError::ZeroInterval <==> self.frame_interval_ms == 0),
    {
        if self.frame_interval_ms == 0 {
            Err(ConfigError::ZeroInterval)
        } else if self.idle_frames.first > self.idle_frames.last
            || self.run_frames.first > self.run_frames.last
            || self.jump_frames.first > self.jump_frames.last {
            Err(ConfigError::InvertedRange)
        } else {
            Ok(())
        }
    }
}

/// Frame range, animation policy and whether the timer is paused, for each state.
pub fn animation_profile(config: &Config, state: PlayerState) -> (r: (AnimationRange, AnimationType, bool))
    ensures
        r == (config.frames_spec(state), state.animation_type_spec(), state == PlayerState::Idle),
{
    (config.frames(state), state.animation_type(), state.timer_paused())
}

impl Default for Config {
    /// Gravity of 490 world units per square second downwards, ground at 0,
    /// jumps at 300 and runs at 150 world units per second, a frame every
    /// 100 ms, idle and run frames 0 to 5 and jump frames 6 to 11.
    fn default() -> (r: Config)
        ensures
            r.gravity.0.x == 0,
            r.gravity.0.y == DEFAULT_GRAVITY_Y,
            r.ground_level == DEFAULT_GROUND_LEVEL,
            r.jump_impulse == DEFAULT_JUMP_IMPULSE,
            r.run_speed == DEFAULT_RUN_SPEED,
            r.frame_interval_ms == DEFAULT_FRAME_INTERVAL_MS,
            r.idle_frames == (AnimationRange { first: 0, last: 5 }),
            r.run_frames == (AnimationRange { first: 0, last: 5 }),
            r.jump_frames == (AnimationRange { first: 6, last: 11 }),
            r.wf(),
    {
        Config {
            gravity: Gravity::default(),
            ground_level: DEFAULT_GROUND_LEVEL,
            jump_impulse: DEFAULT_JUMP_IMPULSE,
            run_speed: DEFAULT_RUN_SPEED,
            frame_interval_ms: DEFAULT_FRAME_INTERVAL_MS,
            idle_frames: AnimationRange { first: 0, last: 5 },
            run_frames: AnimationRange { first: 0, last: 5 },
            jump_frames: AnimationRange { first: 6, last: 11 },
        }
    }
}

/// Position of the sprite and the way it faces.
#[derive(Clone, Copy, Debug, PartialEq, Eq, Structural)]
pub struct Transform {
    pub translation: Vec2,
    pub facing: Facing,
}

/// Everything one player entity carries from tick to tick.
#[derive(Clone, Copy, Debug, PartialEq, Eq, Structural)]
pub struct Player {
    pub state: PlayerState,
    pub transform: Transform,
    pub velocity: Vec2,
    /// Frame range of the current animation.
    pub frames: AnimationRange,
    pub timer: FrameTimer,
    /// Atlas index of the frame on display.
    pub frame_index: usize,
}

/// Horizontal displacement of one tick of running in the given direction.
pub open spec fn run_offset(speed: i64, dt_ms: u32, facing: Facing) -> int {
    match facing {
        Facing::Left => -(speed * dt_ms),
        Facing::Right => speed * dt_ms,
    }
}

/// Horizontal position after one tick of running, computed without overflow.
fn run_target(x: i64, speed: i64, dt_ms: u32, facing: Facing) -> (r: i128)
    ensures
        r == x + run_offset(speed, dt_ms, facing),
{
    let dt = dt_ms as i128;
    proof {
        assert(-0x8000_0000_0000_0000 * 0x1_0000_0000 <= (speed as i128) * dt <= 0x7fff_ffff_ffff_ffff
            * 0x1_0000_0000) by (nonlinear_arith)
            requires
                i64::MIN <= speed <= i64::MAX,
                0 <= dt < 0x1_0000_0000,
        ;
    }
    let offset = (speed as i128) * dt;
    match facing {
        Facing::Left => (x as i128) - offset,
        Facing::Right => (x as i128) + offset,
    }
}

impl Player {
    pub open spec fn wf(&self) -> bool {
        self.frames.wf() && self.timer.wf()
    }

    /// Player after the state machine has read one tick's input.
    pub open spec fn control_spec(self, input: InputSnapshot, config: Config, dt_ms: u32) -> Player {
        let p = if input.jump_just_pressed && self.state != PlayerState::Jumping {
            Player {
                state: PlayerState::Jumping,
                velocity: Vec2 { y: config.jump_impulse, ..self.velocity },
                frames: config.jump_frames,
                frame_index: config.jump_frames.first,
                timer: FrameTimer { elapsed_ms: 0, ..self.timer },
                ..self
            }
        } else if self.state != PlayerState::Jumping {
            match direction_spec(input) {
                Some(f) => Player {
                    state: PlayerState::Running,
                    frames: config.run_frames,
                    transform: Transform {
                        translation: Vec2 {
                            x: (self.transform.translation.x + run_offset(config.run_speed, dt_ms, f)) as i64,
                            ..self.transform.translation
                        },
                        facing: f,
                    },
                    ..self
                },
                None => Player { state: PlayerState::Idle, frames: config.idle_frames, ..self },
            }
        } else {
            self
        };
        Player { timer: FrameTimer { paused: p.state == PlayerState::Idle, ..p.timer }, ..p }
    }

    /// Whether the horizontal move of `control` stays within `i64`.
    pub open spec fn control_fits(self, input: InputSnapshot, config: Config, dt_ms: u32) -> bool {
        match direction_spec(input) {
            Some(f) => fits_i64(self.transform.translation.x + run_offset(config.run_speed, dt_ms, f)),
            None => true,
        }
    }

    /// Player after the animation step: the timer ticks, the index is lifted
    /// into the range, and on an advance event it moves on by the state's policy.
    pub open spec fn animate_spec(self, dt_ms: u32) -> Player {
        let (timer, fired) = self.timer.tick_spec(dt_ms);
        let i = normalize_spec(self.frame_index, self.frames);
        Player {
            timer,
            frame_index: if fired {
                advance_spec(i, self.frames, self.state.animation_type_spec())
            } else {
                i
            },
            ..self
        }
    }

    /// Player after physics: gravity integration, then ground collision.
    pub open spec fn physics_spec(self, config: Config, dt_ms: u32) -> Player {
        let (v, pos) = integrate_spec(self.velocity, self.transform.translation, config.gravity, dt_ms);
        let (pos2, v2, s2) = resolve_ground_spec(pos, v, self.state, config.ground_level);
        Player { state: s2, velocity: v2, transform: Transform { translation: pos2, ..self.transform }, ..self }
    }

    /// Player after one full tick.
    pub open spec fn step_spec(self, input: InputSnapshot, config: Config, dt_ms: u32) -> Player {
        self.control_spec(input, config, dt_ms).physics_spec(config, dt_ms).animate_spec(dt_ms)
    }

    /// Whether no arithmetic of one full tick overflows.
    pub open spec fn step_fits(self, input: InputSnapshot, config: Config, dt_ms: u32) -> bool {
        let c = self.control_spec(input, config, dt_ms);
        &&& self.control_fits(input, config, dt_ms)
        &&& integrate_fits(c.velocity, c.transform.translation, config.gravity, dt_ms)
        &&& c.timer.tick_fits(dt_ms)
    }

    /// A freshly spawned player: idle at `position`, facing right, at rest,
    /// showing the first idle frame with its frame timer paused.
    pub fn spawn(config: &Config, position: Vec2) -> (r: Player)
        requires
            config.wf(),
        ensures
            r.wf(),
            r == (Player {
                state: PlayerState::Idle,
                transform: Transform { translation: position, facing: Facing::Right },
                velocity: Vec2 { x: 0, y: 0 },
                frames: config.idle_frames,
                timer: FrameTimer { interval_ms: config.frame_interval_ms, elapsed_ms: 0, paused: true },
                frame_index: config.idle_frames.first,
            }),
    {
        Player {
            state: PlayerState::Idle,
            transform: Transform { translation: position, facing: Facing::Right },
            velocity: Vec2::zero(),
            frames: config.idle_frames,
            timer: FrameTimer { interval_ms: config.frame_interval_ms, elapsed_ms: 0, paused: true },
            frame_index: config.idle_frames.first,
        }
    }

    /// Runs the state machine on one tick's input. A fresh jump press while
    /// not already jumping starts a jump: vertical velocity becomes the jump
    /// impulse, the jump frames start from their first one and the timer
    /// restarts, and no horizontal move is made. Otherwise, unless jumping,
    /// one horizontal key runs the player that way (facing it and moving
    /// `run_speed * dt_ms`), and no key or both keys make it idle. Finally the
    /// timer is paused exactly when the resulting state is `Idle`.
    pub fn control(&mut self, input: InputSnapshot, config: &Config, dt_ms: u32)
        requires
            old(self).control_fits(input, *config, dt_ms),
        ensures
            *final(self) == old(self).control_spec(input, *config, dt_ms),
            final(self).timer.paused == (final(self).state == PlayerState::Idle),
            final(self).timer.interval_ms == old(self).timer.interval_ms,
            old(self).state == PlayerState::Jumping ==> final(self).state == PlayerState::Jumping
                && final(self).velocity == old(self).velocity,
            !input.jump_just_pressed ==> final(self).velocity == old(self).velocity,
            old(self).wf() && config.wf() ==> final(self).wf(),
    {
        if input.jump_just_pressed && self.state != PlayerState::Jumping {
            self.timer.reset();
            self.frame_index = config.jump_frames.first;
            self.state = PlayerState::Jumping;
            self.velocity.y = config.jump_impulse;
            self.frames = config.jump_frames;
        } else if self.state != PlayerState::Jumping {
            match input.direction() {
                Some(f) => {
                    let nx = run_target(self.transform.translation.x, config.run_speed, dt_ms, f);
                    self.state = PlayerState::Running;
                    self.frames = config.run_frames;
                    self.transform.translation.x = nx as i64;
                    self.transform.facing = f;
                },
                None => {
                    self.state = PlayerState::Idle;
                    self.frames = config.idle_frames;
                },
            }
        }
        if self.state.timer_paused() {
            self.timer.pause();
        } else {
            self.timer.unpause();
        }
    }

    /// Applies gravity to velocity and position, then resolves contact with
    /// the ground, which may make the player idle.
    pub fn apply_physics(&mut self, config: &Config, dt_ms: u32)
        requires
            integrate_fits(old(self).velocity, old(self).transform.translation, config.gravity, dt_ms),
        ensures
            *final(self) == old(self).physics_spec(*config, dt_ms),
    {
        let (v, pos) = integrate(self.velocity, self.transform.translation, config.gravity, dt_ms);
        let (pos2, v2, s2) = resolve_ground(pos, v, self.state, config.ground_level);
        self.velocity = v2;
        self.transform.translation = pos2;
        self.state = s2;
    }

    /// Ticks the frame timer, lifts a stale frame index into the current
    /// range, and on an advance event moves to the next frame by the policy of
    /// the current state.
    pub fn animate(&mut self, dt_ms: u32)
        requires
            old(self).wf(),
            old(self).timer.tick_fits(dt_ms),
        ensures
            *final(self) == old(self).animate_spec(dt_ms),
            final(self).wf(),
            final(self).frame_index >= final(self).frames.first,
            old(self).timer.paused ==> final(self).frame_index == normalize_spec(old(self).frame_index, old(self).frames),
    {
        let fired = self.timer.tick(dt_ms);
        let i = normalize_index(self.frame_index, self.frames);
        if fired {
            self.frame_index = advance_index(i, self.frames, self.state.animation_type());
        } else {
            self.frame_index = i;
        }
    }

    /// One simulation tick, in this order: state machine, gravity
    /// integration, ground collision, animation.
    pub fn step(&mut self, input: InputSnapshot, config: &Config, dt_ms: u32)
        requires
            old(self).wf(),
            config.wf(),
            old(self).step_fits(input, *config, dt_ms),
        ensures
            *final(self) == old(self).step_spec(input, *config, dt_ms),
            final(self).wf(),
    {
        self.control(input, config, dt_ms);
        self.apply_physics(config, dt_ms);
        self.animate(dt_ms);
    }
    /// Whether the horizontal move of `control` stays within `i64`.
    pub fn control_fits_exec(&self, input: InputSnapshot, config: &Config, dt_ms: u32) -> (r: bool)
        ensures
            r == self.control_fits(input, *config, dt_ms),
    {
        match input.direction() {
            Some(f) => {
                let nx = run_target(self.transform.translation.x, config.run_speed, dt_ms, f);
                i64::MIN as i128 <= nx && nx <= i64::MAX as i128
            },
            None => true,
        }
    }

    /// Runs one tick as `step` does where no value overflows and returns
    /// `true`; otherwise leaves the player unchanged and returns `false`.
    pub fn try_step(&mut self, input: InputSnapshot, config: &Config, dt_ms: u32) -> (r: bool)
        requires
            old(self).wf(),
            config.wf(),
        ensures
            r == old(self).step_fits(input, *config, dt_ms),
            r ==> *final(self) == old(self).step_spec(input, *config, dt_ms),
            !r ==> *final(self) == *old(self),
            final(self).wf(),
    {
        if !self.control_fits_exec(input, config, dt_ms) {
            return false;
        }
        let mut next = *self;
        next.control(input, config, dt_ms);
        if integrate_checked(next.velocity, next.transform.translation, config.gravity, dt_ms).is_none() {
            return false;
        }
        if next.timer.elapsed_ms > u64::MAX - dt_ms as u64 {
            return false;
        }
        next.apply_physics(config, dt_ms);
        next.animate(dt_ms);
        *self = next;
        true
    }
}

/// A jump cannot start while the player is already jumping, whatever the
/// input: the state stays `Jumping` and the velocity is left as it was.
pub proof fn lemma_no_jump_while_jumping(player: Player, input: InputSnapshot, config: Config, dt_ms: u32)
    requires
        player.state == PlayerState::Jumping,
    ensures
        player.control_spec(input, config, dt_ms).state == PlayerState::Jumping,
        player.control_spec(input, config, dt_ms).velocity == player.velocity,
{
}

/// Holding the jump key without a fresh press never gives an impulse.
pub proof fn lemma_held_jump_gives_no_impulse(player: Player, input: InputSnapshot, config: Config, dt_ms: u32)
    requires
        !input.jump_just_pressed,
    ensures
        player.control_spec(input, config, dt_ms).velocity == player.velocity,
{
}

/// A fresh press from the ground starts exactly one jump: the state becomes
/// `Jumping` with the configured impulse.
pub proof fn lemma_fresh_press_starts_jump(player: Player, input: InputSnapshot, config: Config, dt_ms: u32)
    requires
        input.jump_just_pressed,
        player.state != PlayerState::Jumping,
    ensures
        player.control_spec(input, config, dt_ms).state == PlayerState::Jumping,
        player.control_spec(input, config, dt_ms).velocity.y == config.jump_impulse,
{
}

} // verus!
