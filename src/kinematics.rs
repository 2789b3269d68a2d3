use vstd::prelude::*;

verus! {

/// Whether a mathematical integer is representable as an `i64`.
pub open spec fn fits_i64(v: int) -> bool {
    i64::MIN <= v <= i64::MAX
}

/// A 2D vector of integer components.
#[derive(Clone, Copy, Debug, PartialEq, Eq, Structural)]
pub struct Vec2 {
    pub x: i64,
    pub y: i64,
}

impl Vec2 {
    pub fn new(x: i64, y: i64) -> (r: Vec2)
        ensures
            r.x == x,
            r.y == y,
    {
        Vec2 { x, y }
    }

    pub fn zero() -> (r: Vec2)
        ensures
            r.x == 0,
            r.y == 0,
    {
        Vec2 { x: 0, y: 0 }
    }
}

/// Constant downward acceleration applied to every moving body.
#[derive(Clone, Copy, Debug, PartialEq, Eq, Structural)]
pub struct Gravity(pub Vec2);

/// Default strength: 490 world units per square second, straight down.
pub const DEFAULT_GRAVITY_Y: i64 = -490;

impl Default for Gravity {
    fn default() -> (r: Gravity)
        ensures
            r.0.x == 0,
            r.0.y == DEFAULT_GRAVITY_Y,
    {
        Gravity(Vec2 { x: 0, y: DEFAULT_GRAVITY_Y })
    }
}

/// Velocity component after one step of semi-implicit Euler integration.
pub open spec fn euler_velocity(v: int, g: int, dt: int) -> int {
    v + g * dt
}

/// Position component after one step: the updated velocity moves the body.
pub open spec fn euler_position(p: int, v: int, g: int, dt: int) -> int {
    p + euler_velocity(v, g, dt) * dt
}

/// Whether one integration step of a single axis stays within `i64`.
pub open spec fn axis_step_fits(p: int, v: int, g: int, dt: int) -> bool {
    fits_i64(euler_velocity(v, g, dt)) && fits_i64(euler_position(p, v, g, dt))
}

/// Whether one integration step of both axes stays within `i64`.
pub open spec fn integrate_fits(velocity: Vec2, position: Vec2, gravity: Gravity, dt_ms: u32) -> bool {
    &&& axis_step_fits(position.x as int, velocity.x as int, gravity.0.x as int, dt_ms as int)
    &&& axis_step_fits(position.y as int, velocity.y as int, gravity.0.y as int, dt_ms as int)
}

/// Velocity and position after one step, as machine values.
pub open spec fn integrate_spec(velocity: Vec2, position: Vec2, gravity: Gravity, dt_ms: u32) -> (Vec2, Vec2) {
    let dt = dt_ms as int;
    (
        Vec2 {
            x: euler_velocity(velocity.x as int, gravity.0.x as int, dt) as i64,
            y: euler_velocity(velocity.y as int, gravity.0.y as int, dt) as i64,
        },
        Vec2 {
            x: euler_position(position.x as int, velocity.x as int, gravity.0.x as int, dt) as i64,
            y: euler_position(position.y as int, velocity.y as int, gravity.0.y as int, dt) as i64,
        },
    )
}

/// One integration step of a single axis; returns (velocity, position).
fn integrate_axis(p: i64, v: i64, g: i64, dt_ms: u32) -> (r: (i64, i64))
    requires
        axis_step_fits(p as int, v as int, g as int, dt_ms as int),
    ensures
        r.0 == euler_velocity(v as int, g as int, dt_ms as int),
        r.1 == euler_position(p as int, v as int, g as int, dt_ms as int),
{
    let dt = dt_ms as i128;
    proof {
        assert(-0x8000_0000_0000_0000 * 0x1_0000_0000 <= (g as i128) * dt <= 0x7fff_ffff_ffff_ffff * 0x1_0000_0000)
            by (nonlinear_arith)
            requires
                i64::MIN <= g <= i64::MAX,
                0 <= dt < 0x1_0000_0000,
        ;
    }
    let nv = (v as i128) + (g as i128) * dt;
    let nv64 = nv as i64;
    proof {
        assert(-0x8000_0000_0000_0000 * 0x1_0000_0000 <= (nv64 as i128) * dt <= 0x7fff_ffff_ffff_ffff * 0x1_0000_0000)
            by (nonlinear_arith)
            requires
                i64::MIN <= nv64 <= i64::MAX,
                0 <= dt < 0x1_0000_0000,
        ;
    }
    let np = (p as i128) + (nv64 as i128) * dt;
    (nv64, np as i64)
}

/// Integrates gravity into velocity, then the new velocity into position,
/// over `dt_ms` milliseconds (semi-implicit Euler).
pub fn integrate(velocity: Vec2, position: Vec2, gravity: Gravity, dt_ms: u32) -> (r: (Vec2, Vec2))
    requires
        integrate_fits(velocity, position, gravity, dt_ms),
    ensures
        r == integrate_spec(velocity, position, gravity, dt_ms),
        r.0.y == velocity.y + gravity.0.y * dt_ms,
        r.1.y == position.y + r.0.y * dt_ms,
{
    let (vx, px) = integrate_axis(position.x, velocity.x, gravity.0.x, dt_ms);
    let (vy, py) = integrate_axis(position.y, velocity.y, gravity.0.y, dt_ms);
    (Vec2 { x: vx, y: vy }, Vec2 { x: px, y: py })
}

/// Whether one integration step of a single axis stays within `i64`.
fn axis_fits(p: i64, v: i64, g: i64, dt_ms: u32) -> (r: bool)
    ensures
        r == axis_step_fits(p as int, v as int, g as int, dt_ms as int),
{
    let dt = dt_ms as i128;
    proof {
        assert(-0x8000_0000_0000_0000 * 0x1_0000_0000 <= (g as i128) * dt <= 0x7fff_ffff_ffff_ffff * 0x1_0000_0000)
            by (nonlinear_arith)
            requires
                i64::MIN <= g <= i64::MAX,
                0 <= dt < 0x1_0000_0000,
        ;
    }
    let nv = (v as i128) + (g as i128) * dt;
    if nv < i64::MIN as i128 || nv > i64::MAX as i128 {
        return false;
    }
    proof {
        assert(-0x8000_0000_0000_0000 * 0x1_0000_0000 <= nv * dt <= 0x7fff_ffff_ffff_ffff * 0x1_0000_0000)
            by (nonlinear_arith)
            requires
                i64::MIN <= nv <= i64::MAX,
                0 <= dt < 0x1_0000_0000,
        ;
    }
    let np = (p as i128) + nv * dt;
    i64::MIN as i128 <= np && np <= i64::MAX as i128
}

/// Integrates as `integrate` does, or returns `None` where a component of
/// the result would not fit in an `i64`.
pub fn integrate_checked(velocity: Vec2, position: Vec2, gravity: Gravity, dt_ms: u32) -> (r: Option<(Vec2, Vec2)>)
    ensures
        r is Some <==> integrate_fits(velocity, position, gravity, dt_ms),
        r is Some ==> r->Some_0 == integrate_spec(velocity, position, gravity, dt_ms),
{
    if axis_fits(position.x, velocity.x, gravity.0.x, dt_ms) && axis_fits(position.y, velocity.y, gravity.0.y, dt_ms) {
        Some(integrate(velocity, position, gravity, dt_ms))
    } else {
        None
    }
}

/// Velocity and position of one axis, `(velocity, position)`, after `n`
/// integration steps of `dt` each.
pub open spec fn euler_run(p: int, v: int, g: int, dt: int, n: nat) -> (int, int)
    decreases n,
{
    if n == 0 {
        (v, p)
    } else {
        let prev = euler_run(p, v, g, dt, (n - 1) as nat);
        (euler_velocity(prev.0, g, dt), euler_position(prev.1, prev.0, g, dt))
    }
}

/// Total duration of a sequence of steps.
pub open spec fn total_time(dts: Seq<nat>) -> int
    decreases dts.len(),
{
    if dts.len() == 0 {
        0
    } else {
        total_time(dts.drop_last()) + dts.last()
    }
}

/// Velocity of one axis after steps of the given durations, in order.
pub open spec fn velocity_after(v: int, g: int, dts: Seq<nat>) -> int
    decreases dts.len(),
{
    if dts.len() == 0 {
        v
    } else {
        euler_velocity(velocity_after(v, g, dts.drop_last()), g, dts.last() as int)
    }
}

/// Under constant gravity the velocity after any sequence of steps is the
/// initial velocity plus gravity times the total elapsed time, exactly.
pub proof fn lemma_velocity_after_steps(v: int, g: int, dts: Seq<nat>)
    ensures
        velocity_after(v, g, dts) == v + g * total_time(dts),
    decreases dts.len(),
{
    if dts.len() > 0 {
        lemma_velocity_after_steps(v, g, dts.drop_last());
        let t = total_time(dts.drop_last());
        let d = dts.last() as int;
        assert(g * t + g * d == g * (t + d)) by (nonlinear_arith);
    }
}

/// With `n` equal steps of `dt` (total time `t = n * dt`), the velocity is
/// `v + g * t` and the position differs from the closed-form trajectory
/// `p + v * t + g * t * t / 2` by exactly the Euler error `g * dt * t / 2`.
/// Stated doubled, so that no division is needed.
pub proof fn lemma_euler_run_closed_form(p: int, v: int, g: int, dt: int, n: nat)
    ensures
        euler_run(p, v, g, dt, n).0 == v + g * (n * dt),
        2 * euler_run(p, v, g, dt, n).1 == 2 * p + 2 * v * (n * dt) + g * (n * dt) * (n * dt) + g * dt * (n * dt),
    decreases n,
{
    if n > 0 {
        let m = (n - 1) as nat;
        lemma_euler_run_closed_form(p, v, g, dt, m);
        let prev = euler_run(p, v, g, dt, m);
        assert(prev.0 + g * dt == v + g * (n * dt)) by (nonlinear_arith)
            requires
                prev.0 == v + g * (m * dt),
                n == m + 1,
        ;
        assert(2 * (prev.1 + (prev.0 + g * dt) * dt) == 2 * p + 2 * v * (n * dt) + g * (n * dt) * (n * dt) + g * dt * (n * dt))
            by (nonlinear_arith)
            requires
                prev.0 == v + g * (m * dt),
                2 * prev.1 == 2 * p + 2 * v * (m * dt) + g * (m * dt) * (m * dt) + g * dt * (m * dt),
                n == m + 1,
        ;
    }
}

} // verus!
