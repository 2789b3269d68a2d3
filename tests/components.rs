use sprite_player::animation::{advance_index, normalize_index, AnimationRange, AnimationType};
use sprite_player::collision::resolve_ground;
use sprite_player::kinematics::{integrate, integrate_checked, Gravity, Vec2};
use sprite_player::player::{animation_profile, Config, Player};
use sprite_player::state::{Facing, InputSnapshot, PlayerState};
use sprite_player::timer::FrameTimer;
use sprite_player::ConfigError;

#[test]
fn advance_stays_in_range() {
    let range = AnimationRange { first: 6, last: 11 };
    for kind in [AnimationType::Loop, AnimationType::PlayOnceHold] {
        let mut index = 0;
        for _ in 0..30 {
            index = advance_index(index, range, kind);
            assert!(range.first <= index && index <= range.last);
        }
    }
    for index in 0..20 {
        let r = advance_index(index, range, AnimationType::Loop);
        assert!(range.first <= r && r <= range.last);
    }
}

#[test]
fn advance_steps_and_wraps() {
    let range = AnimationRange { first: 0, last: 5 };
    assert_eq!(advance_index(2, range, AnimationType::Loop), 3);
    assert_eq!(advance_index(2, range, AnimationType::PlayOnceHold), 3);
    assert_eq!(advance_index(5, range, AnimationType::Loop), 0);
    assert_eq!(advance_index(5, range, AnimationType::PlayOnceHold), 5);
    assert_eq!(advance_index(9, range, AnimationType::Loop), 0);
}

#[test]
fn advance_lifts_stale_index() {
    let range = AnimationRange { first: 6, last: 11 };
    assert_eq!(normalize_index(2, range), 6);
    assert_eq!(normalize_index(8, range), 8);
    assert_eq!(advance_index(2, range, AnimationType::Loop), 7);
    assert_eq!(advance_index(2, range, AnimationType::PlayOnceHold), 7);
}

#[test]
fn play_once_keeps_index_beyond_range() {
    let range = AnimationRange { first: 0, last: 5 };
    assert_eq!(advance_index(9, range, AnimationType::PlayOnceHold), 9);
}

#[test]
fn repeated_integration_matches_closed_form() {
    let g: i64 = -490;
    let dt: i64 = 16;
    let v0: i64 = 300_000;
    let p0: i64 = 1_000_000;
    let mut v = Vec2::new(0, v0);
    let mut p = Vec2::new(0, p0);
    for n in 1..=50i64 {
        let (nv, np) = integrate(v, p, Gravity(Vec2::new(0, g)), dt as u32);
        v = nv;
        p = np;
        let t = n * dt;
        assert_eq!(v.y, v0 + g * t);
        assert_eq!(2 * p.y, 2 * p0 + 2 * v0 * t + g * t * t + g * dt * t);
    }
}

#[test]
fn integration_with_varying_steps_tracks_total_time() {
    let gravity = Gravity(Vec2::new(3, -490));
    let mut v = Vec2::new(7, 100);
    let mut p = Vec2::zero();
    let mut total: i64 = 0;
    for dt in [0u32, 5, 16, 33, 1, 100] {
        let (nv, np) = integrate(v, p, gravity, dt);
        v = nv;
        p = np;
        total += dt as i64;
        assert_eq!(v, Vec2::new(7 + 3 * total, 100 - 490 * total));
    }
}

#[test]
fn zero_step_changes_nothing() {
    let (v, p) = integrate(Vec2::new(1, 2), Vec2::new(3, 4), Gravity::default(), 0);
    assert_eq!(v, Vec2::new(1, 2));
    assert_eq!(p, Vec2::new(3, 4));
}

#[test]
fn ground_collision_is_idempotent() {
    let once = resolve_ground(Vec2::new(5, -7), Vec2::new(2, -9), PlayerState::Jumping, 0);
    let twice = resolve_ground(once.0, once.1, once.2, 0);
    assert_eq!(once, twice);
    let rest = resolve_ground(Vec2::new(5, 10), Vec2::new(2, 0), PlayerState::Running, 10);
    assert_eq!(rest, (Vec2::new(5, 10), Vec2::new(2, 0), PlayerState::Idle));
}

#[test]
fn above_ground_passes_through() {
    let r = resolve_ground(Vec2::new(5, 1), Vec2::new(2, -9), PlayerState::Jumping, 0);
    assert_eq!(r, (Vec2::new(5, 1), Vec2::new(2, -9), PlayerState::Jumping));
}

#[test]
fn holding_jump_gives_one_impulse() {
    let config = Config::default();
    let mut player = Player::spawn(&config, Vec2::new(0, 0));
    player.step(InputSnapshot { left: false, right: false, jump: true, jump_just_pressed: true }, &config, 16);
    assert_eq!(player.state, PlayerState::Jumping);
    assert_eq!(player.velocity.y, 300_000 - 490 * 16);
    let held = InputSnapshot { left: false, right: false, jump: true, jump_just_pressed: false };
    let mut expected = player.velocity.y;
    for _ in 0..10 {
        player.step(held, &config, 16);
        expected -= 490 * 16;
        assert_eq!(player.state, PlayerState::Jumping);
        assert_eq!(player.velocity.y, expected);
    }
}

#[test]
fn fresh_press_while_jumping_is_ignored() {
    let config = Config::default();
    let mut player = Player::spawn(&config, Vec2::new(0, 0));
    let press = InputSnapshot { left: false, right: false, jump: true, jump_just_pressed: true };
    player.control(press, &config, 16);
    player.velocity.y = 12;
    player.control(press, &config, 16);
    assert_eq!(player.state, PlayerState::Jumping);
    assert_eq!(player.velocity.y, 12);
    player.control(InputSnapshot { left: true, right: false, jump: false, jump_just_pressed: false }, &config, 16);
    assert_eq!(player.state, PlayerState::Jumping);
    assert_eq!(player.transform.translation.x, 0);
}

#[test]
fn opposite_keys_cancel_out() {
    let config = Config::default();
    let mut player = Player::spawn(&config, Vec2::new(0, 0));
    let both = InputSnapshot { left: true, right: true, jump: false, jump_just_pressed: false };
    assert_eq!(both.direction(), None);
    player.control(both, &config, 100);
    assert_eq!(player.state, PlayerState::Idle);
    assert_eq!(player.transform.translation.x, 0);
    assert!(player.timer.paused);
}

#[test]
fn right_runs_right() {
    let config = Config::default();
    let mut player = Player::spawn(&config, Vec2::new(0, 0));
    player.control(InputSnapshot { left: true, right: false, jump: false, jump_just_pressed: false }, &config, 10);
    player.control(InputSnapshot { left: false, right: true, jump: false, jump_just_pressed: false }, &config, 20);
    assert_eq!(player.transform.facing, Facing::Right);
    assert_eq!(player.transform.facing.scale_sign(), 1);
    assert_eq!(player.transform.translation.x, -1_500_000 + 3_000_000);
}

#[test]
fn running_animation_loops() {
    let config = Config::default();
    let mut player = Player::spawn(&config, Vec2::new(0, 0));
    player.control(InputSnapshot { left: false, right: true, jump: false, jump_just_pressed: false }, &config, 0);
    let mut seen = Vec::new();
    for _ in 0..8 {
        player.animate(100);
        seen.push(player.frame_index);
    }
    assert_eq!(seen, vec![1, 2, 3, 4, 5, 0, 1, 2]);
}

#[test]
fn timer_fires_and_keeps_remainder() {
    let mut timer = FrameTimer::new(100).unwrap();
    assert!(!timer.tick(60));
    assert_eq!(timer.elapsed_ms, 60);
    assert!(timer.tick(60));
    assert_eq!(timer.elapsed_ms, 20);
    timer.pause();
    assert!(!timer.tick(500));
    assert_eq!(timer.elapsed_ms, 20);
    timer.unpause();
    assert!(timer.tick(80));
    assert_eq!(timer.elapsed_ms, 0);
    assert!(timer.tick(250));
    assert_eq!(timer.elapsed_ms, 150);
    timer.reset();
    assert_eq!(timer.elapsed_ms, 0);
}

#[test]
fn config_errors() {
    assert_eq!(FrameTimer::new(0), Err(ConfigError::ZeroInterval));
    assert_eq!(AnimationRange::new(6, 5), Err(ConfigError::InvertedRange));
    assert_eq!(AnimationRange::new(5, 5), Ok(AnimationRange { first: 5, last: 5 }));
    let mut config = Config::default();
    assert_eq!(config.validate(), Ok(()));
    config.jump_frames = AnimationRange { first: 11, last: 6 };
    assert_eq!(config.validate(), Err(ConfigError::InvertedRange));
    config.frame_interval_ms = 0;
    assert_eq!(config.validate(), Err(ConfigError::ZeroInterval));
}

#[test]
fn profile_per_state() {
    let config = Config::default();
    assert_eq!(
        animation_profile(&config, PlayerState::Idle),
        (AnimationRange { first: 0, last: 5 }, AnimationType::PlayOnceHold, true)
    );
    assert_eq!(
        animation_profile(&config, PlayerState::Running),
        (AnimationRange { first: 0, last: 5 }, AnimationType::Loop, false)
    );
    assert_eq!(
        animation_profile(&config, PlayerState::Jumping),
        (AnimationRange { first: 6, last: 11 }, AnimationType::PlayOnceHold, false)
    );
}

#[test]
fn default_values() {
    let config = Config::default();
    assert_eq!(config.gravity, Gravity(Vec2::new(0, -490)));
    assert_eq!(config.ground_level, 0);
    assert_eq!(config.jump_impulse, 300_000);
    assert_eq!(config.run_speed, 150_000);
    assert_eq!(config.frame_interval_ms, 100);
    let player = Player::spawn(&config, Vec2::new(4, 5));
    assert_eq!(player.state, PlayerState::Idle);
    assert_eq!(player.velocity, Vec2::zero());
    assert_eq!(player.frame_index, 0);
    assert_eq!(player.transform.translation, Vec2::new(4, 5));
}

#[test]
fn checked_integration_refuses_overflow() {
    let gravity = Gravity::default();
    assert_eq!(
        integrate_checked(Vec2::zero(), Vec2::new(0, 10_000_000), gravity, 100),
        Some((Vec2::new(0, -49_000), Vec2::new(0, 5_100_000)))
    );
    assert_eq!(integrate_checked(Vec2::zero(), Vec2::new(0, i64::MIN + 10), gravity, 100), None);
    assert_eq!(integrate_checked(Vec2::new(0, i64::MIN + 5), Vec2::zero(), gravity, 1), None);
}

#[test]
fn try_step_refuses_overflow_and_keeps_player() {
    let config = Config::default();
    let mut player = Player::spawn(&config, Vec2::new(i64::MIN + 1, 0));
    let before = player;
    let left = InputSnapshot { left: true, right: false, jump: false, jump_just_pressed: false };
    assert!(!player.try_step(left, &config, 100));
    assert_eq!(player, before);
    let right = InputSnapshot { left: false, right: true, jump: false, jump_just_pressed: false };
    assert!(player.try_step(right, &config, 100));
    assert_eq!(player.transform.translation.x, i64::MIN + 1 + 15_000_000);
    assert_eq!(player.state, PlayerState::Idle);
}
