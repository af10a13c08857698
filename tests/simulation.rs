use platformer::geometry::{collide, Aabb, Collision, Transform, Vec2, Vec3};
use platformer::guy::{
    game_input_system, guy_collision_system, resolve_against, simulate_tick, touched_portal,
    update_jump_state, GameInput, GuyBundle, Portal, Wall,
};
use platformer::jump::JumpState;
use platformer::physics::{physics_system, PhysicsConfig, PhysicsObject};
use platformer::timer::Timer;
use platformer::SUBPIXELS;

/// One tick at 120 ticks per second, in nanoseconds.
const TICK: u64 = 8_333_333;

fn px(v: i64) -> i64 {
    v * SUBPIXELS
}

fn wall(x: i64, y: i64, w: i64, h: i64) -> Wall {
    Wall {
        transform: Transform {
            translation: Vec3::new(px(x), px(y), 0),
            scale: Vec3::new(0, 0, 0),
        },
        aabb: Aabb::StaticAabb { scale: Vec2::new(px(w), px(h)) },
    }
}

fn body_at(x: i64, y: i64) -> GuyBundle {
    let cfg = PhysicsConfig::default();
    GuyBundle::with_translation(Vec3::new(px(x), px(y), 0), &cfg)
}

fn no_input() -> GameInput {
    GameInput { movement: None, jump_pressed: false, debug_pressed: false }
}

fn jump_input() -> GameInput {
    GameInput { movement: None, jump_pressed: true, debug_pressed: false }
}

#[test]
fn fall_onto_platform() {
    let cfg = PhysicsConfig::default();
    let walls = vec![wall(0, 0, 200, 10)];
    let mut guy = body_at(0, 100);
    guy.physics.velocity = Vec2::new(0, px(-50));
    let mut ticks = 0;
    loop {
        simulate_tick(&mut guy, &walls, TICK, &cfg);
        ticks += 1;
        if guy.jump_state.on_ground.is_some() {
            break;
        }
        // Airborne: the body's bottom is still above the platform's top.
        assert!(guy.transform.translation.y - px(8) >= px(5));
        assert!(ticks < 1000);
    }
    // The first tick whose integration reaches the platform is the 28th.
    assert_eq!(ticks, 28);
    assert_eq!(guy.transform.translation.y, px(13));
    assert!(guy.physics.velocity.y >= 0);
    assert_eq!(guy.jump_state.on_ground, Some(px(13)));
}

#[test]
fn odd_extent_spans_fully() {
    let t = Transform { translation: Vec3::new(10, 20, 0), scale: Vec3::new(5, 7, 0) };
    let r = Aabb::default().get_rect(&t);
    assert_eq!(r.min, Vec2::new(8, 17));
    assert_eq!(r.max, Vec2::new(13, 24));
    // An odd-sized body pushed out of a wall ends flush with it.
    let cfg = PhysicsConfig::default();
    let w = Wall {
        transform: Transform { translation: Vec3::new(0, 0, 0), scale: Vec3::new(0, 0, 0) },
        aabb: Aabb::StaticAabb { scale: Vec2::new(21, 21) },
    };
    let mut guy = body_at(0, 0);
    guy.transform.translation = Vec3::new(-12, 0, 0);
    guy.transform.scale = Vec3::new(5, 5, 0);
    let size = guy.aabb.get_scale(&guy.transform);
    resolve_against(&mut guy, size, &w, &cfg);
    let gr = guy.aabb.get_rect(&guy.transform);
    let wr = w.aabb.get_rect(&w.transform);
    assert_eq!(gr.max.x, wr.min.x);
    assert_eq!(collide(w.transform.translation, Vec2::new(21, 21), guy.transform.translation, size), None);
}

#[test]
fn coyote_window_of_zero_length() {
    let t = Timer::new(0);
    assert!(t.finished());
    let mut c = platformer::jump::CoyoteTimer::new(0);
    assert!(!c.can_jump());
    c.set_on_ground(300_000_000);
    assert!(c.can_jump());
}

#[test]
fn grounded_jump_launches() {
    let cfg = PhysicsConfig::default();
    let mut guy = body_at(0, 13);
    guy.jump_state.set_on_ground(px(13), &cfg);
    game_input_system(&mut guy, &jump_input(), &cfg);
    assert_eq!(guy.physics.velocity.y, cfg.jump_speed);
    assert_eq!(guy.physics.velocity.y, px(600));
    assert_eq!(guy.jump_state.on_ground, None);
    assert_eq!(guy.transform.scale, Vec3::new(px(14), px(20), 0));
    assert_eq!(guy.jump_state.coyote_timer.timer, None);
}

/// Lands the body on a platform, then takes the platform away so that it walks off.
fn walked_off(airborne_ticks: usize) -> GuyBundle {
    let cfg = PhysicsConfig::default();
    let walls = vec![wall(0, 0, 200, 10)];
    let mut guy = body_at(0, 14);
    while guy.jump_state.on_ground.is_none() {
        simulate_tick(&mut guy, &walls, TICK, &cfg);
    }
    for _ in 0..airborne_ticks {
        simulate_tick(&mut guy, &[], TICK, &cfg);
        assert_eq!(guy.jump_state.on_ground, None);
    }
    guy
}

#[test]
fn coyote_jump_within_window() {
    let cfg = PhysicsConfig::default();
    // 24 ticks: 0.2 s after leaving the ground.
    let mut guy = walked_off(24);
    game_input_system(&mut guy, &jump_input(), &cfg);
    assert_eq!(guy.physics.velocity.y, cfg.jump_speed);
    assert_eq!(guy.jump_state.coyote_timer.timer, None);
}

#[test]
fn expired_coyote_buffers_instead() {
    let cfg = PhysicsConfig::default();
    // 42 ticks: 0.35 s after leaving the ground.
    let mut guy = walked_off(42);
    let vy = guy.physics.velocity.y;
    game_input_system(&mut guy, &jump_input(), &cfg);
    assert_eq!(guy.physics.velocity.y, vy);
    assert!(!guy.jump_state.pre_jump_timer.timer.finished());
    assert_eq!(guy.jump_state.pre_jump_timer.timer.elapsed(), 0);
}

#[test]
fn coyote_window_boundary() {
    let cfg = PhysicsConfig::default();
    // 36 ticks are 299_999_988 ns, just inside 0.3 s.
    let mut inside = walked_off(36);
    game_input_system(&mut inside, &jump_input(), &cfg);
    assert_eq!(inside.physics.velocity.y, cfg.jump_speed);
    // 37 ticks are past it.
    let mut outside = walked_off(37);
    game_input_system(&mut outside, &jump_input(), &cfg);
    assert_ne!(outside.physics.velocity.y, cfg.jump_speed);
}

#[test]
fn no_double_coyote_jump() {
    let cfg = PhysicsConfig::default();
    let mut guy = walked_off(10);
    game_input_system(&mut guy, &jump_input(), &cfg);
    assert_eq!(guy.physics.velocity.y, cfg.jump_speed);
    simulate_tick(&mut guy, &[], TICK, &cfg);
    let vy = guy.physics.velocity.y;
    game_input_system(&mut guy, &jump_input(), &cfg);
    assert_eq!(guy.physics.velocity.y, vy);
    assert!(!guy.jump_state.pre_jump_timer.timer.finished());
}

/// A body that jumped, falling from `height` sub-pixels above standing on the platform,
/// asks for a jump, and ticks until it has touched the platform or launched.
/// Returns the number of ticks and whether it launched.
fn buffered_landing(height: i64) -> (usize, bool) {
    let cfg = PhysicsConfig::default();
    let walls = vec![wall(0, 0, 200, 10)];
    let mut guy = body_at(0, 13);
    guy.transform.translation.y = px(13) + height;
    guy.jump_state.coyote_timer.jump();
    game_input_system(&mut guy, &jump_input(), &cfg);
    assert_eq!(guy.physics.velocity.y, 0);
    let mut ticks = 0;
    loop {
        simulate_tick(&mut guy, &walls, TICK, &cfg);
        ticks += 1;
        if guy.physics.velocity.y == cfg.jump_speed {
            assert_eq!(guy.jump_state.on_ground, None);
            return (ticks, true);
        }
        if guy.jump_state.on_ground.is_some() {
            return (ticks, false);
        }
        assert!(ticks < 1000);
    }
}

#[test]
fn buffered_jump_fires_on_landing() {
    // Lands on the sixth tick, 0.05 s after the request.
    let (ticks, launched) = buffered_landing(3000);
    assert_eq!(ticks, 6);
    assert!(launched);
}

#[test]
fn buffered_jump_expires_before_landing() {
    // Lands on the ninth tick, 0.075 s after the request: the 0.07 s buffer is over.
    let (ticks, launched) = buffered_landing(7000);
    assert_eq!(ticks, 9);
    assert!(!launched);
}

#[test]
fn rest_is_a_fixed_point() {
    let cfg = PhysicsConfig::default();
    let walls = vec![wall(0, 0, 200, 10)];
    let mut guy = body_at(0, 13);
    for _ in 0..200 {
        simulate_tick(&mut guy, &walls, TICK, &cfg);
        assert_eq!(guy.transform.translation, Vec3::new(0, px(13), 0));
        assert_eq!(guy.jump_state.on_ground, Some(px(13)));
        assert_eq!(guy.physics.velocity, Vec2::new(0, 0));
    }
}

#[test]
fn last_bottom_contact_grounds() {
    let cfg = PhysicsConfig::default();
    // Two overlapping platforms whose tops are at 5 and 6 pixels.
    let walls = vec![wall(0, 0, 200, 10), wall(0, 1, 200, 10)];
    let mut guy = body_at(0, 13);
    guy.transform.translation.y = px(12);
    guy_collision_system(&mut guy, &walls, TICK, &cfg);
    assert_eq!(guy.jump_state.on_ground, Some(px(14)));
    assert_eq!(guy.transform.translation.y, px(14));
}

#[test]
fn airborne_without_obstacles() {
    let cfg = PhysicsConfig::default();
    let mut guy = body_at(0, 13);
    guy.jump_state.set_on_ground(px(13), &cfg);
    guy_collision_system(&mut guy, &[], TICK, &cfg);
    assert_eq!(guy.jump_state.on_ground, None);
    let t = guy.jump_state.coyote_timer.timer.unwrap();
    assert_eq!(t.elapsed(), TICK);
}

#[test]
fn side_contact_leaves_no_overlap() {
    let cfg = PhysicsConfig::default();
    let w = wall(0, 0, 20, 100);
    // The body's left edge is 2 pixels inside the wall's right edge.
    let mut guy = body_at(16, 0);
    guy.physics.velocity = Vec2::new(px(-30), 0);
    let size = guy.aabb.get_scale(&guy.transform);
    let before = collide(w.transform.translation, Vec2::new(px(20), px(100)), guy.transform.translation, size);
    assert_eq!(before, Some(Collision::Left));
    resolve_against(&mut guy, size, &w, &cfg);
    assert_eq!(guy.transform.translation.x, px(18));
    assert_eq!(guy.physics.velocity.x, 0);
    let after = collide(w.transform.translation, Vec2::new(px(20), px(100)), guy.transform.translation, size);
    assert_eq!(after, None);
    let gap = guy.aabb.get_rect(&guy.transform).min.x - w.aabb.get_rect(&w.transform).max.x;
    assert_eq!(gap, 0);
}

#[test]
fn right_contact_stops_motion_into_wall() {
    let cfg = PhysicsConfig::default();
    let w = wall(0, 0, 20, 100);
    let mut guy = body_at(-16, 0);
    guy.physics.velocity = Vec2::new(px(30), 0);
    let size = guy.aabb.get_scale(&guy.transform);
    resolve_against(&mut guy, size, &w, &cfg);
    assert_eq!(guy.transform.translation.x, px(-18));
    assert_eq!(guy.physics.velocity.x, 0);
}

#[test]
fn moving_away_from_wall_keeps_velocity() {
    let cfg = PhysicsConfig::default();
    let w = wall(0, 0, 20, 100);
    let mut guy = body_at(16, 0);
    guy.physics.velocity = Vec2::new(px(30), 0);
    let size = guy.aabb.get_scale(&guy.transform);
    resolve_against(&mut guy, size, &w, &cfg);
    assert_eq!(guy.physics.velocity.x, px(30));
}

#[test]
fn ceiling_contact_stops_rising() {
    let cfg = PhysicsConfig::default();
    let w = wall(0, 20, 200, 10);
    let mut guy = body_at(0, 8);
    guy.physics.velocity = Vec2::new(0, px(100));
    let size = guy.aabb.get_scale(&guy.transform);
    resolve_against(&mut guy, size, &w, &cfg);
    assert_eq!(guy.transform.translation.y, px(7));
    assert_eq!(guy.physics.velocity.y, 0);
    assert_eq!(guy.jump_state.on_ground, None);
}

#[test]
fn inside_rewinds_and_freezes() {
    let cfg = PhysicsConfig::default();
    let w = wall(0, 0, 100, 100);
    let mut guy = body_at(0, 0);
    guy.physics.old_position = Vec3::new(px(3), px(70), 0);
    guy.physics.velocity = Vec2::new(px(5), px(-5));
    let size = guy.aabb.get_scale(&guy.transform);
    resolve_against(&mut guy, size, &w, &cfg);
    assert_eq!(guy.transform.translation, Vec3::new(px(3), px(70), 0));
    assert_eq!(guy.physics.velocity, Vec2::new(0, 0));
}

#[test]
fn equal_depths_resolve_horizontally() {
    // Corner overlap of 2 pixels on both axes.
    let r = collide(
        Vec3::new(0, 0, 0),
        Vec2::new(px(20), px(20)),
        Vec3::new(px(16), px(16), 0),
        Vec2::new(px(16), px(16)),
    );
    assert_eq!(r, Some(Collision::Left));
    let deeper_x = collide(
        Vec3::new(0, 0, 0),
        Vec2::new(px(20), px(20)),
        Vec3::new(px(15), px(16), 0),
        Vec2::new(px(16), px(16)),
    );
    assert_eq!(deeper_x, Some(Collision::Bottom));
}

#[test]
fn touching_edges_do_not_collide() {
    let r = collide(
        Vec3::new(0, 0, 0),
        Vec2::new(px(20), px(20)),
        Vec3::new(px(18), 0, 0),
        Vec2::new(px(16), px(16)),
    );
    assert_eq!(r, None);
}

#[test]
fn integration_step() {
    let cfg = PhysicsConfig::default();
    let mut physics = PhysicsObject::default();
    physics.velocity = Vec2::new(px(120), px(-50));
    let mut t = Transform { translation: Vec3::new(0, px(100), 0), scale: Vec3::new(px(16), px(16), 0) };
    physics_system(&mut physics, &mut t, true, &cfg);
    assert_eq!(physics.velocity, Vec2::new(px(120), px(-73)));
    assert_eq!(physics.old_position, Vec3::new(0, px(100), 0));
    // 120 px/s for 1/120 s; -73 px/s for 1/120 s rounds toward zero.
    assert_eq!(t.translation, Vec3::new(px(1), px(100) - 608, 0));
    let mut floating = PhysicsObject::default();
    physics_system(&mut floating, &mut t, false, &cfg);
    assert_eq!(floating.velocity, Vec2::new(0, 0));
}

#[test]
fn steering_and_flight_toggle() {
    let cfg = PhysicsConfig::default();
    let mut guy = body_at(0, 0);
    let half_right = GameInput { movement: Some(Vec2::new(500, 1000)), jump_pressed: false, debug_pressed: false };
    game_input_system(&mut guy, &half_right, &cfg);
    assert_eq!(guy.physics.velocity, Vec2::new(px(90), 0));
    let toggle = GameInput { movement: None, jump_pressed: false, debug_pressed: true };
    game_input_system(&mut guy, &toggle, &cfg);
    assert!(guy.can_fly);
    assert!(!guy.gravity);
    assert_eq!(guy.physics.velocity, Vec2::new(0, 0));
    let up_left = GameInput { movement: Some(Vec2::new(-1000, 1000)), jump_pressed: false, debug_pressed: false };
    game_input_system(&mut guy, &up_left, &cfg);
    assert_eq!(guy.physics.velocity, Vec2::new(px(-180), px(180)));
    game_input_system(&mut guy, &toggle, &cfg);
    assert!(!guy.can_fly);
    assert!(guy.gravity);
    game_input_system(&mut guy, &no_input(), &cfg);
    assert_eq!(guy.physics.velocity.x, 0);
}

#[test]
fn buffered_jump_needs_ground() {
    let cfg = PhysicsConfig::default();
    let mut guy = body_at(0, 50);
    guy.jump_state.coyote_timer.jump();
    game_input_system(&mut guy, &jump_input(), &cfg);
    update_jump_state(&mut guy, TICK, &cfg);
    assert_eq!(guy.physics.velocity.y, 0);
    guy.jump_state.set_on_ground(px(50), &cfg);
    update_jump_state(&mut guy, TICK, &cfg);
    assert_eq!(guy.physics.velocity.y, cfg.jump_speed);
    assert_eq!(guy.jump_state.on_ground, None);
}

#[test]
fn fresh_body_has_no_buffered_jump() {
    let cfg = PhysicsConfig::default();
    let js = JumpState::new(&cfg);
    assert!(js.pre_jump_timer.timer.finished());
    assert!(js.coyote_timer.can_jump());
    let mut guy = body_at(0, 0);
    guy.jump_state.set_on_ground(0, &cfg);
    update_jump_state(&mut guy, TICK, &cfg);
    assert_eq!(guy.jump_state.on_ground, Some(0));
}

#[test]
fn timer_counts_and_clamps() {
    let mut t = Timer::new(100);
    t.tick(60);
    assert_eq!(t.elapsed(), 60);
    assert!(!t.finished());
    t.tick(60);
    assert_eq!(t.elapsed(), 100);
    assert!(t.finished());
    t.tick(u64::MAX);
    assert_eq!(t.elapsed(), 100);
    t.reset();
    assert_eq!(t.elapsed(), 0);
    assert!(!t.finished());
    assert_eq!(t.duration(), 100);
}

#[test]
fn portal_touch_reports_last() {
    let guy = body_at(0, 0);
    let portal = |x: i64, path: &str| Portal {
        path: path.to_string(),
        transform: Transform { translation: Vec3::new(px(x), 0, 0), scale: Vec3::new(0, 0, 0) },
        aabb: Aabb::StaticAabb { scale: Vec2::new(px(15), px(15)) },
    };
    let portals = vec![portal(5, "a.png"), portal(100, "b.png"), portal(-5, "c.png")];
    assert_eq!(touched_portal(&guy, &portals), Some(2));
    assert_eq!(touched_portal(&guy, &portals[..2]), Some(0));
    assert_eq!(touched_portal(&guy, &portals[1..2]), None);
}

#[test]
fn rect_of_static_and_scaled_boxes() {
    let t = Transform { translation: Vec3::new(px(10), px(20), 0), scale: Vec3::new(px(4), px(6), 0) };
    let scaled = Aabb::default().get_rect(&t);
    assert_eq!(scaled.min, Vec2::new(px(8), px(17)));
    assert_eq!(scaled.max, Vec2::new(px(12), px(23)));
    let fixed = Aabb::StaticAabb { scale: Vec2::new(px(18), px(18)) };
    assert_eq!(fixed.get_scale(&t), Vec2::new(px(18), px(18)));
    let r = fixed.get_rect(&t);
    assert_eq!(r.min, Vec2::new(px(1), px(11)));
    assert_eq!(r.max, Vec2::new(px(19), px(29)));
}

#[test]
fn default_tuning() {
    let cfg = PhysicsConfig::default();
    assert_eq!(cfg.ticks_per_second, 120);
    assert_eq!(cfg.gravity_per_tick, px(23));
    assert_eq!(cfg.jump_speed, px(600));
    assert_eq!(cfg.standing_size, Vec2::new(px(16), px(16)));
    assert_eq!(cfg.jumping_size, Vec2::new(px(14), px(20)));
    assert_eq!(cfg.coyote_tolerance, 300_000_000);
    assert_eq!(cfg.pre_jump_tolerance, 70_000_000);
    let guy = GuyBundle::new(&cfg);
    assert_eq!(guy.guy.h_speed, px(180));
    assert_eq!(guy.transform.scale, Vec3::new(px(16), px(16), 0));
    assert!(guy.gravity);
    assert!(!guy.can_fly);
    assert_eq!(guy.jump_state.on_ground, None);
}

#[test]
fn integration_bounds() {
    let cfg = PhysicsConfig::default();
    let guy = body_at(0, 0);
    assert!(platformer::physics::fits_integration(&guy.physics, &guy.transform, true, &cfg));
    let mut fast = guy.physics;
    fast.velocity.y = -platformer::WORLD_LIMIT;
    assert!(!platformer::physics::fits_integration(&fast, &guy.transform, true, &cfg));
    assert!(platformer::physics::fits_integration(&fast, &guy.transform, false, &cfg));
    let far = Transform { translation: Vec3::new(2 * platformer::WORLD_LIMIT, 0, 0), ..guy.transform };
    let mut rightward = guy.physics;
    rightward.velocity.x = px(120);
    assert!(!platformer::physics::fits_integration(&rightward, &far, false, &cfg));
}
