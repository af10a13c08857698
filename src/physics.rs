//! Tuning values and the fixed-step integrator.
use vstd::prelude::*;

use crate::geometry::{in_world, reachable, Transform, Vec2, Vec3};
use crate::SUBPIXELS;

verus! {

/// Tuning of the simulation. Lengths in sub-pixels, speeds in sub-pixels per second,
/// durations in nanoseconds.
#[derive(Clone, Copy, Debug, PartialEq, Eq, Structural)]
pub struct PhysicsConfig {
    /// Physics ticks per second; one tick lasts `1 / ticks_per_second` seconds.
    pub ticks_per_second: u64,
    /// Taken off the vertical velocity of a body under gravity once per tick.
    pub gravity_per_tick: i64,
    /// Vertical velocity given by a jump.
    pub jump_speed: i64,
    /// Extent of the controlled body while standing.
    pub standing_size: Vec2,
    /// Extent of the controlled body while in a jump.
    pub jumping_size: Vec2,
    /// How long after walking off a ledge a jump is still granted.
    pub coyote_tolerance: u64,
    /// How long before landing a jump request is kept.
    pub pre_jump_tolerance: u64,
}

impl PhysicsConfig {
    pub open spec fn wf(self) -> bool {
        &&& self.ticks_per_second > 0
        &&& 0 <= self.gravity_per_tick <= crate::WORLD_LIMIT
        &&& in_world(self.jump_speed as int)
        &&& self.standing_size.is_size()
        &&& self.jumping_size.is_size()
    }

    /// The tuning of the game: 120 ticks per second, a gravity of 23 pixels per second
    /// per tick, a jump of 600 pixels per second, a 16x16 standing and a 14x20 jumping
    /// silhouette, 0.3 s of coyote time and 0.07 s of jump buffering.
    pub fn default() -> (r: PhysicsConfig)
        ensures
            r.wf(),
            r.ticks_per_second == 120,
            r.gravity_per_tick == 23 * SUBPIXELS,
            r.jump_speed == 600 * SUBPIXELS,
            r.standing_size.x == 16 * SUBPIXELS,
            r.standing_size.y == 16 * SUBPIXELS,
            r.jumping_size.x == 14 * SUBPIXELS,
            r.jumping_size.y == 20 * SUBPIXELS,
            r.coyote_tolerance == 300_000_000,
            r.pre_jump_tolerance == 70_000_000,
    {
        PhysicsConfig {
            ticks_per_second: 120,
            gravity_per_tick: 23 * SUBPIXELS,
            jump_speed: 600 * SUBPIXELS,
            standing_size: Vec2 { x: 16 * SUBPIXELS, y: 16 * SUBPIXELS },
            jumping_size: Vec2 { x: 14 * SUBPIXELS, y: 20 * SUBPIXELS },
            coyote_tolerance: 300_000_000,
            pre_jump_tolerance: 70_000_000,
        }
    }

    /// Distance covered in one tick at speed `v`, rounded toward zero.
    pub open spec fn step_of(self, v: int) -> int {
        div_trunc(v, self.ticks_per_second as int)
    }

    /// Vertical velocity after one tick's worth of gravity.
    pub open spec fn fallen(self, vy: int, gravity: bool) -> int {
        if gravity {
            vy - self.gravity_per_tick
        } else {
            vy
        }
    }
}

/// Quotient rounded toward zero.
pub open spec fn div_trunc(a: int, b: int) -> int {
    if a >= 0 {
        a / b
    } else {
        -((-a) / b)
    }
}

/// Motion state of a moving entity.
#[derive(Clone, Copy, Debug, PartialEq, Eq, Structural)]
pub struct PhysicsObject {
    pub velocity: Vec2,
    /// Translation before the latest integration step.
    pub old_position: Vec3,
}

impl PhysicsObject {
    pub fn default() -> (r: PhysicsObject)
        ensures
            r == (PhysicsObject { velocity: Vec2 { x: 0, y: 0 }, old_position: Vec3 { x: 0, y: 0, z: 0 } }),
    {
        PhysicsObject { velocity: Vec2 { x: 0, y: 0 }, old_position: Vec3 { x: 0, y: 0, z: 0 } }
    }

    /// The body's velocity stays in the world bound and its last position is reachable.
    pub open spec fn wf(self) -> bool {
        self.velocity.in_world() && self.old_position.reachable()
    }
}

/// The state of a body after one integration step.
pub open spec fn integrated(p: PhysicsObject, t: Transform, gravity: bool, cfg: PhysicsConfig) -> (
    PhysicsObject,
    Transform,
) {
    let vy = cfg.fallen(p.velocity.y as int, gravity);
    let v = Vec2 { x: p.velocity.x, y: vy as i64 };
    let moved = Vec3 {
        x: (t.translation.x + cfg.step_of(v.x as int)) as i64,
        y: (t.translation.y + cfg.step_of(vy)) as i64,
        z: t.translation.z,
    };
    (PhysicsObject { velocity: v, old_position: t.translation }, Transform { translation: moved, ..t })
}

/// One integration step is possible without leaving the bounds.
pub open spec fn can_integrate(
    p: PhysicsObject,
    t: Transform,
    gravity: bool,
    cfg: PhysicsConfig,
) -> bool {
    let vy = cfg.fallen(p.velocity.y as int, gravity);
    &&& t.translation.reachable()
    &&& in_world(p.velocity.x as int)
    &&& in_world(vy)
    &&& reachable(t.translation.x + cfg.step_of(p.velocity.x as int))
    &&& reachable(t.translation.y + cfg.step_of(vy))
}

fn div_toward_zero(a: i64, b: u64) -> (r: i64)
    requires
        b > 0,
        in_world(a as int),
    ensures
        r == div_trunc(a as int, b as int),
{
    if a >= 0 {
        ((a as u64) / b) as i64
    } else {
        let q = ((-a) as u64) / b;
        -(q as i64)
    }
}

/// One physics tick for one body: gravity (when it applies) lowers the vertical
/// velocity by a fixed amount, the current translation is kept as the old position,
/// and the body moves by its velocity times the tick length.
pub fn physics_system(
    physics: &mut PhysicsObject,
    transform: &mut Transform,
    gravity: bool,
    cfg: &PhysicsConfig,
)
    requires
        cfg.wf(),
        can_integrate(*old(physics), *old(transform), gravity, *cfg),
    ensures
        (*final(physics), *final(transform)) == integrated(
            *old(physics),
            *old(transform),
            gravity,
            *cfg,
        ),
        final(physics).wf(),
        final(transform).translation.reachable(),
{
    if gravity {
        physics.velocity.y = physics.velocity.y - cfg.gravity_per_tick;
    }
    let dx = div_toward_zero(physics.velocity.x, cfg.ticks_per_second);
    let dy = div_toward_zero(physics.velocity.y, cfg.ticks_per_second);
    physics.old_position = transform.translation;
    transform.translation.x = transform.translation.x + dx;
    transform.translation.y = transform.translation.y + dy;
}

/// Whether `physics_system` may run on this body: the velocities stay within the world
/// bound and the positions within reach.
pub fn fits_integration(
    physics: &PhysicsObject,
    transform: &Transform,
    gravity: bool,
    cfg: &PhysicsConfig,
) -> (r: bool)
    requires
        cfg.wf(),
    ensures
        r == can_integrate(*physics, *transform, gravity, *cfg),
{
    let limit = crate::WORLD_LIMIT;
    let t = transform.translation;
    if t.x < -2 * limit || t.x > 2 * limit || t.y < -2 * limit || t.y > 2 * limit {
        return false;
    }
    let vx = physics.velocity.x;
    if vx < -limit || vx > limit {
        return false;
    }
    let vy_old = physics.velocity.y;
    if vy_old < -2 * limit || vy_old > 2 * limit {
        return false;
    }
    let vy = if gravity {
        vy_old - cfg.gravity_per_tick
    } else {
        vy_old
    };
    if vy < -limit || vy > limit {
        return false;
    }
    let x = t.x + div_toward_zero(vx, cfg.ticks_per_second);
    let y = t.y + div_toward_zero(vy, cfg.ticks_per_second);
    -2 * limit <= x && x <= 2 * limit && -2 * limit <= y && y <= 2 * limit
}

} // verus!
