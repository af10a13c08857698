//! The controlled body, its collision resolution against obstacles and its input.
use vstd::prelude::*;

use crate::geometry::{
    collision_of, hi, in_world, is_size, lo, Aabb, Collision, Transform, Vec2, Vec3,
};
use crate::jump::{launch, JumpState, PreJumpTimer};
use crate::physics::{
    can_integrate, div_trunc, integrated, physics_system, PhysicsConfig, PhysicsObject,
};
use crate::SUBPIXELS;

verus! {

/// Horizontal speed of the controlled body under full input: 180 pixels per second.
pub const GUY_H_SPEED: i64 = 180 * SUBPIXELS;

/// Horizontal speed of the controlled body, in sub-pixels per second.
#[derive(Clone, Copy, Debug, PartialEq, Eq, Structural)]
pub struct Guy {
    pub h_speed: i64,
}

/// The one controlled body and everything the simulation keeps about it.
#[derive(Clone, Copy, Debug, PartialEq, Eq, Structural)]
pub struct GuyBundle {
    pub guy: Guy,
    pub transform: Transform,
    pub aabb: Aabb,
    pub physics: PhysicsObject,
    pub jump_state: JumpState,
    /// Gravity pulls the body down.
    pub gravity: bool,
    /// Free flight: input drives both velocity components.
    pub can_fly: bool,
}

/// A static solid obstacle.
#[derive(Clone, Copy, Debug, PartialEq, Eq, Structural)]
pub struct Wall {
    pub transform: Transform,
    pub aabb: Aabb,
}

impl Wall {
    pub open spec fn wf(self) -> bool {
        self.transform.translation.in_world() && self.aabb.sized(self.transform)
    }

    pub open spec fn extent(self) -> Vec2 {
        self.aabb.scale_of(self.transform)
    }
}

impl GuyBundle {
    pub open spec fn wf(self) -> bool {
        &&& self.transform.translation.reachable()
        &&& self.aabb.sized(self.transform)
        &&& self.physics.wf()
        &&& self.jump_state.wf()
        &&& is_size(self.guy.h_speed as int)
    }

    pub open spec fn extent(self) -> Vec2 {
        self.aabb.scale_of(self.transform)
    }

    /// A standing-size body at the origin, at rest, airborne, under gravity.
    pub fn new(cfg: &PhysicsConfig) -> (r: GuyBundle)
        requires
            cfg.wf(),
        ensures
            r.wf(),
            r.guy.h_speed == GUY_H_SPEED,
            r.transform == (Transform {
                translation: Vec3 { x: 0, y: 0, z: 0 },
                scale: Vec3 { x: cfg.standing_size.x, y: cfg.standing_size.y, z: 0 },
            }),
            r.aabb == Aabb::TransformScaleAabb,
            r.physics == (PhysicsObject {
                velocity: Vec2 { x: 0, y: 0 },
                old_position: Vec3 { x: 0, y: 0, z: 0 },
            }),
            r.jump_state == JumpState::new_spec(*cfg),
            r.gravity,
            !r.can_fly,
    {
        GuyBundle {
            guy: Guy { h_speed: GUY_H_SPEED },
            transform: Transform {
                translation: Vec3 { x: 0, y: 0, z: 0 },
                scale: cfg.standing_size.extend(0),
            },
            aabb: Aabb::TransformScaleAabb,
            physics: PhysicsObject::default(),
            jump_state: JumpState::new(cfg),
            gravity: true,
            can_fly: false,
        }
    }

    /// As `new`, placed at `translation`.
    pub fn with_translation(translation: Vec3, cfg: &PhysicsConfig) -> (r: GuyBundle)
        requires
            cfg.wf(),
            translation.reachable(),
        ensures
            r.wf(),
            r == (GuyBundle {
                transform: Transform { translation, ..GuyBundle::new_spec(*cfg).transform },
                ..GuyBundle::new_spec(*cfg)
            }),
    {
        let mut guy = GuyBundle::new(cfg);
        guy.transform.translation = translation;
        guy
    }

    pub open spec fn new_spec(cfg: PhysicsConfig) -> GuyBundle {
        GuyBundle {
            guy: Guy { h_speed: GUY_H_SPEED },
            transform: Transform {
                translation: Vec3 { x: 0, y: 0, z: 0 },
                scale: Vec3 { x: cfg.standing_size.x, y: cfg.standing_size.y, z: 0 },
            },
            aabb: Aabb::TransformScaleAabb,
            physics: PhysicsObject {
                velocity: Vec2 { x: 0, y: 0 },
                old_position: Vec3 { x: 0, y: 0, z: 0 },
            },
            jump_state: JumpState::new_spec(cfg),
            gravity: true,
            can_fly: false,
        }
    }
}

/// `max(v, 0)`
pub open spec fn at_least_zero(v: int) -> int {
    if v > 0 {
        v
    } else {
        0
    }
}

/// `min(v, 0)`
pub open spec fn at_most_zero(v: int) -> int {
    if v < 0 {
        v
    } else {
        0
    }
}

impl GuyBundle {
    /// The body moved to horizontal position `x` with horizontal velocity `vx`.
    pub open spec fn placed_x(self, x: int, vx: int) -> GuyBundle {
        GuyBundle {
            transform: Transform {
                translation: Vec3 { x: x as i64, ..self.transform.translation },
                ..self.transform
            },
            physics: PhysicsObject {
                velocity: Vec2 { x: vx as i64, ..self.physics.velocity },
                ..self.physics
            },
            ..self
        }
    }

    /// The body moved to vertical position `y` with vertical velocity `vy`.
    pub open spec fn placed_y(self, y: int, vy: int) -> GuyBundle {
        GuyBundle {
            transform: Transform {
                translation: Vec3 { y: y as i64, ..self.transform.translation },
                ..self.transform
            },
            physics: PhysicsObject {
                velocity: Vec2 { y: vy as i64, ..self.physics.velocity },
                ..self.physics
            },
            ..self
        }
    }

    /// The body after a bottom contact that puts its centre at height `y`: it stops
    /// falling, is grounded at `y` with a full coyote window, and stands.
    pub open spec fn landed_at(self, y: int, cfg: PhysicsConfig) -> GuyBundle {
        let g = self.placed_y(y, at_least_zero(self.physics.velocity.y as int));
        GuyBundle {
            jump_state: g.jump_state.landed(y as i64, cfg.coyote_tolerance),
            transform: Transform {
                scale: Vec3 { x: cfg.standing_size.x, y: cfg.standing_size.y, z: 0 },
                ..g.transform
            },
            ..g
        }
    }

    /// The body frozen and sent back to its position before the last integration step.
    pub open spec fn rewound(self) -> GuyBundle {
        GuyBundle {
            transform: Transform { translation: self.physics.old_position, ..self.transform },
            physics: PhysicsObject { velocity: Vec2 { x: 0, y: 0 }, ..self.physics },
            ..self
        }
    }

    /// The body after a jump launch.
    pub open spec fn launched(self, cfg: PhysicsConfig) -> GuyBundle {
        GuyBundle {
            physics: launch(self.physics, self.transform, cfg).0,
            transform: launch(self.physics, self.transform, cfg).1,
            jump_state: self.jump_state.launched(),
            ..self
        }
    }
}

/// The correction of the body (of extent `size`) against one obstacle: pushed out flush
/// against the side it touches, with the velocity into the obstacle removed; a bottom
/// contact grounds it; with no clean edge it is frozen and rewound.
pub open spec fn resolve_wall(g: GuyBundle, size: Vec2, wall: Wall, cfg: PhysicsConfig) -> GuyBundle {
    let wt = wall.transform.translation;
    let ws = wall.extent();
    let v = g.physics.velocity;
    match collision_of(wt, ws, g.transform.translation, size) {
        Some(Collision::Left) => g.placed_x(
            hi(wt.x as int, ws.x as int) + size.x / 2,
            at_least_zero(v.x as int),
        ),
        Some(Collision::Right) => g.placed_x(
            lo(wt.x as int, ws.x as int) - (size.x - size.x / 2),
            at_most_zero(v.x as int),
        ),
        Some(Collision::Top) => g.placed_y(
            lo(wt.y as int, ws.y as int) - (size.y - size.y / 2),
            at_most_zero(v.y as int),
        ),
        Some(Collision::Bottom) => g.landed_at(hi(wt.y as int, ws.y as int) + size.y / 2, cfg),
        Some(Collision::Inside) => g.rewound(),
        None => g,
    }
}

/// The corrections against `walls`, one after the other in their order.
pub open spec fn resolve_walls(g: GuyBundle, size: Vec2, walls: Seq<Wall>, cfg: PhysicsConfig) -> GuyBundle
    decreases walls.len(),
{
    if walls.len() == 0 {
        g
    } else {
        resolve_wall(resolve_walls(g, size, walls.drop_last(), cfg), size, walls.last(), cfg)
    }
}

/// Before any obstacle is tested: airborne, and the coyote timer advanced by `delta`.
pub open spec fn collision_start(g: GuyBundle, delta: nat) -> GuyBundle {
    GuyBundle {
        jump_state: JumpState {
            on_ground: None,
            coyote_timer: g.jump_state.coyote_timer.ticked(delta),
            ..g.jump_state
        },
        ..g
    }
}

/// The body after collision resolution against all `walls`, with its extent taken once
/// at the start.
pub open spec fn resolved(g: GuyBundle, walls: Seq<Wall>, delta: nat, cfg: PhysicsConfig) -> GuyBundle {
    resolve_walls(collision_start(g, delta), g.extent(), walls, cfg)
}

pub open spec fn all_wf(walls: Seq<Wall>) -> bool {
    forall|i: int| 0 <= i < walls.len() ==> #[trigger] walls[i].wf()
}

/// Correction of the body against one obstacle.
pub fn resolve_against(guy: &mut GuyBundle, guy_size: Vec2, wall: &Wall, cfg: &PhysicsConfig)
    requires
        old(guy).wf(),
        guy_size.is_size(),
        wall.wf(),
        cfg.wf(),
    ensures
        *final(guy) == resolve_wall(*old(guy), guy_size, *wall, *cfg),
        final(guy).wf(),
{
    let wall_size = wall.aabb.get_scale(&wall.transform);
    let wt = wall.transform.translation;
    match crate::geometry::collide(wt, wall_size, guy.transform.translation, guy_size) {
        Some(Collision::Left) => {
            if guy.physics.velocity.x < 0 {
                guy.physics.velocity.x = 0;
            }
            guy.transform.translation.x = wt.x - wall_size.x / 2 + wall_size.x + guy_size.x / 2;
        },
        Some(Collision::Right) => {
            if guy.physics.velocity.x > 0 {
                guy.physics.velocity.x = 0;
            }
            guy.transform.translation.x = wt.x - wall_size.x / 2 - (guy_size.x - guy_size.x / 2);
        },
        Some(Collision::Top) => {
            if guy.physics.velocity.y > 0 {
                guy.physics.velocity.y = 0;
            }
            guy.transform.translation.y = wt.y - wall_size.y / 2 - (guy_size.y - guy_size.y / 2);
        },
        Some(Collision::Bottom) => {
            if guy.physics.velocity.y < 0 {
                guy.physics.velocity.y = 0;
            }
            let y = wt.y - wall_size.y / 2 + wall_size.y + guy_size.y / 2;
            guy.transform.translation.y = y;
            guy.jump_state.set_on_ground(y, cfg);
            guy.transform.scale = cfg.standing_size.extend(0);
        },
        Some(Collision::Inside) => {
            guy.physics.velocity = Vec2 { x: 0, y: 0 };
            guy.transform.translation = guy.physics.old_position;
        },
        None => {},
    }
}

/// Collision resolution for one physics tick: the body is taken as airborne, its
/// coyote timer advances by `delta` nanoseconds, and it is corrected against each
/// obstacle in order. After the last obstacle it is grounded on the surface of the
/// last bottom contact, if any.
pub fn guy_collision_system(guy: &mut GuyBundle, walls: &[Wall], delta: u64, cfg: &PhysicsConfig)
    requires
        old(guy).wf(),
        all_wf(walls@),
        cfg.wf(),
    ensures
        *final(guy) == resolved(*old(guy), walls@, delta as nat, *cfg),
        final(guy).wf(),
{
    let guy_size = guy.aabb.get_scale(&guy.transform);
    guy.jump_state.on_ground = None;
    guy.jump_state.coyote_timer.tick(delta);
    let ghost start = *guy;
    let mut i: usize = 0;
    while i < walls.len()
        invariant
            i <= walls.len(),
            guy.wf(),
            guy_size.is_size(),
            all_wf(walls@),
            cfg.wf(),
            *guy == resolve_walls(start, guy_size, walls@.subrange(0, i as int), *cfg),
        decreases walls.len() - i,
    {
        resolve_against(guy, guy_size, &walls[i], cfg);
        proof {
            assert(walls@.subrange(0, i + 1).drop_last() =~= walls@.subrange(0, i as int));
        }
        i = i + 1;
    }
    proof {
        assert(walls@.subrange(0, walls@.len() as int) =~= walls@);
    }
}

/// The body after the jump-buffer step: the buffer timer advances by `delta`, and a
/// grounded body with a request still in the buffer launches.
pub open spec fn jump_updated(g: GuyBundle, delta: nat, cfg: PhysicsConfig) -> GuyBundle {
    let t = g.jump_state.pre_jump_timer.timer.ticked(delta);
    let g1 = GuyBundle {
        jump_state: JumpState { pre_jump_timer: PreJumpTimer { timer: t }, ..g.jump_state },
        ..g
    };
    if g.jump_state.on_ground is Some && !t.finished {
        g1.launched(cfg)
    } else {
        g1
    }
}

/// Advance the jump buffer by `delta` nanoseconds and launch a buffered jump on ground.
pub fn update_jump_state(guy: &mut GuyBundle, delta: u64, cfg: &PhysicsConfig)
    requires
        old(guy).wf(),
        cfg.wf(),
    ensures
        *final(guy) == jump_updated(*old(guy), delta as nat, *cfg),
        final(guy).wf(),
{
    guy.jump_state.pre_jump_timer.timer.tick(delta);
    let on_ground = guy.jump_state.on_ground.is_some();
    if on_ground && !guy.jump_state.pre_jump_timer.timer.finished() {
        guy.jump_state.perform_jump(&mut guy.physics, &mut guy.transform, cfg);
    }
}

/// One full physics tick: integration, collision resolution, then the jump buffer.
pub open spec fn ticked(g: GuyBundle, walls: Seq<Wall>, delta: nat, cfg: PhysicsConfig) -> GuyBundle {
    let (p, t) = integrated(g.physics, g.transform, g.gravity, cfg);
    jump_updated(resolved(GuyBundle { physics: p, transform: t, ..g }, walls, delta, cfg), delta, cfg)
}

/// One physics tick of `delta` nanoseconds for the body among `walls`.
pub fn simulate_tick(guy: &mut GuyBundle, walls: &[Wall], delta: u64, cfg: &PhysicsConfig)
    requires
        old(guy).wf(),
        all_wf(walls@),
        cfg.wf(),
        can_integrate(old(guy).physics, old(guy).transform, old(guy).gravity, *cfg),
    ensures
        *final(guy) == ticked(*old(guy), walls@, delta as nat, *cfg),
        final(guy).wf(),
{
    let gravity = guy.gravity;
    physics_system(&mut guy.physics, &mut guy.transform, gravity, cfg);
    guy_collision_system(guy, walls, delta, cfg);
    update_jump_state(guy, delta, cfg);
}

/// Magnitude of a full deflection of an input axis.
pub const AXIS_UNIT: i64 = 1000;

/// What the input layer reports for one input tick.
#[derive(Clone, Copy, Debug, PartialEq, Eq, Structural)]
pub struct GameInput {
    /// Movement axes, each within `[-AXIS_UNIT, AXIS_UNIT]`, when a movement input exists.
    pub movement: Option<Vec2>,
    /// The jump button went down.
    pub jump_pressed: bool,
    /// The debug button went down.
    pub debug_pressed: bool,
}

impl GameInput {
    pub open spec fn wf(self) -> bool {
        self.movement matches Some(m) ==> (-AXIS_UNIT <= m.x <= AXIS_UNIT && -AXIS_UNIT
            <= m.y <= AXIS_UNIT)
    }

    pub open spec fn direction(self) -> Vec2 {
        match self.movement {
            Some(m) => m,
            None => Vec2 { x: 0, y: 0 },
        }
    }
}

/// Speed for an axis deflection `axis` at full speed `speed`, rounded toward zero.
pub open spec fn axis_speed(axis: int, speed: int) -> int {
    div_trunc(axis * speed, AXIS_UNIT as int)
}

/// The velocity that input gives: both components in flight, else the horizontal one.
pub open spec fn steered(g: GuyBundle, input: GameInput) -> Vec2 {
    let d = input.direction();
    let h = g.guy.h_speed as int;
    if g.can_fly {
        Vec2 { x: axis_speed(d.x as int, h) as i64, y: axis_speed(d.y as int, h) as i64 }
    } else {
        Vec2 { x: axis_speed(d.x as int, h) as i64, y: g.physics.velocity.y }
    }
}

/// The body after one input tick: steering, then the debug toggle between flight and
/// gravity, then a jump request.
pub open spec fn after_input(g: GuyBundle, input: GameInput, cfg: PhysicsConfig) -> GuyBundle {
    let g1 = GuyBundle { physics: PhysicsObject { velocity: steered(g, input), ..g.physics }, ..g };
    let g2 = if input.debug_pressed {
        GuyBundle { can_fly: !g.can_fly, gravity: g.can_fly, ..g1 }
    } else {
        g1
    };
    if !input.jump_pressed {
        g2
    } else if g2.jump_state.can_launch() {
        g2.launched(cfg)
    } else {
        GuyBundle { jump_state: g2.jump_state.buffered(), ..g2 }
    }
}

fn scale_axis(axis: i64, speed: i64) -> (r: i64)
    requires
        -AXIS_UNIT <= axis <= AXIS_UNIT,
        is_size(speed as int),
    ensures
        r == axis_speed(axis as int, speed as int),
        in_world(r as int),
{
    proof {
        let a = axis as int;
        let s = speed as int;
        assert(-1000 * s <= a * s <= 1000 * s) by (nonlinear_arith)
            requires
                -1000 <= a <= 1000,
                0 <= s,
        ;
    }
    let p = axis * speed;
    if p >= 0 {
        ((p as u64) / (AXIS_UNIT as u64)) as i64
    } else {
        let q = ((-p) as u64) / (AXIS_UNIT as u64);
        -(q as i64)
    }
}

/// Apply one input tick to the body.
pub fn game_input_system(guy: &mut GuyBundle, input: &GameInput, cfg: &PhysicsConfig)
    requires
        old(guy).wf(),
        input.wf(),
        cfg.wf(),
    ensures
        *final(guy) == after_input(*old(guy), *input, *cfg),
        final(guy).wf(),
{
    let direction = match input.movement {
        Some(m) => m,
        None => Vec2 { x: 0, y: 0 },
    };
    let h = guy.guy.h_speed;
    if guy.can_fly {
        guy.physics.velocity = Vec2 { x: scale_axis(direction.x, h), y: scale_axis(direction.y, h) };
    } else {
        guy.physics.velocity.x = scale_axis(direction.x, h);
    }
    if input.debug_pressed {
        let flying = guy.can_fly;
        guy.can_fly = !flying;
        guy.gravity = flying;
    }
    if input.jump_pressed {
        guy.jump_state.try_jump(&mut guy.physics, &mut guy.transform, cfg);
    }
}

/// A portal: touching it loads the level at `path`.
#[derive(Debug)]
pub struct Portal {
    pub path: String,
    pub transform: Transform,
    pub aabb: Aabb,
}

impl Portal {
    pub open spec fn wf(self) -> bool {
        self.transform.translation.in_world() && self.aabb.sized(self.transform)
    }

    /// The body overlaps this portal.
    pub open spec fn touched_by(self, g: GuyBundle) -> bool {
        collision_of(
            self.transform.translation,
            self.aabb.scale_of(self.transform),
            g.transform.translation,
            g.extent(),
        ) is Some
    }
}

/// The last portal, in order, that the body overlaps.
pub fn touched_portal(guy: &GuyBundle, portals: &[Portal]) -> (r: Option<usize>)
    requires
        guy.wf(),
        forall|i: int| 0 <= i < portals@.len() ==> #[trigger] portals@[i].wf(),
    ensures
        r matches Some(i) ==> i < portals@.len() && portals@[i as int].touched_by(*guy) && (
        forall|j: int| i < j < portals@.len() ==> !#[trigger] portals@[j].touched_by(*guy)),
        r is None ==> forall|j: int|
            0 <= j < portals@.len() ==> !#[trigger] portals@[j].touched_by(*guy),
{
    let guy_size = guy.aabb.get_scale(&guy.transform);
    let mut found: Option<usize> = None;
    let mut i: usize = 0;
    while i < portals.len()
        invariant
            i <= portals@.len(),
            guy.wf(),
            guy_size == guy.extent(),
            forall|k: int| 0 <= k < portals@.len() ==> #[trigger] portals@[k].wf(),
            found matches Some(f) ==> f < i && portals@[f as int].touched_by(*guy) && (forall|
                j: int,
            | f < j < i ==> !#[trigger] portals@[j].touched_by(*guy)),
            found is None ==> forall|j: int| 0 <= j < i ==> !#[trigger] portals@[j].touched_by(*guy),
        decreases portals.len() - i,
    {
        let portal = &portals[i];
        assert(portals@[i as int].wf());
        let portal_size = portal.aabb.get_scale(&portal.transform);
        let hit = crate::geometry::collide(
            portal.transform.translation,
            portal_size,
            guy.transform.translation,
            guy_size,
        );
        if hit.is_some() {
            found = Some(i);
        }
        i = i + 1;
    }
    found
}

} // verus!
