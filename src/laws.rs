//! Properties of the simulation that hold over whole runs of it.
use vstd::prelude::*;

use crate::geometry::{collision_of, hi, lo, Aabb, Collision, Vec2, Vec3};
use crate::guy::{
    all_wf, collision_start, jump_updated, resolve_wall, resolve_walls, resolved, ticked, GuyBundle,
    Wall,
};
use crate::jump::{CoyoteTimer, JumpState, PreJumpTimer};
use crate::physics::PhysicsConfig;
use crate::timer::Timer;

verus! {

/// Sum of a run of tick lengths.
pub open spec fn total(deltas: Seq<nat>) -> nat
    decreases deltas.len(),
{
    if deltas.len() == 0 {
        0
    } else {
        total(deltas.drop_last()) + deltas.last()
    }
}

/// The jump state over one tick in which the body finds no ground: airborne, and both
/// timers advanced by the tick's length.
pub open spec fn airborne_tick(js: JumpState, delta: nat) -> JumpState {
    JumpState {
        on_ground: None,
        coyote_timer: js.coyote_timer.ticked(delta),
        pre_jump_timer: PreJumpTimer { timer: js.pre_jump_timer.timer.ticked(delta) },
    }
}

/// The jump state over a run of ticks without ground.
pub open spec fn airborne_ticks(js: JumpState, deltas: Seq<nat>) -> JumpState
    decreases deltas.len(),
{
    if deltas.len() == 0 {
        js
    } else {
        airborne_tick(airborne_ticks(js, deltas.drop_last()), deltas.last())
    }
}

/// Gap between the body's box and the obstacle's box across the side they touched:
/// zero when flush, negative while they still overlap.
pub open spec fn side_gap(side: Collision, wall_pos: Vec3, wall_size: Vec2, pos: Vec3, size: Vec2) -> int {
    match side {
        Collision::Left => lo(pos.x as int, size.x as int) - hi(wall_pos.x as int, wall_size.x as int),
        Collision::Right => lo(wall_pos.x as int, wall_size.x as int) - hi(pos.x as int, size.x as int),
        Collision::Top => lo(wall_pos.y as int, wall_size.y as int) - hi(pos.y as int, size.y as int),
        Collision::Bottom => lo(pos.y as int, size.y as int) - hi(wall_pos.y as int, wall_size.y as int),
        Collision::Inside => 0,
    }
}

/// No residual overlap: once the body is corrected against an obstacle across a clean
/// edge, the gap between the two boxes on that side is zero (they are flush), and the
/// boxes no longer overlap.
pub proof fn lemma_no_residual_overlap(g: GuyBundle, size: Vec2, wall: Wall, cfg: PhysicsConfig)
    requires
        g.wf(),
        size.is_size(),
        wall.wf(),
        cfg.wf(),
        collision_of(wall.transform.translation, wall.extent(), g.transform.translation, size) matches Some(side) && side != Collision::Inside,
    ensures
        ({
            let side = collision_of(
                wall.transform.translation,
                wall.extent(),
                g.transform.translation,
                size,
            ).unwrap();
            let after = resolve_wall(g, size, wall, cfg).transform.translation;
            &&& side_gap(side, wall.transform.translation, wall.extent(), after, size) == 0
            &&& collision_of(wall.transform.translation, wall.extent(), after, size) is None
        }),
{
}

/// Ticking a timer by `a` and then by `b` is ticking it by `a + b`.
pub proof fn lemma_timer_ticks_add(t: Timer, a: nat, b: nat)
    requires
        t.wf(),
    ensures
        t.ticked(a).ticked(b) == t.ticked(a + b),
{
}

/// Over a run of ticks without ground, each timer moves as if ticked once by the total.
pub proof fn lemma_airborne_ticks(js: JumpState, deltas: Seq<nat>)
    requires
        js.wf(),
        deltas.len() >= 1,
    ensures
        airborne_ticks(js, deltas) == airborne_tick(js, total(deltas)),
    decreases deltas.len(),
{
    let rest = deltas.drop_last();
    if rest.len() == 0 {
        assert(total(rest) == 0);
    } else {
        lemma_airborne_ticks(js, rest);
        lemma_timer_ticks_add(js.pre_jump_timer.timer, total(rest), deltas.last());
        if let Some(t) = js.coyote_timer.timer {
            lemma_timer_ticks_add(t, total(rest), deltas.last());
        }
    }
}

/// Coyote window: after touching ground at `y` with a coyote window of `tolerance`, and
/// then leaving it without a jump, a jump request launches exactly while the time spent
/// airborne is less than `tolerance`.
pub proof fn lemma_coyote_window(js: JumpState, y: i64, tolerance: u64, deltas: Seq<nat>)
    requires
        js.wf(),
        deltas.len() >= 1,
    ensures
        airborne_ticks(js.landed(y, tolerance), deltas).can_launch() <==> total(deltas)
            < tolerance,
{
    lemma_airborne_ticks(js.landed(y, tolerance), deltas);
}

/// No double coyote jump: after a jump made in the air, no further jump request
/// launches before the next landing, however the time passes.
pub proof fn lemma_no_double_coyote_jump(js: JumpState, deltas: Seq<nat>)
    requires
        js.on_ground is None,
        js.coyote_timer.grants_jump(),
    ensures
        !airborne_ticks(js.launched(), deltas).can_launch(),
        airborne_ticks(js.launched(), deltas).coyote_timer.timer is None,
    decreases deltas.len(),
{
    if deltas.len() > 0 {
        lemma_no_double_coyote_jump(js, deltas.drop_last());
    }
}

/// The body before it is corrected against obstacle `i`.
pub open spec fn before_wall(g: GuyBundle, size: Vec2, walls: Seq<Wall>, i: int, cfg: PhysicsConfig) -> GuyBundle {
    resolve_walls(g, size, walls.subrange(0, i), cfg)
}

/// Obstacle `i` is a bottom contact: the body comes to rest on it.
pub open spec fn grounds_on(g: GuyBundle, size: Vec2, walls: Seq<Wall>, i: int, cfg: PhysicsConfig) -> bool {
    collision_of(
        walls[i].transform.translation,
        walls[i].extent(),
        before_wall(g, size, walls, i, cfg).transform.translation,
        size,
    ) == Some(Collision::Bottom)
}

/// Height of the centre of a body of extent `size` standing on `wall`.
pub open spec fn landing_height(wall: Wall, size: Vec2) -> int {
    hi(wall.transform.translation.y as int, wall.extent().y as int) + size.y / 2
}

proof fn lemma_resolve_walls_grounding(g: GuyBundle, size: Vec2, walls: Seq<Wall>, cfg: PhysicsConfig)
    requires
        g.jump_state.on_ground is None,
        size.is_size(),
        all_wf(walls),
    ensures
        ({
            let r = resolve_walls(g, size, walls, cfg);
            &&& r.jump_state.on_ground is None <==> forall|i: int|
                0 <= i < walls.len() ==> !#[trigger] grounds_on(g, size, walls, i, cfg)
            &&& r.jump_state.on_ground matches Some(y) ==> exists|i: int|
                0 <= i < walls.len() && #[trigger] grounds_on(g, size, walls, i, cfg) && y
                    == landing_height(walls[i], size) && forall|j: int|
                    i < j < walls.len() ==> !#[trigger] grounds_on(g, size, walls, j, cfg)
            &&& r.jump_state.pre_jump_timer == g.jump_state.pre_jump_timer
            &&& r.jump_state.on_ground is None ==> r.jump_state == g.jump_state
        }),
    decreases walls.len(),
{
    if walls.len() > 0 {
        let n = walls.len() - 1;
        let rest = walls.drop_last();
        assert(all_wf(rest)) by {
            assert forall|i: int| 0 <= i < rest.len() implies #[trigger] rest[i].wf() by {
                assert(rest[i] == walls[i]);
            }
        }
        lemma_resolve_walls_grounding(g, size, rest, cfg);
        assert forall|i: int| 0 <= i < n implies #[trigger] grounds_on(g, size, walls, i, cfg)
            == grounds_on(g, size, rest, i, cfg) by {
            assert(walls.subrange(0, i) =~= rest.subrange(0, i));
            assert(walls[i] == rest[i]);
        }
        assert(walls.subrange(0, n) =~= rest);
        assert(walls[n].wf());
        let prev = resolve_walls(g, size, rest, cfg);
        let r = resolve_walls(g, size, walls, cfg);
        if grounds_on(g, size, walls, n, cfg) {
            assert(r.jump_state.on_ground == Some(landing_height(walls[n], size) as i64));
        } else {
            assert(r.jump_state == prev.jump_state);
            if let Some(y) = r.jump_state.on_ground {
                let i = choose|i: int|
                    0 <= i < rest.len() && #[trigger] grounds_on(g, size, rest, i, cfg) && y
                        == landing_height(rest[i], size) && forall|j: int|
                        i < j < rest.len() ==> !#[trigger] grounds_on(g, size, rest, j, cfg);
                assert(grounds_on(g, size, walls, i, cfg));
                assert forall|j: int| i < j < walls.len() implies !#[trigger] grounds_on(
                    g,
                    size,
                    walls,
                    j,
                    cfg,
                ) by {
                    if j < n {
                        assert(grounds_on(g, size, walls, j, cfg) == grounds_on(g, size, rest, j, cfg));
                    }
                }
            }
        }
    }
}

/// Single grounding per tick: after collision resolution the body is airborne exactly
/// when no obstacle was a bottom contact, and otherwise grounded at the one height of
/// the last bottom contact in obstacle order.
pub proof fn lemma_single_grounding(g: GuyBundle, walls: Seq<Wall>, delta: nat, cfg: PhysicsConfig)
    requires
        g.wf(),
        all_wf(walls),
    ensures
        ({
            let start = collision_start(g, delta);
            let r = resolved(g, walls, delta, cfg);
            &&& r.jump_state.on_ground is None <==> forall|i: int|
                0 <= i < walls.len() ==> !#[trigger] grounds_on(start, g.extent(), walls, i, cfg)
            &&& r.jump_state.on_ground matches Some(y) ==> exists|i: int|
                0 <= i < walls.len() && #[trigger] grounds_on(start, g.extent(), walls, i, cfg)
                    && y == landing_height(walls[i], g.extent()) && forall|j: int|
                    i < j < walls.len() ==> !#[trigger] grounds_on(start, g.extent(), walls, j, cfg)
        }),
{
    lemma_resolve_walls_grounding(collision_start(g, delta), g.extent(), walls, cfg);
}

/// A tick in which collision resolution finds no ground leaves the jump state as
/// `airborne_tick` describes, and launches nothing.
pub proof fn lemma_ungrounded_tick(g: GuyBundle, walls: Seq<Wall>, delta: nat, cfg: PhysicsConfig)
    requires
        g.wf(),
        all_wf(walls),
    ensures
        ({
            let r = resolved(g, walls, delta, cfg);
            r.jump_state.on_ground is None ==> {
                &&& jump_updated(r, delta, cfg).jump_state == airborne_tick(g.jump_state, delta)
                &&& jump_updated(r, delta, cfg).physics == r.physics
                &&& jump_updated(r, delta, cfg).transform == r.transform
            }
        }),
{
    lemma_resolve_walls_grounding(collision_start(g, delta), g.extent(), walls, cfg);
}

/// Jump buffering: a jump request in the air that cannot launch, followed by ticks of
/// lengths `deltas` of which the last is the tick that lands the body, launches on that
/// landing tick exactly when the total time is less than the buffer's tolerance.
pub proof fn lemma_buffer_window(
    js: JumpState,
    body: GuyBundle,
    deltas: Seq<nat>,
    y: int,
    cfg: PhysicsConfig,
)
    requires
        js.wf(),
        !js.can_launch(),
        deltas.len() >= 1,
    ensures
        ({
            let waiting = GuyBundle {
                jump_state: airborne_ticks(js.buffered(), deltas.drop_last()),
                ..body
            };
            let r = jump_updated(waiting.landed_at(y, cfg), deltas.last(), cfg);
            &&& r.jump_state.on_ground is None <==> total(deltas)
                < js.pre_jump_timer.timer.duration
            &&& r.jump_state.on_ground is None ==> r.physics.velocity.y == cfg.jump_speed
        }),
{
    let b = js.buffered();
    let rest = deltas.drop_last();
    lemma_timer_ticks_add(b.pre_jump_timer.timer, total(rest), deltas.last());
    if rest.len() > 0 {
        lemma_airborne_ticks(b, rest);
    } else {
        assert(total(rest) == 0);
    }
}

/// The body after `n` ticks of length `delta` among `walls`.
pub open spec fn ticks(g: GuyBundle, walls: Seq<Wall>, delta: nat, cfg: PhysicsConfig, n: nat) -> GuyBundle
    decreases n,
{
    if n == 0 {
        g
    } else {
        ticked(ticks(g, walls, delta, cfg, (n - 1) as nat), walls, delta, cfg)
    }
}

/// The body stands still, flush on top of `wall` and within its horizontal span, in its
/// standing silhouette, under gravity, with no jump request in its buffer.
pub open spec fn resting_on(g: GuyBundle, wall: Wall, cfg: PhysicsConfig) -> bool {
    let size = g.extent();
    let wt = wall.transform.translation;
    let ws = wall.extent();
    let t = g.transform.translation;
    &&& g.aabb == Aabb::TransformScaleAabb
    &&& g.transform.scale == (Vec3 { x: cfg.standing_size.x, y: cfg.standing_size.y, z: 0 })
    &&& g.physics.velocity == (Vec2 { x: 0, y: 0 })
    &&& g.gravity
    &&& !g.jump_state.pre_jump_timer.holds_request()
    &&& t.y == landing_height(wall, size)
    &&& lo(wt.x as int, ws.x as int) <= lo(t.x as int, size.x as int)
    &&& hi(t.x as int, size.x as int) <= hi(wt.x as int, ws.x as int)
    &&& size.x > 0
}

/// One tick of gravity from rest moves a body by at least one unit, and by less than the
/// height of the body and of the obstacle under it.
pub open spec fn gravity_settles(g: GuyBundle, wall: Wall, cfg: PhysicsConfig) -> bool {
    let fall = (cfg.gravity_per_tick as int) / (cfg.ticks_per_second as int);
    &&& 1 <= fall
    &&& fall < wall.extent().y
    &&& fall < g.extent().y
}

proof fn lemma_rest_tick(g: GuyBundle, wall: Wall, delta: nat, cfg: PhysicsConfig)
    requires
        g.wf(),
        wall.wf(),
        cfg.wf(),
        resting_on(g, wall, cfg),
        gravity_settles(g, wall, cfg),
    ensures
        ({
            let r = ticked(g, seq![wall], delta, cfg);
            &&& r.transform.translation == g.transform.translation
            &&& r.jump_state.on_ground == Some(g.transform.translation.y)
            &&& r.extent() == g.extent()
            &&& r.wf()
            &&& resting_on(r, wall, cfg)
        }),
{
    let walls = seq![wall];
    assert(walls.drop_last() =~= Seq::<Wall>::empty());
    assert(walls.last() == wall);
    let size = g.extent();
    let fall = (cfg.gravity_per_tick as int) / (cfg.ticks_per_second as int);
    let (p, t) = crate::physics::integrated(g.physics, g.transform, g.gravity, cfg);
    assert(cfg.step_of(-cfg.gravity_per_tick) == -fall);
    let g1 = GuyBundle { physics: p, transform: t, ..g };
    let start = collision_start(g1, delta);
    assert(resolve_walls(start, size, walls.drop_last(), cfg) == start);
    assert(resolve_walls(start, size, walls, cfg) == resolve_wall(start, size, wall, cfg));
    assert(collision_of(wall.transform.translation, wall.extent(), start.transform.translation, size)
        == Some(Collision::Bottom));
}

/// Rest is a fixed point: a body at rest flush on top of an obstacle, with nothing else
/// around and no input, keeps its position and stays grounded at its height, tick after
/// tick. Gravity must move a body at rest by at least one unit in a tick and by less
/// than the heights involved (lengths are whole sub-pixels).
pub proof fn lemma_idempotent_rest(
    g: GuyBundle,
    wall: Wall,
    delta: nat,
    cfg: PhysicsConfig,
    n: nat,
)
    requires
        g.wf(),
        wall.wf(),
        cfg.wf(),
        resting_on(g, wall, cfg),
        gravity_settles(g, wall, cfg),
    ensures
        ({
            let r = ticks(g, seq![wall], delta, cfg, n);
            &&& r.transform.translation == g.transform.translation
            &&& r.physics.velocity == (Vec2 { x: 0, y: 0 })
            &&& n > 0 ==> r.jump_state.on_ground == Some(g.transform.translation.y)
            &&& r.extent() == g.extent()
            &&& r.wf()
            &&& resting_on(r, wall, cfg)
        }),
    decreases n,
{
    if n > 0 {
        lemma_idempotent_rest(g, wall, delta, cfg, (n - 1) as nat);
        let prev = ticks(g, seq![wall], delta, cfg, (n - 1) as nat);
        lemma_rest_tick(prev, wall, delta, cfg);
    }
}

} // verus!
