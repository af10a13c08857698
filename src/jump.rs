//! The jump state machine: grounded or airborne, coyote time and the jump buffer.
use vstd::prelude::*;

use crate::geometry::{Transform, Vec2, Vec3};
use crate::physics::{PhysicsConfig, PhysicsObject};
use crate::timer::Timer;

verus! {

/// Time since the last jump request made in the air.
#[derive(Clone, Copy, Debug, PartialEq, Eq, Structural)]
pub struct PreJumpTimer {
    pub timer: Timer,
}

impl PreJumpTimer {
    /// A buffer with no request in it: the timer has already run out.
    pub fn new(tolerance: u64) -> (r: PreJumpTimer)
        ensures
            r.timer == (Timer { duration: tolerance, elapsed: tolerance, finished: true }),
    {
        PreJumpTimer { timer: Timer::new_finished(tolerance) }
    }

    /// A request is held while less time than the tolerance has passed since it.
    pub open spec fn holds_request(self) -> bool {
        self.timer.elapsed < self.timer.duration
    }

    /// Keep a jump request: the window starts again.
    pub fn pre_jump(&mut self)
        ensures
            final(self).timer == old(self).timer.restarted(),
            final(self).timer.wf(),
    {
        self.timer.reset();
    }
}

/// Time since walking off a ledge; `None` when the body left the ground by jumping.
#[derive(Clone, Copy, Debug, PartialEq, Eq, Structural)]
pub struct CoyoteTimer {
    pub timer: Option<Timer>,
}

impl CoyoteTimer {
    pub open spec fn wf(self) -> bool {
        self.timer matches Some(t) ==> t.wf()
    }

    pub open spec fn ticked(self, delta: nat) -> CoyoteTimer {
        match self.timer {
            Some(t) => CoyoteTimer { timer: Some(t.ticked(delta)) },
            None => self,
        }
    }

    /// A jump is still granted: the timer runs and less time than its window has passed.
    pub open spec fn grants_jump(self) -> bool {
        self.timer matches Some(t) && t.elapsed < t.duration
    }

    /// A timer that starts its full window now.
    pub open spec fn fresh(tolerance: u64) -> CoyoteTimer {
        CoyoteTimer { timer: Some(Timer::started(tolerance)) }
    }

    pub fn new(tolerance: u64) -> (r: CoyoteTimer)
        ensures
            r == CoyoteTimer::fresh(tolerance),
            r.wf(),
    {
        CoyoteTimer { timer: Some(Timer::new(tolerance)) }
    }

    pub fn tick(&mut self, delta: u64)
        requires
            old(self).wf(),
        ensures
            *final(self) == old(self).ticked(delta as nat),
            final(self).wf(),
    {
        if let Some(timer) = &mut self.timer {
            timer.tick(delta);
        }
    }

    /// The body jumped: no coyote jump until the next landing.
    pub fn jump(&mut self)
        ensures
            final(self).timer is None,
    {
        self.timer = None;
    }

    /// The body stands on ground: the full window is available again.
    pub fn set_on_ground(&mut self, tolerance: u64)
        ensures
            *final(self) == CoyoteTimer::fresh(tolerance),
            final(self).wf(),
    {
        *self = CoyoteTimer::new(tolerance);
    }

    pub fn can_jump(&self) -> (r: bool)
        requires
            self.wf(),
        ensures
            r == self.grants_jump(),
    {
        match &self.timer {
            Some(timer) => !timer.finished(),
            None => false,
        }
    }
}

/// Grounded or airborne, with the two forgiveness windows.
#[derive(Clone, Copy, Debug, PartialEq, Eq, Structural)]
pub struct JumpState {
    /// Height of the supporting surface, or `None` while airborne.
    pub on_ground: Option<i64>,
    pub pre_jump_timer: PreJumpTimer,
    pub coyote_timer: CoyoteTimer,
}

/// Velocity and transform of a body just launched into a jump: the vertical velocity
/// is the launch speed and the extent is the jumping silhouette.
pub open spec fn launch(p: PhysicsObject, t: Transform, cfg: PhysicsConfig) -> (
    PhysicsObject,
    Transform,
) {
    (
        PhysicsObject { velocity: Vec2 { x: p.velocity.x, y: cfg.jump_speed }, ..p },
        Transform {
            scale: Vec3 { x: cfg.jumping_size.x, y: cfg.jumping_size.y, z: 0 },
            ..t
        },
    )
}

impl JumpState {
    pub open spec fn wf(self) -> bool {
        self.pre_jump_timer.timer.wf() && self.coyote_timer.wf()
    }

    /// A jump request launches now: on the ground, or within the coyote window.
    pub open spec fn can_launch(self) -> bool {
        self.on_ground is Some || self.coyote_timer.grants_jump()
    }

    /// The state right after a launch.
    pub open spec fn launched(self) -> JumpState {
        JumpState { on_ground: None, coyote_timer: CoyoteTimer { timer: None }, ..self }
    }

    /// The state right after touching ground at height `y`.
    pub open spec fn landed(self, y: i64, coyote_tolerance: u64) -> JumpState {
        JumpState {
            on_ground: Some(y),
            coyote_timer: CoyoteTimer::fresh(coyote_tolerance),
            ..self
        }
    }

    /// The state right after a jump request that could not launch.
    pub open spec fn buffered(self) -> JumpState {
        JumpState {
            pre_jump_timer: PreJumpTimer { timer: self.pre_jump_timer.timer.restarted() },
            ..self
        }
    }

    pub open spec fn new_spec(cfg: PhysicsConfig) -> JumpState {
        JumpState {
            on_ground: None,
            pre_jump_timer: PreJumpTimer {
                timer: Timer {
                    duration: cfg.pre_jump_tolerance,
                    elapsed: cfg.pre_jump_tolerance,
                    finished: true,
                },
            },
            coyote_timer: CoyoteTimer::fresh(cfg.coyote_tolerance),
        }
    }

    /// Airborne, with a running coyote window and an empty jump buffer.
    pub fn new(cfg: &PhysicsConfig) -> (r: JumpState)
        ensures
            r == JumpState::new_spec(*cfg),
            r.wf(),
    {
        JumpState {
            on_ground: None,
            pre_jump_timer: PreJumpTimer::new(cfg.pre_jump_tolerance),
            coyote_timer: CoyoteTimer::new(cfg.coyote_tolerance),
        }
    }

    /// A jump request: launches when grounded or within the coyote window, and
    /// otherwise starts the jump buffer.
    pub fn try_jump(
        &mut self,
        physics: &mut PhysicsObject,
        guy_transform: &mut Transform,
        cfg: &PhysicsConfig,
    )
        requires
            old(self).wf(),
        ensures
            final(self).wf(),
            old(self).can_launch() ==> *final(self) == old(self).launched() && (
            *final(physics),
            *final(guy_transform),
            ) == launch(*old(physics), *old(guy_transform), *cfg),
            !old(self).can_launch() ==> *final(self) == old(self).buffered() && *final(physics)
                == *old(physics) && *final(guy_transform) == *old(guy_transform),
    {
        let should_jump = match self.on_ground {
            Some(_) => true,
            None => self.coyote_timer.can_jump(),
        };
        if should_jump {
            self.perform_jump(physics, guy_transform, cfg);
        } else {
            self.pre_jump_timer.pre_jump();
        }
    }

    /// Launch: vertical velocity becomes the launch speed, the silhouette becomes the
    /// jumping one, the body is airborne and coyote jumps are off until the next landing.
    pub fn perform_jump(
        &mut self,
        physics: &mut PhysicsObject,
        guy_transform: &mut Transform,
        cfg: &PhysicsConfig,
    )
        ensures
            *final(self) == old(self).launched(),
            (*final(physics), *final(guy_transform)) == launch(
                *old(physics),
                *old(guy_transform),
                *cfg,
            ),
    {
        physics.velocity.y = cfg.jump_speed;
        guy_transform.scale = cfg.jumping_size.extend(0);
        self.on_ground = None;
        self.coyote_timer.jump();
    }

    /// Touching ground at height `y`: grounded, with a full coyote window.
    pub fn set_on_ground(&mut self, y: i64, cfg: &PhysicsConfig)
        ensures
            *final(self) == old(self).landed(y, cfg.coyote_tolerance),
    {
        self.on_ground = Some(y);
        self.coyote_timer.set_on_ground(cfg.coyote_tolerance);
    }
}

} // verus!
