//! Rigid bodies, the state the sleep tracker keeps for each, and the per-body
//! transitions of one tick.
use vstd::prelude::*;
use crate::pose::{Dimension, Point, Rotation, Transform, to_transform, transform_of};
use crate::vector::{Vector, below_threshold, is_below_threshold};

verus! {

/// How a rigid body moves; only dynamic bodies can fall asleep.
#[derive(Clone, Copy, Debug, PartialEq, Eq, Structural)]
pub enum RigidBody {
    Dynamic,
    Kinematic,
    Static,
}

impl RigidBody {
    pub fn is_dynamic(&self) -> (r: bool)
        ensures
            r == (*self == RigidBody::Dynamic),
    {
        match self {
            RigidBody::Dynamic => true,
            _ => false,
        }
    }
}

/// Whether a body takes part in the simulation or rests.
#[derive(Clone, Copy, Debug, PartialEq, Eq, Structural)]
pub enum SleepState {
    Active,
    Sleeping,
}

/// The configuration the sleep tracker reads each tick.
#[derive(Clone, Copy, Debug, PartialEq, Eq, Structural)]
pub struct SleepConfig {
    /// How long a body must stay still before it falls asleep.
    pub deactivation_time: u64,
    /// The linear speed below which a body counts as still; a negative value disables sleeping.
    pub linear_threshold: i32,
    /// The angular speed below which a body counts as still; a negative value disables sleeping.
    pub angular_threshold: i32,
    /// The duration of the current tick.
    pub delta_time: u64,
}

/// Everything the library knows of a body, as plain values.
pub struct BodyModel {
    pub kind: RigidBody,
    pub pos: Point,
    pub rot: Rotation,
    pub lin_vel: Vector,
    pub ang_vel: Vector,
    pub external_force: Vector,
    pub external_torque: Vector,
    /// How long the body has stayed continuously still.
    pub time_sleeping: u64,
    pub state: SleepState,
    pub sleeping_disabled: bool,
    /// Set by every write of a velocity, force or torque since the tracker last looked.
    pub activity_changed: bool,
    /// The presentation transform the body carries, if any.
    pub transform: Option<Transform>,
}

/// A rigid body.
pub struct Body {
    pub(crate) kind: RigidBody,
    pub(crate) pos: Point,
    pub(crate) rot: Rotation,
    pub(crate) lin_vel: Vector,
    pub(crate) ang_vel: Vector,
    pub(crate) external_force: Vector,
    pub(crate) external_torque: Vector,
    pub(crate) time_sleeping: u64,
    pub(crate) state: SleepState,
    pub(crate) sleeping_disabled: bool,
    pub(crate) activity_changed: bool,
    pub(crate) transform: Option<Transform>,
}

impl View for Body {
    type V = BodyModel;

    closed spec fn view(&self) -> BodyModel {
        BodyModel {
            kind: self.kind,
            pos: self.pos,
            rot: self.rot,
            lin_vel: self.lin_vel,
            ang_vel: self.ang_vel,
            external_force: self.external_force,
            external_torque: self.external_torque,
            time_sleeping: self.time_sleeping,
            state: self.state,
            sleeping_disabled: self.sleeping_disabled,
            activity_changed: self.activity_changed,
            transform: self.transform,
        }
    }
}

impl BodyModel {
    /// Only a dynamic body without the opt-out ever sleeps.
    pub open spec fn wf(self) -> bool {
        self.state == SleepState::Sleeping ==> (self.kind == RigidBody::Dynamic
            && !self.sleeping_disabled)
    }

    /// The bodies that the promotion step looks at.
    pub open spec fn may_fall_asleep(self) -> bool {
        self.state == SleepState::Active && !self.sleeping_disabled
    }
}

/// Both speeds lie below their thresholds.
pub open spec fn is_still(lin_vel: Vector, ang_vel: Vector, cfg: SleepConfig) -> bool {
    below_threshold(lin_vel.length_sq(), cfg.linear_threshold as int) && below_threshold(
        ang_vel.length_sq(),
        cfg.angular_threshold as int,
    )
}

/// Still time after one more tick, held at the largest representable duration.
pub open spec fn accumulated(t: u64, dt: u64) -> u64 {
    if t + dt > u64::MAX {
        u64::MAX
    } else {
        (t + dt) as u64
    }
}

/// Promotion: a dynamic body accumulates still time while both speeds are below their
/// thresholds and loses it at once otherwise; past the deactivation time it falls asleep
/// with both velocities set to exactly zero. The activity signal is consumed.
pub open spec fn promoted(m: BodyModel, cfg: SleepConfig) -> BodyModel {
    if m.kind != RigidBody::Dynamic {
        BodyModel { activity_changed: false, ..m }
    } else {
        let t: u64 = if is_still(m.lin_vel, m.ang_vel, cfg) {
            accumulated(m.time_sleeping, cfg.delta_time)
        } else {
            0
        };
        if t > cfg.deactivation_time {
            BodyModel {
                time_sleeping: t,
                state: SleepState::Sleeping,
                lin_vel: Vector { x: 0, y: 0, z: 0 },
                ang_vel: Vector { x: 0, y: 0, z: 0 },
                activity_changed: false,
                ..m
            }
        } else {
            BodyModel { time_sleeping: t, activity_changed: false, ..m }
        }
    }
}

/// A woken body: active, with no still time.
pub open spec fn woken(m: BodyModel) -> BodyModel {
    BodyModel { state: SleepState::Active, time_sleeping: 0, ..m }
}

/// Demotion by activity: a sleeping body whose velocity, force or torque was written
/// wakes. The activity signal is consumed.
pub open spec fn activity_demoted(m: BodyModel) -> BodyModel {
    if m.state == SleepState::Sleeping && m.activity_changed {
        BodyModel { activity_changed: false, ..woken(m) }
    } else if m.state == SleepState::Sleeping {
        BodyModel { activity_changed: false, ..m }
    } else {
        m
    }
}

/// Demotion by environment: when gravity changed, every sleeping body wakes.
pub open spec fn gravity_demoted(m: BodyModel, gravity_changed: bool) -> BodyModel {
    if gravity_changed && m.state == SleepState::Sleeping {
        woken(m)
    } else {
        m
    }
}

/// The three sleep steps of a tick, in their order, applied to one body.
pub open spec fn sleep_step(m: BodyModel, cfg: SleepConfig, gravity_changed: bool) -> BodyModel {
    gravity_demoted(activity_demoted(promotion_step(m, cfg)), gravity_changed)
}

/// Promotion applied to a body the promotion step looks at; others are left alone.
pub open spec fn promotion_step(m: BodyModel, cfg: SleepConfig) -> BodyModel {
    if m.may_fall_asleep() {
        promoted(m, cfg)
    } else {
        m
    }
}

/// The body after a write of its external force.
pub open spec fn with_external_force(m: BodyModel, f: Vector) -> BodyModel {
    BodyModel { external_force: f, activity_changed: true, ..m }
}

/// The body after its opt-out was set or cleared; opting out wakes it.
pub open spec fn with_sleeping_disabled(m: BodyModel, disabled: bool) -> BodyModel {
    let n = if disabled && m.state == SleepState::Sleeping {
        woken(m)
    } else {
        m
    };
    BodyModel { sleeping_disabled: disabled, ..n }
}

/// The body after its presentation transform, if it carries one, was overwritten.
pub open spec fn synced(m: BodyModel, dim: Dimension) -> BodyModel {
    BodyModel {
        transform: if m.transform is Some {
            Some(transform_of(m.pos, m.rot, dim))
        } else {
            None
        },
        ..m
    }
}

impl Body {
    /// A body at rest at a pose: zero velocities and loads, no still time, awake,
    /// and with no presentation transform.
    pub fn new(kind: RigidBody, pos: Point, rot: Rotation) -> (r: Body)
        ensures
            r@.wf(),
            r@.kind == kind,
            r@.pos == pos,
            r@.rot == rot,
            r@.lin_vel.is_zero(),
            r@.ang_vel.is_zero(),
            r@.external_force.is_zero(),
            r@.external_torque.is_zero(),
            r@.time_sleeping == 0,
            r@.state == SleepState::Active,
            !r@.sleeping_disabled,
            !r@.activity_changed,
            r@.transform is None,
    {
        Body {
            kind,
            pos,
            rot,
            lin_vel: Vector::zero(),
            ang_vel: Vector::zero(),
            external_force: Vector::zero(),
            external_torque: Vector::zero(),
            time_sleeping: 0,
            state: SleepState::Active,
            sleeping_disabled: false,
            activity_changed: false,
            transform: None,
        }
    }

    pub fn kind(&self) -> (r: RigidBody)
        ensures
            r == self@.kind,
    {
        self.kind
    }

    pub fn pos(&self) -> (r: Point)
        ensures
            r == self@.pos,
    {
        self.pos
    }

    pub fn rot(&self) -> (r: Rotation)
        ensures
            r == self@.rot,
    {
        self.rot
    }

    pub fn lin_vel(&self) -> (r: Vector)
        ensures
            r == self@.lin_vel,
    {
        self.lin_vel
    }

    pub fn ang_vel(&self) -> (r: Vector)
        ensures
            r == self@.ang_vel,
    {
        self.ang_vel
    }

    pub fn external_force(&self) -> (r: Vector)
        ensures
            r == self@.external_force,
    {
        self.external_force
    }

    pub fn external_torque(&self) -> (r: Vector)
        ensures
            r == self@.external_torque,
    {
        self.external_torque
    }

    pub fn time_sleeping(&self) -> (r: u64)
        ensures
            r == self@.time_sleeping,
    {
        self.time_sleeping
    }

    pub fn state(&self) -> (r: SleepState)
        ensures
            r == self@.state,
    {
        self.state
    }

    pub fn is_sleeping(&self) -> (r: bool)
        ensures
            r == (self@.state == SleepState::Sleeping),
    {
        match self.state {
            SleepState::Sleeping => true,
            SleepState::Active => false,
        }
    }

    pub fn sleeping_disabled(&self) -> (r: bool)
        ensures
            r == self@.sleeping_disabled,
    {
        self.sleeping_disabled
    }

    pub fn activity_changed(&self) -> (r: bool)
        ensures
            r == self@.activity_changed,
    {
        self.activity_changed
    }

    pub fn transform(&self) -> (r: Option<Transform>)
        ensures
            r == self@.transform,
    {
        self.transform
    }

    /// Writes the linear velocity, which signals activity.
    pub fn set_lin_vel(&mut self, v: Vector)
        ensures
            final(self)@ == (BodyModel { lin_vel: v, activity_changed: true, ..old(self)@ }),
    {
        self.lin_vel = v;
        self.activity_changed = true;
    }

    /// Writes the angular velocity, which signals activity.
    pub fn set_ang_vel(&mut self, v: Vector)
        ensures
            final(self)@ == (BodyModel { ang_vel: v, activity_changed: true, ..old(self)@ }),
    {
        self.ang_vel = v;
        self.activity_changed = true;
    }

    /// Writes the external force, which signals activity even when the value is unchanged.
    pub fn set_external_force(&mut self, f: Vector)
        ensures
            final(self)@ == with_external_force(old(self)@, f),
    {
        self.external_force = f;
        self.activity_changed = true;
    }

    /// Writes the external torque, which signals activity even when the value is unchanged.
    pub fn set_external_torque(&mut self, t: Vector)
        ensures
            final(self)@ == (BodyModel {
                external_torque: t,
                activity_changed: true,
                ..old(self)@
            }),
    {
        self.external_torque = t;
        self.activity_changed = true;
    }

    pub fn set_pos(&mut self, pos: Point)
        ensures
            final(self)@ == (BodyModel { pos, ..old(self)@ }),
    {
        self.pos = pos;
    }

    pub fn set_rot(&mut self, rot: Rotation)
        ensures
            final(self)@ == (BodyModel { rot, ..old(self)@ }),
    {
        self.rot = rot;
    }

    /// Gives the body a presentation transform to keep in step, or takes it away.
    pub fn set_transform(&mut self, transform: Option<Transform>)
        ensures
            final(self)@ == (BodyModel { transform, ..old(self)@ }),
    {
        self.transform = transform;
    }

    /// Sets or clears the opt-out from sleeping; opting out wakes a sleeping body.
    pub fn set_sleeping_disabled(&mut self, disabled: bool)
        requires
            old(self)@.wf(),
        ensures
            final(self)@ == with_sleeping_disabled(old(self)@, disabled),
            final(self)@.wf(),
    {
        if disabled {
            if self.is_sleeping() {
                self.wake();
            }
        }
        self.sleeping_disabled = disabled;
    }

    /// Wakes the body: active again, with no still time.
    fn wake(&mut self)
        ensures
            final(self)@ == woken(old(self)@),
    {
        self.state = SleepState::Active;
        self.time_sleeping = 0;
    }

    /// The promotion step for one body: only a body that is awake and has not opted
    /// out is looked at.
    pub fn promotion_step(&mut self, cfg: &SleepConfig)
        ensures
            final(self)@ == promotion_step(old(self)@, *cfg),
    {
        if !self.is_sleeping() && !self.sleeping_disabled {
            self.try_fall_asleep(cfg);
        }
    }

    /// Promotion of one body that is awake and has not opted out.
    pub fn try_fall_asleep(&mut self, cfg: &SleepConfig)
        requires
            old(self)@.may_fall_asleep(),
        ensures
            final(self)@ == promoted(old(self)@, *cfg),
    {
        self.activity_changed = false;
        if !self.kind.is_dynamic() {
            return;
        }
        let lin_vel_sq = self.lin_vel.length_squared();
        let ang_vel_sq = self.ang_vel.length_squared();
        if is_below_threshold(lin_vel_sq, cfg.linear_threshold) && is_below_threshold(
            ang_vel_sq,
            cfg.angular_threshold,
        ) {
            self.time_sleeping = self.time_sleeping.saturating_add(cfg.delta_time);
        } else {
            self.time_sleeping = 0;
        }
        if self.time_sleeping > cfg.deactivation_time {
            self.state = SleepState::Sleeping;
            self.lin_vel = Vector::zero();
            self.ang_vel = Vector::zero();
        }
    }

    /// The demotion by activity for one body.
    pub fn wake_if_disturbed(&mut self)
        ensures
            final(self)@ == activity_demoted(old(self)@),
    {
        if self.is_sleeping() {
            if self.activity_changed {
                self.wake();
            }
            self.activity_changed = false;
        }
    }

    /// The demotion by environment for one body.
    pub fn wake_for_gravity(&mut self, gravity_changed: bool)
        ensures
            final(self)@ == gravity_demoted(old(self)@, gravity_changed),
    {
        if gravity_changed && self.is_sleeping() {
            self.wake();
        }
    }

    /// The three sleep steps of a tick, in their order.
    pub fn sleep_step(&mut self, cfg: &SleepConfig, gravity_changed: bool)
        ensures
            final(self)@ == sleep_step(old(self)@, *cfg, gravity_changed),
    {
        self.promotion_step(cfg);
        self.wake_if_disturbed();
        self.wake_for_gravity(gravity_changed);
    }

    /// Overwrites the presentation transform, if the body carries one, with its pose.
    pub fn sync_transform(&mut self, dim: Dimension)
        ensures
            final(self)@ == synced(old(self)@, dim),
    {
        if self.transform.is_some() {
            self.transform = Some(to_transform(&self.pos, &self.rot, dim));
        }
    }
}

} // verus!
