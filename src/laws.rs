//! Properties of the tracker and the synchroniser that hold for every body.
use vstd::prelude::*;
use crate::body::{
    BodyModel,
    RigidBody,
    SleepConfig,
    SleepState,
    is_still,
    sleep_step,
    synced,
    with_external_force,
    with_sleeping_disabled,
};
use crate::pose::{
    Dimension,
    Point,
    PresentationRotation,
    Quaternion,
    Rotation,
    Transform,
    transform_of,
};
use crate::vector::Vector;

verus! {

/// A still body gains exactly one tick's duration of still time per tick, falls asleep
/// on the first tick at which its still time exceeds the deactivation time, and at that
/// tick both of its velocities are exactly zero.
pub proof fn lemma_hysteresis(m: BodyModel, cfg: SleepConfig)
    requires
        m.kind == RigidBody::Dynamic,
        m.may_fall_asleep(),
        m.lin_vel.is_zero(),
        m.ang_vel.is_zero(),
        cfg.linear_threshold > 0,
        cfg.angular_threshold > 0,
        m.time_sleeping + cfg.delta_time <= u64::MAX,
    ensures
        sleep_step(m, cfg, false).time_sleeping == m.time_sleeping + cfg.delta_time,
        (sleep_step(m, cfg, false).state == SleepState::Sleeping) == (m.time_sleeping
            + cfg.delta_time > cfg.deactivation_time),
        sleep_step(m, cfg, false).state == SleepState::Sleeping ==> sleep_step(
            m,
            cfg,
            false,
        ).lin_vel.is_zero() && sleep_step(m, cfg, false).ang_vel.is_zero(),
{
    assert(is_still(m.lin_vel, m.ang_vel, cfg)) by (nonlinear_arith)
        requires
            m.lin_vel.is_zero(),
            m.ang_vel.is_zero(),
            cfg.linear_threshold > 0,
            cfg.angular_threshold > 0,
    ;
}

/// A body that is awake and not still loses all of its still time on that tick and
/// stays awake.
pub proof fn lemma_instant_reset(m: BodyModel, cfg: SleepConfig, gravity_changed: bool)
    requires
        m.kind == RigidBody::Dynamic,
        m.may_fall_asleep(),
        !is_still(m.lin_vel, m.ang_vel, cfg),
    ensures
        sleep_step(m, cfg, gravity_changed).time_sleeping == 0,
        sleep_step(m, cfg, gravity_changed).state == SleepState::Active,
{
}

/// With a negative linear threshold an awake body never falls asleep, and a dynamic
/// body that the promotion step looks at holds no still time afterwards.
pub proof fn lemma_negative_threshold_disables_sleep(
    m: BodyModel,
    cfg: SleepConfig,
    gravity_changed: bool,
)
    requires
        cfg.linear_threshold < 0,
        m.state == SleepState::Active,
    ensures
        sleep_step(m, cfg, gravity_changed).state == SleepState::Active,
        m.kind == RigidBody::Dynamic && !m.sleeping_disabled ==> sleep_step(
            m,
            cfg,
            gravity_changed,
        ).time_sleeping == 0,
{
    assert(!is_still(m.lin_vel, m.ang_vel, cfg)) by (nonlinear_arith)
        requires
            cfg.linear_threshold < 0,
    ;
}

/// A sleeping body whose external force is written, with any value, wakes with no
/// still time in the next tick.
pub proof fn lemma_wake_on_force(
    m: BodyModel,
    f: Vector,
    cfg: SleepConfig,
    gravity_changed: bool,
)
    requires
        m.state == SleepState::Sleeping,
    ensures
        sleep_step(with_external_force(m, f), cfg, gravity_changed).state == SleepState::Active,
        sleep_step(with_external_force(m, f), cfg, gravity_changed).time_sleeping == 0,
{
}

/// A tick in which gravity changed wakes every body that was asleep, whatever its
/// velocities.
pub proof fn lemma_gravity_wakes_all(m: BodyModel, cfg: SleepConfig)
    requires
        m.state == SleepState::Sleeping,
    ensures
        sleep_step(m, cfg, true).state == SleepState::Active,
        sleep_step(m, cfg, true).time_sleeping == 0,
{
}

/// Synchronising twice with no change of pose in between gives the same transform as
/// synchronising once.
pub proof fn lemma_sync_idempotent(m: BodyModel, dim: Dimension)
    ensures
        synced(synced(m, dim), dim) == synced(m, dim),
{
}

/// In two dimensions a position gains a zero depth and a planar angle becomes the
/// rotation about the out-of-plane axis by that angle; in three dimensions position and
/// quaternion pass unchanged.
pub proof fn lemma_dimension_mapping(pos: Point, angle: i64, q: Quaternion)
    ensures
        transform_of(pos, Rotation::Planar(angle), Dimension::Two) == (Transform {
            translation: Point { x: pos.x, y: pos.y, z: 0 },
            rotation: PresentationRotation::AboutZ(angle),
        }),
        transform_of(pos, Rotation::Spatial(q), Dimension::Three) == (Transform {
            translation: pos,
            rotation: PresentationRotation::Quat(q),
        }),
{
}

/// A tick keeps every body well formed: no static or kinematic body and no body that
/// opted out is asleep afterwards.
pub proof fn lemma_sleeping_exclusive(
    m: BodyModel,
    cfg: SleepConfig,
    gravity_changed: bool,
    dim: Dimension,
)
    requires
        m.wf(),
    ensures
        sleep_step(m, cfg, gravity_changed).wf(),
        synced(sleep_step(m, cfg, gravity_changed), dim).wf(),
        m.kind != RigidBody::Dynamic || m.sleeping_disabled ==> sleep_step(
            m,
            cfg,
            gravity_changed,
        ).state == SleepState::Active,
{
}

/// Opting a body out of sleeping leaves it awake.
pub proof fn lemma_opt_out_wakes(m: BodyModel)
    requires
        m.wf(),
    ensures
        with_sleeping_disabled(m, true).state == SleepState::Active,
        with_sleeping_disabled(m, true).wf(),
{
}

} // verus!
