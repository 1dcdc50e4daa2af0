//! The per-tick sweeps over all bodies, and the driver that runs them in order.
use vstd::prelude::*;
use crate::body::{
    Body,
    BodyModel,
    SleepConfig,
    activity_demoted,
    gravity_demoted,
    promotion_step,
    sleep_step,
    synced,
};
use crate::laws::lemma_sleeping_exclusive;
use crate::pose::Dimension;

verus! {

/// Every body of a sequence is well formed.
pub open spec fn all_wf(bodies: Seq<Body>) -> bool {
    forall|i: int| 0 <= i < bodies.len() ==> (#[trigger] bodies[i])@.wf()
}

/// Promotion: each awake body that has not opted out accumulates still time or
/// loses it, and falls asleep once it has been still past the deactivation time.
pub fn activate_sleeping(bodies: &mut Vec<Body>, cfg: &SleepConfig)
    ensures
        final(bodies)@.len() == old(bodies)@.len(),
        forall|i: int|
            0 <= i < old(bodies)@.len() ==> (#[trigger] final(bodies)@[i])@ == promotion_step(
                old(bodies)@[i]@,
                *cfg,
            ),
{
    let n = bodies.len();
    let mut i: usize = 0;
    while i < n
        invariant
            n == old(bodies)@.len(),
            bodies@.len() == n,
            i <= n,
            forall|j: int|
                0 <= j < i ==> (#[trigger] bodies@[j])@ == promotion_step(old(bodies)@[j]@, *cfg),
            forall|j: int| i <= j < n ==> (#[trigger] bodies@[j]) == old(bodies)@[j],
        decreases n - i,
    {
        bodies[i].promotion_step(cfg);
        i = i + 1;
    }
}

/// Demotion by activity: each sleeping body whose velocity, force or torque was
/// written wakes.
pub fn deactivate_sleeping(bodies: &mut Vec<Body>)
    ensures
        final(bodies)@.len() == old(bodies)@.len(),
        forall|i: int|
            0 <= i < old(bodies)@.len() ==> (#[trigger] final(bodies)@[i])@ == activity_demoted(
                old(bodies)@[i]@,
            ),
{
    let n = bodies.len();
    let mut i: usize = 0;
    while i < n
        invariant
            n == old(bodies)@.len(),
            bodies@.len() == n,
            i <= n,
            forall|j: int|
                0 <= j < i ==> (#[trigger] bodies@[j])@ == activity_demoted(old(bodies)@[j]@),
            forall|j: int| i <= j < n ==> (#[trigger] bodies@[j]) == old(bodies)@[j],
        decreases n - i,
    {
        bodies[i].wake_if_disturbed();
        i = i + 1;
    }
}

/// Demotion by environment: when gravity changed, every sleeping body wakes.
pub fn gravity_deactivate_sleeping(bodies: &mut Vec<Body>, gravity_changed: bool)
    ensures
        final(bodies)@.len() == old(bodies)@.len(),
        forall|i: int|
            0 <= i < old(bodies)@.len() ==> (#[trigger] final(bodies)@[i])@ == gravity_demoted(
                old(bodies)@[i]@,
                gravity_changed,
            ),
{
    let n = bodies.len();
    let mut i: usize = 0;
    while i < n
        invariant
            n == old(bodies)@.len(),
            bodies@.len() == n,
            i <= n,
            forall|j: int|
                0 <= j < i ==> (#[trigger] bodies@[j])@ == gravity_demoted(
                    old(bodies)@[j]@,
                    gravity_changed,
                ),
            forall|j: int| i <= j < n ==> (#[trigger] bodies@[j]) == old(bodies)@[j],
        decreases n - i,
    {
        bodies[i].wake_for_gravity(gravity_changed);
        i = i + 1;
    }
}

/// Copies each body's pose into its presentation transform, whatever its sleep state.
pub fn sync_transforms(bodies: &mut Vec<Body>, dim: Dimension)
    ensures
        final(bodies)@.len() == old(bodies)@.len(),
        forall|i: int|
            0 <= i < old(bodies)@.len() ==> (#[trigger] final(bodies)@[i])@ == synced(
                old(bodies)@[i]@,
                dim,
            ),
{
    let n = bodies.len();
    let mut i: usize = 0;
    while i < n
        invariant
            n == old(bodies)@.len(),
            bodies@.len() == n,
            i <= n,
            forall|j: int| 0 <= j < i ==> (#[trigger] bodies@[j])@ == synced(old(bodies)@[j]@, dim),
            forall|j: int| i <= j < n ==> (#[trigger] bodies@[j]) == old(bodies)@[j],
        decreases n - i,
    {
        bodies[i].sync_transform(dim);
        i = i + 1;
    }
}

/// One tick of the library for one body: the sleep steps, then synchronisation.
pub open spec fn ticked(m: BodyModel, cfg: SleepConfig, gravity_changed: bool, dim: Dimension) -> BodyModel {
    synced(sleep_step(m, cfg, gravity_changed), dim)
}

/// Runs the sleep tracker and the pose synchroniser for a simulation configured with
/// one spatial dimension.
#[derive(Clone, Copy, Debug, PartialEq, Eq, Structural)]
pub struct SyncPlugin {
    pub dimension: Dimension,
}

impl SyncPlugin {
    pub fn new(dimension: Dimension) -> (r: SyncPlugin)
        ensures
            r.dimension == dimension,
    {
        SyncPlugin { dimension }
    }

    /// One tick: promotion, demotion by activity, demotion by environment, then
    /// synchronisation of every presentation transform.
    pub fn step(&self, bodies: &mut Vec<Body>, cfg: &SleepConfig, gravity_changed: bool)
        ensures
            final(bodies)@.len() == old(bodies)@.len(),
            forall|i: int|
                0 <= i < old(bodies)@.len() ==> (#[trigger] final(bodies)@[i])@ == ticked(
                    old(bodies)@[i]@,
                    *cfg,
                    gravity_changed,
                    self.dimension,
                ),
            all_wf(old(bodies)@) ==> all_wf(final(bodies)@),
    {
        activate_sleeping(bodies, cfg);
        deactivate_sleeping(bodies);
        gravity_deactivate_sleeping(bodies, gravity_changed);
        sync_transforms(bodies, self.dimension);
        proof {
            if all_wf(old(bodies)@) {
                assert forall|i: int| 0 <= i < bodies@.len() implies (#[trigger] bodies@[i])@.wf() by {
                    lemma_sleeping_exclusive(old(bodies)@[i]@, *cfg, gravity_changed, self.dimension);
                }
            }
        }
    }
}

} // verus!
