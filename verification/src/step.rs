//! The step orchestrator: the per-frame control routine.
//!
//! Per invocation it gates on the run state, drains the profiling channel
//! keeping only the latest aggregate, assembles the upload records for every
//! coupling entry, takes the live query set for this frame's readback, and
//! collapses `Step` to `Paused`. The result is a [`StepPlan`]: the exact GPU
//! work the host must submit for this frame. The host performs the
//! submissions and, when a query set was taken, spawns the detached readback
//! task that aggregates the resolved timestamps and sends them back through
//! the channel.
//!
//! The run-state check comes before everything else, including the channel
//! drain: a paused simulation's telemetry snapshot stays frozen, and
//! aggregates arriving meanwhile stay queued until the next working frame.

use vstd::prelude::*;

use crate::coupling::{
    BodyHandle, BodySample, BodyWorld, ColliderHandle, CouplingEntry, GpuVelocity, PhysicsContext,
    PoseBits, find_body_spec, find_collider_spec,
};
use crate::resources::{AppState, RunState, Timestamps, run_state_after_frame, with_query_set};

verus! {

/// Declares the sending side of the external channel type so it can stand
/// in fields; the orchestrator never sends, only the host's readback task
/// does.
#[verifier::external_type_specification]
#[verifier::external_body]
#[verifier::reject_recursive_types(T)]
pub struct ExSender<T>(async_channel::Sender<T>);

/// Declares the receiving side of the external channel type; the
/// orchestrator drains it through [`TimestampChannel`].
#[verifier::external_type_specification]
#[verifier::external_body]
#[verifier::reject_recursive_types(T)]
pub struct ExReceiver<T>(async_channel::Receiver<T>);

/// The unbounded single-producer/single-consumer channel carrying completed
/// timing aggregates from the background readback task back to the frame
/// loop.
#[verifier::reject_recursive_types(Q)]
pub struct TimestampChannel<Q> {
    pub snd: async_channel::Sender<Timestamps<Q>>,
    pub rcv: async_channel::Receiver<Timestamps<Q>>,
}

/// Relies on `async_channel::Receiver::try_recv`: pops the next pending
/// message without blocking, or fails when the channel is currently empty
/// or closed. The message is external data arriving from the readback task,
/// so nothing is assumed about its value.
#[verifier::external_body]
fn try_recv_timings<Q>(rcv: &async_channel::Receiver<Timestamps<Q>>) -> Option<Timestamps<Q>> {
    rcv.try_recv().ok()
}

/// Error of a step invocation: the session-immutable coupling set named a
/// handle the rigid-body world no longer resolves. This is a programmer
/// invariant violation signalling a setup bug upstream; the host treats it
/// as fatal.
#[derive(Copy, Clone, PartialEq, Eq, Structural, Debug)]
pub enum StepError {
    ColliderNotFound,
    BodyNotFound,
}

/// The GPU work one frame submits, in submission order: write `poses` then
/// `vels` to the upload buffers at offset 0 (overwrite semantics), enqueue
/// `num_substeps` simulation substeps — each writing start/end timestamps
/// into the query set when one is present (the host clears it first) —
/// enqueue the device-to-staging copy of the post-step poses, enqueue the
/// render repack pass when `repack` is set, resolve the query set when
/// present, submit once, and finally hand `query_set` to a detached
/// readback task when present.
pub struct StepPlan<Q> {
    /// Per-entry pose records, in coupling order.
    pub poses: Vec<PoseBits>,
    /// Per-entry velocity records, in coupling order.
    pub vels: Vec<GpuVelocity>,
    /// How many substeps this frame's command batch advances.
    pub num_substeps: usize,
    /// Whether a render-instance buffer exists and the repack pass runs.
    pub repack: bool,
    /// The live timestamp query set taken for this frame's readback;
    /// `None` when profiling is off or a past frame's readback still owns
    /// it.
    pub query_set: Option<Q>,
}

/// Drains every currently available aggregate from the profiling channel,
/// in arrival order. The values come from the asynchronous readback task,
/// so nothing is known of them; the draining itself never blocks.
///
/// The loop is bounded only to make its termination evident: the producer
/// posts at most one aggregate per past frame, so the bound is never
/// reached.
pub fn drain_channel<Q>(channel: &TimestampChannel<Q>) -> (drained: Vec<Timestamps<Q>>) {
    let mut drained: Vec<Timestamps<Q>> = Vec::new();
    let mut budget: usize = usize::MAX;
    while budget > 0
        decreases budget,
    {
        budget = budget - 1;
        match try_recv_timings(&channel.rcv) {
            Some(t) => drained.push(t),
            None => { break ; },
        }
    }
    drained
}

/// Replaces the live aggregate with the most recently drained one.
///
/// Draining is last-write-wins: when several aggregates were enqueued
/// before a drain, the visible snapshot afterwards equals the last one
/// drained — never a merge — and when none arrived the previous snapshot is
/// retained unchanged.
pub fn apply_drained<Q>(timings: &mut Timestamps<Q>, drained: Vec<Timestamps<Q>>)
    ensures
        drained@.len() == 0 ==> *final(timings) == *old(timings),
        drained@.len() > 0 ==> *final(timings) == drained@.last(),
{
    let mut rest = drained;
    match rest.pop() {
        Some(t) => {
            *timings = t;
        },
        None => {},
    }
}

/// The velocity record a coupled body uploads: only a body the engine marks
/// dynamic receives the frame's per-substep gravity contribution; a static
/// or kinematic body uploads its sampled linear velocity bit-for-bit.
pub open spec fn upload_velocity(s: BodySample) -> GpuVelocity {
    GpuVelocity {
        linear: if s.is_dynamic {
            s.linvel_with_gravity
        } else {
            s.linvel
        },
        angular: s.angvel,
    }
}

/// Every coupling entry's collider resolves in the sampled world.
pub open spec fn colliders_found(
    coupling: Seq<CouplingEntry>,
    colliders: Seq<(ColliderHandle, PoseBits)>,
) -> bool {
    forall|i: int|
        0 <= i < coupling.len() ==> find_collider_spec(
            colliders,
            (#[trigger] coupling[i]).collider,
        ) is Some
}

/// Every coupling entry's body resolves in the sampled world.
pub open spec fn bodies_found(
    coupling: Seq<CouplingEntry>,
    bodies: Seq<(BodyHandle, BodySample)>,
) -> bool {
    forall|i: int|
        0 <= i < coupling.len() ==> find_body_spec(bodies, (#[trigger] coupling[i]).body) is Some
}

/// The upload records are exactly the sampled state of each coupling entry,
/// in the stable coupling order established at scene setup.
pub open spec fn records_match(
    coupling: Seq<CouplingEntry>,
    bodies: Seq<(BodyHandle, BodySample)>,
    colliders: Seq<(ColliderHandle, PoseBits)>,
    poses: Seq<PoseBits>,
    vels: Seq<GpuVelocity>,
) -> bool {
    &&& poses.len() == coupling.len()
    &&& vels.len() == coupling.len()
    &&& forall|i: int|
        0 <= i < coupling.len() ==> #[trigger] poses[i] == find_collider_spec(
            colliders,
            coupling[i].collider,
        ).unwrap()
    &&& forall|i: int|
        0 <= i < coupling.len() ==> #[trigger] vels[i] == upload_velocity(
            find_body_spec(bodies, coupling[i].body).unwrap(),
        )
}

/// Builds the per-entry pose and velocity upload records for this frame,
/// reading the world-space pose of each entry's collider and the
/// velocities of each entry's body, in coupling order. A handle that no
/// longer resolves is a fatal invariant violation, reported as the error of
/// the record walked first: all poses are built before any velocity.
pub fn build_upload_records(coupling: &Vec<CouplingEntry>, world: &BodyWorld) -> (r: Result<
    (Vec<PoseBits>, Vec<GpuVelocity>),
    StepError,
>)
    ensures
        r is Ok <==> colliders_found(coupling@, world.colliders@) && bodies_found(
            coupling@,
            world.bodies@,
        ),
        !colliders_found(coupling@, world.colliders@) ==> r == Err::<
            (Vec<PoseBits>, Vec<GpuVelocity>),
            StepError,
        >(StepError::ColliderNotFound),
        colliders_found(coupling@, world.colliders@) && !bodies_found(coupling@, world.bodies@)
            ==> r == Err::<(Vec<PoseBits>, Vec<GpuVelocity>), StepError>(StepError::BodyNotFound),
        r matches Ok(pv) ==> records_match(
            coupling@,
            world.bodies@,
            world.colliders@,
            pv.0@,
            pv.1@,
        ),
{
    let n = coupling.len();
    let mut poses: Vec<PoseBits> = Vec::new();
    let mut i: usize = 0;
    while i < n
        invariant
            i <= n,
            n == coupling@.len(),
            poses@.len() == i,
            forall|j: int|
                0 <= j < i ==> find_collider_spec(
                    world.colliders@,
                    (#[trigger] coupling@[j]).collider,
                ) is Some,
            forall|j: int|
                0 <= j < i ==> #[trigger] poses@[j] == find_collider_spec(
                    world.colliders@,
                    coupling@[j].collider,
                ).unwrap(),
        decreases n - i,
    {
        let entry = coupling[i];
        match world.find_collider(entry.collider) {
            Some(pose) => {
                poses.push(pose);
            },
            None => {
                proof {
                    assert(find_collider_spec(
                        world.colliders@,
                        coupling@[i as int].collider,
                    ) is None);
                }
                return Err(StepError::ColliderNotFound);
            },
        }
        i = i + 1;
    }
    let mut vels: Vec<GpuVelocity> = Vec::new();
    let mut k: usize = 0;
    while k < n
        invariant
            k <= n,
            n == coupling@.len(),
            colliders_found(coupling@, world.colliders@),
            poses@.len() == n,
            vels@.len() == k,
            forall|j: int|
                0 <= j < n ==> find_collider_spec(
                    world.colliders@,
                    (#[trigger] coupling@[j]).collider,
                ) is Some,
            forall|j: int|
                0 <= j < n ==> #[trigger] poses@[j] == find_collider_spec(
                    world.colliders@,
                    coupling@[j].collider,
                ).unwrap(),
            forall|j: int|
                0 <= j < k ==> find_body_spec(
                    world.bodies@,
                    (#[trigger] coupling@[j]).body,
                ) is Some,
            forall|j: int|
                0 <= j < k ==> #[trigger] vels@[j] == upload_velocity(
                    find_body_spec(world.bodies@, coupling@[j].body).unwrap(),
                ),
        decreases n - k,
    {
        let entry = coupling[k];
        match world.find_body(entry.body) {
            Some(sample) => {
                let vel = if sample.is_dynamic {
                    GpuVelocity { linear: sample.linvel_with_gravity, angular: sample.angvel }
                } else {
                    GpuVelocity { linear: sample.linvel, angular: sample.angvel }
                };
                vels.push(vel);
            },
            None => {
                proof {
                    assert(find_body_spec(world.bodies@, coupling@[k as int].body) is None);
                }
                return Err(StepError::BodyNotFound);
            },
        }
        k = k + 1;
    }
    Ok((poses, vels))
}

/// The working half of a frame, after the run state allowed work and the
/// channel was drained: builds the upload records, moves the live query set from
/// the aggregate into the plan (leaving the stage totals untouched), and
/// collapses `Step` to `Paused`. Total and exact: every field of the
/// result and of the final state is pinned by the inputs.
pub fn prepare_frame<Q>(
    timings: &mut Timestamps<Q>,
    physics: &PhysicsContext,
    app_state: &mut AppState,
    world: &BodyWorld,
    has_render_instances: bool,
) -> (r: Result<StepPlan<Q>, StepError>)
    ensures
        final(app_state).num_substeps == old(app_state).num_substeps,
        r is Ok <==> colliders_found(physics.coupling@, world.colliders@) && bodies_found(
            physics.coupling@,
            world.bodies@,
        ),
        !colliders_found(physics.coupling@, world.colliders@) ==> r == Err::<StepPlan<Q>, StepError>(
            StepError::ColliderNotFound,
        ),
        colliders_found(physics.coupling@, world.colliders@) && !bodies_found(
            physics.coupling@,
            world.bodies@,
        ) ==> r == Err::<StepPlan<Q>, StepError>(StepError::BodyNotFound),
        r is Err ==> *final(timings) == *old(timings) && *final(app_state) == *old(app_state),
        r matches Ok(plan) ==> {
            &&& records_match(
                physics.coupling@,
                world.bodies@,
                world.colliders@,
                plan.poses@,
                plan.vels@,
            )
            &&& plan.num_substeps == old(app_state).num_substeps
            &&& plan.repack == has_render_instances
            &&& plan.query_set == old(timings).timestamps
            &&& *final(timings) == with_query_set(*old(timings), None)
            &&& final(app_state).run_state == run_state_after_frame(old(app_state).run_state)
        },
{
    match build_upload_records(&physics.coupling, world) {
        Err(e) => Err(e),
        Ok((poses, vels)) => {
            let query_set = timings.timestamps.take();
            let plan = StepPlan {
                poses,
                vels,
                num_substeps: app_state.num_substeps,
                repack: has_render_instances,
                query_set,
            };
            if app_state.run_state == RunState::Step {
                app_state.run_state = RunState::Paused;
            }
            Ok(plan)
        },
    }
}

/// What one orchestrator invocation guarantees, relating the state before
/// the call, the state after it, and the returned plan.
///
/// A paused frame changes nothing and produces no plan. A working frame
/// pins the upload records, the substep count and the repack flag of the
/// plan exactly, always leaves the live aggregate without a query set (the
/// plan owns it until the readback returns it through the channel), and
/// collapses `Step` to `Paused`. The stage totals of the live aggregate
/// after the call are whatever the drain produced — external data, pinned
/// by [`apply_drained`], not here. An unresolvable handle leaves the run
/// state untouched and reports which walk failed first.
pub open spec fn step_protocol<Q>(
    old_timings: Timestamps<Q>,
    new_timings: Timestamps<Q>,
    coupling: Seq<CouplingEntry>,
    old_state: AppState,
    new_state: AppState,
    bodies: Seq<(BodyHandle, BodySample)>,
    colliders: Seq<(ColliderHandle, PoseBits)>,
    has_render_instances: bool,
    r: Result<Option<StepPlan<Q>>, StepError>,
) -> bool {
    &&& new_state.num_substeps == old_state.num_substeps
    &&& old_state.run_state == RunState::Paused ==> {
        &&& r == Ok::<Option<StepPlan<Q>>, StepError>(None)
        &&& new_timings == old_timings
        &&& new_state == old_state
    }
    &&& old_state.run_state != RunState::Paused ==> {
        &&& (r is Ok <==> colliders_found(coupling, colliders) && bodies_found(coupling, bodies))
        &&& !colliders_found(coupling, colliders) ==> r == Err::<Option<StepPlan<Q>>, StepError>(
            StepError::ColliderNotFound,
        )
        &&& colliders_found(coupling, colliders) && !bodies_found(coupling, bodies) ==> r == Err::<
            Option<StepPlan<Q>>,
            StepError,
        >(StepError::BodyNotFound)
        &&& r is Err ==> new_state == old_state
        &&& r matches Ok(opt) ==> {
            &&& opt matches Some(plan)
            &&& records_match(coupling, bodies, colliders, plan.poses@, plan.vels@)
            &&& plan.num_substeps == old_state.num_substeps
            &&& plan.repack == has_render_instances
            &&& new_timings.timestamps is None
            &&& new_state.run_state == run_state_after_frame(old_state.run_state)
        }
    }
}

/// One frame of the step orchestrator, after the host found the simulation
/// context initialized.
///
/// In order: gate on the run state; drain the profiling channel, keeping
/// the last aggregate as the visible snapshot; build the upload records of
/// every coupling entry; take the live query set for this frame's readback;
/// collapse `Step` to `Paused`. The returned plan is the exact GPU command
/// batch the host submits.
pub fn step_simulation_multisteps<Q>(
    timings: &mut Timestamps<Q>,
    physics: &PhysicsContext,
    app_state: &mut AppState,
    world: &BodyWorld,
    has_render_instances: bool,
    channel: &TimestampChannel<Q>,
) -> (r: Result<Option<StepPlan<Q>>, StepError>)
    ensures
        step_protocol(
            *old(timings),
            *final(timings),
            physics.coupling@,
            *old(app_state),
            *final(app_state),
            world.bodies@,
            world.colliders@,
            has_render_instances,
            r,
        ),
{
    if app_state.run_state == RunState::Paused {
        return Ok(None);
    }
    let drained = drain_channel(channel);
    apply_drained(timings, drained);
    match prepare_frame(timings, physics, app_state, world, has_render_instances) {
        Ok(plan) => Ok(Some(plan)),
        Err(e) => Err(e),
    }
}

/// The once-per-frame entry point. A frame whose simulation context is not
/// yet initialized is a silent no-op — an expected transient retried next
/// invocation, not an error.
pub fn step_simulation<Q>(
    timings: &mut Timestamps<Q>,
    physics: Option<&PhysicsContext>,
    app_state: &mut AppState,
    world: &BodyWorld,
    has_render_instances: bool,
    channel: &TimestampChannel<Q>,
) -> (r: Result<Option<StepPlan<Q>>, StepError>)
    ensures
        physics is None ==> {
            &&& r == Ok::<Option<StepPlan<Q>>, StepError>(None)
            &&& *final(timings) == *old(timings)
            &&& *final(app_state) == *old(app_state)
        },
        physics matches Some(p) ==> step_protocol(
            *old(timings),
            *final(timings),
            p.coupling@,
            *old(app_state),
            *final(app_state),
            world.bodies@,
            world.colliders@,
            has_render_instances,
            r,
        ),
{
    match physics {
        Some(p) => step_simulation_multisteps(
            timings,
            p,
            app_state,
            world,
            has_render_instances,
            channel,
        ),
        None => Ok(None),
    }
}

} // verus!
