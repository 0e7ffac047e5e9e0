//! Run-state machine and the per-frame timing aggregate.

use vstd::prelude::*;

verus! {

/// Tri-state control gating whether a frame performs simulation work.
///
/// `Running` executes simulation steps every invocation, `Paused` makes the
/// invocation a no-op, and `Step` executes exactly one invocation's worth of
/// work after which the orchestrator forces the state back to `Paused`.
/// External control may set any state between invocations; the only
/// transition originating inside the orchestrator is `Step -> Paused`.
#[derive(Copy, Clone, PartialEq, Eq, Structural, Debug)]
pub enum RunState {
    Running,
    Paused,
    Step,
}

/// True when a frame in state `s` performs simulation work (uploads, GPU
/// submission). Work happens if and only if the state is not `Paused`.
pub open spec fn performs_work(s: RunState) -> bool {
    s != RunState::Paused
}

/// The run state left behind by one orchestrator invocation entered in
/// state `s`: `Step` collapses to `Paused`, everything else is kept.
pub open spec fn run_state_after_frame(s: RunState) -> RunState {
    if s == RunState::Step {
        RunState::Paused
    } else {
        s
    }
}

/// The run state after `n` consecutive orchestrator invocations entered in
/// state `s`, with no external control writes in between.
pub open spec fn run_state_after_frames(s: RunState, n: nat) -> RunState
    decreases n,
{
    if n == 0 {
        s
    } else {
        run_state_after_frames(run_state_after_frame(s), (n - 1) as nat)
    }
}

/// Pausing is idempotent: while the state is `Paused` and no external
/// control writes happen, any number of invocations leaves it `Paused`,
/// and none of them performs simulation work.
pub proof fn lemma_paused_is_absorbing(n: nat)
    ensures
        run_state_after_frames(RunState::Paused, n) == RunState::Paused,
        !performs_work(RunState::Paused),
    decreases n,
{
    if n > 0 {
        lemma_paused_is_absorbing((n - 1) as nat);
    }
}

/// `Step` collapses to `Paused` exactly once: the first invocation performs
/// work and leaves `Paused`, and every further invocation is a paused no-op.
pub proof fn lemma_step_collapses_once(n: nat)
    ensures
        performs_work(RunState::Step),
        run_state_after_frame(RunState::Step) == RunState::Paused,
        n >= 1 ==> run_state_after_frames(RunState::Step, n) == RunState::Paused,
{
    if n >= 1 {
        lemma_paused_is_absorbing((n - 1) as nat);
    }
}

/// The orchestrator's tunable control state.
///
/// The host's user interface owns further presentation concerns (gravity
/// scaling of the displayed world, scene selection, GPU pipeline handles);
/// the orchestrator reads only the run state and the substep count.
pub struct AppState {
    /// Gates whether this frame performs simulation work.
    pub run_state: RunState,
    /// How many simulation substeps one frame enqueues; positive.
    pub num_substeps: usize,
}

impl Default for AppState {
    /// The state a fresh session starts in: running, one substep per
    /// frame.
    fn default() -> (r: Self)
        ensures
            r.run_state == RunState::Running,
            r.num_substeps == 1,
    {
        AppState { run_state: RunState::Running, num_substeps: 1 }
    }
}

/// Per-stage GPU execution totals for one full frame, in raw GPU clock
/// ticks, plus the live timestamp query set used to capture the current
/// frame, when the device supports timestamp queries.
///
/// Each stage runs once per substep; a field holds the sum across all
/// substeps of that frame, not a per-substep value. The host multiplies the
/// tick totals by the queue's timestamp period to display milliseconds.
///
/// The query-set handle type `Q` is supplied by the host (the device's
/// timestamp query set); the orchestrator only moves it between the live
/// aggregate, the step plan, and aggregates returned through the profiling
/// channel, so tests can drive the orchestrator with a placeholder type.
pub struct Timestamps<Q> {
    /// Live query set for the current frame; `None` while a past frame's
    /// readback still owns it or when the device lacks timestamp support.
    pub timestamps: Option<Q>,
    pub grid_sort: u64,
    pub grid_update_cdf: u64,
    pub p2g_cdf: u64,
    pub g2p_cdf: u64,
    pub p2g: u64,
    pub grid_update: u64,
    pub g2p: u64,
    pub particles_update: u64,
    pub integrate_bodies: u64,
}

/// The same aggregate with its query-set slot replaced: how the
/// orchestrator hands the live query set to a frame's readback while the
/// stage totals stay untouched.
pub open spec fn with_query_set<Q>(t: Timestamps<Q>, q: Option<Q>) -> Timestamps<Q> {
    Timestamps {
        timestamps: q,
        grid_sort: t.grid_sort,
        grid_update_cdf: t.grid_update_cdf,
        p2g_cdf: t.p2g_cdf,
        g2p_cdf: t.g2p_cdf,
        p2g: t.p2g,
        grid_update: t.grid_update,
        g2p: t.g2p,
        particles_update: t.particles_update,
        integrate_bodies: t.integrate_bodies,
    }
}

impl<Q> Timestamps<Q> {
    /// Sum of all stage totals, as a mathematical integer.
    pub open spec fn total_spec(self) -> int {
        self.grid_sort + self.grid_update_cdf + self.p2g_cdf + self.g2p_cdf + self.p2g
            + self.grid_update + self.g2p + self.particles_update + self.integrate_bodies
    }

    /// Derived total across all stages, widened so the sum cannot overflow.
    pub fn total_time(&self) -> (total: u128)
        ensures
            total == self.total_spec(),
    {
        self.grid_sort as u128 + self.grid_update_cdf as u128 + self.p2g_cdf as u128
            + self.g2p_cdf as u128 + self.p2g as u128 + self.grid_update as u128
            + self.g2p as u128 + self.particles_update as u128 + self.integrate_bodies as u128
    }
}

impl<Q> Default for Timestamps<Q> {
    /// An aggregate with no live query set and every stage total zero.
    fn default() -> (r: Self)
        ensures
            r.timestamps is None,
            r.grid_sort == 0,
            r.grid_update_cdf == 0,
            r.p2g_cdf == 0,
            r.g2p_cdf == 0,
            r.p2g == 0,
            r.grid_update == 0,
            r.g2p == 0,
            r.particles_update == 0,
            r.integrate_bodies == 0,
    {
        Timestamps {
            timestamps: None,
            grid_sort: 0,
            grid_update_cdf: 0,
            p2g_cdf: 0,
            g2p_cdf: 0,
            p2g: 0,
            grid_update: 0,
            g2p: 0,
            particles_update: 0,
            integrate_bodies: 0,
        }
    }
}

} // verus!
