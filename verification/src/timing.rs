//! Aggregation of raw GPU timestamp samples into per-stage frame totals.
//!
//! Every substep brackets each of the nine tracked pipeline stages with a
//! start and an end timestamp, so a frame's resolved query set holds at
//! least `num_substeps * 2 * 9` samples, laid out substep-major: sample
//! `substep * 18 + stage * 2` is the stage's start and the following sample
//! its end. A stage's total for the frame is the sum over all substeps of
//! `end - start` — summed, never overwritten. The host's readback task
//! resolves the raw ticks and calls [`aggregate_timestamps`]; tick totals
//! are converted to milliseconds by the host for display.

use vstd::prelude::*;

use crate::resources::Timestamps;

verus! {

/// Number of tracked pipeline stages per substep.
pub const STAGE_COUNT: usize = 9;

/// Start timestamp of `stage` in `substep`.
pub open spec fn stage_start(raw: Seq<u64>, substep: int, stage: int) -> u64 {
    raw[substep * 18 + stage * 2]
}

/// End timestamp of `stage` in `substep`.
pub open spec fn stage_end(raw: Seq<u64>, substep: int, stage: int) -> u64 {
    raw[substep * 18 + stage * 2 + 1]
}

/// Duration of one stage in one substep.
pub open spec fn stage_delta(raw: Seq<u64>, substep: int, stage: int) -> int {
    stage_end(raw, substep, stage) - stage_start(raw, substep, stage)
}

/// Sum over the first `num_substeps` substeps of the stage's
/// `end - start` deltas: the additivity law every aggregate field obeys.
pub open spec fn stage_sum(raw: Seq<u64>, num_substeps: int, stage: int) -> int
    decreases num_substeps,
{
    if num_substeps <= 0 {
        0
    } else {
        stage_sum(raw, num_substeps - 1, stage) + stage_delta(raw, num_substeps - 1, stage)
    }
}

/// Every bracketing pair of the stage is ordered: no end precedes its
/// start.
pub open spec fn stage_pairs_ordered(raw: Seq<u64>, num_substeps: int, stage: int) -> bool {
    forall|i: int|
        0 <= i < num_substeps ==> stage_start(raw, i, stage) <= #[trigger] stage_end(
            raw,
            i,
            stage,
        )
}

/// The stage's samples are ordered and its frame total fits the field.
pub open spec fn stage_ok(raw: Seq<u64>, num_substeps: int, stage: int) -> bool {
    &&& stage_pairs_ordered(raw, num_substeps, stage)
    &&& stage_sum(raw, num_substeps, stage) <= u64::MAX
}

/// A resolved timestamp buffer this crate accepts: long enough for every
/// substep's brackets, with each stage ordered and summable. A shorter
/// buffer is a programmer invariant violation — the query set was created
/// too small — which the host treats as fatal.
pub open spec fn raw_well_formed(raw: Seq<u64>, num_substeps: int) -> bool {
    &&& raw.len() >= num_substeps * 18
    &&& forall|stage: int| 0 <= stage < 9 ==> #[trigger] stage_ok(raw, num_substeps, stage)
}

/// With ordered pairs, adding substeps never shrinks a stage total.
proof fn lemma_stage_sum_monotonic(raw: Seq<u64>, m: int, n: int, stage: int)
    requires
        0 <= m <= n,
        stage_pairs_ordered(raw, n, stage),
    ensures
        stage_sum(raw, m, stage) <= stage_sum(raw, n, stage),
    decreases n,
{
    if m < n {
        assert(stage_pairs_ordered(raw, n - 1, stage));
        lemma_stage_sum_monotonic(raw, m, n - 1, stage);
    }
}

/// One stage's frame total: the sum over all substeps of `end - start`.
/// Fails exactly when a bracket is out of order or the total overflows the
/// field.
fn sum_stage(raw: &Vec<u64>, num_substeps: usize, stage: usize) -> (r: Option<u64>)
    requires
        stage < 9,
        num_substeps * 18 <= raw@.len(),
    ensures
        r is Some <==> stage_ok(raw@, num_substeps as int, stage as int),
        r matches Some(total) ==> total == stage_sum(raw@, num_substeps as int, stage as int),
{
    let len = raw.len();
    let mut total: u64 = 0;
    let mut i: usize = 0;
    while i < num_substeps
        invariant
            i <= num_substeps,
            stage < 9,
            num_substeps * 18 <= raw@.len(),
            raw@.len() == len,
            stage_pairs_ordered(raw@, i as int, stage as int),
            total == stage_sum(raw@, i as int, stage as int),
        decreases num_substeps - i,
    {
        let base = i * 18 + stage * 2;
        let start = raw[base];
        let end = raw[base + 1];
        if start > end {
            proof {
                assert(stage_start(raw@, i as int, stage as int) > stage_end(
                    raw@,
                    i as int,
                    stage as int,
                ));
            }
            return None;
        }
        let delta = end - start;
        match total.checked_add(delta) {
            Some(t) => {
                total = t;
            },
            None => {
                proof {
                    assert(stage_sum(raw@, i as int + 1, stage as int) > u64::MAX);
                    if stage_pairs_ordered(raw@, num_substeps as int, stage as int) {
                        lemma_stage_sum_monotonic(
                            raw@,
                            i as int + 1,
                            num_substeps as int,
                            stage as int,
                        );
                    }
                }
                return None;
            },
        }
        i = i + 1;
    }
    Some(total)
}

/// Sums a frame's resolved timestamp samples into a fresh aggregate whose
/// every field is the stage's total across all `num_substeps` substeps, and
/// which carries the query set onward so the frame loop can reuse it.
/// Fails exactly when the buffer is malformed: too short for
/// `num_substeps * 2 * 9` samples, a bracket out of order, or a total too
/// large for its field.
pub fn aggregate_timestamps<Q>(query_set: Q, raw: &Vec<u64>, num_substeps: usize) -> (r: Option<
    Timestamps<Q>,
>)
    ensures
        r is Some <==> raw_well_formed(raw@, num_substeps as int),
        r matches Some(t) ==> {
            &&& t.timestamps == Some(query_set)
            &&& t.grid_sort == stage_sum(raw@, num_substeps as int, 0)
            &&& t.grid_update_cdf == stage_sum(raw@, num_substeps as int, 1)
            &&& t.p2g_cdf == stage_sum(raw@, num_substeps as int, 2)
            &&& t.g2p_cdf == stage_sum(raw@, num_substeps as int, 3)
            &&& t.p2g == stage_sum(raw@, num_substeps as int, 4)
            &&& t.grid_update == stage_sum(raw@, num_substeps as int, 5)
            &&& t.g2p == stage_sum(raw@, num_substeps as int, 6)
            &&& t.particles_update == stage_sum(raw@, num_substeps as int, 7)
            &&& t.integrate_bodies == stage_sum(raw@, num_substeps as int, 8)
        },
{
    let len = raw.len();
    if num_substeps > usize::MAX / 18 {
        proof {
            assert(num_substeps * 18 > usize::MAX) by (nonlinear_arith)
                requires
                    num_substeps > usize::MAX / 18,
            ;
            assert(raw@.len() <= usize::MAX);
        }
        return None;
    }
    let needed = num_substeps * 18;
    if len < needed {
        return None;
    }
    let grid_sort = match sum_stage(raw, num_substeps, 0) {
        Some(v) => v,
        None => { return None; },
    };
    let grid_update_cdf = match sum_stage(raw, num_substeps, 1) {
        Some(v) => v,
        None => { return None; },
    };
    let p2g_cdf = match sum_stage(raw, num_substeps, 2) {
        Some(v) => v,
        None => { return None; },
    };
    let g2p_cdf = match sum_stage(raw, num_substeps, 3) {
        Some(v) => v,
        None => { return None; },
    };
    let p2g = match sum_stage(raw, num_substeps, 4) {
        Some(v) => v,
        None => { return None; },
    };
    let grid_update = match sum_stage(raw, num_substeps, 5) {
        Some(v) => v,
        None => { return None; },
    };
    let g2p = match sum_stage(raw, num_substeps, 6) {
        Some(v) => v,
        None => { return None; },
    };
    let particles_update = match sum_stage(raw, num_substeps, 7) {
        Some(v) => v,
        None => { return None; },
    };
    let integrate_bodies = match sum_stage(raw, num_substeps, 8) {
        Some(v) => v,
        None => { return None; },
    };
    proof {
        assert forall|stage: int| 0 <= stage < 9 implies #[trigger] stage_ok(
            raw@,
            num_substeps as int,
            stage,
        ) by {}
    }
    Some(
        Timestamps {
            timestamps: Some(query_set),
            grid_sort,
            grid_update_cdf,
            p2g_cdf,
            g2p_cdf,
            p2g,
            grid_update,
            g2p,
            particles_update,
            integrate_bodies,
        },
    )
}

} // verus!
