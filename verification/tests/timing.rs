//! The additivity law of timestamp aggregation, and its failure modes.

use wgsparkl_step::resources::Timestamps;
use wgsparkl_step::timing::{aggregate_timestamps, STAGE_COUNT};

/// A raw buffer for `num_substeps` substeps where the bracket of stage `k`
/// in substep `i` spans `base .. base + (k + 1) * (i + 1)`.
fn canned_samples(num_substeps: usize) -> Vec<u64> {
    let mut raw = Vec::new();
    for i in 0..num_substeps {
        for k in 0..STAGE_COUNT {
            let base = (1000 * i + 100 * k) as u64;
            raw.push(base);
            raw.push(base + ((k + 1) * (i + 1)) as u64);
        }
    }
    raw
}

/// Sum over substeps of `(k + 1) * (i + 1)`.
fn expected_stage_total(num_substeps: usize, k: usize) -> u64 {
    (0..num_substeps).map(|i| ((k + 1) * (i + 1)) as u64).sum()
}

#[test]
fn aggregate_sums_all_substeps_per_stage() {
    for num_substeps in [1usize, 2, 4, 7, 64] {
        let raw = canned_samples(num_substeps);
        let t = aggregate_timestamps(5u32, &raw, num_substeps).expect("well-formed buffer");
        assert_eq!(t.timestamps, Some(5));
        let fields = [
            t.grid_sort,
            t.grid_update_cdf,
            t.p2g_cdf,
            t.g2p_cdf,
            t.p2g,
            t.grid_update,
            t.g2p,
            t.particles_update,
            t.integrate_bodies,
        ];
        for (k, field) in fields.iter().enumerate() {
            assert_eq!(*field, expected_stage_total(num_substeps, k));
        }
    }
}

#[test]
fn aggregate_exact_values_for_four_substeps() {
    let raw = canned_samples(4);
    let t = aggregate_timestamps(0u32, &raw, 4).unwrap();
    // Stage 0 deltas are 1, 2, 3, 4; stage 8 deltas are 9, 18, 27, 36.
    assert_eq!(t.grid_sort, 10);
    assert_eq!(t.integrate_bodies, 90);
    assert_eq!(t.total_time(), (1 + 2 + 3 + 4 + 5 + 6 + 7 + 8 + 9) * 10);
}

#[test]
fn aggregate_rejects_a_short_buffer() {
    let mut raw = canned_samples(3);
    raw.pop();
    assert!(aggregate_timestamps(0u32, &raw, 3).is_none());
    // The same samples are fine for one substep fewer.
    assert!(aggregate_timestamps(0u32, &raw, 2).is_some());
}

#[test]
fn aggregate_rejects_an_unordered_bracket() {
    let mut raw = canned_samples(2);
    // Swap the start and end of stage 3 in substep 1.
    let idx = 18 + 3 * 2;
    raw.swap(idx, idx + 1);
    assert!(aggregate_timestamps(0u32, &raw, 2).is_none());
}

#[test]
fn aggregate_rejects_an_overflowing_total() {
    let mut raw = canned_samples(2);
    // Both substeps of stage 0 have a delta near u64::MAX.
    raw[0] = 0;
    raw[1] = u64::MAX;
    raw[18] = 0;
    raw[19] = u64::MAX;
    assert!(aggregate_timestamps(0u32, &raw, 2).is_none());
}

#[test]
fn aggregate_accepts_zero_substeps_and_zeroes_every_stage() {
    let raw: Vec<u64> = Vec::new();
    let t = aggregate_timestamps(1u32, &raw, 0).unwrap();
    assert_eq!(t.total_time(), 0);
}

#[test]
fn total_time_sums_every_stage_field() {
    let mut t: Timestamps<u32> = Timestamps::default();
    assert_eq!(t.total_time(), 0);
    t.grid_sort = 1;
    t.grid_update_cdf = 2;
    t.p2g_cdf = 3;
    t.g2p_cdf = 4;
    t.p2g = 5;
    t.grid_update = 6;
    t.g2p = 7;
    t.particles_update = 8;
    t.integrate_bodies = 9;
    assert_eq!(t.total_time(), 45);
    // The widened total cannot overflow even at saturated fields.
    t.grid_sort = u64::MAX;
    t.integrate_bodies = u64::MAX;
    assert_eq!(
        t.total_time(),
        2 * (u64::MAX as u128) + (2 + 3 + 4 + 5 + 6 + 7 + 8)
    );
}
