//! Network-congestion scoring.
//!
//! A monitor loop outside this crate samples an interface's dropped-receive
//! and transmit-error counters on a fixed interval and feeds each sample to
//! [`CongestionMonitor`], which turns the deltas against the previous sample
//! into a bounded score in `[0, 100]`. The counters are monotonic but may
//! wrap or reset, so deltas are computed with saturating subtraction: a
//! counter that moved backwards contributes a delta of zero, never a wrapped
//! value.

use vstd::prelude::*;

verus! {

/// Interface counters read from the networking subsystem.
#[derive(Clone, Copy, Debug, PartialEq, Eq, Structural)]
pub struct NetStats {
    /// Dropped-receive count.
    pub rx_dropped: u64,
    /// Transmit-error count.
    pub tx_errors: u64,
}

impl Default for NetStats {
    /// Zero counters, the baseline before any sample has been read.
    fn default() -> (r: Self)
        ensures
            r.rx_dropped == 0,
            r.tx_errors == 0,
    {
        NetStats { rx_dropped: 0, tx_errors: 0 }
    }
}

/// Sum of the two per-counter saturating deltas, capped at `DELTA_CAP`.
pub const DELTA_CAP: u64 = 500;

/// The congestion score for a sample `stats` taken after `prev_stats`: the
/// per-counter deltas (saturating, so a wrapped counter contributes zero) are
/// summed, capped at [`DELTA_CAP`], and linearly rescaled to `[0, 100]`,
/// rounded to the nearest integer.
pub open spec fn spec_congestion_score(stats: NetStats, prev_stats: NetStats) -> u32 {
    let dropped_delta = stats.rx_dropped.saturating_sub(prev_stats.rx_dropped) as int;
    let errors_delta = stats.tx_errors.saturating_sub(prev_stats.tx_errors) as int;
    let total_delta = if dropped_delta + errors_delta > DELTA_CAP {
        DELTA_CAP as int
    } else {
        dropped_delta + errors_delta
    };
    ((total_delta * 100 + DELTA_CAP / 2) / (DELTA_CAP as int)) as u32
}

/// Derive the bounded congestion score from the current and the previous
/// counter sample.
pub fn calculate_congestion_score(stats: &NetStats, prev_stats: &NetStats) -> (r: u32)
    ensures
        r == spec_congestion_score(*stats, *prev_stats),
        r <= 100,
{
    let dropped_delta = stats.rx_dropped.saturating_sub(prev_stats.rx_dropped);
    let errors_delta = stats.tx_errors.saturating_sub(prev_stats.tx_errors);

    let total_delta = dropped_delta.saturating_add(errors_delta);
    let capped = if total_delta > DELTA_CAP { DELTA_CAP } else { total_delta };

    ((capped * 100 + DELTA_CAP / 2) / DELTA_CAP) as u32
}

/// A counter that moved backwards (wrap or reset) yields a delta of exactly
/// zero for that component, never a negative or wrapped value.
pub proof fn lemma_counter_wrap_zero_delta(stats: NetStats, prev_stats: NetStats)
    ensures
        stats.rx_dropped < prev_stats.rx_dropped ==> stats.rx_dropped.saturating_sub(
            prev_stats.rx_dropped,
        ) == 0,
        stats.tx_errors < prev_stats.tx_errors ==> stats.tx_errors.saturating_sub(
            prev_stats.tx_errors,
        ) == 0,
{
}

/// The congestion score is bounded by 100 for every pair of samples.
pub proof fn lemma_congestion_score_bounded(stats: NetStats, prev_stats: NetStats)
    ensures
        spec_congestion_score(stats, prev_stats) <= 100,
{
}

/// Holds the previous counter sample and publishes one bounded score per new
/// sample. A read failure publishes exactly zero (fail open: assume no
/// congestion rather than stale congestion) and keeps the baseline.
#[derive(Clone, Copy, Debug, PartialEq, Eq, Structural)]
pub struct CongestionMonitor {
    /// The previous sample, against which the next deltas are computed.
    pub prev_stats: NetStats,
}

impl CongestionMonitor {
    /// A monitor whose baseline is all-zero counters.
    pub fn new() -> (r: Self)
        ensures
            r.prev_stats.rx_dropped == 0,
            r.prev_stats.tx_errors == 0,
    {
        CongestionMonitor { prev_stats: NetStats { rx_dropped: 0, tx_errors: 0 } }
    }

    /// Replace the baseline without publishing a score; used for the initial
    /// read, so the first interval is not charged the counters' lifetime
    /// totals.
    pub fn set_baseline(&mut self, stats: NetStats)
        ensures
            final(self).prev_stats == stats,
    {
        self.prev_stats = stats;
    }

    /// Score a successful sample and advance the baseline to it.
    pub fn on_sample(&mut self, stats: NetStats) -> (score: u32)
        ensures
            score == spec_congestion_score(stats, old(self).prev_stats),
            score <= 100,
            final(self).prev_stats == stats,
    {
        let score = calculate_congestion_score(&stats, &self.prev_stats);
        self.prev_stats = stats;
        score
    }

    /// A failed read publishes exactly zero and leaves the baseline alone, so
    /// the next successful sample is scored against the last good one.
    pub fn on_read_failure(&mut self) -> (score: u32)
        ensures
            score == 0,
            final(self).prev_stats == old(self).prev_stats,
    {
        0
    }
}

} // verus!
