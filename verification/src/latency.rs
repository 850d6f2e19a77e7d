//! Latency estimation from echo-probe samples.
//!
//! The probes themselves are network work done by the caller; this module
//! owns the arithmetic: samples are averaged per target, targets with no
//! successful sample are excluded, the per-target means are averaged across
//! targets, and a fixed fallback stands in when every target failed.

use vstd::prelude::*;

verus! {

/// The estimate used when no probe of any target succeeded. Latency bias is
/// an optimization, not a correctness requirement, so the run degrades
/// gracefully instead of aborting.
pub const FALLBACK_LATENCY_MS: u64 = 150;

/// Bound on each sample and on each count the estimator accepts; it keeps
/// every intermediate sum inside `u64`.
pub const MAX_SAMPLE_MS: u64 = 0xFFFF_FFFF;

/// Sum of a sequence of samples.
pub open spec fn spec_sum(s: Seq<u64>) -> int
    decreases s.len(),
{
    if s.len() == 0 {
        0
    } else {
        spec_sum(s.drop_last()) + s.last()
    }
}

/// Mean of one target's successful samples (integer milliseconds).
pub open spec fn spec_mean(s: Seq<u64>) -> int
    recommends
        s.len() > 0,
{
    spec_sum(s) / (s.len() as int)
}

/// The per-target means of every target that produced at least one sample,
/// in target order.
pub open spec fn spec_target_means(samples: Seq<Vec<u64>>) -> Seq<int>
    decreases samples.len(),
{
    if samples.len() == 0 {
        Seq::empty()
    } else {
        let rest = spec_target_means(samples.drop_last());
        if samples.last()@.len() > 0 {
            rest.push(spec_mean(samples.last()@))
        } else {
            rest
        }
    }
}

/// Sum of a sequence of mathematical integers.
pub open spec fn spec_int_sum(s: Seq<int>) -> int
    decreases s.len(),
{
    if s.len() == 0 {
        0
    } else {
        spec_int_sum(s.drop_last()) + s.last()
    }
}

/// The cross-target estimate: the mean of the per-target means, or the
/// fallback when no target produced a sample.
pub open spec fn spec_estimate(samples: Seq<Vec<u64>>) -> int {
    let means = spec_target_means(samples);
    if means.len() == 0 {
        FALLBACK_LATENCY_MS as int
    } else {
        spec_int_sum(means) / means.len() as int
    }
}

/// Every sample and every count is within the estimator's bound.
pub open spec fn spec_samples_bounded(samples: Seq<Vec<u64>>) -> bool {
    &&& samples.len() <= MAX_SAMPLE_MS
    &&& forall|i: int|
        0 <= i < samples.len() ==> #[trigger] samples[i]@.len() <= MAX_SAMPLE_MS && forall|j: int|
            0 <= j < samples[i]@.len() ==> #[trigger] samples[i]@[j] <= MAX_SAMPLE_MS
}

/// A sum of bounded samples is bounded by count times the bound.
proof fn lemma_sum_bounded(s: Seq<u64>)
    requires
        forall|j: int| 0 <= j < s.len() ==> #[trigger] s[j] <= MAX_SAMPLE_MS,
    ensures
        0 <= spec_sum(s) <= s.len() * MAX_SAMPLE_MS,
    decreases s.len(),
{
    if s.len() > 0 {
        lemma_sum_bounded(s.drop_last());
        assert((s.len() - 1) * MAX_SAMPLE_MS + MAX_SAMPLE_MS == s.len() * MAX_SAMPLE_MS)
            by (nonlinear_arith);
    }
}

/// Mean of one target's samples; the samples must be bounded.
fn target_mean(samples: &Vec<u64>) -> (r: u64)
    requires
        samples@.len() > 0,
        samples@.len() <= MAX_SAMPLE_MS,
        forall|j: int| 0 <= j < samples@.len() ==> #[trigger] samples@[j] <= MAX_SAMPLE_MS,
    ensures
        r == spec_mean(samples@),
{
    let mut sum: u64 = 0;
    let mut i: usize = 0;
    while i < samples.len()
        invariant
            0 <= i <= samples@.len(),
            samples@.len() <= MAX_SAMPLE_MS,
            forall|j: int| 0 <= j < samples@.len() ==> #[trigger] samples@[j] <= MAX_SAMPLE_MS,
            sum == spec_sum(samples@.subrange(0, i as int)),
            sum <= i * MAX_SAMPLE_MS,
        decreases samples@.len() - i,
    {
        proof {
            assert(i * MAX_SAMPLE_MS + MAX_SAMPLE_MS == (i + 1) * MAX_SAMPLE_MS)
                by (nonlinear_arith);
            assert(i * MAX_SAMPLE_MS <= MAX_SAMPLE_MS * MAX_SAMPLE_MS) by (nonlinear_arith)
                requires
                    0 <= i <= MAX_SAMPLE_MS,
            ;
            assert(samples@.subrange(0, i + 1).drop_last() =~= samples@.subrange(0, i as int));
        }
        sum = sum + samples[i];
        i = i + 1;
    }
    proof {
        assert(samples@.subrange(0, samples@.len() as int) =~= samples@);
    }
    sum / (samples.len() as u64)
}

/// The cross-target latency estimate. Targets without a single successful
/// sample are excluded from the average; when every target failed, the
/// fixed fallback is returned.
pub fn estimate_latency_ms(samples: &Vec<Vec<u64>>) -> (r: u64)
    requires
        spec_samples_bounded(samples@),
    ensures
        r == spec_estimate(samples@),
{
    let mut means: Vec<u64> = Vec::new();
    let mut i: usize = 0;
    while i < samples.len()
        invariant
            0 <= i <= samples@.len(),
            spec_samples_bounded(samples@),
            means@.len() <= i,
            means@.map_values(|m: u64| m as int) =~= spec_target_means(
                samples@.subrange(0, i as int),
            ),
            forall|k: int| 0 <= k < means@.len() ==> #[trigger] means@[k] <= MAX_SAMPLE_MS,
        decreases samples@.len() - i,
    {
        proof {
            assert(samples@.subrange(0, i + 1).drop_last() =~= samples@.subrange(0, i as int));
            assert(samples@.subrange(0, i + 1).last() == samples@[i as int]);
        }
        if samples[i].len() > 0 {
            let m = target_mean(&samples[i]);
            proof {
                let sv = samples@[i as int]@;
                lemma_sum_bounded(sv);
                vstd::arithmetic::div_mod::lemma_div_pos_is_pos(spec_sum(sv), sv.len() as int);
                vstd::arithmetic::div_mod::lemma_div_is_ordered(
                    spec_sum(sv),
                    (sv.len() as int) * MAX_SAMPLE_MS,
                    sv.len() as int,
                );
                vstd::arithmetic::div_mod::lemma_div_multiples_vanish(
                    MAX_SAMPLE_MS as int,
                    sv.len() as int,
                );
            }
            means.push(m);
            proof {
                assert(means@.map_values(|m: u64| m as int) =~= spec_target_means(
                    samples@.subrange(0, i + 1),
                ));
            }
        } else {
            proof {
                assert(means@.map_values(|m: u64| m as int) =~= spec_target_means(
                    samples@.subrange(0, i + 1),
                ));
            }
        }
        i = i + 1;
    }
    proof {
        assert(samples@.subrange(0, samples@.len() as int) =~= samples@);
    }
    if means.len() == 0 {
        FALLBACK_LATENCY_MS
    } else {
        let mut sum: u64 = 0;
        let mut k: usize = 0;
        while k < means.len()
            invariant
                0 <= k <= means@.len(),
                means@.len() <= MAX_SAMPLE_MS,
                forall|j: int| 0 <= j < means@.len() ==> #[trigger] means@[j] <= MAX_SAMPLE_MS,
                sum == spec_int_sum(means@.map_values(|m: u64| m as int).subrange(0, k as int)),
                sum <= k * MAX_SAMPLE_MS,
            decreases means@.len() - k,
        {
            proof {
                let mapped = means@.map_values(|m: u64| m as int);
                assert(k * MAX_SAMPLE_MS + MAX_SAMPLE_MS == (k + 1) * MAX_SAMPLE_MS)
                    by (nonlinear_arith);
                assert(k * MAX_SAMPLE_MS <= MAX_SAMPLE_MS * MAX_SAMPLE_MS) by (nonlinear_arith)
                    requires
                        0 <= k <= MAX_SAMPLE_MS,
                ;
                assert(mapped.subrange(0, k + 1).drop_last() =~= mapped.subrange(0, k as int));
            }
            sum = sum + means[k];
            k = k + 1;
        }
        proof {
            let mapped = means@.map_values(|m: u64| m as int);
            assert(mapped.subrange(0, mapped.len() as int) =~= mapped);
        }
        sum / (means.len() as u64)
    }
}

} // verus!
