//! Deriving the two thresholds of the level monitor from what the
//! microphone hears: the silence threshold is the loudest reading of a
//! quiet room, the start threshold the mean reading of deliberate speech.
//!
//! Amplitudes are whole numbers, in millionths of full scale. The mean is
//! rounded down to a whole number.

use vstd::prelude::*;

verus! {

/// How long the silence phase lasts, in milliseconds.
pub const SILENCE_PHASE_MS: u64 = 2000;

/// The largest of the readings, or zero where there is none.
pub open spec fn max_of(samples: Seq<u32>) -> u32
    decreases samples.len(),
{
    if samples.len() == 0 {
        0
    } else {
        let rest = max_of(samples.drop_last());
        if samples.last() > rest {
            samples.last()
        } else {
            rest
        }
    }
}

/// The sum of the readings.
pub open spec fn sum_of(samples: Seq<u32>) -> nat
    decreases samples.len(),
{
    if samples.len() == 0 {
        0
    } else {
        sum_of(samples.drop_last()) + samples.last() as nat
    }
}

/// The mean of the readings, rounded down, or nothing where there is no
/// reading.
pub open spec fn mean_of(samples: Seq<u32>) -> Option<u32> {
    if samples.len() == 0 {
        None
    } else {
        Some((sum_of(samples) / samples.len()) as u32)
    }
}

/// The largest reading is no smaller than any reading, and is one of them
/// unless there is none.
pub proof fn lemma_max_is_greatest(samples: Seq<u32>)
    ensures
        forall|i: int| 0 <= i < samples.len() ==> samples[i] <= max_of(samples),
        samples.len() > 0 ==> exists|i: int| 0 <= i < samples.len() && samples[i] == max_of(samples),
    decreases samples.len(),
{
    if samples.len() > 0 {
        let front = samples.drop_last();
        lemma_max_is_greatest(front);
        assert forall|i: int| 0 <= i < samples.len() implies samples[i] <= max_of(samples) by {
            if i < front.len() {
                assert(front[i] == samples[i]);
            }
        }
        if samples.last() > max_of(front) || front.len() == 0 {
            assert(samples[samples.len() - 1] == max_of(samples));
        } else {
            let i = choose|i: int| 0 <= i < front.len() && front[i] == max_of(front);
            assert(samples[i] == max_of(samples));
        }
    }
}

/// The sum of the readings is at most their number times the largest
/// amplitude there is.
pub proof fn lemma_sum_bound(samples: Seq<u32>)
    ensures
        sum_of(samples) <= samples.len() * (u32::MAX as nat),
    decreases samples.len(),
{
    if samples.len() > 0 {
        lemma_sum_bound(samples.drop_last());
        assert((samples.len() - 1) * (u32::MAX as nat) + (u32::MAX as nat) == samples.len() * (
        u32::MAX as nat)) by (nonlinear_arith);
    }
}

/// The mean is the sum of the readings divided by their number, rounded
/// down, and is no larger than the largest reading.
pub proof fn lemma_mean_at_most_max(samples: Seq<u32>)
    requires
        samples.len() > 0,
    ensures
        sum_of(samples) / samples.len() <= max_of(samples),
        mean_of(samples) matches Some(m) && m as nat == sum_of(samples) / samples.len() && m
            <= max_of(samples),
{
    lemma_sum_at_most_len_times_max(samples);
    let n = samples.len();
    let m = max_of(samples) as nat;
    let s = sum_of(samples);
    assert(s / n <= m) by (nonlinear_arith)
        requires
            n > 0,
            s <= n * m,
    ;
}

proof fn lemma_sum_at_most_len_times_max(samples: Seq<u32>)
    ensures
        sum_of(samples) <= samples.len() * (max_of(samples) as nat),
    decreases samples.len(),
{
    if samples.len() > 0 {
        let front = samples.drop_last();
        lemma_sum_at_most_len_times_max(front);
        let a = front.len();
        let mf = max_of(front) as nat;
        let m = max_of(samples) as nat;
        let l = samples.last() as nat;
        assert(a * mf + l <= (a + 1) * m) by (nonlinear_arith)
            requires
                mf <= m,
                l <= m,
        ;
    }
}

/// The largest of the readings, or zero where there is none.
pub fn loudest(samples: &Vec<u32>) -> (max: u32)
    ensures
        max == max_of(samples@),
{
    let mut max: u32 = 0;
    let mut i: usize = 0;
    while i < samples.len()
        invariant
            i <= samples.len(),
            max == max_of(samples@.take(i as int)),
        decreases samples.len() - i,
    {
        assert(samples@.take(i + 1).drop_last() =~= samples@.take(i as int));
        if samples[i] > max {
            max = samples[i];
        }
        i += 1;
    }
    assert(samples@.take(i as int) =~= samples@);
    max
}

/// The mean of the readings, rounded down, or nothing where there is no
/// reading.
pub fn mean(samples: &Vec<u32>) -> (mean: Option<u32>)
    ensures
        mean == mean_of(samples@),
{
    if samples.len() == 0 {
        return None;
    }
    let mut sum: u128 = 0;
    let mut i: usize = 0;
    while i < samples.len()
        invariant
            i <= samples.len(),
            sum == sum_of(samples@.take(i as int)),
        decreases samples.len() - i,
    {
        assert(samples@.take(i + 1).drop_last() =~= samples@.take(i as int));
        proof {
            lemma_sum_bound(samples@.take(i as int));
            assert(i * (u32::MAX as nat) <= (usize::MAX as nat) * (u32::MAX as nat))
                by (nonlinear_arith)
                requires
                    i <= usize::MAX,
            ;
            assert((usize::MAX as nat) * (u32::MAX as nat) <= 0xffff_ffff_ffff_ffff
                * 0xffff_ffff) by (nonlinear_arith)
                requires
                    usize::MAX <= 0xffff_ffff_ffff_ffff,
                    u32::MAX == 0xffff_ffff,
            ;
        }
        sum = sum + samples[i] as u128;
        i += 1;
    }
    assert(samples@.take(i as int) =~= samples@);
    proof {
        lemma_mean_at_most_max(samples@);
    }
    let mean = sum / (samples.len() as u128);
    Some(mean as u32)
}

/// The thresholds that the silence phase leaves: the silence threshold
/// becomes the loudest reading of the phase.
pub open spec fn after_silence_phase(
    thresholds: crate::vad::ThresholdPair,
    samples: Seq<u32>,
) -> crate::vad::ThresholdPair {
    crate::vad::ThresholdPair { silence_threshold: max_of(samples), ..thresholds }
}

/// The thresholds that the voice phase leaves: the start threshold becomes
/// the mean reading of the phase; where the phase took no reading, it stays
/// as it was.
pub open spec fn after_voice_phase(
    thresholds: crate::vad::ThresholdPair,
    samples: Seq<u32>,
) -> crate::vad::ThresholdPair {
    match mean_of(samples) {
        Some(mean) => crate::vad::ThresholdPair { start_threshold: mean, ..thresholds },
        None => thresholds,
    }
}

/// Ends the silence phase: the thresholds with the silence threshold set
/// from the readings of the phase.
pub fn finish_silence_phase(
    thresholds: crate::vad::ThresholdPair,
    samples: &Vec<u32>,
) -> (r: crate::vad::ThresholdPair)
    ensures
        r == after_silence_phase(thresholds, samples@),
{
    crate::vad::ThresholdPair {
        start_threshold: thresholds.start_threshold,
        silence_threshold: loudest(samples),
        silence_duration_ms: thresholds.silence_duration_ms,
    }
}

/// Ends the voice phase: the thresholds with the start threshold set from
/// the readings of the phase, or unchanged where there is no reading.
pub fn finish_voice_phase(
    thresholds: crate::vad::ThresholdPair,
    samples: &Vec<u32>,
) -> (r: crate::vad::ThresholdPair)
    ensures
        r == after_voice_phase(thresholds, samples@),
{
    match mean(samples) {
        Some(mean) => crate::vad::ThresholdPair {
            start_threshold: mean,
            silence_threshold: thresholds.silence_threshold,
            silence_duration_ms: thresholds.silence_duration_ms,
        },
        None => thresholds,
    }
}

} // verus!
