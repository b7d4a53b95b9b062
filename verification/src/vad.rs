//! The level monitor: when speech starts and when it has ended.
//!
//! Amplitudes are whole numbers, in millionths of full scale; times are in
//! milliseconds.
//!
//! Speech starts when two readings in a row exceed the start threshold; one
//! loud reading between quiet ones starts nothing. Speech has ended when the
//! level has stayed at or below the silence threshold for the silence
//! duration without a break; one reading above it starts the count again.

use vstd::prelude::*;

verus! {

/// How many readings in a row must exceed the start threshold.
pub const DEBOUNCE_TICKS: u32 = 2;

/// The thresholds of the level monitor.
#[derive(Clone, Copy, Debug, PartialEq, Eq, Structural)]
pub struct ThresholdPair {
    /// A reading above this counts towards the start of speech.
    pub start_threshold: u32,
    /// A reading above this breaks a silence.
    pub silence_threshold: u32,
    /// How long a silence must last to end a recording, in milliseconds.
    pub silence_duration_ms: u64,
}

/// One step of the debounce counter: the counter after a reading, and
/// whether the reading starts speech.
pub open spec fn debounce(run: nat, loud: bool) -> (nat, bool) {
    if !loud {
        (0, false)
    } else if run + 1 >= DEBOUNCE_TICKS as nat {
        (0, true)
    } else {
        (run + 1, false)
    }
}

/// The counter after the readings `samples`, taken one by one from a
/// counter at zero.
pub open spec fn run_after(samples: Seq<u32>, threshold: u32) -> nat
    decreases samples.len(),
{
    if samples.len() == 0 {
        0
    } else {
        debounce(run_after(samples.drop_last(), threshold), samples.last() > threshold).0
    }
}

/// Whether the last of the readings `samples` starts speech.
pub open spec fn fires_at_end(samples: Seq<u32>, threshold: u32) -> bool {
    samples.len() > 0 && debounce(
        run_after(samples.drop_last(), threshold),
        samples.last() > threshold,
    ).1
}

/// Whether any of the readings `samples` starts speech.
pub open spec fn fires_within(samples: Seq<u32>, threshold: u32) -> bool
    decreases samples.len(),
{
    samples.len() > 0 && (fires_within(samples.drop_last(), threshold) || fires_at_end(
        samples,
        threshold,
    ))
}

/// Whether the readings at `i` and at `i + 1` both exceed the threshold.
pub open spec fn loud_pair_at(samples: Seq<u32>, threshold: u32, i: int) -> bool {
    0 <= i && i + 1 < samples.len() && samples[i] > threshold && samples[i + 1] > threshold
}

/// Whether two readings in a row exceed the threshold anywhere in
/// `samples`.
pub open spec fn has_loud_pair(samples: Seq<u32>, threshold: u32) -> bool {
    exists|i: int| loud_pair_at(samples, threshold, i)
}

/// The debounce counter of the level monitor.
#[derive(Debug, PartialEq, Eq)]
pub struct SpeechDetector {
    run: u32,
}

impl SpeechDetector {
    /// How many loud readings in a row the detector has seen.
    pub closed spec fn run(&self) -> nat {
        self.run as nat
    }

    /// The counter is below the debounce count.
    pub open spec fn wf(&self) -> bool {
        self.run() < DEBOUNCE_TICKS as nat
    }

    /// A detector that has seen nothing.
    pub fn new() -> (d: Self)
        ensures
            d.wf(),
            d.run() == 0,
    {
        SpeechDetector { run: 0 }
    }

    /// Forgets the readings seen so far.
    pub fn reset(&mut self)
        ensures
            final(self).wf(),
            final(self).run() == 0,
    {
        self.run = 0;
    }

    /// Takes one reading and says whether speech starts with it.
    pub fn observe(&mut self, sample: u32, start_threshold: u32) -> (started: bool)
        requires
            old(self).wf(),
        ensures
            final(self).wf(),
            (final(self).run(), started) == debounce(old(self).run(), sample > start_threshold),
    {
        if sample > start_threshold {
            self.run = self.run + 1;
            if self.run >= DEBOUNCE_TICKS {
                self.run = 0;
                true
            } else {
                false
            }
        } else {
            self.run = 0;
            false
        }
    }
}

/// One reading of the level while recording: the amplitude, and the time
/// that has passed since the reading before.
#[derive(Clone, Copy, Debug, PartialEq, Eq, Structural)]
pub struct Observation {
    pub level: u32,
    pub elapsed_ms: u64,
}

/// One step of the silence timer: the time the level has stayed at or below
/// the threshold, after a reading.
pub open spec fn quiet_step(quiet: nat, observation: Observation, threshold: u32) -> nat {
    if observation.level > threshold {
        0
    } else {
        quiet + observation.elapsed_ms as nat
    }
}

/// The time the level has stayed at or below the threshold at the end of
/// the readings `observations`, taken one by one from a timer at `start`.
pub open spec fn quiet_after(start: nat, observations: Seq<Observation>, threshold: u32) -> nat
    decreases observations.len(),
{
    if observations.len() == 0 {
        start
    } else {
        quiet_step(
            quiet_after(start, observations.drop_last(), threshold),
            observations.last(),
            threshold,
        )
    }
}

/// The time that the readings `observations` cover.
pub open spec fn total_elapsed(observations: Seq<Observation>) -> nat
    decreases observations.len(),
{
    if observations.len() == 0 {
        0
    } else {
        total_elapsed(observations.drop_last()) + observations.last().elapsed_ms as nat
    }
}

/// Whether every one of the readings is at or below the threshold.
pub open spec fn all_quiet(observations: Seq<Observation>, threshold: u32) -> bool {
    forall|i: int| 0 <= i < observations.len() ==> observations[i].level <= threshold
}

/// A time in milliseconds as the timer holds it: exact up to the largest
/// value a `u64` can hold, and that value beyond.
pub open spec fn clamped(ms: nat) -> u64 {
    if ms > u64::MAX as nat {
        u64::MAX
    } else {
        ms as u64
    }
}

/// The silence timer of a recording.
#[derive(Debug, PartialEq, Eq)]
pub struct SilenceTimer {
    threshold: u32,
    quiet_ms: u64,
}

impl SilenceTimer {
    /// The level above which a reading breaks the silence.
    pub closed spec fn threshold(&self) -> u32 {
        self.threshold
    }

    /// The time the level has stayed at or below the threshold.
    pub closed spec fn quiet(&self) -> u64 {
        self.quiet_ms
    }

    /// A timer at zero.
    pub fn new(threshold: u32) -> (t: Self)
        ensures
            t.threshold() == threshold,
            t.quiet() == 0,
    {
        SilenceTimer { threshold, quiet_ms: 0 }
    }

    /// Takes one reading: above the threshold it sets the timer back to
    /// zero, otherwise the time since the reading before is added.
    pub fn observe(&mut self, observation: Observation)
        ensures
            final(self).threshold() == old(self).threshold(),
            final(self).quiet() == clamped(
                quiet_step(old(self).quiet() as nat, observation, old(self).threshold()),
            ),
    {
        if observation.level > self.threshold {
            self.quiet_ms = 0;
        } else {
            self.quiet_ms = self.quiet_ms.saturating_add(observation.elapsed_ms);
        }
    }

    /// Whether a stretch of sound at this level is kept for the recording:
    /// it is, unless its level is below the threshold. With a threshold of
    /// zero everything is kept.
    pub fn keeps(&self, level: u32) -> (kept: bool)
        ensures
            kept == (level >= self.threshold()),
            self.threshold() == 0 ==> kept,
    {
        level >= self.threshold
    }

    /// The time the level has stayed at or below the threshold, in
    /// milliseconds.
    pub fn get_silence_duration(&self) -> (ms: u64)
        ensures
            ms == self.quiet(),
    {
        self.quiet_ms
    }

    /// Whether the silence has lasted for `duration_ms`.
    pub fn is_silent(&self, duration_ms: u64) -> (silent: bool)
        ensures
            silent == speech_ended(self.quiet(), duration_ms),
    {
        self.quiet_ms >= duration_ms
    }
}

/// Whether a silence of `quiet_ms` ends a recording that asks for
/// `duration_ms` of it.
pub open spec fn speech_ended(quiet_ms: u64, duration_ms: u64) -> bool {
    quiet_ms >= duration_ms
}

/// Whether a silence of `quiet_ms` ends a recording that asks for
/// `duration_ms` of it.
pub fn has_speech_ended(quiet_ms: u64, duration_ms: u64) -> (ended: bool)
    ensures
        ended == speech_ended(quiet_ms, duration_ms),
{
    quiet_ms >= duration_ms
}

/// While no reading has started speech, the counter is one after a loud
/// reading and zero otherwise.
proof fn lemma_run_tracks_last(samples: Seq<u32>, threshold: u32)
    requires
        !fires_within(samples, threshold),
    ensures
        run_after(samples, threshold) == if samples.len() > 0 && samples.last() > threshold {
            1nat
        } else {
            0nat
        },
    decreases samples.len(),
{
    if samples.len() > 0 {
        lemma_run_tracks_last(samples.drop_last(), threshold);
    }
}

/// Speech starts somewhere in a run of readings if and only if two
/// readings in a row exceed the start threshold. So one loud reading with
/// quiet readings on both sides starts nothing.
pub proof fn lemma_fires_iff_loud_pair(samples: Seq<u32>, threshold: u32)
    ensures
        fires_within(samples, threshold) <==> has_loud_pair(samples, threshold),
    decreases samples.len(),
{
    if samples.len() == 0 {
        assert(!has_loud_pair(samples, threshold)) by {
            assert forall|i: int| !loud_pair_at(samples, threshold, i) by {}
        }
    } else {
        let front = samples.drop_last();
        let n = samples.len() as int;
        lemma_fires_iff_loud_pair(front, threshold);
        if fires_within(front, threshold) {
            let i = choose|i: int| loud_pair_at(front, threshold, i);
            assert(loud_pair_at(samples, threshold, i));
        } else {
            lemma_run_tracks_last(front, threshold);
            assert forall|i: int| loud_pair_at(samples, threshold, i) implies i == n - 2 by {
                if i < n - 2 {
                    assert(loud_pair_at(front, threshold, i));
                }
            }
            if fires_at_end(samples, threshold) {
                assert(front.len() > 0 && front.last() > threshold);
                assert(loud_pair_at(samples, threshold, n - 2));
            } else {
                if has_loud_pair(samples, threshold) {
                    let i = choose|i: int| loud_pair_at(samples, threshold, i);
                    assert(i == n - 2);
                    assert(front.last() == samples[n - 2]);
                    assert(false);
                }
            }
        }
    }
}

/// The first reading that starts speech is the second of the first two
/// readings in a row that exceed the start threshold: the reading at `k`
/// starts speech, and none before it, if and only if the readings at
/// `k - 1` and `k` are the first such pair.
pub proof fn lemma_first_fire_is_first_loud_pair(samples: Seq<u32>, threshold: u32, k: int)
    requires
        0 <= k < samples.len(),
    ensures
        (!fires_within(samples.take(k), threshold) && fires_at_end(samples.take(k + 1), threshold))
            <==> (loud_pair_at(samples, threshold, k - 1) && !has_loud_pair(
            samples.take(k),
            threshold,
        )),
{
    let upto = samples.take(k + 1);
    let before = samples.take(k);
    assert(upto.drop_last() =~= before);
    assert(upto.last() == samples[k]);
    lemma_fires_iff_loud_pair(before, threshold);
    if !fires_within(before, threshold) {
        lemma_run_tracks_last(before, threshold);
        if k > 0 {
            assert(before.last() == samples[k - 1]);
        }
    }
}

/// What the timer holds after the readings `observations`, taken one by
/// one from a timer that holds `start`.
pub open spec fn timer_after(start: u64, observations: Seq<Observation>, threshold: u32) -> u64
    decreases observations.len(),
{
    if observations.len() == 0 {
        start
    } else {
        clamped(
            quiet_step(
                timer_after(start, observations.drop_last(), threshold) as nat,
                observations.last(),
                threshold,
            ),
        )
    }
}

/// The timer holds the time the level has stayed at or below the
/// threshold, up to the largest value it can hold. So it reports the end of
/// speech if and only if that time has reached the silence duration.
pub proof fn lemma_timer_tracks_quiet_time(
    start: u64,
    observations: Seq<Observation>,
    threshold: u32,
    duration_ms: u64,
)
    ensures
        timer_after(start, observations, threshold) == clamped(
            quiet_after(start as nat, observations, threshold),
        ),
        speech_ended(timer_after(start, observations, threshold), duration_ms) <==> quiet_after(
            start as nat,
            observations,
            threshold,
        ) >= duration_ms,
    decreases observations.len(),
{
    if observations.len() > 0 {
        lemma_timer_tracks_quiet_time(start, observations.drop_last(), threshold, duration_ms);
    }
}

/// A reading above the threshold sets the timer back to zero, whatever it
/// held.
pub proof fn lemma_loud_reading_resets(
    start: nat,
    observations: Seq<Observation>,
    threshold: u32,
)
    requires
        observations.len() > 0,
        observations.last().level > threshold,
    ensures
        quiet_after(start, observations, threshold) == 0,
{
}

/// Over readings that all stay at or below the threshold, the timer grows
/// by the time they cover.
pub proof fn lemma_quiet_readings_add_up(
    start: nat,
    observations: Seq<Observation>,
    threshold: u32,
)
    requires
        all_quiet(observations, threshold),
    ensures
        quiet_after(start, observations, threshold) == start + total_elapsed(observations),
    decreases observations.len(),
{
    if observations.len() > 0 {
        lemma_quiet_readings_add_up(start, observations.drop_last(), threshold);
    }
}

/// The timer depends only on the readings since the last one above the
/// threshold: where the reading at `k - 1` is above it and all from `k` on
/// are not, the timer holds the time that the readings from `k` on cover.
/// So a recording ends if and only if the level has stayed at or below the
/// threshold, without a break, for the silence duration.
pub proof fn lemma_quiet_is_time_since_last_loud(
    start: nat,
    observations: Seq<Observation>,
    threshold: u32,
    k: int,
)
    requires
        0 < k <= observations.len(),
        observations[k - 1].level > threshold,
        all_quiet(observations.skip(k), threshold),
    ensures
        quiet_after(start, observations, threshold) == total_elapsed(observations.skip(k)),
    decreases observations.len() - k,
{
    if k == observations.len() {
        assert(observations.skip(k).len() == 0);
    } else {
        let front = observations.drop_last();
        assert(front.skip(k) =~= observations.skip(k).drop_last());
        assert(observations.skip(k).last() == observations.last());
        assert(all_quiet(front.skip(k), threshold)) by {
            assert forall|i: int| 0 <= i < front.skip(k).len() implies front.skip(k)[i].level
                <= threshold by {
                assert(front.skip(k)[i] == observations.skip(k)[i]);
            }
        }
        assert(observations.skip(k)[observations.len() - 1 - k] == observations.last());
        lemma_quiet_is_time_since_last_loud(start, front, threshold, k);
    }
}

} // verus!
