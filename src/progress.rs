//! Playback position: a plain snapshot of the three published counters, and
//! the shared, lock-free cells that hold them.
use std::sync::atomic::{AtomicU32, AtomicU64, Ordering};
use std::sync::Arc;
use vstd::prelude::*;

verus! {

/// Sample rate reported while nothing has been loaded yet.
pub const IDLE_SAMPLE_RATE: u32 = 44100;

/// Channel count reported while nothing has been loaded yet.
pub const IDLE_CHANNELS: u32 = 2;

/// One reading of the playback position: interleaved samples handed to the
/// output so far, and the rate and channel count of the loaded source.
#[derive(Clone, Copy, Debug, PartialEq, Eq, Structural)]
pub struct ProgressSnapshot {
    pub samples_played: u64,
    pub sample_rate: u32,
    pub channels: u32,
}

impl ProgressSnapshot {
    /// Interleaved samples per second of playback.
    pub open spec fn per_second(self) -> nat {
        self.sample_rate as nat * self.channels as nat
    }

    /// No source format is known, so no time can be derived.
    pub open spec fn is_unset(self) -> bool {
        self.sample_rate == 0 || self.channels == 0
    }

    /// Elapsed playback time in whole milliseconds, rounded down; zero when
    /// no format is known.
    pub open spec fn millis(self) -> nat {
        if self.is_unset() {
            0
        } else {
            (self.samples_played as nat * 1000) / self.per_second()
        }
    }

    /// Elapsed playback time in whole seconds, rounded down.
    pub open spec fn seconds(self) -> nat {
        if self.is_unset() {
            0
        } else {
            self.samples_played as nat / self.per_second()
        }
    }

    /// The reading before anything has been loaded.
    pub fn idle() -> (r: ProgressSnapshot)
        ensures
            r.samples_played == 0,
            r.sample_rate == IDLE_SAMPLE_RATE,
            r.channels == IDLE_CHANNELS,
    {
        ProgressSnapshot { samples_played: 0, sample_rate: IDLE_SAMPLE_RATE, channels: IDLE_CHANNELS }
    }

    pub fn samples_per_second(&self) -> (r: u64)
        ensures
            r == self.per_second(),
    {
        proof {
            vstd::arithmetic::mul::lemma_mul_upper_bound(
                self.sample_rate as int, u32::MAX as int, self.channels as int, u32::MAX as int);
        }
        assert(u32::MAX as int * u32::MAX as int <= u64::MAX) by (nonlinear_arith);
        self.sample_rate as u64 * self.channels as u64
    }

    /// Elapsed time as the fraction `samples / samples_per_second`, or `None`
    /// while no format is known (the caller then reports zero).
    pub fn elapsed_fraction(&self) -> (r: Option<(u64, u64)>)
        ensures
            r is None <==> self.is_unset(),
            r matches Some((n, d)) ==> n == self.samples_played && d == self.per_second() && d > 0,
    {
        if self.sample_rate == 0 || self.channels == 0 {
            None
        } else {
            let d = self.samples_per_second();
            proof {
                vstd::arithmetic::mul::lemma_mul_strictly_positive(
                    self.sample_rate as int, self.channels as int);
            }
            Some((self.samples_played, d))
        }
    }

    pub fn elapsed_millis(&self) -> (r: u128)
        ensures
            r == self.millis(),
    {
        match self.elapsed_fraction() {
            None => 0,
            Some((n, d)) => {
                assert(n as int * 1000 <= u64::MAX as int * 1000) by (nonlinear_arith)
                    requires n <= u64::MAX;
                (n as u128 * 1000) / d as u128
            },
        }
    }

    pub fn elapsed_seconds(&self) -> (r: u64)
        ensures
            r == self.seconds(),
    {
        match self.elapsed_fraction() {
            None => 0,
            Some((n, d)) => n / d,
        }
    }
}

/// The published position, shared between the worker that writes it, the
/// audio output that counts samples into it, and any reader.
pub struct SharedProgress {
    pub samples_played: Arc<AtomicU64>,
    pub sample_rate: Arc<AtomicU32>,
    pub channels: Arc<AtomicU32>,
}

impl SharedProgress {
    pub fn new() -> (r: SharedProgress) {
        SharedProgress {
            samples_played: Arc::new(AtomicU64::new(0)),
            sample_rate: Arc::new(AtomicU32::new(IDLE_SAMPLE_RATE)),
            channels: Arc::new(AtomicU32::new(IDLE_CHANNELS)),
        }
    }

    /// Reads the three cells. Other threads write them, so nothing is known
    /// of the values beyond their types.
    pub fn snapshot(&self) -> (r: ProgressSnapshot) {
        let samples_played = self.samples_played.load(Ordering::Relaxed);
        let sample_rate = self.sample_rate.load(Ordering::Relaxed);
        let channels = self.channels.load(Ordering::Relaxed);
        ProgressSnapshot { samples_played, sample_rate, channels }
    }

    /// Writes a position decided by the worker.
    pub fn publish(&self, p: ProgressSnapshot) {
        self.sample_rate.store(p.sample_rate, Ordering::Relaxed);
        self.channels.store(p.channels, Ordering::Relaxed);
        self.samples_played.store(p.samples_played, Ordering::Relaxed);
    }
}

/// A pass-through wrapper around a sample stream that counts, in a shared
/// cell, every sample it hands on.
pub struct TimedSource<S> {
    pub inner: S,
    pub samples_played: Arc<AtomicU64>,
}

impl<S> TimedSource<S> {
    pub fn new(inner: S, samples_played: Arc<AtomicU64>) -> (r: TimedSource<S>)
        ensures
            r.inner == inner,
            r.samples_played == samples_played,
    {
        TimedSource { inner, samples_played }
    }

    /// Hands on what the inner stream yielded, unchanged, counting it first
    /// when it is a sample.
    pub fn pass_on<T>(&self, sample: Option<T>) -> (r: Option<T>)
        ensures
            r == sample,
    {
        if sample.is_some() {
            self.samples_played.fetch_add(1, Ordering::Relaxed);
        }
        sample
    }
}

} // verus!
