//! Analysis configuration: the supported sample rate, the averaging window
//! and the warm-up and debounce periods of the gap detector.

use vstd::prelude::*;

verus! {

/// The sample rate the default configuration is computed for (44.1 kHz).
pub const SUPPORTED_SAMPLE_RATE: usize = 44100;

/// Duration of the averaging window in milliseconds.
pub const WINDOW_SIZE_MS: usize = 500;

/// Number of samples that fit in the averaging window at the supported rate.
pub const WINDOW_SIZE_SAMPLES: usize = SUPPORTED_SAMPLE_RATE * WINDOW_SIZE_MS / 1000;

/// A window of `window_ms` milliseconds holds a whole number of samples at
/// `sample_rate`.
pub open spec fn window_is_whole(sample_rate: int, window_ms: int) -> bool {
    (sample_rate * window_ms) % 1000 == 0
}

/// Computes the window size in samples, `sample_rate * window_ms / 1000`. A
/// window that does not hold a whole number of samples is rejected, and so is
/// one too large to be counted.
pub fn window_samples(sample_rate: usize, window_ms: usize) -> (samples: Option<usize>)
    ensures
        samples is Some <==> window_is_whole(sample_rate as int, window_ms as int) && sample_rate
            * window_ms / 1000 <= usize::MAX,
        samples matches Some(n) ==> n == sample_rate * window_ms / 1000,
{
    let rate: u128 = sample_rate as u128;
    let ms: u128 = window_ms as u128;
    assert(rate * ms <= 0xffff_ffff_ffff_ffff * 0xffff_ffff_ffff_ffff) by (nonlinear_arith)
        requires
            0 <= rate <= 0xffff_ffff_ffff_ffff,
            0 <= ms <= 0xffff_ffff_ffff_ffff,
    ;
    let product: u128 = rate * ms;
    if product % 1000 != 0 {
        return None;
    }
    let samples: u128 = product / 1000;
    if samples > usize::MAX as u128 {
        return None;
    }
    Some(samples as usize)
}

/// The parameters of the gap detector, all counted in samples.
#[derive(Debug, Clone, Copy, PartialEq, Eq, Structural)]
pub struct DetectorConfig {
    /// Samples per second of the stream the other values were computed for.
    pub sample_rate: usize,
    /// Size of the averaging window; also the `length` of every gap.
    pub window_size: usize,
    /// Number of leading samples that are never flagged.
    pub warm_up: usize,
    /// Number of samples after a detection during which no other is reported.
    pub debounce: usize,
}

impl DetectorConfig {
    /// A usable configuration has a non-empty window that fits inside the
    /// warm-up period, so that no gap starts before the stream does.
    pub open spec fn wf(&self) -> bool {
        0 < self.window_size <= self.warm_up
    }

    /// The configuration derived from a stream's sample rate: a window of
    /// half a second, a warm-up of one second and a debounce of half a second.
    pub open spec fn for_rate_spec(sample_rate: usize) -> Option<DetectorConfig> {
        if sample_rate > 0 && window_is_whole(sample_rate as int, WINDOW_SIZE_MS as int) {
            Some(
                DetectorConfig {
                    sample_rate,
                    window_size: (sample_rate * WINDOW_SIZE_MS / 1000) as usize,
                    warm_up: sample_rate,
                    debounce: sample_rate / 2,
                },
            )
        } else {
            None
        }
    }

    /// The configuration for 44.1 kHz audio.
    pub open spec fn standard_spec() -> DetectorConfig {
        DetectorConfig {
            sample_rate: SUPPORTED_SAMPLE_RATE,
            window_size: WINDOW_SIZE_SAMPLES,
            warm_up: SUPPORTED_SAMPLE_RATE,
            debounce: SUPPORTED_SAMPLE_RATE / 2,
        }
    }

    /// Tells whether the configuration is usable.
    pub fn is_valid(&self) -> (valid: bool)
        ensures
            valid == self.wf(),
    {
        0 < self.window_size && self.window_size <= self.warm_up
    }

    /// Derives the configuration for a sample rate. Fails when the rate is
    /// zero or the window would not hold a whole number of samples.
    pub fn for_rate(sample_rate: usize) -> (config: Option<DetectorConfig>)
        ensures
            config == Self::for_rate_spec(sample_rate),
            config matches Some(c) ==> c.wf(),
    {
        if sample_rate == 0 {
            return None;
        }
        match window_samples(sample_rate, WINDOW_SIZE_MS) {
            Some(window_size) => Some(
                DetectorConfig {
                    sample_rate,
                    window_size,
                    warm_up: sample_rate,
                    debounce: sample_rate / 2,
                },
            ),
            None => None,
        }
    }

    /// The configuration for 44.1 kHz audio: a window of 22050 samples, no
    /// detection during the first 44100 samples, and at least 22050 samples
    /// between two detections.
    pub fn standard() -> (config: DetectorConfig)
        ensures
            config == Self::standard_spec(),
            Self::for_rate_spec(SUPPORTED_SAMPLE_RATE) == Some(config),
            config.wf(),
            config.window_size == 22050,
            config.warm_up == 44100,
            config.debounce == 22050,
    {
        DetectorConfig {
            sample_rate: SUPPORTED_SAMPLE_RATE,
            window_size: WINDOW_SIZE_SAMPLES,
            warm_up: SUPPORTED_SAMPLE_RATE,
            debounce: SUPPORTED_SAMPLE_RATE / 2,
        }
    }
}

} // verus!
