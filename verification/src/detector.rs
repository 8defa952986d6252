//! The gap detector: a threshold-and-debounce state machine over the stream
//! of per-sample silence verdicts.
//!
//! The caller smooths the signal's power over the averaging window and tells
//! the detector, sample by sample, whether the smoothed amplitude is below
//! the silence threshold. The detector decides which of those samples report
//! a gap.

use crate::error::AnalysisError;
use crate::config::DetectorConfig;
use crate::gap::GapInfo;
use vstd::prelude::*;

verus! {

/// The countdown after one more sample: a silent sample seen at zero re-arms
/// it with the debounce period, and every sample then takes one off, down to
/// zero.
pub open spec fn next_skip(config: DetectorConfig, skip: nat, silent: bool) -> nat {
    let armed = if silent && skip == 0 {
        config.debounce as nat
    } else {
        skip
    };
    if armed == 0 {
        0
    } else {
        (armed - 1) as nat
    }
}

/// The countdown after all of `flags` has been seen. It starts at the warm-up
/// period.
pub open spec fn skip_after(config: DetectorConfig, flags: Seq<bool>) -> nat
    decreases flags.len(),
{
    if flags.len() == 0 {
        config.warm_up as nat
    } else {
        next_skip(config, skip_after(config, flags.drop_last()), flags.last())
    }
}

/// The last sample of `flags` reports a gap: it is silent and the countdown
/// had run out before it.
pub open spec fn emits(config: DetectorConfig, flags: Seq<bool>) -> bool {
    flags.len() > 0 && flags.last() && skip_after(config, flags.drop_last()) == 0
}

/// The gap reported by the sample at `index`: the window that ends there.
pub open spec fn gap_at(config: DetectorConfig, index: int) -> GapInfo {
    GapInfo {
        start: (index - config.window_size) as usize,
        length: config.window_size,
        sample_rate: config.sample_rate,
    }
}

/// What the last sample of `flags` reports.
pub open spec fn emitted(config: DetectorConfig, flags: Seq<bool>) -> Option<GapInfo> {
    if emits(config, flags) {
        Some(gap_at(config, flags.len() - 1))
    } else {
        None
    }
}

/// All gaps reported over `flags`, in stream order.
pub open spec fn gaps_of(config: DetectorConfig, flags: Seq<bool>) -> Seq<GapInfo>
    decreases flags.len(),
{
    if flags.len() == 0 {
        Seq::empty()
    } else if emits(config, flags) {
        gaps_of(config, flags.drop_last()).push(gap_at(config, flags.len() - 1))
    } else {
        gaps_of(config, flags.drop_last())
    }
}

/// No gap is reported before the warm-up period is over: while the countdown
/// has not run out, it still covers the rest of the warm-up.
pub proof fn lemma_skip_covers_warm_up(config: DetectorConfig, flags: Seq<bool>)
    ensures
        skip_after(config, flags) + flags.len() >= config.warm_up,
        skip_after(config, flags) <= config.warm_up || skip_after(config, flags) <= config.debounce,
    decreases flags.len(),
{
    if flags.len() > 0 {
        lemma_skip_covers_warm_up(config, flags.drop_last());
    }
}

/// A gap detector in the middle of a stream.
///
/// Its view is the sequence of silence verdicts it has been given so far;
/// everything else it holds is a function of that sequence.
pub struct GapDetector {
    config: DetectorConfig,
    skip_remaining: usize,
    position: usize,
    gaps: Vec<GapInfo>,
    seen: Ghost<Seq<bool>>,
}

impl View for GapDetector {
    type V = Seq<bool>;

    closed spec fn view(&self) -> Seq<bool> {
        self.seen@
    }
}

impl GapDetector {
    /// The configuration the detector was made with.
    pub closed spec fn config(&self) -> DetectorConfig {
        self.config
    }

    /// The gaps reported so far.
    pub closed spec fn reported(&self) -> Seq<GapInfo> {
        self.gaps@
    }

    /// The detector's state agrees with the verdicts it has seen.
    pub closed spec fn wf(&self) -> bool {
        &&& self.config.wf()
        &&& self.position == self.seen@.len()
        &&& self.skip_remaining == skip_after(self.config, self.seen@)
        &&& self.gaps@ == gaps_of(self.config, self.seen@)
    }

    /// In a well-formed detector the reported gaps are those of the verdicts
    /// seen.
    pub proof fn lemma_reported(&self)
        requires
            self.wf(),
        ensures
            self.config().wf(),
            self.reported() == gaps_of(self.config(), self@),
    {
    }

    /// A detector at the start of a stream.
    pub fn new(config: DetectorConfig) -> (detector: GapDetector)
        requires
            config.wf(),
        ensures
            detector.wf(),
            detector.config() == config,
            detector@ == Seq::<bool>::empty(),
    {
        GapDetector {
            config,
            skip_remaining: config.warm_up,
            position: 0,
            gaps: Vec::new(),
            seen: Ghost(Seq::empty()),
        }
    }

    /// A detector for a stream whose source reports `sample_rate`. The rate
    /// must be known and must be the one the configuration was computed for.
    pub fn for_stream(config: DetectorConfig, sample_rate: Option<u32>) -> (detector: Result<
        GapDetector,
        AnalysisError,
    >)
        requires
            config.wf(),
        ensures
            detector is Ok <==> rate_verdict(config, sample_rate) is None,
            detector matches Err(error) ==> rate_verdict(config, sample_rate) == Some(error),
            detector matches Ok(d) ==> d.wf() && d.config() == config && d@ == Seq::<bool>::empty(),
    {
        match check_sample_rate(&config, sample_rate) {
            Err(error) => Err(error),
            Ok(()) => Ok(GapDetector::new(config)),
        }
    }

    /// Number of samples seen so far.
    pub fn position(&self) -> (position: usize)
        requires
            self.wf(),
        ensures
            position == self@.len(),
    {
        self.position
    }

    /// Takes the verdict on the next sample: `silent` says whether the
    /// smoothed amplitude at that sample is below the threshold. Returns the
    /// gap that the sample reports, if it reports one.
    pub fn observe(&mut self, silent: bool) -> (gap: Option<GapInfo>)
        requires
            old(self).wf(),
            old(self)@.len() < usize::MAX,
        ensures
            final(self).wf(),
            final(self).config() == old(self).config(),
            final(self)@ == old(self)@.push(silent),
            gap == emitted(old(self).config(), old(self)@.push(silent)),
            final(self).reported() == (match gap {
                Some(g) => old(self).reported().push(g),
                None => old(self).reported(),
            }),
    {
        let ghost before = self.seen@;
        let ghost after = before.push(silent);
        proof {
            assert(after.drop_last() =~= before);
            lemma_skip_covers_warm_up(self.config, before);
        }
        let mut gap: Option<GapInfo> = None;
        if silent && self.skip_remaining == 0 {
            let found = GapInfo {
                start: self.position - self.config.window_size,
                length: self.config.window_size,
                sample_rate: self.config.sample_rate,
            };
            self.gaps.push(found);
            self.skip_remaining = self.config.debounce;
            gap = Some(found);
        }
        if self.skip_remaining > 0 {
            self.skip_remaining = self.skip_remaining - 1;
        }
        self.position = self.position + 1;
        self.seen = Ghost(after);
        gap
    }

    /// Ends the analysis and hands out the gaps reported over the whole
    /// stream, in stream order.
    pub fn finish(self) -> (gaps: Vec<GapInfo>)
        requires
            self.wf(),
        ensures
            gaps@ == gaps_of(self.config(), self@),
    {
        self.gaps
    }
}

/// The objection, if any, to analysing a stream whose source reports
/// `sample_rate` with `config`.
pub open spec fn rate_verdict(config: DetectorConfig, sample_rate: Option<u32>) -> Option<
    AnalysisError,
> {
    match sample_rate {
        None => Some(AnalysisError::SampleRateUnavailable),
        Some(rate) => if rate == config.sample_rate {
            None
        } else {
            Some(AnalysisError::SampleRateUnsupported)
        },
    }
}

/// Checks the sample rate that the source reports against the configuration.
pub fn check_sample_rate(config: &DetectorConfig, sample_rate: Option<u32>) -> (checked: Result<
    (),
    AnalysisError,
>)
    ensures
        checked is Ok <==> rate_verdict(*config, sample_rate) is None,
        checked matches Err(error) ==> rate_verdict(*config, sample_rate) == Some(error),
{
    match sample_rate {
        None => Err(AnalysisError::SampleRateUnavailable),
        Some(rate) => if rate as usize == config.sample_rate {
            Ok(())
        } else {
            Err(AnalysisError::SampleRateUnsupported)
        },
    }
}

/// The source delivered the sample at `k` and all before it.
pub open spec fn delivered_through(stream: Seq<Result<bool, AnalysisError>>, k: int) -> bool {
    forall|j: int| 0 <= j <= k && j < stream.len() ==> (#[trigger] stream[j]) is Ok
}

/// The source failed for the first time at `k`.
pub open spec fn fails_at(stream: Seq<Result<bool, AnalysisError>>, k: int) -> bool {
    0 <= k < stream.len() && stream[k] is Err && delivered_through(stream, k - 1)
}

/// The silence verdicts that a stream carries, sample by sample.
pub open spec fn verdicts(stream: Seq<Result<bool, AnalysisError>>) -> Seq<bool> {
    Seq::new(stream.len(), |i: int| stream[i] == Ok::<bool, AnalysisError>(true))
}

/// Analyses a whole stream at once. `sample_rate` is what the source reports.
/// `stream[i]` is what the source delivered as sample `i`: either the verdict
/// whether the smoothed amplitude there is below the threshold, or the error
/// that ended the decoding.
///
/// Returns every gap of the stream, in stream order. An unknown or
/// unsupported sample rate is reported before the stream is looked at. The
/// first failure of the source fails the analysis; no part of the gap list is
/// returned then.
pub fn find_gaps(
    config: &DetectorConfig,
    sample_rate: Option<u32>,
    stream: &[Result<bool, AnalysisError>],
) -> (found: Result<Vec<GapInfo>, AnalysisError>)
    requires
        config.wf(),
    ensures
        found is Ok <==> rate_verdict(*config, sample_rate) is None && delivered_through(
            stream@,
            stream@.len() - 1,
        ),
        found matches Ok(gaps) ==> gaps@ == gaps_of(*config, verdicts(stream@)),
        rate_verdict(*config, sample_rate) matches Some(error) ==> found == Err::<
            Vec<GapInfo>,
            AnalysisError,
        >(error),
        rate_verdict(*config, sample_rate) is None ==> forall|k: int| #[trigger]
            fails_at(stream@, k) ==> found == Err::<Vec<GapInfo>, AnalysisError>(
                stream@[k]->Err_0,
            ),
{
    let mut detector = match GapDetector::for_stream(*config, sample_rate) {
        Err(error) => {
            return Err(error);
        },
        Ok(detector) => detector,
    };
    let mut i: usize = 0;
    while i < stream.len()
        invariant
            0 <= i <= stream@.len(),
            rate_verdict(*config, sample_rate) is None,
            detector.wf(),
            detector.config() == *config,
            detector@ == verdicts(stream@).take(i as int),
            delivered_through(stream@, i - 1),
        decreases stream@.len() - i,
    {
        match stream[i] {
            Ok(silent) => {
                detector.observe(silent);
                proof {
                    assert(verdicts(stream@).take(i as int).push(silent) =~= verdicts(
                        stream@,
                    ).take(i + 1));
                }
            },
            Err(error) => {
                assert forall|k: int| #[trigger] fails_at(stream@, k) implies k == i by {
                    if k < i {
                        assert(stream@[k] is Ok);
                    } else if i < k {
                        assert(stream@[i as int] is Ok);
                    }
                }
                assert(!(stream@[i as int] is Ok));
                return Err(error);
            },
        }
        i += 1;
    }
    proof {
        assert(verdicts(stream@).take(i as int) =~= verdicts(stream@));
    }
    Ok(detector.finish())
}

} // verus!
