//! What holds of the gaps that the detector reports, for every stream.

use crate::config::DetectorConfig;
use crate::config::SUPPORTED_SAMPLE_RATE;
use crate::config::WINDOW_SIZE_SAMPLES;
use crate::detector::emits;
use crate::detector::gap_at;
use crate::detector::gaps_of;
use crate::detector::lemma_skip_covers_warm_up;
use crate::detector::skip_after;
use crate::gap::GapInfo;
use vstd::prelude::*;

verus! {

/// Index of the sample that reported `gap`: the last sample of its window.
pub open spec fn reported_at(config: DetectorConfig, gap: GapInfo) -> int {
    gap.start + config.window_size
}

/// Every verdict of the stream is `verdict`.
pub open spec fn constant(flags: Seq<bool>, verdict: bool) -> bool {
    forall|i: int| 0 <= i < flags.len() ==> flags[i] == verdict
}

/// The countdown that is left `elapsed` samples after it was set to `from`.
pub open spec fn counted_down(from: int, elapsed: int) -> int {
    if from > elapsed {
        from - elapsed
    } else {
        0
    }
}

/// The shape of the reported gaps, and how the countdown follows from the
/// last of them.
pub open spec fn shaped(config: DetectorConfig, flags: Seq<bool>) -> bool {
    let gaps = gaps_of(config, flags);
    &&& forall|k: int|
        0 <= k < gaps.len() ==> {
            &&& (#[trigger] gaps[k]).length == config.window_size
            &&& gaps[k].sample_rate == config.sample_rate
            &&& config.warm_up <= reported_at(config, gaps[k]) < flags.len()
            &&& flags[reported_at(config, gaps[k])]
        }
    &&& forall|k: int|
        0 <= k < gaps.len() - 1 ==> {
            &&& (#[trigger] gaps[k]).start < gaps[k + 1].start
            &&& gaps[k + 1].start - gaps[k].start >= config.debounce
        }
    &&& gaps.len() == 0 ==> skip_after(config, flags) == counted_down(
        config.warm_up as int,
        flags.len() as int,
    )
    &&& gaps.len() > 0 ==> skip_after(config, flags) == counted_down(
        config.debounce as int,
        flags.len() - reported_at(config, gaps.last()),
    )
}

/// Every stream's gaps have that shape.
pub proof fn lemma_shaped(config: DetectorConfig, flags: Seq<bool>)
    requires
        config.wf(),
        flags.len() <= usize::MAX,
    ensures
        shaped(config, flags),
    decreases flags.len(),
{
    if flags.len() > 0 {
        let earlier = flags.drop_last();
        lemma_shaped(config, earlier);
        lemma_skip_covers_warm_up(config, earlier);
        let before = gaps_of(config, earlier);
        let gaps = gaps_of(config, flags);
        if emits(config, flags) {
            let last = gap_at(config, flags.len() - 1);
            assert(gaps == before.push(last));
            assert(reported_at(config, last) == flags.len() - 1);
            assert forall|k: int| 0 <= k < gaps.len() implies {
                &&& (#[trigger] gaps[k]).length == config.window_size
                &&& gaps[k].sample_rate == config.sample_rate
                &&& config.warm_up <= reported_at(config, gaps[k]) < flags.len()
                &&& flags[reported_at(config, gaps[k])]
            } by {
                if k < before.len() {
                    assert(gaps[k] == before[k]);
                    assert(flags[reported_at(config, before[k])] == earlier[reported_at(
                        config,
                        before[k],
                    )]);
                }
            }
            assert forall|k: int| 0 <= k < gaps.len() - 1 implies {
                &&& (#[trigger] gaps[k]).start < gaps[k + 1].start
                &&& gaps[k + 1].start - gaps[k].start >= config.debounce
            } by {
                if k + 1 < before.len() {
                    assert(gaps[k] == before[k]);
                    assert(gaps[k + 1] == before[k + 1]);
                } else {
                    assert(gaps[k] == before.last());
                    assert(gaps[k + 1] == last);
                }
            }
        } else {
            assert(gaps == before);
            assert forall|k: int| 0 <= k < gaps.len() implies {
                &&& (#[trigger] gaps[k]).length == config.window_size
                &&& gaps[k].sample_rate == config.sample_rate
                &&& config.warm_up <= reported_at(config, gaps[k]) < flags.len()
                &&& flags[reported_at(config, gaps[k])]
            } by {
                assert(flags[reported_at(config, before[k])] == earlier[reported_at(
                    config,
                    before[k],
                )]);
            }
        }
    }
}

/// Every reported gap is as long as the averaging window, carries the
/// configured sample rate, and was reported by a silent sample after the
/// warm-up period: its window ends at or after the end of the warm-up.
pub proof fn lemma_warm_up_respected(config: DetectorConfig, flags: Seq<bool>, k: int)
    requires
        config.wf(),
        flags.len() <= usize::MAX,
        0 <= k < gaps_of(config, flags).len(),
    ensures
        gaps_of(config, flags)[k].length == config.window_size,
        gaps_of(config, flags)[k].sample_rate == config.sample_rate,
        gaps_of(config, flags)[k].start >= config.warm_up - config.window_size,
        reported_at(config, gaps_of(config, flags)[k]) < flags.len(),
        flags[reported_at(config, gaps_of(config, flags)[k])],
{
    lemma_shaped(config, flags);
}

/// Two gaps reported one after the other start at least a debounce period
/// apart, and the later one starts later: gaps come out in ascending order of
/// `start`.
pub proof fn lemma_debounce_spacing(config: DetectorConfig, flags: Seq<bool>, k: int)
    requires
        config.wf(),
        flags.len() <= usize::MAX,
        0 <= k < gaps_of(config, flags).len() - 1,
    ensures
        gaps_of(config, flags)[k + 1].start - gaps_of(config, flags)[k].start >= config.debounce,
        gaps_of(config, flags)[k].start < gaps_of(config, flags)[k + 1].start,
        GapInfo::distance_at(gaps_of(config, flags), k) >= config.debounce - config.window_size,
{
    lemma_shaped(config, flags);
    lemma_warm_up_respected(config, flags, k);
    lemma_warm_up_respected(config, flags, k + 1);
}

/// A stream that is never silent has no gaps.
pub proof fn lemma_loud_stream_has_no_gaps(config: DetectorConfig, flags: Seq<bool>)
    requires
        constant(flags, false),
    ensures
        gaps_of(config, flags) == Seq::<GapInfo>::empty(),
    decreases flags.len(),
{
    if flags.len() > 0 {
        lemma_loud_stream_has_no_gaps(config, flags.drop_last());
    }
}

/// A stream that is silent throughout and longer than the warm-up period has
/// a gap, and its first gap is the window that ends with the warm-up.
pub proof fn lemma_silent_stream_has_gap(config: DetectorConfig, flags: Seq<bool>)
    requires
        config.wf(),
        constant(flags, true),
        config.warm_up < flags.len() <= usize::MAX,
    ensures
        gaps_of(config, flags).len() >= 1,
        gaps_of(config, flags)[0] == gap_at(config, config.warm_up as int),
    decreases flags.len(),
{
    let earlier = flags.drop_last();
    if flags.len() == config.warm_up + 1 {
        lemma_shaped(config, earlier);
        let before = gaps_of(config, earlier);
        if before.len() > 0 {
            assert(config.warm_up <= reported_at(config, before[0]) < earlier.len());
        }
        assert(emits(config, flags));
    } else {
        lemma_silent_stream_has_gap(config, earlier);
    }
}

/// With the standard configuration, two seconds or more of unbroken silence
/// yield at least one gap, and each gap is one window long and starts no
/// earlier than one window into the stream.
pub proof fn lemma_standard_silence_is_detected(flags: Seq<bool>)
    requires
        constant(flags, true),
        2 * SUPPORTED_SAMPLE_RATE <= flags.len() <= usize::MAX,
    ensures
        gaps_of(DetectorConfig::standard_spec(), flags).len() >= 1,
        forall|k: int|
            0 <= k < gaps_of(DetectorConfig::standard_spec(), flags).len() ==> {
                &&& (#[trigger] gaps_of(DetectorConfig::standard_spec(), flags)[k]).length
                    == WINDOW_SIZE_SAMPLES
                &&& gaps_of(DetectorConfig::standard_spec(), flags)[k].start >= WINDOW_SIZE_SAMPLES
            },
{
    let config = DetectorConfig::standard_spec();
    lemma_silent_stream_has_gap(config, flags);
    lemma_shaped(config, flags);
}

/// With the standard configuration, two gaps reported one after the other
/// start a whole window apart or more, so more than half a window, and their
/// windows do not overlap.
pub proof fn lemma_standard_gaps_are_spaced(flags: Seq<bool>, k: int)
    requires
        flags.len() <= usize::MAX,
        0 <= k < gaps_of(DetectorConfig::standard_spec(), flags).len() - 1,
    ensures
        gaps_of(DetectorConfig::standard_spec(), flags)[k + 1].start - gaps_of(
            DetectorConfig::standard_spec(),
            flags,
        )[k].start >= WINDOW_SIZE_SAMPLES,
        gaps_of(DetectorConfig::standard_spec(), flags)[k + 1].start - gaps_of(
            DetectorConfig::standard_spec(),
            flags,
        )[k].start >= WINDOW_SIZE_SAMPLES / 2,
        GapInfo::distance_at(gaps_of(DetectorConfig::standard_spec(), flags), k) >= 0,
{
    lemma_debounce_spacing(DetectorConfig::standard_spec(), flags, k);
}

} // verus!
