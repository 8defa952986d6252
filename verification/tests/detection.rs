use clear_mind::error::AnalysisError;
use clear_mind::config::DetectorConfig;
use clear_mind::detector::check_sample_rate;
use clear_mind::detector::find_gaps;
use clear_mind::detector::GapDetector;
use clear_mind::gap::GapInfo;

fn small() -> DetectorConfig {
    DetectorConfig { sample_rate: 8, window_size: 4, warm_up: 8, debounce: 4 }
}

fn delivered(verdicts: &[bool]) -> Vec<Result<bool, AnalysisError>> {
    verdicts.iter().map(|verdict| Ok(*verdict)).collect()
}

fn starts(gaps: &[GapInfo]) -> Vec<usize> {
    gaps.iter().map(|gap| gap.start).collect()
}

#[test]
fn two_seconds_of_silence_give_two_gaps() {
    let config = DetectorConfig::standard();
    let silent = delivered(&vec![true; 2 * 44100]);
    let gaps = find_gaps(&config, Some(44100), &silent).unwrap();
    assert_eq!(
        gaps,
        vec![
            GapInfo { start: 22050, length: 22050, sample_rate: 44100 },
            GapInfo { start: 44100, length: 22050, sample_rate: 44100 },
        ]
    );
}

#[test]
fn silence_is_first_reported_right_after_the_warm_up() {
    let config = DetectorConfig::standard();
    assert_eq!(find_gaps(&config, Some(44100), &delivered(&vec![true; 44100])).unwrap(), vec![]);
    assert_eq!(
        find_gaps(&config, Some(44100), &delivered(&vec![true; 44101])).unwrap(),
        vec![GapInfo { start: 22050, length: 22050, sample_rate: 44100 }]
    );
}

#[test]
fn a_loud_stream_has_no_gaps() {
    let config = DetectorConfig::standard();
    assert_eq!(find_gaps(&config, Some(44100), &delivered(&vec![false; 3 * 44100])).unwrap(), vec![]);
}

#[test]
fn an_empty_stream_has_no_gaps() {
    let config = DetectorConfig::standard();
    assert_eq!(find_gaps(&config, Some(44100), &[]).unwrap(), vec![]);
}

#[test]
fn gaps_of_one_silence_are_a_debounce_apart() {
    let config = DetectorConfig::standard();
    let gaps = find_gaps(&config, Some(44100), &delivered(&vec![true; 5 * 44100])).unwrap();
    assert_eq!(starts(&gaps), vec![22050, 44100, 66150, 88200, 110250, 132300, 154350, 176400]);
    for pair in gaps.windows(2) {
        assert!(pair[1].start - pair[0].start >= 22050);
        assert!(pair[1].start - pair[0].start >= 22050 / 2);
    }
    for gap in &gaps {
        assert_eq!(gap.length, 22050);
        assert_eq!(gap.sample_rate, 44100);
        assert!(gap.start >= 22050);
    }
}

#[test]
fn the_countdown_runs_through_loud_samples_too() {
    let config = small();
    // silent at 8 (reported), then loud for three samples, silent again from 12 on
    let mut silent = vec![false; 8];
    silent.extend([true, false, false, false, true, true]);
    let gaps = find_gaps(&config, Some(8), &delivered(&silent)).unwrap();
    assert_eq!(starts(&gaps), vec![4, 8]);
}

#[test]
fn silence_during_the_debounce_is_not_reported() {
    let config = small();
    let mut silent = vec![false; 8];
    // reported at 8; silent at 9, 10, 11 falls into the debounce; loud at 12
    silent.extend([true, true, true, true, false, false, true]);
    let gaps = find_gaps(&config, Some(8), &delivered(&silent)).unwrap();
    assert_eq!(starts(&gaps), vec![4, 10]);
}

#[test]
fn silence_during_the_warm_up_is_not_reported() {
    let config = small();
    let mut silent = vec![true; 8];
    silent.extend([false, false, true]);
    let gaps = find_gaps(&config, Some(8), &delivered(&silent)).unwrap();
    assert_eq!(gaps, vec![GapInfo { start: 6, length: 4, sample_rate: 8 }]);
}

#[test]
fn without_debounce_every_silent_sample_reports() {
    let config = DetectorConfig { sample_rate: 8, window_size: 2, warm_up: 3, debounce: 0 };
    let gaps = find_gaps(&config, Some(8), &delivered(&[true, true, true, true, true, false, true])).unwrap();
    assert_eq!(starts(&gaps), vec![1, 2, 4]);
}

#[test]
fn an_unknown_sample_rate_is_an_error() {
    let config = DetectorConfig::standard();
    assert_eq!(find_gaps(&config, None, &delivered(&[true; 10])), Err(AnalysisError::SampleRateUnavailable));
    assert_eq!(check_sample_rate(&config, None), Err(AnalysisError::SampleRateUnavailable));
    assert!(matches!(GapDetector::for_stream(config, None), Err(AnalysisError::SampleRateUnavailable)));
}

#[test]
fn another_sample_rate_is_an_error() {
    let config = DetectorConfig::standard();
    assert_eq!(find_gaps(&config, Some(48000), &delivered(&[true; 10])), Err(AnalysisError::SampleRateUnsupported));
    assert_eq!(find_gaps(&config, Some(0), &[]), Err(AnalysisError::SampleRateUnsupported));
    assert_eq!(check_sample_rate(&config, Some(22050)), Err(AnalysisError::SampleRateUnsupported));
    assert!(matches!(
        GapDetector::for_stream(config, Some(44101)),
        Err(AnalysisError::SampleRateUnsupported)
    ));
}

#[test]
fn the_configured_sample_rate_is_accepted() {
    let config = DetectorConfig::standard();
    assert_eq!(check_sample_rate(&config, Some(44100)), Ok(()));
    assert_eq!(check_sample_rate(&small(), Some(8)), Ok(()));
    assert!(GapDetector::for_stream(config, Some(44100)).is_ok());
}

#[test]
fn sample_by_sample_gives_what_the_whole_stream_gives() {
    let config = small();
    let silent = [
        false, true, true, true, true, true, true, true, true, true, false, true, true, true, true,
        true, true, false, false, true, true,
    ];
    let mut detector = GapDetector::new(config);
    let mut reported = Vec::new();
    for (index, verdict) in silent.iter().enumerate() {
        assert_eq!(detector.position(), index);
        if let Some(gap) = detector.observe(*verdict) {
            assert_eq!(gap.start, index - 4);
            reported.push(gap);
        }
    }
    assert_eq!(detector.position(), silent.len());
    let gaps = detector.finish();
    assert_eq!(gaps, reported);
    assert_eq!(gaps, find_gaps(&config, Some(8), &delivered(&silent)).unwrap());
    assert_eq!(starts(&gaps), vec![4, 8, 12, 16]);
}

#[test]
fn observe_reports_the_window_that_ends_at_the_sample() {
    let mut detector = GapDetector::new(small());
    for _ in 0..8 {
        assert_eq!(detector.observe(true), None);
    }
    assert_eq!(detector.observe(true), Some(GapInfo { start: 4, length: 4, sample_rate: 8 }));
    assert_eq!(detector.observe(true), None);
    assert_eq!(detector.observe(true), None);
    assert_eq!(detector.observe(true), None);
    assert_eq!(detector.observe(true), Some(GapInfo { start: 8, length: 4, sample_rate: 8 }));
    assert_eq!(detector.observe(false), None);
}

#[test]
fn a_failing_source_fails_the_analysis() {
    let config = small();
    let mut stream = delivered(&[true; 20]);
    assert_eq!(starts(&find_gaps(&config, Some(8), &stream).unwrap()), vec![4, 8, 12]);
    stream[19] = Err(AnalysisError::DecodeError);
    assert_eq!(find_gaps(&config, Some(8), &stream), Err(AnalysisError::DecodeError));
    let stream = [Err(AnalysisError::DecodeError)];
    assert_eq!(find_gaps(&config, Some(8), &stream), Err(AnalysisError::DecodeError));
}

#[test]
fn the_first_failure_is_the_one_reported() {
    let config = small();
    let stream = [
        Ok(true),
        Err(AnalysisError::DecodeError),
        Ok(false),
        Err(AnalysisError::SampleRateUnavailable),
    ];
    assert_eq!(find_gaps(&config, Some(8), &stream), Err(AnalysisError::DecodeError));
    let stream = [Ok(false), Err(AnalysisError::SampleRateUnavailable), Err(AnalysisError::DecodeError)];
    assert_eq!(find_gaps(&config, Some(8), &stream), Err(AnalysisError::SampleRateUnavailable));
}

#[test]
fn the_sample_rate_is_checked_before_the_stream() {
    let config = small();
    let stream = [Err(AnalysisError::DecodeError)];
    assert_eq!(find_gaps(&config, None, &stream), Err(AnalysisError::SampleRateUnavailable));
    assert_eq!(find_gaps(&config, Some(9), &stream), Err(AnalysisError::SampleRateUnsupported));
}
