use clear_mind::config::window_samples;
use clear_mind::config::DetectorConfig;
use clear_mind::config::SUPPORTED_SAMPLE_RATE;
use clear_mind::config::WINDOW_SIZE_MS;
use clear_mind::config::WINDOW_SIZE_SAMPLES;

#[test]
fn the_constants_are_those_of_cd_audio() {
    assert_eq!(SUPPORTED_SAMPLE_RATE, 44100);
    assert_eq!(WINDOW_SIZE_MS, 500);
    assert_eq!(WINDOW_SIZE_SAMPLES, 22050);
}

#[test]
fn half_a_second_of_cd_audio_is_22050_samples() {
    assert_eq!(window_samples(44100, 500), Some(22050));
}

#[test]
fn window_sizes_of_other_rates() {
    assert_eq!(window_samples(48000, 500), Some(24000));
    assert_eq!(window_samples(8000, 125), Some(1000));
    assert_eq!(window_samples(1000, 1), Some(1));
    assert_eq!(window_samples(0, 500), Some(0));
    assert_eq!(window_samples(44100, 0), Some(0));
}

#[test]
fn a_window_of_broken_samples_is_rejected() {
    assert_eq!(window_samples(44101, 500), None);
    assert_eq!(window_samples(44100, 1), None);
    assert_eq!(window_samples(999, 1), None);
}

#[test]
fn a_window_too_large_to_count_is_rejected() {
    assert_eq!(window_samples(usize::MAX - usize::MAX % 1000, 1000), Some(usize::MAX - usize::MAX % 1000));
    assert_eq!(window_samples(usize::MAX - usize::MAX % 1000, 2000), None);
    assert_eq!(window_samples(usize::MAX, usize::MAX), None);
}

#[test]
fn the_standard_configuration() {
    let config = DetectorConfig::standard();
    assert_eq!(
        config,
        DetectorConfig { sample_rate: 44100, window_size: 22050, warm_up: 44100, debounce: 22050 }
    );
    assert!(config.is_valid());
    assert_eq!(DetectorConfig::for_rate(44100), Some(config));
}

#[test]
fn the_configuration_follows_the_rate() {
    assert_eq!(
        DetectorConfig::for_rate(48000),
        Some(DetectorConfig { sample_rate: 48000, window_size: 24000, warm_up: 48000, debounce: 24000 })
    );
    assert_eq!(
        DetectorConfig::for_rate(2),
        Some(DetectorConfig { sample_rate: 2, window_size: 1, warm_up: 2, debounce: 1 })
    );
}

#[test]
fn no_configuration_for_an_odd_or_zero_rate() {
    assert_eq!(DetectorConfig::for_rate(0), None);
    assert_eq!(DetectorConfig::for_rate(1), None);
    assert_eq!(DetectorConfig::for_rate(11025), None);
}

#[test]
fn validity_of_a_configuration() {
    let valid = DetectorConfig { sample_rate: 10, window_size: 4, warm_up: 4, debounce: 0 };
    assert!(valid.is_valid());
    let empty_window = DetectorConfig { sample_rate: 10, window_size: 0, warm_up: 4, debounce: 0 };
    assert!(!empty_window.is_valid());
    let short_warm_up = DetectorConfig { sample_rate: 10, window_size: 5, warm_up: 4, debounce: 0 };
    assert!(!short_warm_up.is_valid());
}
