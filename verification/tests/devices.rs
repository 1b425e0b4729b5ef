use rustcertation::sound_proxy::is_input_device;
use rustcertation::sound_proxy::plan_stream;
use rustcertation::sound_proxy::preferred_config;
use rustcertation::sound_proxy::ConfigRange;
use rustcertation::sound_proxy::SelectError;
use rustcertation::sound_proxy::StreamPlan;
use rustcertation::sound_proxy::MAX_INPUT_CHANNELS;
use rustcertation::sound_proxy::TARGET_SAMPLE_RATE;

fn config(channels: u16, min_sample_rate: u32, max_sample_rate: u32) -> ConfigRange {
    ConfigRange { channels, min_sample_rate, max_sample_rate }
}

#[test]
fn capture_constants() {
    assert_eq!(MAX_INPUT_CHANNELS, 2);
    assert_eq!(TARGET_SAMPLE_RATE, 44100);
}

#[test]
fn config_of_up_to_two_channels_is_usable() {
    assert!(config(0, 8000, 48000).is_usable());
    assert!(config(1, 8000, 48000).is_usable());
    assert!(config(2, 8000, 48000).is_usable());
    assert!(!config(3, 8000, 48000).is_usable());
    assert!(!config(8, 8000, 48000).is_usable());
}

#[test]
fn config_supports_the_rates_within_its_bounds() {
    let range = config(2, 44100, 48000);
    assert!(range.supports(44100));
    assert!(range.supports(48000));
    assert!(range.supports(45000));
    assert!(!range.supports(44099));
    assert!(!range.supports(48001));
}

#[test]
fn device_with_a_usable_config_is_kept() {
    assert!(is_input_device(&vec![config(8, 1, 2), config(2, 1, 2)]));
    assert!(is_input_device(&vec![config(1, 1, 2)]));
}

#[test]
fn device_without_a_usable_config_is_left_out() {
    assert!(!is_input_device(&vec![]));
    assert!(!is_input_device(&vec![config(4, 1, 2), config(6, 1, 2)]));
}

#[test]
fn preferred_config_has_the_most_channels_of_the_usable() {
    let configs = vec![
        config(1, 8000, 48000),
        config(6, 8000, 48000),
        config(2, 8000, 48000),
        config(4, 8000, 48000),
    ];
    assert_eq!(preferred_config(&configs), Some(2));
}

#[test]
fn preferred_config_is_the_first_among_equals() {
    let configs = vec![
        config(3, 8000, 48000),
        config(2, 8000, 16000),
        config(1, 8000, 48000),
        config(2, 8000, 48000),
    ];
    assert_eq!(preferred_config(&configs), Some(1));
}

#[test]
fn preferred_config_of_mono_only() {
    let configs = vec![config(1, 8000, 48000), config(1, 8000, 96000)];
    assert_eq!(preferred_config(&configs), Some(0));
}

#[test]
fn preferred_config_is_none_without_a_usable_one() {
    assert_eq!(preferred_config(&vec![]), None);
    assert_eq!(preferred_config(&vec![config(3, 1, 2), config(5, 1, 2)]), None);
}

#[test]
fn plan_asks_for_the_target_rate() {
    let configs = vec![config(1, 8000, 48000), config(2, 44100, 44100)];
    assert_eq!(
        plan_stream(&configs),
        Ok(StreamPlan { config: 1, channels: 2, sample_rate: 44100 })
    );
}

#[test]
fn plan_fails_without_a_usable_config() {
    assert_eq!(plan_stream(&vec![]), Err(SelectError::NoUsableConfig));
    assert_eq!(
        plan_stream(&vec![config(4, 8000, 48000)]),
        Err(SelectError::NoUsableConfig)
    );
}

#[test]
fn plan_fails_when_the_preferred_config_lacks_the_target_rate() {
    let configs = vec![config(1, 8000, 48000), config(2, 48000, 96000)];
    assert_eq!(plan_stream(&configs), Err(SelectError::SampleRateUnsupported));
    let configs = vec![config(2, 8000, 44099)];
    assert_eq!(plan_stream(&configs), Err(SelectError::SampleRateUnsupported));
}
