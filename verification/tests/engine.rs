use earperk_osc::audio::AudioProcessor;
use earperk_osc::config::Config;
use earperk_osc::level::{level_of_bits, threshold_of_bits};
use earperk_osc::process::{
    process_vol_overwhelm, process_vol_perk_and_reset, ChannelState, LoudnessSample,
    OverwhelmState, Signal,
};

fn config() -> Config {
    Config {
        address: String::from("127.0.0.1:9000"),
        address_left: String::from("/avatar/parameters/EarPerkLeft"),
        address_right: String::from("/avatar/parameters/EarPerkRight"),
        address_overwhelmingly_loud: String::from("/avatar/parameters/EarOverwhelm"),
        differential_threshold: threshold_of_bits(0.01f32.to_bits()),
        volume_threshold: threshold_of_bits(0.2f32.to_bits()),
        excessive_volume_threshold: threshold_of_bits(0.5f32.to_bits()),
        reset_timeout: 1000,
        timeout: 100,
    }
}

fn loudness(left: f32, right: f32) -> LoudnessSample {
    LoudnessSample { left: level_of_bits(left.to_bits()), right: level_of_bits(right.to_bits()) }
}

/// A processor whose timers ran out long before `START`.
const START: u64 = 10_000;

fn channel(perked: bool, last_trigger_time: u64) -> ChannelState {
    ChannelState { perked, last_trigger_time }
}

#[test]
fn left_perks_then_resets_after_reset_timeout() {
    let config = config();
    let mut processor = AudioProcessor::new(0);
    let signals = processor.process_block(&config, loudness(0.3, 0.05), START);
    assert_eq!(signals, vec![Signal::LeftOn]);
    let signals = processor.process_block(&config, loudness(0.02, 0.01), START + 50);
    assert_eq!(signals, vec![]);
    assert!(processor.snapshot().left.perked);
    let signals = processor.process_block(&config, loudness(0.02, 0.01), START + 1100);
    assert_eq!(signals, vec![Signal::LeftOff]);
    assert!(!processor.snapshot().left.perked);
}

#[test]
fn excessive_left_sends_only_overwhelm_on() {
    let config = config();
    let mut processor = AudioProcessor::new(0);
    let signals = processor.process_block(&config, loudness(0.6, 0.1), START);
    assert_eq!(signals, vec![Signal::OverwhelmOn]);
    let state = processor.snapshot();
    assert!(state.overwhelm.active);
    assert_eq!(state.overwhelm.last_trigger_time, START);
    assert_eq!(state.left, channel(false, 0));
    assert_eq!(state.right, channel(false, 0));
}

#[test]
fn both_loud_perks_both_ears_in_one_block() {
    let config = config();
    let mut processor = AudioProcessor::new(0);
    let signals = processor.process_block(&config, loudness(0.3, 0.3), START);
    assert_eq!(signals, vec![Signal::LeftOn, Signal::RightOn]);
    let state = processor.snapshot();
    assert_eq!(state.left, channel(true, START));
    assert_eq!(state.right, channel(true, START));
}

#[test]
fn overwhelm_on_is_sent_for_every_excessive_block() {
    let config = config();
    let mut processor = AudioProcessor::new(0);
    for step in 0..5u64 {
        let signals = processor.process_block(&config, loudness(0.6, 0.1), START + step);
        assert_eq!(signals, vec![Signal::OverwhelmOn]);
        assert_eq!(processor.snapshot().overwhelm.last_trigger_time, START + step);
    }
}

#[test]
fn excessive_threshold_is_reached_by_an_equal_level() {
    let config = config();
    let mut state = OverwhelmState { active: false, last_trigger_time: 0 };
    let at = level_of_bits(0.5f32.to_bits());
    assert_eq!(process_vol_overwhelm(&config, at, 0, &mut state, 7), Some(Signal::OverwhelmOn));
    assert_eq!(state, OverwhelmState { active: true, last_trigger_time: 7 });
    let mut state = OverwhelmState { active: false, last_trigger_time: 0 };
    assert_eq!(process_vol_overwhelm(&config, 0, at, &mut state, 7), Some(Signal::OverwhelmOn));
    let mut state = OverwhelmState { active: false, last_trigger_time: 0 };
    assert_eq!(process_vol_overwhelm(&config, at - 1, at - 1, &mut state, 7), None);
    assert_eq!(state, OverwhelmState { active: false, last_trigger_time: 0 });
}

#[test]
fn overwhelm_is_taken_back_once_after_reset_timeout() {
    let config = config();
    let mut state = OverwhelmState { active: true, last_trigger_time: 500 };
    assert_eq!(process_vol_overwhelm(&config, 0, 0, &mut state, 1500), None);
    assert!(state.active);
    assert_eq!(process_vol_overwhelm(&config, 0, 0, &mut state, 1501), Some(Signal::OverwhelmOff));
    assert_eq!(state, OverwhelmState { active: false, last_trigger_time: 500 });
    assert_eq!(process_vol_overwhelm(&config, 0, 0, &mut state, 5000), None);
}

#[test]
fn perk_chain_runs_in_the_block_that_takes_overwhelm_back() {
    let config = config();
    let mut processor = AudioProcessor::new(0);
    processor.process_block(&config, loudness(0.6, 0.1), START);
    let signals = processor.process_block(&config, loudness(0.3, 0.05), START + 1000);
    assert_eq!(signals, vec![]);
    let signals = processor.process_block(&config, loudness(0.3, 0.05), START + 1001);
    assert_eq!(signals, vec![Signal::OverwhelmOff, Signal::LeftOn]);
}

#[test]
fn second_left_dominant_block_within_timeout_sends_nothing() {
    let config = config();
    let mut processor = AudioProcessor::new(0);
    assert_eq!(processor.process_block(&config, loudness(0.3, 0.05), START), vec![Signal::LeftOn]);
    assert_eq!(processor.process_block(&config, loudness(0.3, 0.05), START + 99), vec![]);
    assert_eq!(processor.process_block(&config, loudness(0.3, 0.05), START + 100), vec![]);
    assert_eq!(
        processor.process_block(&config, loudness(0.3, 0.05), START + 101),
        vec![Signal::LeftOn]
    );
    assert_eq!(processor.snapshot().left, channel(true, START + 101));
}

#[test]
fn right_dominant_block_perks_the_right_ear() {
    let config = config();
    let mut left = channel(false, 0);
    let mut right = channel(false, 0);
    let sample = loudness(0.05, 0.3);
    let signals =
        process_vol_perk_and_reset(&config, &mut left, &mut right, sample.left, sample.right, 101);
    assert_eq!(signals, vec![Signal::RightOn]);
    assert_eq!(left, channel(false, 0));
    assert_eq!(right, channel(true, 101));
}

#[test]
fn nothing_fires_before_the_first_timeout_has_run_out() {
    let config = config();
    let mut processor = AudioProcessor::new(START);
    assert_eq!(processor.process_block(&config, loudness(0.3, 0.05), START + 100), vec![]);
    assert_eq!(
        processor.process_block(&config, loudness(0.3, 0.05), START + 101),
        vec![Signal::LeftOn]
    );
}

#[test]
fn perked_ear_stays_on_until_reset_timeout_even_in_silence() {
    let config = config();
    let mut left = channel(true, 2000);
    let mut right = channel(false, 0);
    assert_eq!(process_vol_perk_and_reset(&config, &mut left, &mut right, 0, 0, 3000), vec![]);
    assert_eq!(left, channel(true, 2000));
    assert_eq!(
        process_vol_perk_and_reset(&config, &mut left, &mut right, 0, 0, 3001),
        vec![Signal::LeftOff]
    );
    assert_eq!(left, channel(false, 2000));
}

#[test]
fn both_ears_reset_independently_in_one_quiet_block() {
    let config = config();
    let mut left = channel(true, 100);
    let mut right = channel(true, 600);
    assert_eq!(
        process_vol_perk_and_reset(&config, &mut left, &mut right, 0, 0, 1500),
        vec![Signal::LeftOff]
    );
    assert_eq!((left, right), (channel(false, 100), channel(true, 600)));
    let mut left = channel(true, 100);
    assert_eq!(
        process_vol_perk_and_reset(&config, &mut left, &mut right, 0, 0, 1601),
        vec![Signal::LeftOff, Signal::RightOff]
    );
    assert_eq!((left, right), (channel(false, 100), channel(false, 600)));
}

#[test]
fn both_loud_block_with_a_leading_left_channel_sends_one_pair() {
    let config = config();
    let mut left = channel(false, 0);
    let mut right = channel(false, 0);
    let sample = loudness(0.4, 0.3);
    let signals =
        process_vol_perk_and_reset(&config, &mut left, &mut right, sample.left, sample.right, 500);
    assert_eq!(signals, vec![Signal::LeftOn, Signal::RightOn]);
}

#[test]
fn both_loud_block_waits_for_both_timers() {
    let config = config();
    let mut left = channel(true, 450);
    let mut right = channel(false, 0);
    let sample = loudness(0.4, 0.3);
    let signals =
        process_vol_perk_and_reset(&config, &mut left, &mut right, sample.left, sample.right, 500);
    assert_eq!(signals, vec![]);
    assert_eq!((left, right), (channel(true, 450), channel(false, 0)));
}

#[test]
fn only_the_louder_side_perks_when_the_other_stays_under_the_volume_threshold() {
    let config = config();
    let mut left = channel(false, 0);
    let mut right = channel(false, 0);
    let sample = loudness(0.3, 0.1);
    let signals =
        process_vol_perk_and_reset(&config, &mut left, &mut right, sample.left, sample.right, 500);
    assert_eq!(signals, vec![Signal::LeftOn]);
    assert_eq!((left, right), (channel(true, 500), channel(false, 0)));
}

#[test]
fn silence_on_a_resting_engine_sends_nothing_however_often() {
    let config = config();
    let mut processor = AudioProcessor::new(0);
    let quiet = loudness(0.02, 0.01);
    for step in 0..50u64 {
        assert_eq!(processor.process_block(&config, quiet, START + 700 * step), vec![]);
        let state = processor.snapshot();
        assert_eq!(state.volume, quiet);
        assert_eq!(state.left, channel(false, 0));
        assert_eq!(state.right, channel(false, 0));
        assert_eq!(state.overwhelm, OverwhelmState { active: false, last_trigger_time: 0 });
    }
}

#[test]
fn a_clock_that_steps_back_counts_as_no_time_passed() {
    let config = config();
    let mut left = channel(true, 5000);
    let mut right = channel(false, 5000);
    assert_eq!(process_vol_perk_and_reset(&config, &mut left, &mut right, 0, 0, 10), vec![]);
    let sample = loudness(0.3, 0.05);
    assert_eq!(
        process_vol_perk_and_reset(&config, &mut left, &mut right, sample.left, sample.right, 10),
        vec![]
    );
}

#[test]
fn negative_thresholds_make_every_block_loud() {
    let mut config = config();
    config.differential_threshold = threshold_of_bits((-0.5f32).to_bits());
    config.volume_threshold = threshold_of_bits((-0.5f32).to_bits());
    let mut left = channel(false, 0);
    let mut right = channel(false, 0);
    assert_eq!(
        process_vol_perk_and_reset(&config, &mut left, &mut right, 0, 0, 101),
        vec![Signal::LeftOn, Signal::RightOn]
    );
    config.excessive_volume_threshold = -1;
    let mut state = OverwhelmState { active: false, last_trigger_time: 0 };
    assert_eq!(process_vol_overwhelm(&config, 0, 0, &mut state, 3), Some(Signal::OverwhelmOn));
}

#[test]
fn new_processor_has_heard_silence() {
    let processor = AudioProcessor::new(42);
    assert_eq!(processor.get_last_left_volume(), 0);
    assert_eq!(processor.get_last_right_volume(), 0);
    let state = processor.snapshot();
    assert_eq!(state.left, channel(false, 42));
    assert_eq!(state.right, channel(false, 42));
    assert_eq!(state.overwhelm, OverwhelmState { active: false, last_trigger_time: 42 });
}

#[test]
fn latest_loudness_is_published_also_while_overwhelmed() {
    let config = config();
    let mut processor = AudioProcessor::new(0);
    let sample = loudness(0.75, 0.25);
    processor.process_block(&config, sample, START);
    assert_eq!(processor.get_last_left_volume(), 3 << 30);
    assert_eq!(processor.get_last_right_volume(), 1 << 30);
}
