use std::collections::VecDeque;

use earperk_osc::audio::{AudioProcessor, LoopControl};
use earperk_osc::config::Config;
use earperk_osc::level::{level_of_bits, threshold_of_bits, LEVEL_MAX, LEVEL_ONE};
use earperk_osc::process::{calculate_avg_lr, Signal};

fn queue_of(samples: &[f32]) -> VecDeque<u8> {
    let mut queue = VecDeque::new();
    for sample in samples {
        queue.extend(sample.to_le_bytes());
    }
    queue
}

fn stereo_config() -> Config {
    Config {
        address: String::from("127.0.0.1:9000"),
        address_left: String::from("/left"),
        address_right: String::from("/right"),
        address_overwhelmingly_loud: String::from("/loud"),
        differential_threshold: threshold_of_bits(0.01f32.to_bits()),
        volume_threshold: threshold_of_bits(0.2f32.to_bits()),
        excessive_volume_threshold: threshold_of_bits(0.5f32.to_bits()),
        reset_timeout: 1000,
        timeout: 100,
    }
}

#[test]
fn level_of_full_scale_is_two_to_the_32() {
    assert_eq!(LEVEL_ONE, 1u64 << 32);
    assert_eq!(level_of_bits(1.0f32.to_bits()), LEVEL_ONE);
    assert_eq!(level_of_bits((-1.0f32).to_bits()), LEVEL_ONE);
}

#[test]
fn level_of_common_samples() {
    assert_eq!(level_of_bits(0.0f32.to_bits()), 0);
    assert_eq!(level_of_bits((-0.0f32).to_bits()), 0);
    assert_eq!(level_of_bits(0.5f32.to_bits()), 1 << 31);
    assert_eq!(level_of_bits(0.75f32.to_bits()), 3 << 30);
    assert_eq!(level_of_bits((-0.25f32).to_bits()), 1 << 30);
    assert_eq!(level_of_bits(2.0f32.to_bits()), 1 << 33);
    assert_eq!(level_of_bits(0.3f32.to_bits()), 0x4ccc_cd00);
    assert_eq!(level_of_bits(0x3e99_999a), 0x4ccc_cd00);
}

#[test]
fn level_drops_what_lies_below_one_unit() {
    // 2^-32 is one unit, 2^-33 is below it.
    assert_eq!(level_of_bits(f32::from_bits(0x2f80_0000).to_bits()), 1);
    assert_eq!(level_of_bits(0x2f00_0000), 0);
    // 1.5 * 2^-32 and 1.75 * 2^-31.
    assert_eq!(level_of_bits(0x2fc0_0000), 1);
    assert_eq!(level_of_bits(0x3060_0000), 3);
    assert_eq!(level_of_bits(f32::MIN_POSITIVE.to_bits()), 0);
    assert_eq!(level_of_bits(1), 0);
    assert_eq!(level_of_bits(0x007f_ffff), 0);
}

#[test]
fn level_saturates_at_the_largest_level() {
    assert_eq!(LEVEL_MAX, i64::MAX as u64);
    assert_eq!(level_of_bits(f32::INFINITY.to_bits()), LEVEL_MAX);
    assert_eq!(level_of_bits(f32::NEG_INFINITY.to_bits()), LEVEL_MAX);
    assert_eq!(level_of_bits(f32::NAN.to_bits()), LEVEL_MAX);
    assert_eq!(level_of_bits(f32::MAX.to_bits()), LEVEL_MAX);
    // 2^31 is the first power of two that saturates.
    assert_eq!(level_of_bits(2147483648.0f32.to_bits()), LEVEL_MAX);
    assert_eq!(level_of_bits(1073741824.0f32.to_bits()), 1 << 62);
    assert_eq!(level_of_bits(0x4eff_ffff), 0xff_ffff << 39);
}

#[test]
fn threshold_keeps_the_sign() {
    assert_eq!(threshold_of_bits(0.5f32.to_bits()), 1 << 31);
    assert_eq!(threshold_of_bits((-0.5f32).to_bits()), -(1 << 31));
    assert_eq!(threshold_of_bits(0.0f32.to_bits()), 0);
    assert_eq!(threshold_of_bits((-0.0f32).to_bits()), 0);
    assert_eq!(threshold_of_bits(f32::NEG_INFINITY.to_bits()), -i64::MAX);
    assert_eq!(threshold_of_bits(f32::INFINITY.to_bits()), i64::MAX);
}

#[test]
fn mean_of_absolute_values_per_channel() {
    let mut queue = queue_of(&[0.5, -0.25, -1.0, 0.75, 0.0, 0.5]);
    let (left, right) = calculate_avg_lr(&mut queue, 2);
    // left: (0.5 + 1.0 + 0.0) / 3 = 0.5, right: (0.25 + 0.75 + 0.5) / 3 = 0.5
    assert_eq!(left, 1 << 31);
    assert_eq!(right, 1 << 31);
    assert!(queue.is_empty());
}

#[test]
fn mean_is_rounded_down_to_a_whole_unit() {
    let mut queue = queue_of(&[1.0, 0.0, 0.0, 0.0, 0.0, 1.0]);
    let (left, right) = calculate_avg_lr(&mut queue, 2);
    assert_eq!(left, 1_431_655_765);
    assert_eq!(right, 1_431_655_765);
}

#[test]
fn single_frame_is_its_own_mean() {
    let mut queue = queue_of(&[-0.3, 0.05]);
    let (left, right) = calculate_avg_lr(&mut queue, 2);
    assert_eq!(left, level_of_bits(0.3f32.to_bits()));
    assert_eq!(right, level_of_bits(0.05f32.to_bits()));
}

#[test]
fn trailing_sample_is_left_out_and_stays_queued() {
    let mut queue = queue_of(&[0.5, 0.25, 0.5, 0.75, 1.0]);
    let (left, right) = calculate_avg_lr(&mut queue, 2);
    assert_eq!(left, 1 << 31);
    assert_eq!(right, 1 << 31);
    assert_eq!(queue, VecDeque::from(1.0f32.to_le_bytes().to_vec()));
}

#[test]
fn partial_frame_stays_queued_byte_for_byte() {
    let mut queue = queue_of(&[0.5, 0.25]);
    queue.extend([1u8, 2, 3, 4, 5, 6, 7]);
    let (left, right) = calculate_avg_lr(&mut queue, 2);
    assert_eq!((left, right), (1 << 31, 1 << 30));
    assert_eq!(queue, VecDeque::from(vec![1u8, 2, 3, 4, 5, 6, 7]));
}

#[test]
fn silent_frames_have_zero_loudness() {
    let mut queue = queue_of(&[0.0; 64]);
    assert_eq!(calculate_avg_lr(&mut queue, 2), (0, 0));
    let mut queue = queue_of(&[-0.0, 0.0, 0.0, -0.0]);
    assert_eq!(calculate_avg_lr(&mut queue, 2), (0, 0));
}

#[test]
fn samples_are_read_least_significant_byte_first() {
    let mut queue = VecDeque::from(vec![0x00u8, 0x00, 0x80, 0x3f, 0x00, 0x00, 0x00, 0xbf]);
    assert_eq!(calculate_avg_lr(&mut queue, 2), (1 << 32, 1 << 31));
}

#[test]
fn saturated_samples_do_not_overflow_the_mean() {
    let mut queue = queue_of(&[f32::INFINITY, f32::MAX, f32::NEG_INFINITY, f32::MAX]);
    assert_eq!(calculate_avg_lr(&mut queue, 2), (LEVEL_MAX, LEVEL_MAX));
}

#[test]
fn iteration_folds_all_queued_frames_into_one_block() {
    let config = stereo_config();
    let mut processor = AudioProcessor::new(0);
    let mut queue = queue_of(&[0.4, 0.05, -0.2, 0.05, 0.3, -0.05, 0.9]);
    let iteration = processor.capture_iteration(&config, &mut queue, true, false, 5000);
    assert_eq!(iteration.signals, vec![Signal::LeftOn]);
    assert_eq!(iteration.control, LoopControl::Continue);
    // (1717986944 + 858993472 + 1288490240) / 3, rounded down
    assert_eq!(processor.get_last_left_volume(), 1_288_490_218);
    assert_eq!(processor.get_last_right_volume(), level_of_bits(0.05f32.to_bits()));
    assert_eq!(queue, VecDeque::from(0.9f32.to_le_bytes().to_vec()));
}

#[test]
fn iteration_stops_on_a_failed_wait_and_touches_nothing() {
    let config = stereo_config();
    let mut processor = AudioProcessor::new(0);
    let mut queue = queue_of(&[0.4, 0.05]);
    let iteration = processor.capture_iteration(&config, &mut queue, false, false, 5000);
    assert_eq!(iteration.signals, vec![]);
    assert_eq!(iteration.control, LoopControl::StopStream);
    assert_eq!(queue, queue_of(&[0.4, 0.05]));
    assert_eq!(processor.snapshot(), AudioProcessor::new(0).snapshot());
}

#[test]
fn iteration_finishes_the_block_before_it_stops_on_request() {
    let config = stereo_config();
    let mut processor = AudioProcessor::new(0);
    let mut queue = queue_of(&[0.6, 0.05]);
    let iteration = processor.capture_iteration(&config, &mut queue, true, true, 5000);
    assert_eq!(iteration.signals, vec![Signal::OverwhelmOn]);
    assert_eq!(iteration.control, LoopControl::StopStream);
    assert!(queue.is_empty());
}

#[test]
fn iteration_without_a_whole_frame_passes_without_effect() {
    let config = stereo_config();
    let mut processor = AudioProcessor::new(0);
    let mut queue = VecDeque::from(vec![9u8, 8, 7]);
    let iteration = processor.capture_iteration(&config, &mut queue, true, false, 5000);
    assert_eq!(iteration.signals, vec![]);
    assert_eq!(iteration.control, LoopControl::Continue);
    assert_eq!(queue, VecDeque::from(vec![9u8, 8, 7]));
    assert_eq!(processor.snapshot(), AudioProcessor::new(0).snapshot());
    let mut empty = VecDeque::new();
    let iteration = processor.capture_iteration(&config, &mut empty, true, true, 5000);
    assert_eq!(iteration.control, LoopControl::StopStream);
}
