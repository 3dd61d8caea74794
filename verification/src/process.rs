//! The frame reducer and the threshold engine: the overwhelm detector and
//! the perk/reset chain.

use vstd::prelude::*;
use std::collections::VecDeque;
use crate::config::Config;
use crate::level::{level_is_bounded, level_of, level_of_bits, LEVEL_MAX};

verus! {

/// One outbound event.
#[derive(Clone, Copy, Debug, PartialEq, Eq, Structural)]
pub enum Signal {
    LeftOn,
    RightOn,
    LeftOff,
    RightOff,
    OverwhelmOn,
    OverwhelmOff,
}

/// The mean absolute amplitude of each channel over one captured block.
#[derive(Clone, Copy, Debug, PartialEq, Eq, Structural)]
pub struct LoudnessSample {
    pub left: u64,
    pub right: u64,
}

/// The signalling state of one ear.
#[derive(Clone, Copy, Debug, PartialEq, Eq, Structural)]
pub struct ChannelState {
    /// Whether the last signal sent for this channel was "on".
    pub perked: bool,
    /// When the channel was last switched on, or else when the engine started.
    pub last_trigger_time: u64,
}

/// The signalling state of the overwhelm detector.
#[derive(Clone, Copy, Debug, PartialEq, Eq, Structural)]
pub struct OverwhelmState {
    /// Whether "overwhelm-on" was sent and not yet taken back.
    pub active: bool,
    /// When "overwhelm-on" was last sent, or else when the engine started.
    pub last_trigger_time: u64,
}

/// The time from `since` to `now`; zero where `since` lies ahead of `now`.
pub open spec fn elapsed(now: u64, since: u64) -> int {
    if now >= since {
        now - since
    } else {
        0
    }
}

/// Either channel has reached the excessive threshold.
pub open spec fn is_excessive(config: &Config, sample: LoudnessSample) -> bool {
    sample.left >= config.excessive_volume_threshold || sample.right
        >= config.excessive_volume_threshold
}

/// Both channels exceed the differential and the volume threshold.
pub open spec fn is_both_loud(config: &Config, sample: LoudnessSample) -> bool {
    &&& sample.left > config.differential_threshold
    &&& sample.right > config.differential_threshold
    &&& sample.left > config.volume_threshold
    &&& sample.right > config.volume_threshold
}

/// The left channel exceeds the volume threshold and leads the right one by
/// more than the differential threshold.
pub open spec fn is_left_dominant(config: &Config, sample: LoudnessSample) -> bool {
    sample.left - sample.right > config.differential_threshold && sample.left
        > config.volume_threshold
}

/// The mirror image of [`is_left_dominant`].
pub open spec fn is_right_dominant(config: &Config, sample: LoudnessSample) -> bool {
    sample.right - sample.left > config.differential_threshold && sample.right
        > config.volume_threshold
}

/// What one run of the overwhelm detector leaves behind.
pub struct OverwhelmStep {
    pub state: OverwhelmState,
    pub signal: Option<Signal>,
}

/// The overwhelm detector as a transition function.
///
/// "On" is sent for every excessive block, not only the first; "off" is sent
/// once, by the first block that is not excessive and comes more than
/// `reset_timeout` after the last "on".
pub open spec fn overwhelm_step(
    config: &Config,
    state: OverwhelmState,
    sample: LoudnessSample,
    now: u64,
) -> OverwhelmStep {
    if is_excessive(config, sample) {
        OverwhelmStep {
            state: OverwhelmState { active: true, last_trigger_time: now },
            signal: Some(Signal::OverwhelmOn),
        }
    } else if state.active && elapsed(now, state.last_trigger_time) > config.reset_timeout {
        OverwhelmStep {
            state: OverwhelmState { active: false, last_trigger_time: state.last_trigger_time },
            signal: Some(Signal::OverwhelmOff),
        }
    } else {
        OverwhelmStep { state, signal: None }
    }
}

/// What one run of the perk/reset chain leaves behind.
pub struct PerkStep {
    pub left: ChannelState,
    pub right: ChannelState,
    pub signals: Seq<Signal>,
}

/// A channel that has just been switched on.
pub open spec fn triggered(now: u64) -> ChannelState {
    ChannelState { perked: true, last_trigger_time: now }
}

/// Whether a channel may be switched on again at `now`.
pub open spec fn may_trigger(config: &Config, channel: ChannelState, now: u64) -> bool {
    elapsed(now, channel.last_trigger_time) > config.timeout
}

/// Whether a channel is on and has been so for long enough to be reset.
pub open spec fn may_reset(config: &Config, channel: ChannelState, now: u64) -> bool {
    channel.perked && elapsed(now, channel.last_trigger_time) > config.reset_timeout
}

/// The quiet branch of the chain: each channel on its own is reset if it may be.
pub open spec fn reset_step(
    config: &Config,
    left: ChannelState,
    right: ChannelState,
    now: u64,
) -> PerkStep {
    let left_off = may_reset(config, left, now);
    let right_off = may_reset(config, right, now);
    PerkStep {
        left: if left_off {
            ChannelState { perked: false, last_trigger_time: left.last_trigger_time }
        } else {
            left
        },
        right: if right_off {
            ChannelState { perked: false, last_trigger_time: right.last_trigger_time }
        } else {
            right
        },
        signals: (if left_off {
            seq![Signal::LeftOff]
        } else {
            Seq::<Signal>::empty()
        }) + (if right_off {
            seq![Signal::RightOff]
        } else {
            Seq::<Signal>::empty()
        }),
    }
}

/// The perk/reset chain as a transition function.
///
/// The loudness alone picks the branch, in the order both-loud, left-dominant,
/// right-dominant, quiet. In the first three the channels' timers then decide
/// whether the branch acts or the block passes without effect.
pub open spec fn perk_step(
    config: &Config,
    left: ChannelState,
    right: ChannelState,
    sample: LoudnessSample,
    now: u64,
) -> PerkStep {
    let idle = PerkStep { left, right, signals: Seq::<Signal>::empty() };
    if is_both_loud(config, sample) {
        if may_trigger(config, left, now) && may_trigger(config, right, now) {
            PerkStep {
                left: triggered(now),
                right: triggered(now),
                signals: seq![Signal::LeftOn, Signal::RightOn],
            }
        } else {
            idle
        }
    } else if is_left_dominant(config, sample) {
        if may_trigger(config, left, now) {
            PerkStep { left: triggered(now), right, signals: seq![Signal::LeftOn] }
        } else {
            idle
        }
    } else if is_right_dominant(config, sample) {
        if may_trigger(config, right, now) {
            PerkStep { left, right: triggered(now), signals: seq![Signal::RightOn] }
        } else {
            idle
        }
    } else {
        reset_step(config, left, right, now)
    }
}

/// All that the engine carries from one block to the next.
#[derive(Clone, Copy, Debug, PartialEq, Eq, Structural)]
pub struct EngineState {
    /// The loudness of the latest block.
    pub volume: LoudnessSample,
    pub left: ChannelState,
    pub right: ChannelState,
    pub overwhelm: OverwhelmState,
}

/// What the engine does with one block.
pub struct EngineStep {
    pub state: EngineState,
    pub signals: Seq<Signal>,
}

/// An optional signal as a sequence of none or one.
pub open spec fn signal_seq(signal: Option<Signal>) -> Seq<Signal> {
    match signal {
        Some(s) => seq![s],
        None => Seq::<Signal>::empty(),
    }
}

/// The engine as a transition function: the overwhelm detector runs first,
/// and the perk/reset chain runs only if overwhelm is not active after it.
pub open spec fn engine_step(
    config: &Config,
    state: EngineState,
    sample: LoudnessSample,
    now: u64,
) -> EngineStep {
    let first = overwhelm_step(config, state.overwhelm, sample, now);
    if first.state.active {
        EngineStep {
            state: EngineState {
                volume: sample,
                left: state.left,
                right: state.right,
                overwhelm: first.state,
            },
            signals: signal_seq(first.signal),
        }
    } else {
        let second = perk_step(config, state.left, state.right, sample, now);
        EngineStep {
            state: EngineState {
                volume: sample,
                left: second.left,
                right: second.right,
                overwhelm: first.state,
            },
            signals: signal_seq(first.signal) + second.signals,
        }
    }
}

/// The state in which an engine starts at `now`: silence heard, nothing on,
/// every timer running from `now`.
pub open spec fn initial_state(now: u64) -> EngineState {
    EngineState {
        volume: LoudnessSample { left: 0, right: 0 },
        left: ChannelState { perked: false, last_trigger_time: now },
        right: ChannelState { perked: false, last_trigger_time: now },
        overwhelm: OverwhelmState { active: false, last_trigger_time: now },
    }
}

/// Whether `level` lies strictly above `threshold`.
fn exceeds(level: u64, threshold: i64) -> (r: bool)
    ensures
        r == (level > threshold),
{
    threshold < 0 || level > threshold as u64
}

/// Whether `level` lies at or above `threshold`.
fn reaches(level: u64, threshold: i64) -> (r: bool)
    ensures
        r == (level >= threshold),
{
    threshold < 0 || level >= threshold as u64
}

/// Whether `level` leads `other` by more than `threshold`.
fn leads_by_more_than(level: u64, other: u64, threshold: i64) -> (r: bool)
    ensures
        r == (level - other > threshold),
{
    let lead: i128 = level as i128 - other as i128;
    lead > threshold as i128
}

/// The time from `since` to `now`, zero where `since` lies ahead.
fn time_since(now: u64, since: u64) -> (r: u64)
    ensures
        r == elapsed(now, since),
{
    now.saturating_sub(since)
}

/// Runs the overwhelm detector on one block.
///
/// Returns the signal to send, if any. The perk/reset chain is to be skipped
/// for this block where `state.active` holds afterwards.
pub fn process_vol_overwhelm(
    config: &Config,
    left_avg: u64,
    right_avg: u64,
    state: &mut OverwhelmState,
    current_time: u64,
) -> (signal: Option<Signal>)
    ensures
        (OverwhelmStep { state: *final(state), signal }) == overwhelm_step(
            config,
            *old(state),
            LoudnessSample { left: left_avg, right: right_avg },
            current_time,
        ),
{
    if reaches(left_avg, config.excessive_volume_threshold) || reaches(
        right_avg,
        config.excessive_volume_threshold,
    ) {
        state.last_trigger_time = current_time;
        state.active = true;
        Some(Signal::OverwhelmOn)
    } else if state.active && time_since(current_time, state.last_trigger_time)
        > config.reset_timeout {
        state.active = false;
        Some(Signal::OverwhelmOff)
    } else {
        None
    }
}

/// Runs the perk/reset chain on one block.
///
/// Returns the signals to send, in the order in which they are to be sent.
pub fn process_vol_perk_and_reset(
    config: &Config,
    left: &mut ChannelState,
    right: &mut ChannelState,
    left_avg: u64,
    right_avg: u64,
    current_time: u64,
) -> (signals: Vec<Signal>)
    ensures
        (PerkStep { left: *final(left), right: *final(right), signals: signals@ }) == perk_step(
            config,
            *old(left),
            *old(right),
            LoudnessSample { left: left_avg, right: right_avg },
            current_time,
        ),
{
    let mut signals: Vec<Signal> = Vec::new();
    let left_waited = time_since(current_time, left.last_trigger_time);
    let right_waited = time_since(current_time, right.last_trigger_time);
    if exceeds(left_avg, config.differential_threshold) && exceeds(
        right_avg,
        config.differential_threshold,
    ) && exceeds(left_avg, config.volume_threshold) && exceeds(
        right_avg,
        config.volume_threshold,
    ) {
        if left_waited > config.timeout && right_waited > config.timeout {
            signals.push(Signal::LeftOn);
            signals.push(Signal::RightOn);
            left.last_trigger_time = current_time;
            right.last_trigger_time = current_time;
            left.perked = true;
            right.perked = true;
        }
    } else if leads_by_more_than(left_avg, right_avg, config.differential_threshold) && exceeds(
        left_avg,
        config.volume_threshold,
    ) {
        if left_waited > config.timeout {
            signals.push(Signal::LeftOn);
            left.last_trigger_time = current_time;
            left.perked = true;
        }
    } else if leads_by_more_than(right_avg, left_avg, config.differential_threshold) && exceeds(
        right_avg,
        config.volume_threshold,
    ) {
        if right_waited > config.timeout {
            signals.push(Signal::RightOn);
            right.last_trigger_time = current_time;
            right.perked = true;
        }
    } else {
        if left.perked && left_waited > config.reset_timeout {
            signals.push(Signal::LeftOff);
            left.perked = false;
        }
        if right.perked && right_waited > config.reset_timeout {
            signals.push(Signal::RightOff);
            right.perked = false;
        }
    }
    proof {
        let step = perk_step(
            config,
            *old(left),
            *old(right),
            LoudnessSample { left: left_avg, right: right_avg },
            current_time,
        );
        assert(signals@ =~= step.signals);
    }
    signals
}

/// The number of bytes in one stereo frame: two samples of four bytes each.
pub const FRAME_BYTES: usize = 8;

/// The sample bit pattern that the four bytes from `at` on spell, least
/// significant byte first.
pub open spec fn word_at(bytes: Seq<u8>, at: int) -> u32 {
    (bytes[at] + bytes[at + 1] * 0x100 + bytes[at + 2] * 0x1_0000 + bytes[at + 3] * 0x100_0000) as u32
}

/// The number of whole frames in `bytes`.
pub open spec fn frame_count(bytes: Seq<u8>) -> nat {
    bytes.len() / 8
}

/// The sum, over the first `frames` frames of `bytes`, of the levels of the
/// sample that stands `offset` bytes into its frame: 0 for left, 4 for right.
pub open spec fn channel_sum(bytes: Seq<u8>, offset: int, frames: nat) -> nat
    decreases frames,
{
    if frames == 0 {
        0
    } else {
        channel_sum(bytes, offset, (frames - 1) as nat) + level_of(
            word_at(bytes, 8 * (frames - 1) + offset),
        )
    }
}

/// The mean level of one channel over the whole frames of `bytes`, rounded
/// down to a whole unit.
pub open spec fn channel_mean(bytes: Seq<u8>, offset: int) -> nat
    recommends
        frame_count(bytes) > 0,
{
    channel_sum(bytes, offset, frame_count(bytes)) / frame_count(bytes)
}

/// The loudness of a block of interleaved stereo samples: per channel, the
/// mean of the levels over the whole frames. Bytes past the last whole frame
/// do not count.
pub open spec fn block_loudness(bytes: Seq<u8>) -> LoudnessSample
    recommends
        frame_count(bytes) > 0,
{
    LoudnessSample {
        left: channel_mean(bytes, 0) as u64,
        right: channel_mean(bytes, 4) as u64,
    }
}

/// A sum of levels is at most as many times the largest level.
pub proof fn channel_sum_is_bounded(bytes: Seq<u8>, offset: int, frames: nat)
    ensures
        channel_sum(bytes, offset, frames) <= frames * LEVEL_MAX,
    decreases frames,
{
    if frames > 0 {
        channel_sum_is_bounded(bytes, offset, (frames - 1) as nat);
        level_is_bounded(word_at(bytes, 8 * (frames - 1) + offset));
        assert((frames - 1) * LEVEL_MAX + LEVEL_MAX == frames * LEVEL_MAX) by (nonlinear_arith);
    }
}

/// A mean of levels is a level.
pub proof fn channel_mean_is_bounded(bytes: Seq<u8>, offset: int)
    requires
        frame_count(bytes) > 0,
    ensures
        channel_mean(bytes, offset) <= LEVEL_MAX,
{
    let n = frame_count(bytes);
    let sum = channel_sum(bytes, offset, n);
    channel_sum_is_bounded(bytes, offset, n);
    assert(sum / n <= LEVEL_MAX) by (nonlinear_arith)
        requires
            n > 0,
            sum <= n * LEVEL_MAX,
    ;
}

/// Takes one sample, four bytes, off the front of the queue.
fn pop_sample(sample_queue: &mut VecDeque<u8>) -> (bits: u32)
    requires
        old(sample_queue)@.len() >= 4,
    ensures
        bits == word_at(old(sample_queue)@, 0),
        final(sample_queue)@ == old(sample_queue)@.subrange(4, old(sample_queue)@.len() as int),
{
    let b0 = sample_queue.pop_front().unwrap();
    let b1 = sample_queue.pop_front().unwrap();
    let b2 = sample_queue.pop_front().unwrap();
    let b3 = sample_queue.pop_front().unwrap();
    assert(sample_queue@ =~= old(sample_queue)@.subrange(4, old(sample_queue)@.len() as int));
    b0 as u32 + b1 as u32 * 0x100 + b2 as u32 * 0x1_0000 + b3 as u32 * 0x100_0000
}

/// Reduces the whole frames at the front of the queue to one loudness pair.
///
/// The queue holds interleaved stereo samples, left before right, each a
/// single-precision bit pattern of four bytes, least significant byte first.
/// Every whole frame is taken off the queue and counted; what is left of a
/// frame cut short stays queued for the next call. The queue must hold at
/// least one whole frame, and the stream must be a stereo one.
pub fn calculate_avg_lr(sample_queue: &mut VecDeque<u8>, num_channels: usize) -> (avg: (u64, u64))
    requires
        num_channels == 2,
        old(sample_queue)@.len() >= 8,
    ensures
        (LoudnessSample { left: avg.0, right: avg.1 }) == block_loudness(old(sample_queue)@),
        final(sample_queue)@ == old(sample_queue)@.subrange(
            8 * frame_count(old(sample_queue)@) as int,
            old(sample_queue)@.len() as int,
        ),
        avg.0 <= LEVEL_MAX,
        avg.1 <= LEVEL_MAX,
{
    let ghost bytes = sample_queue@;
    assert(bytes.len() == sample_queue.len());
    let mut left_volume: u128 = 0;
    let mut right_volume: u128 = 0;
    let mut count: u128 = 0;
    while sample_queue.len() >= num_channels * 4
        invariant
            num_channels == 2,
            bytes == old(sample_queue)@,
            8 * count <= bytes.len(),
            bytes.len() <= usize::MAX,
            sample_queue@ == bytes.subrange(8 * count, bytes.len() as int),
            left_volume == channel_sum(bytes, 0, count as nat),
            right_volume == channel_sum(bytes, 4, count as nat),
        decreases sample_queue@.len(),
    {
        let ghost before = sample_queue@;
        let left = pop_sample(sample_queue);
        let ghost between = sample_queue@;
        let right = pop_sample(sample_queue);
        proof {
            assert(word_at(before, 0) == word_at(bytes, 8 * count + 0));
            assert(word_at(between, 0) == word_at(bytes, 8 * count + 4));
            assert(sample_queue@ =~= bytes.subrange(8 * (count + 1), bytes.len() as int));
            channel_sum_is_bounded(bytes, 0, count as nat);
            channel_sum_is_bounded(bytes, 4, count as nat);
            assert(count * LEVEL_MAX <= 0x1fff_ffff_ffff_ffff * LEVEL_MAX) by (nonlinear_arith)
                requires
                    count <= 0x1fff_ffff_ffff_ffff,
            ;
        }
        left_volume += level_of_bits(left) as u128;
        right_volume += level_of_bits(right) as u128;
        count += 1;
    }
    proof {
        assert(count == frame_count(bytes));
        channel_mean_is_bounded(bytes, 0);
        channel_mean_is_bounded(bytes, 4);
    }
    ((left_volume / count) as u64, (right_volume / count) as u64)
}

} // verus!
