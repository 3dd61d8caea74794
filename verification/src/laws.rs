//! What holds of the frame reducer and of the threshold engine on every
//! input.

use vstd::prelude::*;
use crate::config::Config;
use crate::level::level_of;
use crate::process::{
    block_loudness, channel_sum, elapsed, engine_step, frame_count, is_both_loud, is_excessive,
    is_left_dominant, is_right_dominant, perk_step, word_at, ChannelState, EngineState,
    LoudnessSample, OverwhelmState, Signal,
};

verus! {

/// A channel's sum over the first frames of a block reads no byte behind them.
pub proof fn channel_sum_reads_whole_frames(
    bytes: Seq<u8>,
    other: Seq<u8>,
    offset: int,
    frames: nat,
)
    requires
        offset == 0 || offset == 4,
        8 * frames <= bytes.len(),
        8 * frames <= other.len(),
        bytes.subrange(0, 8 * frames as int) == other.subrange(0, 8 * frames as int),
    ensures
        channel_sum(bytes, offset, frames) == channel_sum(other, offset, frames),
    decreases frames,
{
    if frames > 0 {
        let fewer = (frames - 1) as nat;
        let whole = 8 * frames as int;
        assert(bytes.subrange(0, 8 * fewer as int) =~= bytes.subrange(0, whole).subrange(
            0,
            8 * fewer as int,
        ));
        assert(other.subrange(0, 8 * fewer as int) =~= other.subrange(0, whole).subrange(
            0,
            8 * fewer as int,
        ));
        channel_sum_reads_whole_frames(bytes, other, offset, fewer);
        let at = 8 * fewer + offset;
        assert forall|i: int| at <= i < at + 4 implies bytes[i] == other[i] by {
            assert(bytes[i] == bytes.subrange(0, whole)[i]);
            assert(other[i] == other.subrange(0, whole)[i]);
        }
        assert(word_at(bytes, at) == word_at(other, at));
    }
}

/// Only whole frames count. What follows the last whole frame of a block, a
/// lone trailing sample for one, does not change the block's loudness.
pub proof fn trailing_bytes_do_not_count(bytes: Seq<u8>, tail: Seq<u8>)
    requires
        bytes.len() % 8 == 0,
        tail.len() < 8,
    ensures
        frame_count(bytes + tail) == frame_count(bytes),
        block_loudness(bytes + tail) == block_loudness(bytes),
{
    let frames = frame_count(bytes);
    let longer = bytes + tail;
    assert(frame_count(longer) == frames);
    assert(longer.subrange(0, 8 * frames as int) =~= bytes.subrange(0, 8 * frames as int));
    channel_sum_reads_whole_frames(longer, bytes, 0, frames);
    channel_sum_reads_whole_frames(longer, bytes, 4, frames);
}

/// A channel whose samples all have level zero sums to zero.
pub proof fn silent_channel_sums_to_zero(bytes: Seq<u8>, offset: int, frames: nat)
    requires
        forall|k: int| 0 <= k < frames ==> level_of(#[trigger] word_at(bytes, 8 * k + offset)) == 0,
    ensures
        channel_sum(bytes, offset, frames) == 0,
    decreases frames,
{
    if frames > 0 {
        silent_channel_sums_to_zero(bytes, offset, (frames - 1) as nat);
    }
}

/// The loudness of silence is zero on both channels, however many frames
/// the block holds.
pub proof fn silence_has_zero_loudness(bytes: Seq<u8>)
    requires
        frame_count(bytes) > 0,
        forall|k: int|
            0 <= k < frame_count(bytes) ==> level_of(#[trigger] word_at(bytes, 8 * k + 0)) == 0,
        forall|k: int|
            0 <= k < frame_count(bytes) ==> level_of(#[trigger] word_at(bytes, 8 * k + 4)) == 0,
    ensures
        block_loudness(bytes) == (LoudnessSample { left: 0, right: 0 }),
{
    silent_channel_sums_to_zero(bytes, 0, frame_count(bytes));
    silent_channel_sums_to_zero(bytes, 4, frame_count(bytes));
}

/// Overwhelm takes precedence. A block in which either channel reaches the
/// excessive threshold sends "overwhelm-on" and nothing else, whatever was
/// sent before, and leaves both ears as they were.
pub proof fn overwhelm_takes_precedence(
    config: &Config,
    state: EngineState,
    sample: LoudnessSample,
    now: u64,
)
    requires
        sample.left >= config.excessive_volume_threshold || sample.right
            >= config.excessive_volume_threshold,
    ensures
        engine_step(config, state, sample, now).signals == seq![Signal::OverwhelmOn],
        engine_step(config, state, sample, now).state.left == state.left,
        engine_step(config, state, sample, now).state.right == state.right,
        engine_step(config, state, sample, now).state.overwhelm == (OverwhelmState {
            active: true,
            last_trigger_time: now,
        }),
{
}

/// While overwhelm stays active the ears are neither signalled nor changed.
pub proof fn active_overwhelm_suppresses_perk(
    config: &Config,
    state: EngineState,
    sample: LoudnessSample,
    now: u64,
)
    requires
        engine_step(config, state, sample, now).state.overwhelm.active,
    ensures
        engine_step(config, state, sample, now).state.left == state.left,
        engine_step(config, state, sample, now).state.right == state.right,
        !engine_step(config, state, sample, now).signals.contains(Signal::LeftOn),
        !engine_step(config, state, sample, now).signals.contains(Signal::RightOn),
        !engine_step(config, state, sample, now).signals.contains(Signal::LeftOff),
        !engine_step(config, state, sample, now).signals.contains(Signal::RightOff),
{
}

/// An ear is switched on only by a block that comes more than `timeout`
/// after the ear's last trigger.
pub proof fn on_needs_timeout(config: &Config, state: EngineState, sample: LoudnessSample, now: u64)
    ensures
        engine_step(config, state, sample, now).signals.contains(Signal::LeftOn) ==> elapsed(
            now,
            state.left.last_trigger_time,
        ) > config.timeout,
        engine_step(config, state, sample, now).signals.contains(Signal::RightOn) ==> elapsed(
            now,
            state.right.last_trigger_time,
        ) > config.timeout,
{
}

/// Debounce. Of two blocks no more than `timeout` apart, the second does not
/// switch on an ear that the first has switched on: however loud both are,
/// "on" goes out once.
pub proof fn debounce(
    config: &Config,
    state: EngineState,
    first: LoudnessSample,
    first_time: u64,
    second: LoudnessSample,
    second_time: u64,
)
    requires
        second_time - first_time <= config.timeout,
    ensures
        ({
            let one = engine_step(config, state, first, first_time);
            let two = engine_step(config, one.state, second, second_time);
            &&& one.signals.contains(Signal::LeftOn) ==> !two.signals.contains(Signal::LeftOn)
            &&& one.signals.contains(Signal::RightOn) ==> !two.signals.contains(Signal::RightOn)
        }),
{
    let one = engine_step(config, state, first, first_time);
    on_needs_timeout(config, one.state, second, second_time);
    switched_on_at(config, state, first, first_time);
}

/// Two left-dominant blocks no more than `timeout` apart, the first of them
/// free to trigger, send "left-on" exactly once between them.
pub proof fn left_dominant_pair_perks_once(
    config: &Config,
    state: EngineState,
    first: LoudnessSample,
    first_time: u64,
    second: LoudnessSample,
    second_time: u64,
)
    requires
        !state.overwhelm.active,
        !is_excessive(config, first) && !is_both_loud(config, first) && is_left_dominant(
            config,
            first,
        ),
        !is_excessive(config, second) && !is_both_loud(config, second) && is_left_dominant(
            config,
            second,
        ),
        elapsed(first_time, state.left.last_trigger_time) > config.timeout,
        second_time - first_time <= config.timeout,
    ensures
        ({
            let one = engine_step(config, state, first, first_time);
            let two = engine_step(config, one.state, second, second_time);
            one.signals + two.signals == seq![Signal::LeftOn]
        }),
{
    let one = engine_step(config, state, first, first_time);
    let two = engine_step(config, one.state, second, second_time);
    assert(one.signals + two.signals =~= seq![Signal::LeftOn]);
}

/// A block that switches an ear on leaves it perked, with the block's time
/// as its last trigger.
pub proof fn switched_on_at(config: &Config, state: EngineState, sample: LoudnessSample, now: u64)
    ensures
        engine_step(config, state, sample, now).signals.contains(Signal::LeftOn) ==> engine_step(
            config,
            state,
            sample,
            now,
        ).state.left == (ChannelState { perked: true, last_trigger_time: now }),
        engine_step(config, state, sample, now).signals.contains(Signal::RightOn) ==> engine_step(
            config,
            state,
            sample,
            now,
        ).state.right == (ChannelState { perked: true, last_trigger_time: now }),
{
}

/// An ear is switched off only if it was on, and only by a block that comes
/// more than `reset_timeout` after the ear's last trigger.
pub proof fn off_needs_reset_timeout(
    config: &Config,
    state: EngineState,
    sample: LoudnessSample,
    now: u64,
)
    ensures
        engine_step(config, state, sample, now).signals.contains(Signal::LeftOff) ==> state.left.perked
            && elapsed(now, state.left.last_trigger_time) > config.reset_timeout,
        engine_step(config, state, sample, now).signals.contains(Signal::RightOff)
            ==> state.right.perked && elapsed(now, state.right.last_trigger_time)
            > config.reset_timeout,
{
}

/// Reset latency. An ear that a block has switched on is still on, and no
/// "off" has gone out for it, after any block that comes no more than
/// `reset_timeout` later, even a silent one.
pub proof fn reset_latency(
    config: &Config,
    state: EngineState,
    first: LoudnessSample,
    first_time: u64,
    second: LoudnessSample,
    second_time: u64,
)
    requires
        second_time - first_time <= config.reset_timeout,
    ensures
        ({
            let one = engine_step(config, state, first, first_time);
            let two = engine_step(config, one.state, second, second_time);
            &&& one.signals.contains(Signal::LeftOn) ==> two.state.left.perked
                && !two.signals.contains(Signal::LeftOff)
            &&& one.signals.contains(Signal::RightOn) ==> two.state.right.perked
                && !two.signals.contains(Signal::RightOff)
        }),
{
    let one = engine_step(config, state, first, first_time);
    switched_on_at(config, state, first, first_time);
    off_needs_reset_timeout(config, one.state, second, second_time);
}

/// Both-channel precedence. A block that is both-loud is handled by the
/// both-loud branch alone, also where one channel leads the other by more
/// than the differential threshold: either both ears are switched on
/// together, left before right, or nothing happens.
pub proof fn both_loud_takes_precedence(
    config: &Config,
    left: ChannelState,
    right: ChannelState,
    sample: LoudnessSample,
    now: u64,
)
    requires
        is_both_loud(config, sample),
    ensures
        ({
            let step = perk_step(config, left, right, sample, now);
            let ready = elapsed(now, left.last_trigger_time) > config.timeout && elapsed(
                now,
                right.last_trigger_time,
            ) > config.timeout;
            &&& ready ==> step.signals == seq![Signal::LeftOn, Signal::RightOn]
            &&& ready ==> step.left == (ChannelState { perked: true, last_trigger_time: now })
            &&& ready ==> step.right == (ChannelState { perked: true, last_trigger_time: now })
            &&& !ready ==> step.signals == Seq::<Signal>::empty()
            &&& !ready ==> step.left == left && step.right == right
        }),
{
}

/// A block on which no branch but the quiet one can act.
pub open spec fn is_quiet(config: &Config, sample: LoudnessSample) -> bool {
    &&& !is_excessive(config, sample)
    &&& !is_both_loud(config, sample)
    &&& !is_left_dominant(config, sample)
    &&& !is_right_dominant(config, sample)
}

/// Nothing is on: neither ear is perked and overwhelm is not active.
pub open spec fn is_at_rest(state: EngineState) -> bool {
    !state.left.perked && !state.right.perked && !state.overwhelm.active
}

/// A block whose levels lie at or below the volume threshold and below the
/// excessive threshold is quiet.
pub proof fn below_thresholds_is_quiet(config: &Config, sample: LoudnessSample)
    requires
        sample.left <= config.volume_threshold,
        sample.right <= config.volume_threshold,
        sample.left < config.excessive_volume_threshold,
        sample.right < config.excessive_volume_threshold,
    ensures
        is_quiet(config, sample),
{
}

/// The engine's state after a run of blocks of one and the same loudness,
/// taken at the times `times` in turn.
pub open spec fn state_after(
    config: &Config,
    state: EngineState,
    sample: LoudnessSample,
    times: Seq<u64>,
) -> EngineState
    decreases times.len(),
{
    if times.len() == 0 {
        state
    } else {
        engine_step(
            config,
            state_after(config, state, sample, times.drop_last()),
            sample,
            times.last(),
        ).state
    }
}

/// Every signal sent during such a run.
pub open spec fn signals_during(
    config: &Config,
    state: EngineState,
    sample: LoudnessSample,
    times: Seq<u64>,
) -> Seq<Signal>
    decreases times.len(),
{
    if times.len() == 0 {
        Seq::<Signal>::empty()
    } else {
        signals_during(config, state, sample, times.drop_last()) + engine_step(
            config,
            state_after(config, state, sample, times.drop_last()),
            sample,
            times.last(),
        ).signals
    }
}

/// Silence is a fixed point. A quiet block that meets an engine at rest
/// sends nothing and changes nothing but the published loudness.
pub proof fn silence_is_stable(config: &Config, state: EngineState, sample: LoudnessSample, now: u64)
    requires
        is_at_rest(state),
        is_quiet(config, sample),
    ensures
        engine_step(config, state, sample, now).signals == Seq::<Signal>::empty(),
        engine_step(config, state, sample, now).state == (EngineState { volume: sample, ..state }),
{
    let step = engine_step(config, state, sample, now);
    assert(step.signals =~= Seq::<Signal>::empty());
}

/// Idempotence. However often a quiet loudness is fed to an engine at rest,
/// and at whatever times, no signal is ever sent and the engine stays at rest.
pub proof fn repeated_silence_sends_nothing(
    config: &Config,
    state: EngineState,
    sample: LoudnessSample,
    times: Seq<u64>,
)
    requires
        is_at_rest(state),
        is_quiet(config, sample),
    ensures
        signals_during(config, state, sample, times) == Seq::<Signal>::empty(),
        is_at_rest(state_after(config, state, sample, times)),
        times.len() > 0 ==> state_after(config, state, sample, times) == (EngineState {
            volume: sample,
            ..state
        }),
    decreases times.len(),
{
    if times.len() > 0 {
        let before = state_after(config, state, sample, times.drop_last());
        repeated_silence_sends_nothing(config, state, sample, times.drop_last());
        silence_is_stable(config, before, sample, times.last());
        assert(signals_during(config, state, sample, times) =~= Seq::<Signal>::empty());
    }
}

} // verus!
