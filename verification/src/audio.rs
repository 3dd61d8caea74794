//! The processor that a capture loop drives: the latest loudness and the
//! engine's state, advanced by one block at a time.

use vstd::prelude::*;
use std::collections::VecDeque;
use crate::config::Config;
use crate::process::{
    block_loudness, calculate_avg_lr, engine_step, frame_count, initial_state,
    process_vol_overwhelm, process_vol_perk_and_reset, ChannelState, EngineState, LoudnessSample,
    OverwhelmState, Signal, FRAME_BYTES,
};

verus! {

/// What the capture loop is to do once an iteration is through.
#[derive(Clone, Copy, Debug, PartialEq, Eq, Structural)]
pub enum LoopControl {
    /// Wait for the next block.
    Continue,
    /// Stop the stream, release the device and leave the loop.
    StopStream,
}

/// What one iteration of the capture loop decides.
pub struct Iteration {
    /// The signals to send, in this order.
    pub signals: Vec<Signal>,
    /// Whether the loop goes on.
    pub control: LoopControl,
}

/// One iteration of the capture loop as a transition function.
pub struct IterationStep {
    pub state: EngineState,
    pub queued: Seq<u8>,
    pub signals: Seq<Signal>,
    pub control: LoopControl,
}

/// One iteration of the capture loop.
///
/// A failed wait ends the loop at once and touches nothing. Otherwise all
/// whole frames that are queued are folded into one loudness pair, which is
/// published and fed to the engine; without a whole frame nothing happens.
/// The loop then goes on unless it was asked to stop.
pub open spec fn iteration_step(
    config: &Config,
    state: EngineState,
    queued: Seq<u8>,
    wait_succeeded: bool,
    cancelled: bool,
    now: u64,
) -> IterationStep {
    if !wait_succeeded {
        IterationStep {
            state,
            queued,
            signals: Seq::<Signal>::empty(),
            control: LoopControl::StopStream,
        }
    } else {
        let control = if cancelled {
            LoopControl::StopStream
        } else {
            LoopControl::Continue
        };
        if frame_count(queued) == 0 {
            IterationStep { state, queued, signals: Seq::<Signal>::empty(), control }
        } else {
            let step = engine_step(config, state, block_loudness(queued), now);
            IterationStep {
                state: step.state,
                queued: queued.subrange(8 * frame_count(queued) as int, queued.len() as int),
                signals: step.signals,
                control,
            }
        }
    }
}

/// The latest loudness together with the engine's state.
///
/// One capture loop owns and advances it; readers are handed copies of the
/// loudness, never a reference into it.
pub struct AudioProcessor {
    state: EngineState,
}

impl View for AudioProcessor {
    type V = EngineState;

    closed spec fn view(&self) -> EngineState {
        self.state
    }
}

impl AudioProcessor {
    /// A processor that starts at `current_time`.
    pub fn new(current_time: u64) -> (processor: Self)
        ensures
            processor@ == initial_state(current_time),
    {
        AudioProcessor {
            state: EngineState {
                volume: LoudnessSample { left: 0, right: 0 },
                left: ChannelState { perked: false, last_trigger_time: current_time },
                right: ChannelState { perked: false, last_trigger_time: current_time },
                overwhelm: OverwhelmState { active: false, last_trigger_time: current_time },
            },
        }
    }

    /// The left loudness of the latest block.
    pub fn get_last_left_volume(&self) -> (level: u64)
        ensures
            level == self@.volume.left,
    {
        self.state.volume.left
    }

    /// The right loudness of the latest block.
    pub fn get_last_right_volume(&self) -> (level: u64)
        ensures
            level == self@.volume.right,
    {
        self.state.volume.right
    }

    /// A copy of the engine's whole state.
    pub fn snapshot(&self) -> (state: EngineState)
        ensures
            state == self@,
    {
        self.state
    }

    /// Publishes the loudness of one block and runs the engine on it.
    ///
    /// Returns the signals to send, in the order in which they are to be sent.
    pub fn process_block(&mut self, config: &Config, sample: LoudnessSample, current_time: u64) -> (signals:
        Vec<Signal>)
        ensures
            final(self)@ == engine_step(config, old(self)@, sample, current_time).state,
            signals@ == engine_step(config, old(self)@, sample, current_time).signals,
    {
        self.state.volume = sample;
        let first = process_vol_overwhelm(
            config,
            sample.left,
            sample.right,
            &mut self.state.overwhelm,
            current_time,
        );
        let mut signals: Vec<Signal> = Vec::new();
        if let Some(signal) = first {
            signals.push(signal);
        }
        if !self.state.overwhelm.active {
            let mut rest = process_vol_perk_and_reset(
                config,
                &mut self.state.left,
                &mut self.state.right,
                sample.left,
                sample.right,
                current_time,
            );
            signals.append(&mut rest);
        }
        proof {
            assert(signals@ =~= engine_step(config, old(self)@, sample, current_time).signals);
        }
        signals
    }

    /// Runs one iteration of the capture loop, after the wait for the device
    /// has returned and what the device had ready has been queued.
    ///
    /// `wait_succeeded` says whether the wait ended with data signalled,
    /// `cancelled` whether the loop has been asked to stop.
    pub fn capture_iteration(
        &mut self,
        config: &Config,
        sample_queue: &mut VecDeque<u8>,
        wait_succeeded: bool,
        cancelled: bool,
        current_time: u64,
    ) -> (iteration: Iteration)
        ensures
            (IterationStep {
                state: final(self)@,
                queued: final(sample_queue)@,
                signals: iteration.signals@,
                control: iteration.control,
            }) == iteration_step(
                config,
                old(self)@,
                old(sample_queue)@,
                wait_succeeded,
                cancelled,
                current_time,
            ),
    {
        if !wait_succeeded {
            return Iteration { signals: Vec::new(), control: LoopControl::StopStream };
        }
        let control = if cancelled {
            LoopControl::StopStream
        } else {
            LoopControl::Continue
        };
        if sample_queue.len() < FRAME_BYTES {
            return Iteration { signals: Vec::new(), control };
        }
        let (left, right) = calculate_avg_lr(sample_queue, 2);
        let signals = self.process_block(config, LoudnessSample { left, right }, current_time);
        Iteration { signals, control }
    }
}

} // verus!
