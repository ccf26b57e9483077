//! The host's bookkeeping around the plugin's realtime processing call.
//!
//! The plugin's process entry point is called by the worker; this module
//! decides whether a block may be handed to it, and keeps the steady clock:
//! the number of frames processed since the last restart.

use vstd::prelude::*;

verus! {

/// The frame limits of one activation. A block is accepted when its frame
/// count lies strictly between the two.
#[derive(Clone, Copy, Debug, PartialEq, Eq, Structural)]
pub struct AudioConfiguration {
    pub min_frames_count: u32,
    pub max_frames_count: u32,
}

/// Why a block of audio was refused.
#[derive(Clone, Copy, Debug, PartialEq, Eq, Structural)]
pub enum ProcessError {
    /// The two channels differ in length.
    ChannelLengthMismatch,
    /// The block has `max_frames_count` frames or more.
    TooManyFrames,
    /// The block has `min_frames_count` frames or fewer.
    TooFewFrames,
    /// The block does not have exactly two channels.
    NotTwoChannels,
}

/// What the worker hands to the plugin's process entry point besides the
/// buffers: the frame count of the block and the steady clock before it.
#[derive(Clone, Copy, Debug, PartialEq, Eq, Structural)]
pub struct ProcessRequest {
    pub frames: u32,
    pub steady_time: u64,
}

/// The verdict on a block whose two channels hold `left` and `right` frames.
pub open spec fn checked_frames(config: AudioConfiguration, left: nat, right: nat) -> Result<
    u32,
    ProcessError,
> {
    if left != right {
        Err(ProcessError::ChannelLengthMismatch)
    } else if left >= config.max_frames_count {
        Err(ProcessError::TooManyFrames)
    } else if left <= config.min_frames_count {
        Err(ProcessError::TooFewFrames)
    } else {
        Ok(left as u32)
    }
}

/// How many frames each channel of a block holds.
pub open spec fn channel_lengths<S>(input: Seq<Vec<S>>) -> Seq<nat> {
    Seq::new(input.len(), |channel: int| input[channel]@.len())
}

/// The verdict on a block whose channels hold `lengths` frames: a block is
/// two channels, and those are judged by `checked_frames`.
pub open spec fn checked_block(config: AudioConfiguration, lengths: Seq<nat>) -> Result<
    u32,
    ProcessError,
> {
    if lengths.len() != 2 {
        Err(ProcessError::NotTwoChannels)
    } else {
        checked_frames(config, lengths[0], lengths[1])
    }
}

/// The steady clock after the blocks `reports`, one after the other, each
/// with the frames that were reported for it.
pub open spec fn clock_after_all(steady_time: u64, reports: Seq<Option<u32>>) -> u64
    decreases reports.len(),
{
    if reports.len() == 0 {
        steady_time
    } else {
        clock_after(clock_after_all(steady_time, reports.drop_last()), reports.last())
    }
}

/// The reports of `count` blocks of which `n` frames each were reported.
pub open spec fn equal_blocks(n: u32, count: nat) -> Seq<Option<u32>> {
    Seq::new(count, |i: int| Some(n))
}

/// After `count` blocks of `n` frames each, all reported in full, the steady
/// clock has advanced by `count * n`, as long as it does not wrap: a
/// thousand blocks of 512 frames take it from 0 to 512 000.
pub proof fn lemma_equal_blocks_advance_clock(steady_time: u64, n: u32, count: nat)
    requires
        steady_time + count * n <= u64::MAX,
    ensures
        clock_after_all(steady_time, equal_blocks(n, count)) == steady_time + count * n,
        steady_time == 0 && n == 512 && count == 1000 ==> clock_after_all(
            steady_time,
            equal_blocks(n, count),
        ) == 512_000,
    decreases count,
{
    let reports = equal_blocks(n, count);
    if count > 0 {
        let fewer = (count - 1) as nat;
        assert(fewer * n + n == count * n) by (nonlinear_arith)
            requires
                fewer + 1 == count,
        ;
        assert(fewer * n >= 0) by (nonlinear_arith);
        lemma_equal_blocks_advance_clock(steady_time, n, fewer);
        assert(reports.drop_last() =~= equal_blocks(n, fewer));
        assert(reports.last() == Some(n));
        assert(clock_after_all(steady_time, reports) == clock_after(
            clock_after_all(steady_time, reports.drop_last()),
            reports.last(),
        ));
    } else {
        assert(count * n == 0) by (nonlinear_arith)
            requires
                count == 0,
        ;
    }
}

/// The steady clock after a block of which the plugin side reports
/// `reported` frames; no report counts as no frame. The clock is a `u64`
/// and wraps around at its end.
pub open spec fn clock_after(steady_time: u64, reported: Option<u32>) -> u64 {
    let frames: int = match reported {
        Some(n) => n as int,
        None => 0,
    };
    ((steady_time + frames) % 0x1_0000_0000_0000_0000) as u64
}

/// A block is accepted exactly when its channels are equally long and the
/// length lies strictly between the configured limits; the verdict then is
/// that length.
pub proof fn lemma_checked_frames_accepts(config: AudioConfiguration, left: nat, right: nat)
    ensures
        checked_frames(config, left, right) is Ok <==> left == right && config.min_frames_count
            < left < config.max_frames_count,
        checked_frames(config, left, right) matches Ok(frames) ==> frames == left,
{
}

/// Processing a block of `n` frames, for `n` strictly between the limits,
/// advances the steady clock by exactly `n` when `n` frames are reported, and
/// leaves it unchanged when none is. The clock never goes back unless it wraps.
pub proof fn lemma_block_advances_clock(config: AudioConfiguration, steady_time: u64, n: u32)
    requires
        config.min_frames_count < n < config.max_frames_count,
    ensures
        checked_frames(config, n as nat, n as nat) == Ok::<u32, ProcessError>(n),
        steady_time + n <= u64::MAX ==> clock_after(steady_time, Some(n)) == steady_time + n,
        clock_after(steady_time, Some(0)) == steady_time,
        clock_after(steady_time, None) == steady_time,
{
}

/// Without wrap-around the steady clock never decreases.
pub proof fn lemma_clock_is_monotonic(steady_time: u64, reported: Option<u32>)
    requires
        reported matches Some(n) ==> steady_time + n <= u64::MAX,
    ensures
        clock_after(steady_time, reported) >= steady_time,
{
}

/// Allocates the output buffers for a block: as many channels as `input`
/// has, each as long as the input channel it stands for.
pub fn output_buffers<S: Clone>(input: &Vec<Vec<S>>) -> (output: Vec<Vec<S>>)
    ensures
        output@.len() == input@.len(),
        forall|channel: int|
            0 <= channel < input@.len() ==> (#[trigger] output@[channel])@.len()
                == input@[channel]@.len(),
{
    let mut output: Vec<Vec<S>> = Vec::new();
    let mut channel: usize = 0;
    while channel < input.len()
        invariant
            channel <= input@.len(),
            output@.len() == channel,
            forall|c: int|
                0 <= c < channel ==> (#[trigger] output@[c])@.len() == input@[c]@.len(),
        decreases input.len() - channel,
    {
        output.push(input[channel].clone());
        channel += 1;
    }
    output
}

/// The realtime side of a running plugin, as the host sees it.
pub struct AudioProcessor {
    config: AudioConfiguration,
    steady_time: u64,
}

impl AudioProcessor {
    /// The configuration that blocks are checked against.
    pub closed spec fn config_view(&self) -> AudioConfiguration {
        self.config
    }

    /// The steady clock.
    pub closed spec fn clock(&self) -> u64 {
        self.steady_time
    }

    /// A processor at the start of a session: the steady clock is 0.
    pub fn new(config: AudioConfiguration) -> (processor: Self)
        ensures
            processor.config_view() == config,
            processor.clock() == 0,
    {
        Self { config, steady_time: 0 }
    }

    /// The number of frames processed since the last restart.
    pub fn steady_time(&self) -> (steady_time: u64)
        ensures
            steady_time == self.clock(),
    {
        self.steady_time
    }

    /// The configuration of this activation.
    pub fn config(&self) -> (config: AudioConfiguration)
        ensures
            config == self.config_view(),
    {
        self.config
    }

    /// Checks a block whose two channels hold `left` and `right` frames, and
    /// says what to hand to the plugin for it. A block that breaks the
    /// contract is refused with the reason; nothing is changed either way.
    pub fn begin_process(&self, left: usize, right: usize) -> (request: Result<
        ProcessRequest,
        ProcessError,
    >)
        ensures
            match checked_frames(self.config_view(), left as nat, right as nat) {
                Ok(frames) => request == Ok::<ProcessRequest, ProcessError>(
                    ProcessRequest { frames, steady_time: self.clock() },
                ),
                Err(error) => request == Err::<ProcessRequest, ProcessError>(error),
            },
    {
        if left != right {
            Err(ProcessError::ChannelLengthMismatch)
        } else if left >= self.config.max_frames_count as usize {
            Err(ProcessError::TooManyFrames)
        } else if left <= self.config.min_frames_count as usize {
            Err(ProcessError::TooFewFrames)
        } else {
            Ok(ProcessRequest { frames: left as u32, steady_time: self.steady_time })
        }
    }

    /// Checks the block `input`, one buffer for each channel, and says what
    /// to hand to the plugin for it. A block is two channels of equal length
    /// within the limits; any other is refused with the reason. Nothing is
    /// changed either way.
    pub fn begin_block<S>(&self, input: &Vec<Vec<S>>) -> (request: Result<
        ProcessRequest,
        ProcessError,
    >)
        ensures
            match checked_block(self.config_view(), channel_lengths(input@)) {
                Ok(frames) => request == Ok::<ProcessRequest, ProcessError>(
                    ProcessRequest { frames, steady_time: self.clock() },
                ),
                Err(error) => request == Err::<ProcessRequest, ProcessError>(error),
            },
    {
        if input.len() != 2 {
            Err(ProcessError::NotTwoChannels)
        } else {
            self.begin_process(input[0].len(), input[1].len())
        }
    }

    /// Records that the plugin has processed a block: the steady clock
    /// advances by the number of frames reported, or not at all if none is
    /// reported.
    pub fn finish_process(&mut self, reported: Option<u32>)
        ensures
            final(self).clock() == clock_after(old(self).clock(), reported),
            final(self).config_view() == old(self).config_view(),
    {
        let frames: u64 = match reported {
            Some(n) => n as u64,
            None => 0,
        };
        self.steady_time = self.steady_time.wrapping_add(frames);
    }

    /// Records that the processing handle was stopped and started again: the
    /// steady clock starts over at 0. The configuration stays.
    pub fn restart(&mut self)
        ensures
            final(self).clock() == 0,
            final(self).config_view() == old(self).config_view(),
    {
        self.steady_time = 0;
    }
}

} // verus!
