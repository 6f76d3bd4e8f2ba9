//! The rate adaptation engine: the state machine that keeps buffered latency
//! bounded.
//!
//! On every requested output frame the engine compares the jitter buffer's
//! occupancy with the pull size and decides whether to play the next queued
//! sample (`ChuggingAlong`), stretch by re-emitting the previous sample every
//! other frame (`PlaySlower`), compress by dropping one extra sample per
//! frame (`PlayFaster`), or hold the last sample without touching the buffer
//! (`Stopped`). Thresholds are ratios of occupancy to pull size, held in
//! thousandths so that the comparisons are exact integer arithmetic. Between
//! the slow and fast thresholds a hysteresis band around one keeps the mode
//! from oscillating: inside the band the engine returns to normal playback,
//! outside all thresholds it keeps its current mode.

use vstd::prelude::*;

use crate::buffer::JitterBuffer;
use crate::convert::MAX_CHANNELS;
use crate::convert::MultichannelSample;
use crate::convert::silent_sample;

verus! {

/// What the engine does with the next output frame.
#[derive(Clone, Copy, Debug, PartialEq, Eq, Structural)]
pub enum OutputMode {
    /// Nothing is buffered: hold the last sample and wait.
    Stopped,
    /// Normal one-to-one playback.
    ChuggingAlong,
    /// Stretch playback by re-emitting the previous sample every other frame.
    PlaySlower,
    /// Compress playback by dropping one extra sample per frame.
    PlayFaster,
}

/// The adaptation settings: the target queued-sample count and the three
/// rate thresholds, each a ratio in thousandths.
#[derive(Clone, Copy, Debug, PartialEq, Eq, Structural)]
pub struct Config {
    /// Target number of queued samples; a session's jitter buffer holds up
    /// to ten times this.
    pub samples_buffered: usize,
    /// Below this ratio of occupancy to pull size, playback slows.
    pub slower_playback_threshold: u32,
    /// Above this ratio of occupancy to pull size, playback speeds up.
    pub faster_playback_threshold: u32,
    /// The hysteresis band around one: strictly inside it playback returns
    /// to normal.
    pub normal_playback_threshold: u32,
}

impl Config {
    /// The buffer capacity derived from the target must fit the platform.
    pub open spec fn wf(&self) -> bool {
        self.samples_buffered * 10 <= usize::MAX
    }
}

impl Default for Config {
    /// The stock settings: a 2048-sample target, slow below half the pull
    /// size, speed up above twice it, and a ten-percent hysteresis band.
    fn default() -> (r: Config)
        ensures
            r.samples_buffered == 2048,
            r.slower_playback_threshold == 500,
            r.faster_playback_threshold == 2000,
            r.normal_playback_threshold == 1100,
            r.wf(),
    {
        Config {
            samples_buffered: 2048,
            slower_playback_threshold: 500,
            faster_playback_threshold: 2000,
            normal_playback_threshold: 1100,
        }
    }
}

/// The pull size the engine adapts against: the device's request, but never
/// less than the configured target.
pub open spec fn spec_effective_request(config: Config, requested: int) -> int {
    vstd::math::max(config.samples_buffered as int, requested)
}

/// The mode transition function. In order: an empty buffer always stops;
/// a stopped engine starts once the occupancy exceeds the request; below
/// the slow threshold playback slows, above the fast threshold it speeds
/// up; strictly inside the hysteresis band around one it returns to normal;
/// otherwise the current mode is kept.
pub open spec fn spec_output_mode(
    current: OutputMode,
    requested: int,
    available: int,
    config: Config,
) -> OutputMode {
    if available == 0 {
        OutputMode::Stopped
    } else if current == OutputMode::Stopped && available > requested {
        OutputMode::ChuggingAlong
    } else if available * 1000 < requested * config.slower_playback_threshold {
        OutputMode::PlaySlower
    } else if available * 1000 > requested * config.faster_playback_threshold {
        OutputMode::PlayFaster
    } else if requested * 1000 < available * config.normal_playback_threshold && available * 1000
        < requested * config.normal_playback_threshold {
        OutputMode::ChuggingAlong
    } else {
        current
    }
}

/// Decides the mode for one output frame from the current mode, the pull
/// size, and the buffer occupancy.
pub fn get_output_mode(
    current_output_mode: OutputMode,
    samples_requested: usize,
    samples_available: usize,
    config: &Config,
) -> (r: OutputMode)
    ensures
        r == spec_output_mode(
            current_output_mode,
            samples_requested as int,
            samples_available as int,
            *config,
        ),
{
    if samples_available == 0 {
        return OutputMode::Stopped;
    }
    if current_output_mode == OutputMode::Stopped && samples_available > samples_requested {
        return OutputMode::ChuggingAlong;
    }
    let avail = samples_available as u128;
    let req = samples_requested as u128;
    proof {
        lemma_request_product_fits(req, config.slower_playback_threshold as u128);
        lemma_request_product_fits(req, config.faster_playback_threshold as u128);
        lemma_request_product_fits(req, config.normal_playback_threshold as u128);
        lemma_request_product_fits(avail, config.normal_playback_threshold as u128);
    }
    if avail * 1000 < req * (config.slower_playback_threshold as u128) {
        return OutputMode::PlaySlower;
    }
    if avail * 1000 > req * (config.faster_playback_threshold as u128) {
        return OutputMode::PlayFaster;
    }
    if req * 1000 < avail * (config.normal_playback_threshold as u128) && avail * 1000 < req * (
    config.normal_playback_threshold as u128) {
        return OutputMode::ChuggingAlong;
    }
    current_output_mode
}

/// A pull size times a threshold in thousandths stays well inside 128 bits.
proof fn lemma_request_product_fits(a: u128, b: u128)
    requires
        a <= u64::MAX,
        b <= u32::MAX,
    ensures
        a * b <= u64::MAX * u32::MAX,
{
    assert(a * b <= u64::MAX * u32::MAX) by (nonlinear_arith)
        requires
            a <= u64::MAX,
            b <= u32::MAX,
    ;
}

/// The error of a pop on an empty buffer during playback.
#[derive(Clone, Copy, Debug)]
pub struct NoSamplesInBufferError;

/// Whether this frame re-emits the held sample without touching the buffer:
/// always when stopped, and on even iterations when playing slower.
pub open spec fn spec_holds_last(mode: OutputMode, iteration: u64) -> bool {
    mode == OutputMode::Stopped || (mode == OutputMode::PlaySlower && iteration % 2 == 0)
}

/// Whether this frame pops exactly one sample: normal playback, and the odd
/// iterations of slowed playback.
pub open spec fn spec_pops_one(mode: OutputMode, iteration: u64) -> bool {
    mode == OutputMode::ChuggingAlong || (mode == OutputMode::PlaySlower && iteration % 2 != 0)
}

/// Fetches the sample one output frame emits under the given mode: the held
/// sample when stopped or stretching, the oldest queued sample in normal
/// playback, the second-oldest (dropping the first) when compressing. A pop
/// on an empty buffer reports underrun instead of a sample.
pub fn get_sample(
    output_mode: OutputMode,
    buffer: &mut JitterBuffer,
    last_sample: &MultichannelSample,
    iteration: u64,
) -> (r: Result<MultichannelSample, NoSamplesInBufferError>)
    ensures
        spec_holds_last(output_mode, iteration) ==> r == Ok::<
            MultichannelSample,
            NoSamplesInBufferError,
        >(*last_sample) && final(buffer)@ =~= old(buffer)@,
        spec_pops_one(output_mode, iteration) && old(buffer)@.len() > 0 ==> r == Ok::<
            MultichannelSample,
            NoSamplesInBufferError,
        >(old(buffer)@[0]) && final(buffer)@ =~= old(buffer)@.skip(1),
        spec_pops_one(output_mode, iteration) && old(buffer)@.len() == 0 ==> r is Err && final(buffer)@ =~= old(buffer)@,
        output_mode == OutputMode::PlayFaster && old(buffer)@.len() >= 2 ==> r == Ok::<
            MultichannelSample,
            NoSamplesInBufferError,
        >(old(buffer)@[1]) && final(buffer)@ =~= old(buffer)@.skip(2),
        output_mode == OutputMode::PlayFaster && old(buffer)@.len() < 2 ==> r is Err && final(buffer)@ =~= old(buffer)@.skip(vstd::math::min(old(buffer)@.len() as int, 1)),
        final(buffer).spec_capacity() == old(buffer).spec_capacity(),
        old(buffer).inv() ==> final(buffer).inv(),
{
    match output_mode {
        OutputMode::Stopped => Ok(*last_sample),
        OutputMode::ChuggingAlong => {
            match buffer.pop() {
                Some(s) => Ok(s),
                None => Err(NoSamplesInBufferError),
            }
        },
        OutputMode::PlayFaster => {
            // drop one extra sample to shorten the queued latency
            match buffer.pop() {
                Some(_) => (),
                None => {
                    return Err(NoSamplesInBufferError);
                },
            }
            match buffer.pop() {
                Some(s) => Ok(s),
                None => Err(NoSamplesInBufferError),
            }
        },
        OutputMode::PlaySlower => {
            // half of the time, return the previous sample instead
            if iteration % 2 == 0 {
                Ok(*last_sample)
            } else {
                match buffer.pop() {
                    Some(s) => Ok(s),
                    None => Err(NoSamplesInBufferError),
                }
            }
        },
    }
}

/// The iteration counter after one more frame; the count wraps rather than
/// growing without bound, and the wrap keeps the parity alternating.
pub open spec fn spec_next_iteration(iteration: u64) -> u64 {
    if iteration == u64::MAX {
        0
    } else {
        (iteration + 1) as u64
    }
}

/// The sample one frame emits: the held sample where the mode holds it or
/// where the buffer runs dry, otherwise the queued sample the mode selects.
pub open spec fn spec_emitted_sample(
    mode: OutputMode,
    buf: Seq<MultichannelSample>,
    last: MultichannelSample,
    iteration: u64,
) -> MultichannelSample {
    if spec_holds_last(mode, iteration) {
        last
    } else if mode == OutputMode::PlayFaster {
        if buf.len() >= 2 {
            buf[1]
        } else {
            last
        }
    } else {
        if buf.len() >= 1 {
            buf[0]
        } else {
            last
        }
    }
}

/// The queue after one frame: untouched where the mode holds the last
/// sample, otherwise shortened by what the mode consumed.
pub open spec fn spec_buffer_after(
    mode: OutputMode,
    buf: Seq<MultichannelSample>,
    iteration: u64,
) -> Seq<MultichannelSample> {
    if spec_holds_last(mode, iteration) {
        buf
    } else if mode == OutputMode::PlayFaster {
        buf.skip(vstd::math::min(buf.len() as int, 2))
    } else {
        buf.skip(vstd::math::min(buf.len() as int, 1))
    }
}

/// The per-session playback state the audio callback carries across frames:
/// the current mode, the frame counter whose parity drives slowed playback,
/// and the last emitted sample for hold and underrun masking.
#[derive(Clone, Copy)]
pub struct RateAdapter {
    /// The engine's current mode.
    pub output_mode: OutputMode,
    /// Counts the output frames handed to the device so far.
    pub iteration: u64,
    /// The most recently emitted sample; re-emitted on hold and underrun.
    pub last_sample: MultichannelSample,
}

/// A fresh adapter's state: stopped, at iteration zero, holding silence.
pub open spec fn spec_fresh_adapter(a: RateAdapter) -> bool {
    &&& a.output_mode == OutputMode::Stopped
    &&& a.iteration == 0
    &&& a.last_sample@ =~= Seq::new(MAX_CHANNELS as nat, |ch: int| 0i32)
}

impl RateAdapter {
    /// A fresh engine: stopped, at iteration zero, holding silence.
    pub fn new() -> (r: RateAdapter)
        ensures
            spec_fresh_adapter(r),
    {
        RateAdapter { output_mode: OutputMode::Stopped, iteration: 0, last_sample: silent_sample() }
    }

    /// Produces the sample for one output frame: advance the frame counter,
    /// re-decide the mode from the occupancy and the pull size (never taken
    /// below the configured target), fetch the sample that mode selects, and
    /// mask underrun with the last emitted sample. The emitted sample
    /// becomes the held one.
    pub fn next_frame(
        &mut self,
        buffer: &mut JitterBuffer,
        samples_requested: usize,
        config: &Config,
    ) -> (r: MultichannelSample)
        ensures
            ({
                let iter = spec_next_iteration(old(self).iteration);
                let mode = spec_output_mode(
                    old(self).output_mode,
                    spec_effective_request(*config, samples_requested as int),
                    old(buffer)@.len() as int,
                    *config,
                );
                &&& final(self).output_mode == mode
                &&& final(self).iteration == iter
                &&& r == spec_emitted_sample(mode, old(buffer)@, old(self).last_sample, iter)
                &&& final(self).last_sample == r
                &&& final(buffer)@ =~= spec_buffer_after(mode, old(buffer)@, iter)
            }),
            final(buffer).spec_capacity() == old(buffer).spec_capacity(),
            old(buffer).inv() ==> final(buffer).inv(),
    {
        let iteration = if self.iteration == u64::MAX {
            0
        } else {
            self.iteration + 1
        };
        self.iteration = iteration;
        let necessary_buffer_size = if config.samples_buffered > samples_requested {
            config.samples_buffered
        } else {
            samples_requested
        };
        let new_output_mode = get_output_mode(
            self.output_mode,
            necessary_buffer_size,
            buffer.len(),
            config,
        );
        self.output_mode = new_output_mode;
        let sample = match get_sample(new_output_mode, buffer, &self.last_sample, iteration) {
            Ok(s) => s,
            Err(NoSamplesInBufferError) => self.last_sample,
        };
        self.last_sample = sample;
        sample
    }
}

/// In slowed playback, holding the previous sample and popping a fresh one
/// strictly alternate frame by frame: of any two consecutive iterations,
/// exactly one holds and exactly one pops, even across the counter wrap.
pub proof fn lemma_play_slower_alternates(iteration: u64)
    ensures
        spec_holds_last(OutputMode::PlaySlower, iteration) != spec_holds_last(
            OutputMode::PlaySlower,
            spec_next_iteration(iteration),
        ),
        spec_holds_last(OutputMode::PlaySlower, iteration) == !spec_pops_one(
            OutputMode::PlaySlower,
            iteration,
        ),
{
}

} // verus!
