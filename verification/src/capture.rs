//! The capture-side sample buffer: samples accumulate at the device's
//! native configuration while a stream is live, and normalization to the
//! fixed target format happens once, at stop time.
//!
//! The device stream itself lives outside the core; its callback hands
//! chunks of interleaved samples to `push_samples`, and dropping the
//! stream stops the hardware.

use vstd::prelude::*;
use crate::audio::mono_len_spec;
use crate::audio::quiet_spec;
use crate::audio::resample_to_mono;
use crate::audio::resample_to_mono_spec;
use crate::audio::resampled_len_spec;
use crate::audio::sample_vals;
use crate::audio::is_quiet;
use crate::audio::TARGET_SAMPLE_RATE;

verus! {

/// What a stopped capture hands over: the normalized samples, and
/// whether their energy is low enough to warrant a warning (a valid
/// input still — silence is for inference to refuse).
pub struct CaptureResult {
    pub samples: Vec<i16>,
    pub quiet_warning: bool,
}

/// The recorder: an append-only buffer at the device's native format.
pub struct AudioRecorder {
    active: bool,
    buffer: Vec<i16>,
    native_sample_rate: u32,
    native_channels: usize,
}

impl AudioRecorder {
    /// Whether a capture stream is live.
    pub closed spec fn is_active(self) -> bool {
        self.active
    }

    /// The raw samples accumulated so far.
    pub closed spec fn raw_buffer(self) -> Seq<i16> {
        self.buffer@
    }

    /// The device rate the buffer was captured at.
    pub closed spec fn rate(self) -> u32 {
        self.native_sample_rate
    }

    /// The device channel count the buffer was captured at.
    pub closed spec fn channels(self) -> int {
        self.native_channels as int
    }

    /// A fresh recorder: no stream, an empty buffer, and a conservative
    /// default configuration until a stream reports the real one.
    pub fn new() -> (r: Self)
        ensures
            !r.is_active(),
            r.raw_buffer() == Seq::<i16>::empty(),
            r.rate() == 44100,
            r.channels() == 1,
    {
        AudioRecorder {
            active: false,
            buffer: Vec::new(),
            native_sample_rate: 44100,
            native_channels: 1,
        }
    }

    /// Begin a capture at the device's native configuration: any prior
    /// buffer is dropped.  The caller opens the device stream and feeds
    /// `push_samples` from its callback.
    pub fn start(&mut self, native_sample_rate: u32, native_channels: usize)
        requires
            native_sample_rate >= 1,
        ensures
            final(self).is_active(),
            final(self).raw_buffer() == Seq::<i16>::empty(),
            final(self).rate() == native_sample_rate,
            final(self).channels() == native_channels as int,
    {
        self.buffer.clear();
        self.native_sample_rate = native_sample_rate;
        self.native_channels = native_channels;
        self.active = true;
    }

    /// Append one chunk of interleaved samples from the stream callback.
    pub fn push_samples(&mut self, chunk: &[i16])
        requires
            old(self).raw_buffer().len() + chunk@.len() <= usize::MAX,
        ensures
            final(self).raw_buffer() == old(self).raw_buffer() + chunk@,
            final(self).is_active() == old(self).is_active(),
            final(self).rate() == old(self).rate(),
            final(self).channels() == old(self).channels(),
    {
        self.buffer.extend_from_slice(chunk);
    }

    /// Whether a capture stream is live.
    pub fn is_recording(&self) -> (r: bool)
        ensures
            r == self.is_active(),
    {
        self.active
    }

    /// How many raw samples the buffer holds.
    pub fn buffer_len(&self) -> (r: usize)
        ensures
            r == self.raw_buffer().len(),
    {
        self.buffer.len()
    }

    /// Stop the capture: the buffer is taken and cleared, normalized to
    /// one channel at the target rate, and checked for low volume.
    pub fn stop(&mut self) -> (r: CaptureResult)
        requires
            old(self).rate() >= 1,
            resampled_len_spec(
                mono_len_spec(old(self).raw_buffer().len() as int, old(self).channels()),
                old(self).rate() as int,
                TARGET_SAMPLE_RATE as int,
            ) <= usize::MAX,
        ensures
            !final(self).is_active(),
            final(self).raw_buffer() == Seq::<i16>::empty(),
            final(self).rate() == old(self).rate(),
            final(self).channels() == old(self).channels(),
            sample_vals(r.samples@) == resample_to_mono_spec(
                old(self).raw_buffer(),
                old(self).rate() as int,
                old(self).channels(),
                TARGET_SAMPLE_RATE as int,
            ),
            r.quiet_warning == quiet_spec(r.samples@),
    {
        self.active = false;
        let mut raw: Vec<i16> = Vec::new();
        core::mem::swap(&mut raw, &mut self.buffer);
        let samples = resample_to_mono(
            &raw,
            self.native_sample_rate,
            self.native_channels,
            TARGET_SAMPLE_RATE,
        );
        let quiet_warning = is_quiet(&samples);
        CaptureResult { samples, quiet_warning }
    }
}

} // verus!
