//! The shape of the PCM audio buffers the voice engine delivers.

use vstd::prelude::*;

verus! {

/// The shape of one buffer of PCM audio delivered to an audio callback.
///
/// Samples are interleaved 16-bit signed PCM, so the buffer handed to the
/// callback holds `samples_per_channel * channels` values in total.
#[derive(Debug, Clone, Copy, PartialEq, Eq, Hash, Structural)]
pub struct AudioFrame {
    /// Number of samples per channel in this buffer.
    pub samples_per_channel: u64,
    /// Sample rate in Hz.
    pub sample_rate: i32,
    /// Number of interleaved channels.
    pub channels: u64,
}

impl AudioFrame {
    /// The exact number of samples across all channels, each count taken as a
    /// `usize`.
    pub open spec fn total_samples(self) -> int {
        (self.samples_per_channel as usize) * (self.channels as usize)
    }

    /// Total number of `i16` samples across all channels.
    ///
    /// Saturates at `usize::MAX` rather than overflowing.
    pub fn sample_count(&self) -> (r: usize)
        ensures
            r == (if self.total_samples() <= usize::MAX {
                self.total_samples()
            } else {
                usize::MAX as int
            }),
            self.samples_per_channel <= usize::MAX && self.channels <= usize::MAX ==> r == (if self.samples_per_channel * self.channels <= usize::MAX {
                self.samples_per_channel * self.channels
            } else {
                usize::MAX as int
            }),
    {
        let per_channel = self.samples_per_channel as usize;
        let channels = self.channels as usize;
        match per_channel.checked_mul(channels) {
            Some(total) => total,
            None => usize::MAX,
        }
    }

    /// How many samples the slice handed to an audio handler holds: none when
    /// the voice engine supplied no buffer, otherwise
    /// [`sample_count`](Self::sample_count).
    pub fn buffer_len(&self, has_buffer: bool) -> (r: usize)
        ensures
            !has_buffer ==> r == 0,
            has_buffer ==> r == (if self.total_samples() <= usize::MAX {
                self.total_samples()
            } else {
                usize::MAX as int
            }),
            has_buffer && self.samples_per_channel <= usize::MAX && self.channels <= usize::MAX ==> r
                == (if self.samples_per_channel * self.channels <= usize::MAX {
                self.samples_per_channel * self.channels
            } else {
                usize::MAX as int
            }),
    {
        if has_buffer {
            self.sample_count()
        } else {
            0
        }
    }
}

/// A buffer holds one sample per channel for each of its samples per channel:
/// whenever both counts fit in a `usize`, the total is their product. So a
/// mono frame holds exactly its samples per channel, a frame with no channel
/// holds nothing, and each extra channel adds one more `samples_per_channel`.
pub proof fn lemma_total_is_product(frame: AudioFrame)
    requires
        frame.samples_per_channel <= usize::MAX,
        frame.channels <= usize::MAX,
    ensures
        frame.total_samples() == frame.samples_per_channel * frame.channels,
        frame.channels == 1 ==> frame.total_samples() == frame.samples_per_channel,
        frame.channels == 0 ==> frame.total_samples() == 0,
        frame.channels >= 1 ==> frame.total_samples() == frame.samples_per_channel * (frame.channels - 1)
            + frame.samples_per_channel,
{
    assert(frame.samples_per_channel * (frame.channels - 1) + frame.samples_per_channel
        == frame.samples_per_channel * frame.channels) by (nonlinear_arith);
}

} // verus!
