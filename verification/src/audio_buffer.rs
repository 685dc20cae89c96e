//! Interleaved multi-channel audio.
//!
//! A sample is held as the bit pattern of its IEEE 754 single-precision value
//! (`f32::to_bits`); every operation here moves samples without reading them
//! as numbers, so the bits stand for the sample exactly.

use crate::error::CoreError;
use vstd::prelude::*;
use vstd::string::StringExecFns;

verus! {

/// A block of interleaved samples with its channel count and sample rate.
#[derive(Debug, Clone, PartialEq)]
pub struct AudioBuffer {
    samples: Vec<u32>,
    channels: u16,
    sample_rate: u32,
}

/// Why `AudioBuffer::new` refuses its arguments, if it does: the message of
/// the `InvalidAudioBuffer` error.
pub open spec fn buffer_rejection(len: nat, channels: u16, sample_rate: u32) -> Option<Seq<char>> {
    if channels == 0 {
        Some("Channels must be > 0"@)
    } else if sample_rate == 0 {
        Some("Sample rate must be > 0"@)
    } else if len % (channels as nat) != 0 {
        Some("Sample count is not aligned with channel count"@)
    } else {
        None
    }
}

impl AudioBuffer {
    /// The samples, interleaved frame by frame.
    pub closed spec fn sample_bits(&self) -> Seq<u32> {
        self.samples@
    }

    /// The number of channels.
    pub closed spec fn channel_count(&self) -> u16 {
        self.channels
    }

    /// The sample rate in Hz.
    pub closed spec fn rate(&self) -> u32 {
        self.sample_rate
    }

    /// Well-formed: the samples fill whole frames, one sample per channel;
    /// a buffer without channels holds no samples.
    pub open spec fn wf(&self) -> bool {
        if self.channel_count() == 0 {
            self.sample_bits().len() == 0
        } else {
            self.sample_bits().len() % (self.channel_count() as nat) == 0
        }
    }

    /// The number of frames, where the buffer has channels.
    pub open spec fn frames(&self) -> nat {
        self.sample_bits().len() / (self.channel_count() as nat)
    }

    /// A buffer of `samples` with `channels` channels at `sample_rate` Hz.
    /// Refused (with the message of [`buffer_rejection`]) when there are no
    /// channels, when the rate is 0, or when the samples do not fill whole
    /// frames.
    pub fn new(samples: Vec<u32>, channels: u16, sample_rate: u32) -> (r: Result<Self, CoreError>)
        ensures
            match buffer_rejection(samples@.len(), channels, sample_rate) {
                Some(message) => r matches Err(CoreError::InvalidAudioBuffer(m)) && m@ == message,
                None => r matches Ok(b) && b.wf() && b.sample_bits() == samples@ && b.channel_count()
                    == channels && b.rate() == sample_rate,
            },
    {
        if channels == 0 {
            return Err(CoreError::InvalidAudioBuffer(String::from_str("Channels must be > 0")));
        }
        if sample_rate == 0 {
            return Err(CoreError::InvalidAudioBuffer(String::from_str("Sample rate must be > 0")));
        }
        if samples.len() % (channels as usize) != 0 {
            return Err(
                CoreError::InvalidAudioBuffer(
                    String::from_str("Sample count is not aligned with channel count"),
                ),
            );
        }
        Ok(Self { samples, channels, sample_rate })
    }

    /// `frame_count` frames of silence (every sample `+0.0`, whose bits are
    /// all zero). The channel count and rate are taken as given.
    pub fn silence(frame_count: usize, channels: u16, sample_rate: u32) -> (b: Self)
        requires
            frame_count * channels <= usize::MAX,
        ensures
            b.wf(),
            b.sample_bits() == Seq::new((frame_count * channels) as nat, |i: int| 0u32),
            b.channel_count() == channels,
            b.rate() == sample_rate,
    {
        let total = frame_count * (channels as usize);
        let mut samples: Vec<u32> = Vec::new();
        while samples.len() < total
            invariant
                samples.len() <= total,
                samples@ == Seq::new(samples.len() as nat, |i: int| 0u32),
            decreases total - samples.len(),
        {
            samples.push(0);
        }
        proof {
            if channels > 0 {
                vstd::arithmetic::div_mod::lemma_mod_multiples_basic(
                    frame_count as int,
                    channels as int,
                );
            }
        }
        Self { samples, channels, sample_rate }
    }

    /// The samples, interleaved frame by frame.
    pub fn samples(&self) -> (r: &[u32])
        ensures
            r@ == self.sample_bits(),
    {
        self.samples.as_slice()
    }

    /// The samples, to be changed in place; their number cannot change.
    pub fn samples_mut(&mut self) -> (r: &mut [u32])
        ensures
            r@ == old(self).sample_bits(),
            final(self).sample_bits() == final(r)@,
            final(self).channel_count() == old(self).channel_count(),
            final(self).rate() == old(self).rate(),
    {
        self.samples.as_mut_slice()
    }

    /// The number of channels.
    pub fn channels(&self) -> (r: u16)
        ensures
            r == self.channel_count(),
    {
        self.channels
    }

    /// The sample rate in Hz.
    pub fn sample_rate(&self) -> (r: u32)
        ensures
            r == self.rate(),
    {
        self.sample_rate
    }

    /// The number of frames: samples divided by channels.
    pub fn frame_count(&self) -> (r: usize)
        requires
            self.channel_count() > 0,
        ensures
            r == self.frames(),
            self.wf() ==> r * self.channel_count() == self.sample_bits().len(),
    {
        proof {
            let n = self.samples@.len() as int;
            let c = self.channels as int;
            vstd::arithmetic::div_mod::lemma_fundamental_div_mod(n, c);
            vstd::arithmetic::mul::lemma_mul_is_commutative(c, n / c);
        }
        self.samples.len() / (self.channels as usize)
    }
}

} // verus!
