//! The binary header that starts every UDP audio datagram.
//!
//! Layout (big-endian integers): bytes `0..4` the magic `AMCS`, `4..12` the
//! sequence number, `12..20` the timestamp in microseconds, `20..24` the
//! sample rate, `24..26` the channel count, `26..28` the frame count.

use crate::wire::{
    be_bytes_u16, be_bytes_u32, be_bytes_u64, be_value_u16, be_value_u32, be_value_u64,
    lemma_be_u16_roundtrip, lemma_be_u32_roundtrip, lemma_be_u64_roundtrip, read_be_u16,
    read_be_u32, read_be_u64, write_be_u16, write_be_u32, write_be_u64,
};
use vstd::prelude::*;

verus! {

/// Length of the encoded header in bytes.
pub const HEADER_SIZE: usize = 28;

/// The four bytes that open every header: ASCII `AMCS`.
pub const MAGIC_BYTES: [u8; 4] = [0x41, 0x4d, 0x43, 0x53];

/// Why a header could not be written or read.
#[derive(Debug, PartialEq, Eq)]
pub enum ProtocolError {
    BufferTooSmall { expected: usize, got: usize },
    InvalidMagic,
    UnsupportedFormat(u8),
    Serialization(String),
}

/// Encoding of the samples that follow the header.
#[derive(Debug, Clone, Copy, PartialEq, Eq, Structural)]
pub enum SampleFormat {
    F32Le,
    I16Le,
}

/// The format whose wire code is `value`, if there is one.
pub open spec fn format_from_code(value: u8) -> Result<SampleFormat, ProtocolError> {
    if value == 0 {
        Ok(SampleFormat::F32Le)
    } else if value == 1 {
        Ok(SampleFormat::I16Le)
    } else {
        Err(ProtocolError::UnsupportedFormat(value))
    }
}

impl TryFrom<u8> for SampleFormat {
    type Error = ProtocolError;

    /// The format with wire code `value`: `0` is `F32Le`, `1` is `I16Le`,
    /// anything else is `UnsupportedFormat(value)`.
    fn try_from(value: u8) -> (r: Result<Self, Self::Error>) {
        if value == 0 {
            Ok(SampleFormat::F32Le)
        } else if value == 1 {
            Ok(SampleFormat::I16Le)
        } else {
            Err(ProtocolError::UnsupportedFormat(value))
        }
    }
}

impl vstd::std_specs::convert::TryFromSpecImpl<u8> for SampleFormat {
    open spec fn obeys_try_from_spec() -> bool {
        true
    }

    open spec fn try_from_spec(v: u8) -> Result<Self, ProtocolError> {
        format_from_code(v)
    }
}

/// Header of a UDP audio datagram.
#[derive(Debug, Clone, Copy, PartialEq, Eq, Structural)]
pub struct AudioPacketHeader {
    pub sequence_number: u64,
    pub timestamp_us: u64,
    pub sample_rate: u32,
    pub channels: u16,
    pub sample_count: u16,
    pub format: SampleFormat,
    pub flags: u8,
}

/// The magic bytes `AMCS`.
pub open spec fn magic_bytes() -> Seq<u8> {
    seq![0x41u8, 0x4du8, 0x43u8, 0x53u8]
}

/// The 28 bytes that encode `h`. The format and the flags are not encoded.
pub open spec fn header_bytes(h: AudioPacketHeader) -> Seq<u8> {
    magic_bytes() + be_bytes_u64(h.sequence_number) + be_bytes_u64(h.timestamp_us)
        + be_bytes_u32(h.sample_rate) + be_bytes_u16(h.channels) + be_bytes_u16(
        h.sample_count,
    )
}

/// Whether `b` opens with the magic bytes.
pub open spec fn has_magic(b: Seq<u8>) -> bool {
    &&& b.len() >= 4
    &&& b[0] == 0x41u8
    &&& b[1] == 0x4du8
    &&& b[2] == 0x43u8
    &&& b[3] == 0x53u8
}

/// The header that the first 28 bytes of `b` encode; a decoded header has
/// format `F32Le` and flags `0`.
pub open spec fn decode_header(b: Seq<u8>) -> AudioPacketHeader {
    AudioPacketHeader {
        sequence_number: be_value_u64(b.subrange(4, 12)),
        timestamp_us: be_value_u64(b.subrange(12, 20)),
        sample_rate: be_value_u32(b.subrange(20, 24)),
        channels: be_value_u16(b.subrange(24, 26)),
        sample_count: be_value_u16(b.subrange(26, 28)),
        format: SampleFormat::F32Le,
        flags: 0,
    }
}

/// What reading a header from `b` gives: the header and the bytes after it,
/// or why not.
pub open spec fn read_header(b: Seq<u8>) -> Result<(AudioPacketHeader, Seq<u8>), ProtocolError> {
    if b.len() < HEADER_SIZE {
        Err(ProtocolError::BufferTooSmall { expected: HEADER_SIZE, got: b.len() as usize })
    } else if !has_magic(b) {
        Err(ProtocolError::InvalidMagic)
    } else {
        Ok((decode_header(b), b.skip(HEADER_SIZE as int)))
    }
}

/// What a decoder gives back of `h`: every encoded field, with format
/// `F32Le` and flags `0`.
pub open spec fn as_decoded(h: AudioPacketHeader) -> AudioPacketHeader {
    AudioPacketHeader { format: SampleFormat::F32Le, flags: 0, ..h }
}

proof fn lemma_header_bytes_len(h: AudioPacketHeader)
    ensures
        header_bytes(h).len() == HEADER_SIZE,
{
    lemma_be_u64_roundtrip(h.sequence_number);
    lemma_be_u64_roundtrip(h.timestamp_us);
    lemma_be_u32_roundtrip(h.sample_rate);
    lemma_be_u16_roundtrip(h.channels);
    lemma_be_u16_roundtrip(h.sample_count);
}

/// Reading a header back from what writing it produced, whatever follows,
/// gives every encoded field and the bytes that follow.
pub proof fn lemma_header_roundtrip(h: AudioPacketHeader, rest: Seq<u8>)
    ensures
        header_bytes(h).len() == HEADER_SIZE,
        read_header(header_bytes(h) + rest) == Ok::<(AudioPacketHeader, Seq<u8>), ProtocolError>(
            (as_decoded(h), rest),
        ),
{
    lemma_header_bytes_len(h);
    lemma_be_u64_roundtrip(h.sequence_number);
    lemma_be_u64_roundtrip(h.timestamp_us);
    lemma_be_u32_roundtrip(h.sample_rate);
    lemma_be_u16_roundtrip(h.channels);
    lemma_be_u16_roundtrip(h.sample_count);
    let b = header_bytes(h) + rest;
    assert(b.subrange(4, 12) =~= be_bytes_u64(h.sequence_number));
    assert(b.subrange(12, 20) =~= be_bytes_u64(h.timestamp_us));
    assert(b.subrange(20, 24) =~= be_bytes_u32(h.sample_rate));
    assert(b.subrange(24, 26) =~= be_bytes_u16(h.channels));
    assert(b.subrange(26, 28) =~= be_bytes_u16(h.sample_count));
    assert(b.skip(HEADER_SIZE as int) =~= rest);
    assert(has_magic(b));
}

impl AudioPacketHeader {
    /// A header with the given fields and flags `0`.
    pub fn new(
        sequence_number: u64,
        timestamp_us: u64,
        sample_rate: u32,
        channels: u16,
        sample_count: u16,
        format: SampleFormat,
    ) -> (h: Self)
        ensures
            h == (AudioPacketHeader {
                sequence_number,
                timestamp_us,
                sample_rate,
                channels,
                sample_count,
                format,
                flags: 0,
            }),
    {
        Self { sequence_number, timestamp_us, sample_rate, channels, sample_count, format, flags: 0 }
    }

    /// Writes the header into the first 28 bytes of `buf`; the rest of `buf`
    /// is left as it was. A shorter `buf` is refused and left unchanged.
    pub fn write_to_slice(&self, buf: &mut [u8]) -> (r: Result<(), ProtocolError>)
        ensures
            old(buf)@.len() < HEADER_SIZE ==> {
                &&& r == Err::<(), ProtocolError>(
                    ProtocolError::BufferTooSmall { expected: HEADER_SIZE, got: old(buf)@.len() as usize },
                )
                &&& final(buf)@ == old(buf)@
            },
            old(buf)@.len() >= HEADER_SIZE ==> {
                &&& r == Ok::<(), ProtocolError>(())
                &&& final(buf)@ == header_bytes(*self) + old(buf)@.skip(HEADER_SIZE as int)
            },
    {
        if buf.len() < HEADER_SIZE {
            return Err(ProtocolError::BufferTooSmall { expected: HEADER_SIZE, got: buf.len() });
        }
        let ghost b0 = buf@;
        buf[0] = 0x41;
        buf[1] = 0x4d;
        buf[2] = 0x43;
        buf[3] = 0x53;
        proof {
            lemma_header_bytes_len(*self);
            lemma_be_u64_roundtrip(self.sequence_number);
            lemma_be_u64_roundtrip(self.timestamp_us);
            lemma_be_u32_roundtrip(self.sample_rate);
            lemma_be_u16_roundtrip(self.channels);
            lemma_be_u16_roundtrip(self.sample_count);
        }
        write_be_u64(buf, 4, self.sequence_number);
        write_be_u64(buf, 12, self.timestamp_us);
        write_be_u32(buf, 20, self.sample_rate);
        write_be_u16(buf, 24, self.channels);
        write_be_u16(buf, 26, self.sample_count);
        assert(buf@ =~= header_bytes(*self) + b0.skip(HEADER_SIZE as int));
        Ok(())
    }

    /// Reads a header from the start of `buf` and returns it with the bytes
    /// that follow it. Refuses a `buf` shorter than 28 bytes, then one that
    /// does not open with `AMCS`.
    pub fn read_from_slice(buf: &[u8]) -> (r: Result<(Self, &[u8]), ProtocolError>)
        ensures
            match r {
                Ok((h, payload)) => read_header(buf@) == Ok::<
                    (AudioPacketHeader, Seq<u8>),
                    ProtocolError,
                >((h, payload@)),
                Err(e) => read_header(buf@) == Err::<(AudioPacketHeader, Seq<u8>), ProtocolError>(
                    e,
                ),
            },
    {
        if buf.len() < HEADER_SIZE {
            return Err(ProtocolError::BufferTooSmall { expected: HEADER_SIZE, got: buf.len() });
        }
        if buf[0] != 0x41 || buf[1] != 0x4d || buf[2] != 0x43 || buf[3] != 0x53 {
            return Err(ProtocolError::InvalidMagic);
        }
        let sequence_number = read_be_u64(buf, 4);
        let timestamp_us = read_be_u64(buf, 12);
        let sample_rate = read_be_u32(buf, 20);
        let channels = read_be_u16(buf, 24);
        let sample_count = read_be_u16(buf, 26);
        let header = Self {
            sequence_number,
            timestamp_us,
            sample_rate,
            channels,
            sample_count,
            format: SampleFormat::F32Le,
            flags: 0,
        };
        let payload = &buf[HEADER_SIZE..buf.len()];
        Ok((header, payload))
    }
}

} // verus!
