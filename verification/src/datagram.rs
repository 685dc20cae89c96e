//! UDP audio datagrams: a header followed by the samples, each as the four
//! little-endian bytes of its bit pattern.
//!
//! The sender writes one datagram per audio buffer; the receiver turns a
//! datagram back into the samples it carries, or says why it drops it.

use crate::audio_buffer::AudioBuffer;
use crate::protocol::{
    AudioPacketHeader, HEADER_SIZE, ProtocolError, SampleFormat, as_decoded, header_bytes,
    lemma_header_roundtrip, read_header,
};
use crate::wire::{
    be_bytes_u32, lemma_be_u32_roundtrip, lemma_be_u64_roundtrip,
    le_bytes_u32, le_value_u32, lemma_le_u32_roundtrip, read_le_u32, splice, write_le_u32,
};
use vstd::prelude::*;

verus! {

/// The payload that carries `samples`: four little-endian bytes per sample,
/// in order.
pub open spec fn payload_bytes(samples: Seq<u32>) -> Seq<u8> {
    Seq::new(4 * samples.len(), |k: int| le_bytes_u32(samples[k / 4])[k % 4])
}

/// The datagram that carries `samples` under header `h`.
pub open spec fn datagram_bytes(h: AudioPacketHeader, samples: Seq<u32>) -> Seq<u8> {
    header_bytes(h) + payload_bytes(samples)
}

/// The header the sender puts before `buffer`: the given sequence number and
/// timestamp, the buffer's rate and channels, and its frame count cut to 16
/// bits.
pub open spec fn stream_header(buffer: AudioBuffer, sequence_number: u64, timestamp_us: u64) -> AudioPacketHeader {
    AudioPacketHeader {
        sequence_number,
        timestamp_us,
        sample_rate: buffer.rate(),
        channels: buffer.channel_count(),
        sample_count: buffer.frames() as u16,
        format: SampleFormat::F32Le,
        flags: 0,
    }
}

/// Why the receiver drops a datagram.
#[derive(Debug, PartialEq, Eq)]
pub enum DatagramRejection {
    /// Shorter than a header.
    TooShort,
    /// The header could not be read.
    InvalidHeader(ProtocolError),
    /// The samples are not 32-bit floats.
    UnsupportedFormat(SampleFormat),
    /// Fewer payload bytes than the header announces.
    IncompletePayload,
}

/// The samples the receiver takes from datagram `d`: `sample_count * channels`
/// samples read from the payload, or why it takes none.
pub open spec fn received_samples(d: Seq<u8>) -> Result<Seq<u32>, DatagramRejection> {
    if d.len() < HEADER_SIZE {
        Err(DatagramRejection::TooShort)
    } else {
        match read_header(d) {
            Err(e) => Err(DatagramRejection::InvalidHeader(e)),
            Ok((h, p)) => {
                let count = (h.sample_count as nat) * (h.channels as nat);
                if h.format != SampleFormat::F32Le {
                    Err(DatagramRejection::UnsupportedFormat(h.format))
                } else if p.len() < 4 * count {
                    Err(DatagramRejection::IncompletePayload)
                } else {
                    Ok(Seq::new(count, |i: int| le_value_u32(p.subrange(4 * i, 4 * i + 4))))
                }
            },
        }
    }
}

/// Writes the datagram for `buffer` into the front of `out`, growing `out`
/// with zero bytes when it is too short, and returns the datagram's length.
/// Bytes of `out` past the datagram are left as they were.
pub fn write_audio_datagram(
    buffer: &AudioBuffer,
    sequence_number: u64,
    timestamp_us: u64,
    out: &mut Vec<u8>,
) -> (len: usize)
    requires
        buffer.channel_count() > 0,
        HEADER_SIZE + 4 * buffer.sample_bits().len() <= usize::MAX,
    ensures
        len == HEADER_SIZE + 4 * buffer.sample_bits().len(),
        final(out)@.len() == if old(out)@.len() < len { len as int } else { old(out)@.len() as int },
        final(out)@.take(len as int) == datagram_bytes(
            stream_header(*buffer, sequence_number, timestamp_us),
            buffer.sample_bits(),
        ),
        old(out)@.len() > len ==> final(out)@.skip(len as int) == old(out)@.skip(len as int),
{
    let samples = buffer.samples();
    let n = samples.len();
    let total = HEADER_SIZE + 4 * n;
    let ghost old_out = out@;
    while out.len() < total
        invariant
            total == HEADER_SIZE + 4 * n,
            out@.len() <= (if old_out.len() < total { total as int } else { old_out.len() as int }),
            old_out.len() <= out@.len(),
            out@.take(old_out.len() as int) == old_out,
            old_out.len() >= total ==> out@ == old_out,
        decreases total - out.len(),
    {
        out.push(0);
    }
    let ghost grown = out@;
    let header = AudioPacketHeader::new(
        sequence_number,
        timestamp_us,
        buffer.sample_rate(),
        buffer.channels(),
        #[verifier::truncate] (buffer.frame_count() as u16),
        SampleFormat::F32Le,
    );
    let _ = header.write_to_slice(out.as_mut_slice());
    assert(header == stream_header(*buffer, sequence_number, timestamp_us));
    proof {
        lemma_header_roundtrip(header, Seq::<u8>::empty());
    }
    let mut i: usize = 0;
    while i < n
        invariant
            n == samples@.len(),
            samples@ == buffer.sample_bits(),
            total == HEADER_SIZE + 4 * n,
            i <= n,
            out@.len() == grown.len(),
            grown.len() >= total,
            out@.take(HEADER_SIZE as int) == header_bytes(header),
            forall|k: int| 0 <= k < 4 * i ==> #[trigger] out@[HEADER_SIZE + k] == payload_bytes(samples@)[k],
            out@.skip(total as int) == grown.skip(total as int),
        decreases n - i,
    {
        let ghost before = out@;
        proof {
            lemma_le_u32_roundtrip(samples@[i as int]);
        }
        write_le_u32(out.as_mut_slice(), HEADER_SIZE + 4 * i, samples[i]);
        assert forall|k: int| 0 <= k < 4 * (i + 1) implies #[trigger] out@[HEADER_SIZE + k] == payload_bytes(samples@)[k] by {
            if k < 4 * i {
                assert(out@[HEADER_SIZE + k] == before[HEADER_SIZE + k]);
            } else {
                assert(k / 4 == i);
                assert(out@[HEADER_SIZE + k] == le_bytes_u32(samples@[i as int])[k - 4 * i]);
            }
        }
        assert(out@.take(HEADER_SIZE as int) =~= before.take(HEADER_SIZE as int));
        assert(out@.skip(total as int) =~= before.skip(total as int));
        i = i + 1;
    }
    assert forall|j: int| 0 <= j < total implies #[trigger] out@.take(total as int)[j]
        == datagram_bytes(header, samples@)[j] by {
        if j < HEADER_SIZE {
            assert(out@.take(HEADER_SIZE as int)[j] == out@[j]);
        } else {
            assert(out@[HEADER_SIZE + (j - HEADER_SIZE)] == payload_bytes(samples@)[j - HEADER_SIZE]);
        }
    }
    assert(out@.take(total as int) =~= datagram_bytes(header, samples@));
    assert(old_out.len() > total ==> out@.skip(total as int) =~= old_out.skip(total as int));
    total
}

/// The samples that datagram `datagram` carries, or why the receiver drops
/// it: shorter than a header, a header that cannot be read, a format other
/// than 32-bit floats, or fewer payload bytes than `sample_count * channels`
/// samples need.
pub fn read_audio_datagram(datagram: &[u8]) -> (r: Result<Vec<u32>, DatagramRejection>)
    ensures
        match r {
            Ok(samples) => received_samples(datagram@) == Ok::<Seq<u32>, DatagramRejection>(
                samples@,
            ),
            Err(why) => received_samples(datagram@) == Err::<Seq<u32>, DatagramRejection>(why),
        },
{
    if datagram.len() < HEADER_SIZE {
        return Err(DatagramRejection::TooShort);
    }
    let (header, payload) = match AudioPacketHeader::read_from_slice(datagram) {
        Ok(parsed) => parsed,
        Err(e) => {
            return Err(DatagramRejection::InvalidHeader(e));
        },
    };
    if header.format != SampleFormat::F32Le {
        return Err(DatagramRejection::UnsupportedFormat(header.format));
    }
    let frames = header.sample_count as u64;
    let channels = header.channels as u64;
    assert(frames * channels <= 0xffff * 0xffff) by (nonlinear_arith)
        requires
            frames <= 0xffff,
            channels <= 0xffff,
    ;
    let count: u64 = frames * channels;
    if (payload.len() as u64) < 4 * count {
        return Err(DatagramRejection::IncompletePayload);
    }
    let count = count as usize;
    let plen = payload.len();
    let mut samples: Vec<u32> = Vec::new();
    let mut i: usize = 0;
    while i < count
        invariant
            i <= count,
            4 * count <= payload@.len(),
            plen == payload@.len(),
            samples@.len() == i,
            forall|j: int| 0 <= j < i ==> #[trigger] samples@[j] == le_value_u32(
                payload@.subrange(4 * j, 4 * j + 4),
            ),
        decreases count - i,
    {
        let v = read_le_u32(payload, 4 * i);
        samples.push(v);
        i = i + 1;
    }
    assert(samples@ =~= Seq::new(
        count as nat,
        |j: int| le_value_u32(payload@.subrange(4 * j, 4 * j + 4)),
    ));
    Ok(samples)
}

/// What the receiver takes from a datagram that the sender wrote is exactly
/// the samples of the buffer sent, whenever the frame count fits the 16-bit
/// header field.
pub proof fn lemma_datagram_roundtrip(buffer: AudioBuffer, sequence_number: u64, timestamp_us: u64)
    requires
        buffer.wf(),
        buffer.channel_count() > 0,
        buffer.frames() <= u16::MAX,
    ensures
        received_samples(
            datagram_bytes(stream_header(buffer, sequence_number, timestamp_us), buffer.sample_bits()),
        ) == Ok::<Seq<u32>, DatagramRejection>(buffer.sample_bits()),
{
    let h = stream_header(buffer, sequence_number, timestamp_us);
    let s = buffer.sample_bits();
    let p = payload_bytes(s);
    lemma_header_roundtrip(h, p);
    let c = buffer.channel_count() as int;
    let n = s.len() as int;
    vstd::arithmetic::div_mod::lemma_fundamental_div_mod(n, c);
    vstd::arithmetic::mul::lemma_mul_is_commutative(c, n / c);
    assert(h.sample_count as int == n / c);
    assert((h.sample_count as nat) * (h.channels as nat) == n);
    let got = Seq::new(n as nat, |i: int| le_value_u32(p.subrange(4 * i, 4 * i + 4)));
    assert forall|i: int| 0 <= i < n implies #[trigger] got[i] == s[i] by {
        lemma_le_u32_roundtrip(s[i]);
        assert(p.subrange(4 * i, 4 * i + 4) =~= le_bytes_u32(s[i]));
    }
    assert(got =~= s);
}

/// The datagram written for a buffer announces that buffer: reading its
/// header back gives the sequence number and timestamp it was sent with, the
/// buffer's own sample rate and channel count, its frame count where that
/// fits 16 bits, 32-bit float samples, and the payload after it; bytes
/// `20..24` hold the buffer's sample rate, big-endian.
pub proof fn lemma_datagram_announces_buffer(
    buffer: AudioBuffer,
    sequence_number: u64,
    timestamp_us: u64,
    samples: Seq<u32>,
)
    ensures
        ({
            let d = datagram_bytes(stream_header(buffer, sequence_number, timestamp_us), samples);
            &&& read_header(d) matches Ok((h, rest)) && {
                &&& h.sequence_number == sequence_number
                &&& h.timestamp_us == timestamp_us
                &&& h.sample_rate == buffer.rate()
                &&& h.channels == buffer.channel_count()
                &&& h.format == SampleFormat::F32Le
                &&& buffer.frames() <= u16::MAX ==> h.sample_count == buffer.frames()
                &&& rest == payload_bytes(samples)
            }
            &&& d.subrange(20, 24) == be_bytes_u32(buffer.rate())
        }),
{
    let h = stream_header(buffer, sequence_number, timestamp_us);
    let p = payload_bytes(samples);
    lemma_header_roundtrip(h, p);
    lemma_be_u32_roundtrip(buffer.rate());
    lemma_be_u64_roundtrip(sequence_number);
    lemma_be_u64_roundtrip(timestamp_us);
    let d = datagram_bytes(h, samples);
    assert(d.subrange(20, 24) =~= be_bytes_u32(buffer.rate()));
}

} // verus!
