use saab_audio::audio_buffer::AudioBuffer;
use saab_audio::jitter::{jitter_buffer, next_sample};
use saab_audio::receiver::UdpAudioReceiver;
use saab_audio::datagram::{read_audio_datagram, write_audio_datagram, DatagramRejection};
use saab_audio::protocol::{AudioPacketHeader, ProtocolError, SampleFormat, HEADER_SIZE, MAGIC_BYTES};

#[test]
fn test_audio_header_roundtrip() {
    let sent = AudioPacketHeader::new(12345, 9876543210, 48000, 2, 240, SampleFormat::F32Le);

    let mut buf = [0u8; 64];
    sent.write_to_slice(&mut buf).expect("Encode failed");

    let (decoded, payload) = AudioPacketHeader::read_from_slice(&buf).expect("Decode failed");

    assert_eq!(sent.sequence_number, decoded.sequence_number);
    assert_eq!(sent.timestamp_us, decoded.timestamp_us);
    assert_eq!(sent.sample_rate, decoded.sample_rate);
    assert_eq!(sent.channels, decoded.channels);
    assert_eq!(sent.sample_count, decoded.sample_count);
    assert_eq!(payload.len(), 64 - HEADER_SIZE);
}

#[test]
fn test_invalid_magic() {
    let mut buf = [0u8; 32];
    buf[0..4].copy_from_slice(b"NOPE");
    let result = AudioPacketHeader::read_from_slice(&buf);
    assert_eq!(result, Err(ProtocolError::InvalidMagic));
}

#[test]
fn header_bytes_are_big_endian_after_magic() {
    let header = AudioPacketHeader::new(0x0102030405060708, 0x1112131415161718, 48000, 2, 240, SampleFormat::F32Le);
    let mut buf = [0xAAu8; 30];
    header.write_to_slice(&mut buf).expect("encode");
    assert_eq!(&buf[0..4], &MAGIC_BYTES);
    assert_eq!(&buf[0..4], b"AMCS");
    assert_eq!(&buf[4..12], &[1, 2, 3, 4, 5, 6, 7, 8]);
    assert_eq!(&buf[12..20], &[0x11, 0x12, 0x13, 0x14, 0x15, 0x16, 0x17, 0x18]);
    assert_eq!(&buf[20..24], &[0x00, 0x00, 0xBB, 0x80]);
    assert_eq!(&buf[24..26], &[0x00, 0x02]);
    assert_eq!(&buf[26..28], &[0x00, 0xF0]);
    assert_eq!(&buf[28..30], &[0xAA, 0xAA]);
}

#[test]
fn write_refuses_short_buffer_and_leaves_it() {
    let header = AudioPacketHeader::new(1, 2, 3, 4, 5, SampleFormat::F32Le);
    let mut buf = [7u8; 27];
    let result = header.write_to_slice(&mut buf);
    assert_eq!(result, Err(ProtocolError::BufferTooSmall { expected: 28, got: 27 }));
    assert_eq!(buf, [7u8; 27]);
}

#[test]
fn read_refuses_short_buffer() {
    let buf = [0x41u8, 0x4d, 0x43, 0x53, 0, 0];
    let result = AudioPacketHeader::read_from_slice(&buf);
    assert_eq!(result, Err(ProtocolError::BufferTooSmall { expected: 28, got: 6 }));
}

#[test]
fn decoded_header_has_float_format_and_no_flags() {
    let mut header = AudioPacketHeader::new(9, 8, 44100, 1, 7, SampleFormat::I16Le);
    header.flags = 3;
    let mut buf = vec![0u8; 28];
    header.write_to_slice(&mut buf).expect("encode");
    let (decoded, payload) = AudioPacketHeader::read_from_slice(&buf).expect("decode");
    assert_eq!(decoded.format, SampleFormat::F32Le);
    assert_eq!(decoded.flags, 0);
    assert_eq!(decoded.sequence_number, 9);
    assert_eq!(decoded.sample_rate, 44100);
    assert!(payload.is_empty());
}

#[test]
fn sample_format_codes() {
    assert_eq!(SampleFormat::try_from(0u8), Ok(SampleFormat::F32Le));
    assert_eq!(SampleFormat::try_from(1u8), Ok(SampleFormat::I16Le));
    assert_eq!(SampleFormat::try_from(7u8), Err(ProtocolError::UnsupportedFormat(7)));
}

fn bits(samples: &[f32]) -> Vec<u32> {
    samples.iter().map(|s| s.to_bits()).collect()
}

#[test]
fn test_end_to_end_udp_audio_streaming() {
    // The receiver's ring: 4096 samples.
    let (mut producer, mut consumer) = jitter_buffer(2048, 2);
    let receiver = UdpAudioReceiver::new();
    let running = receiver.begin();

    // The sender's datagram, as the streamer builds it in its 4096-byte buffer.
    let test_samples = vec![0.1234f32, -0.5678, 0.9876, -0.4321];
    let buffer = AudioBuffer::new(bits(&test_samples), 2, 48000).expect("valid buffer");
    let mut packet = vec![0u8; 4096];
    let len = write_audio_datagram(&buffer, 1, 1000, &mut packet);

    // What the receive loop does with the datagram it receives.
    assert!(running.load(std::sync::atomic::Ordering::SeqCst));
    let taken = UdpAudioReceiver::deliver_datagram(&mut producer, &packet[..len])
        .expect("stream audio packet");
    assert_eq!(taken, test_samples.len());
    receiver.stop();

    let mut received_samples = Vec::new();
    for _ in 0..test_samples.len() {
        received_samples.push(f32::from_bits(next_sample(&mut consumer)));
    }
    assert_eq!(received_samples.len(), test_samples.len());
    for (i, (&expected, &actual)) in test_samples.iter().zip(received_samples.iter()).enumerate() {
        assert!(
            (expected - actual).abs() < 1e-6,
            "Sample {} mismatch: expected {}, got {}",
            i,
            expected,
            actual
        );
    }
    // Nothing else reached the ring: the next sample played is silence.
    assert_eq!(next_sample(&mut consumer), 0);
}

#[test]
fn test_udp_streamer_packet_generation() {
    let test_buffer =
        AudioBuffer::new(bits(&[0.25, -0.5, 0.75, -1.0]), 2, 48000).expect("valid buffer");
    let mut out = vec![0u8; 4096];
    let len = write_audio_datagram(&test_buffer, 1, 1000, &mut out);
    assert_eq!(len, HEADER_SIZE + 16);
    assert_eq!(out.len(), 4096);
    let (header, payload) = AudioPacketHeader::read_from_slice(&out[..len]).expect("header");
    assert_eq!(header.sequence_number, 1);
    assert_eq!(header.timestamp_us, 1000);
    assert_eq!(header.sample_rate, 48000);
    assert_eq!(header.channels, 2);
    assert_eq!(header.sample_count, 2);
    assert_eq!(&payload[0..4], &0.25f32.to_le_bytes());
    assert_eq!(&payload[12..16], &(-1.0f32).to_le_bytes());
}

#[test]
fn datagram_growth_and_untouched_tail() {
    let buffer = AudioBuffer::new(vec![1, 2], 1, 8000).expect("valid buffer");
    let mut out = Vec::new();
    let len = write_audio_datagram(&buffer, 5, 6, &mut out);
    assert_eq!(len, 36);
    assert_eq!(out.len(), 36);
    assert_eq!(&out[28..36], &[1, 0, 0, 0, 2, 0, 0, 0]);

    let mut longer = vec![9u8; 40];
    let len = write_audio_datagram(&buffer, 5, 6, &mut longer);
    assert_eq!(&longer[..len], &out[..]);
    assert_eq!(&longer[36..], &[9, 9, 9, 9]);
}

#[test]
fn datagram_rejections() {
    assert_eq!(read_audio_datagram(&[0u8; 27]), Err(DatagramRejection::TooShort));
    assert_eq!(
        read_audio_datagram(&[0u8; 28]),
        Err(DatagramRejection::InvalidHeader(ProtocolError::InvalidMagic))
    );
    let header = AudioPacketHeader::new(1, 1, 48000, 2, 3, SampleFormat::F32Le);
    let mut buf = vec![0u8; 28 + 23];
    header.write_to_slice(&mut buf).expect("encode");
    assert_eq!(read_audio_datagram(&buf), Err(DatagramRejection::IncompletePayload));
    buf.push(0);
    assert_eq!(read_audio_datagram(&buf), Ok(vec![0u32; 6]));
    buf.extend_from_slice(&[1, 2, 3]);
    assert_eq!(read_audio_datagram(&buf).map(|s| s.len()), Ok(6));
}

#[test]
fn frame_count_is_cut_to_sixteen_bits_in_header() {
    let buffer = AudioBuffer::silence(65537, 1, 48000);
    let mut out = Vec::new();
    let len = write_audio_datagram(&buffer, 0, 0, &mut out);
    assert_eq!(len, 28 + 4 * 65537);
    let received = read_audio_datagram(&out[..len]).expect("decodes");
    assert_eq!(received.len(), 1);
}
