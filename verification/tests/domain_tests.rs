use saab_audio::jitter::{jitter_buffer, next_frame, next_sample, offer_all, playback_frame, playback_sample};
use saab_audio::receiver::UdpAudioReceiver;
use saab_audio::datagram::{write_audio_datagram, DatagramRejection};
use saab_audio::sequence::SequenceCounter;
use saab_audio::audio_buffer::AudioBuffer;
use saab_audio::capture::{select_capture_device, StereoAccumulator, CHUNK_FRAMES};
use saab_audio::error::CoreError;
use saab_audio::mute::{MuteControl, MuteState, ToggleMuteUseCase};

fn bits(samples: &[f32]) -> Vec<u32> {
    samples.iter().map(|s| s.to_bits()).collect()
}

#[test]
fn test_valid_audio_buffer() {
    let samples = vec![0.1f32, 0.2, 0.3, 0.4];
    let buf = AudioBuffer::new(bits(&samples), 2, 48000).expect("valid buffer");
    assert_eq!(buf.channels(), 2);
    assert_eq!(buf.sample_rate(), 48000);
    assert_eq!(buf.frame_count(), 2);
    assert_eq!(buf.samples(), &bits(&samples)[..]);
}

#[test]
fn test_unaligned_channels_fails() {
    let samples = vec![0.1f32, 0.2, 0.3];
    let result = AudioBuffer::new(bits(&samples), 2, 48000);
    assert!(result.is_err());
}

#[test]
fn audio_buffer_rejection_messages() {
    assert_eq!(
        AudioBuffer::new(vec![], 0, 48000),
        Err(CoreError::InvalidAudioBuffer("Channels must be > 0".to_string()))
    );
    assert_eq!(
        AudioBuffer::new(vec![], 2, 0),
        Err(CoreError::InvalidAudioBuffer("Sample rate must be > 0".to_string()))
    );
    assert_eq!(
        AudioBuffer::new(vec![0; 3], 2, 48000),
        Err(CoreError::InvalidAudioBuffer(
            "Sample count is not aligned with channel count".to_string()
        ))
    );
}

#[test]
fn silence_is_positive_zero() {
    let buf = AudioBuffer::silence(3, 2, 44100);
    assert_eq!(buf.samples(), &[0u32; 6][..]);
    assert_eq!(buf.frame_count(), 3);
    assert!(buf.samples().iter().all(|&b| f32::from_bits(b) == 0.0));
}

#[test]
fn samples_mut_changes_in_place() {
    let mut buf = AudioBuffer::new(bits(&[1.0, 2.0]), 1, 48000).expect("valid");
    for s in buf.samples_mut().iter_mut() {
        *s = (f32::from_bits(*s) * 0.5).to_bits();
    }
    assert_eq!(buf.samples(), &bits(&[0.5, 1.0])[..]);
}

#[test]
fn mute_and_dim_switches() {
    let mut control = MuteControl::new();
    assert_eq!(control.get_state(), MuteState::Unmuted);
    control.set_mute(true);
    assert_eq!(control.get_state(), MuteState::Muted);
    control.set_dim(false);
    assert_eq!(control.get_state(), MuteState::Muted);
    control.set_mute(false);
    assert_eq!(control.get_state(), MuteState::Unmuted);
    control.set_dim(true);
    assert_eq!(control.get_state(), MuteState::Dimmed);
    control.set_mute(false);
    assert_eq!(control.get_state(), MuteState::Dimmed);
    control.set_mute(true);
    control.set_mute(true);
    assert_eq!(control.get_state(), MuteState::Muted);
    control.set_dim(true);
    control.set_dim(false);
    assert_eq!(control.get_state(), MuteState::Unmuted);
}

#[test]
fn accumulator_makes_stereo_blocks() {
    let mut acc = StereoAccumulator::new(48000);
    // Four channels: only the first two are kept.
    let mut data = Vec::new();
    for i in 0..300u32 {
        data.extend_from_slice(&[i, 1000 + i, 7, 7]);
    }
    let blocks = acc.push_input(&data, 4);
    assert_eq!(blocks.len(), 1);
    assert_eq!(blocks[0].channels(), 2);
    assert_eq!(blocks[0].sample_rate(), 48000);
    assert_eq!(blocks[0].frame_count(), CHUNK_FRAMES);
    assert_eq!(blocks[0].samples()[0..4], [0, 1000, 1, 1001]);
    assert_eq!(blocks[0].samples()[478..480], [239, 1239]);
    // The remaining 60 frames complete the next block with 180 more.
    let mono: Vec<u32> = (0..180).map(|i| 5000 + i).collect();
    let blocks = acc.push_input(&mono, 1);
    assert_eq!(blocks.len(), 1);
    assert_eq!(blocks[0].samples()[0..2], [240, 1240]);
    assert_eq!(blocks[0].samples()[120..124], [5000, 5000, 5001, 5001]);
}

#[test]
fn accumulator_short_last_frame_and_zero_rate() {
    let mut acc = StereoAccumulator::new(0);
    // Three samples with two channels: the last frame holds one sample.
    let blocks = acc.push_input(&[1, 2, 3], 2);
    assert!(blocks.is_empty());
    let rest: Vec<u32> = vec![9; 476];
    let blocks = acc.push_input(&rest, 2);
    assert!(blocks.is_empty());
}

#[test]
fn sequence_numbers_start_at_one_and_wrap() {
    let mut c = SequenceCounter::new();
    assert_eq!(c.advance(), 1);
    assert_eq!(c.advance(), 2);
    assert_eq!(c.last, 2);
    let mut top = SequenceCounter { last: u64::MAX };
    assert_eq!(top.advance(), 0);
    assert_eq!(top.advance(), 1);
}

#[test]
fn jitter_buffer_plays_what_was_received_then_silence() {
    let (mut producer, mut consumer) = jitter_buffer(4, 1);
    assert_eq!(offer_all(&mut producer, &[10, 20, 30, 40, 50, 60]), 4);
    assert_eq!(next_sample(&mut consumer), 10);
    assert_eq!(next_frame(&mut consumer), (20, 30));
    assert_eq!(next_frame(&mut consumer), (40, 40));
    assert_eq!(next_sample(&mut consumer), 0);
    assert_eq!(next_frame(&mut consumer), (0, 0));
}

#[test]
fn playback_sample_and_frame_rules() {
    assert_eq!(playback_sample(Some(7)), 7);
    assert_eq!(playback_sample(None), 0);
    assert_eq!(playback_frame(Some(1), Some(2)), (1, 2));
    assert_eq!(playback_frame(Some(1), None), (1, 1));
    assert_eq!(playback_frame(None, Some(2)), (0, 2));
    assert_eq!(playback_frame(None, None), (0, 0));
}

#[test]
fn receiver_delivers_datagram_samples_in_order() {
    let buffer = AudioBuffer::new(vec![1, 2, 3, 4], 2, 48000).unwrap();
    let mut datagram = Vec::new();
    write_audio_datagram(&buffer, 5, 0, &mut datagram);
    let (mut producer, mut consumer) = jitter_buffer(3, 1);
    assert_eq!(UdpAudioReceiver::deliver_datagram(&mut producer, &datagram), Ok(3));
    assert_eq!(next_frame(&mut consumer), (1, 2));
    assert_eq!(next_sample(&mut consumer), 3);
    assert_eq!(next_sample(&mut consumer), 0);
    assert_eq!(
        UdpAudioReceiver::deliver_datagram(&mut producer, &datagram[..10]),
        Err(DatagramRejection::TooShort)
    );
    assert_eq!(next_sample(&mut consumer), 0);
}

#[test]
fn receiver_begin_hands_out_its_own_flag() {
    let receiver = UdpAudioReceiver::new();
    let flag = receiver.begin();
    assert!(flag.load(std::sync::atomic::Ordering::SeqCst));
    assert!(std::sync::Arc::ptr_eq(&flag, &receiver.begin()));
    receiver.stop();
    assert!(!flag.load(std::sync::atomic::Ordering::SeqCst));
}

#[test]
fn receiver_default_is_a_new_receiver() {
    let receiver = UdpAudioReceiver::default();
    let flag = receiver.begin();
    assert!(flag.load(std::sync::atomic::Ordering::SeqCst));
    receiver.stop();
    assert!(!flag.load(std::sync::atomic::Ordering::SeqCst));
}

#[test]
fn refused_datagram_leaves_the_ring_alone() {
    let buffer = AudioBuffer::new(vec![7, 8], 2, 48000).unwrap();
    let mut datagram = Vec::new();
    let len = write_audio_datagram(&buffer, 1, 0, &mut datagram);
    let (mut producer, mut consumer) = jitter_buffer(2, 1);
    let mut bad = datagram[..len].to_vec();
    bad[0] = b'X';
    assert!(matches!(
        UdpAudioReceiver::deliver_datagram(&mut producer, &bad),
        Err(DatagramRejection::InvalidHeader(_))
    ));
    assert_eq!(UdpAudioReceiver::deliver_datagram(&mut producer, &datagram[..len - 1]), Err(DatagramRejection::IncompletePayload));
    // The ring still has room for both samples of a good datagram.
    assert_eq!(UdpAudioReceiver::deliver_datagram(&mut producer, &datagram[..len]), Ok(2));
    assert_eq!(next_frame(&mut consumer), (7, 8));
}

#[test]
fn capture_device_selection() {
    let names = vec![
        Some("MacBook Pro Microphone".to_string()),
        None,
        Some("BlackHole 16ch".to_string()),
        Some("Loopback Audio".to_string()),
    ];
    assert_eq!(select_capture_device(&names, None), Some(2));
    assert_eq!(select_capture_device(&names, Some("MICROPHONE".to_string())), Some(0));
    assert_eq!(select_capture_device(&names, Some("loopback".to_string())), Some(3));
    assert_eq!(select_capture_device(&names, Some("Scarlett".to_string())), None);
    assert_eq!(select_capture_device(&names[..2].to_vec(), None), None);
    let perssua = vec![Some("Perssua Virtual".to_string()), Some("SoundFlower (2ch)".to_string())];
    assert_eq!(select_capture_device(&perssua, None), Some(0));
    assert_eq!(select_capture_device(&perssua[1..].to_vec(), None), Some(0));
    // A device without a name never matches, not even the empty name.
    assert_eq!(select_capture_device(&vec![None], Some(String::new())), None);
    assert_eq!(select_capture_device(&vec![Some("x".to_string())], Some(String::new())), Some(0));
}
