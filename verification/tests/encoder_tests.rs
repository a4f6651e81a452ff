use voice_clipper::encoder::{
    assemble_clip, build_outcome, encode_clip, encode_outcome, room_for, Bitrate, ClipEncoder,
    EncoderConfig, Quality,
};
use voice_clipper::error::Error;

fn tone(samples: usize) -> Vec<i16> {
    (0..samples).map(|i| (((i / 2) % 200) as i16 - 100) * 150).collect()
}

#[test]
fn voice_configuration() {
    let config = EncoderConfig::voice();
    assert_eq!(config.sample_rate, 48000);
    assert_eq!(config.bitrate, Bitrate::Kbps192);
    assert_eq!(config.quality, Quality::Best);
}

#[test]
fn room_follows_the_codecs_estimate() {
    assert_eq!(room_for(0), Some(7200));
    assert_eq!(room_for(8), Some(7210));
    assert_eq!(room_for(10), Some(7213));
    assert_eq!(room_for(960000), Some(1207200));
}

#[test]
fn no_room_for_odd_or_oversized_buffers() {
    assert_eq!(room_for(1), None);
    assert_eq!(room_for(1921), None);
    assert_eq!(room_for(0x7fff_fffe), None);
    assert_eq!(room_for(1717981158), None);
    assert_eq!(room_for(1717981156), Some(2147483645));
    assert_eq!(room_for(1717981152), Some(2147483640));
}

#[test]
fn clip_is_body_then_trailer() {
    assert_eq!(assemble_clip(vec![1, 2], vec![3]), vec![1, 2, 3]);
    assert_eq!(assemble_clip(Vec::new(), vec![3, 4]), vec![3, 4]);
    assert_eq!(assemble_clip(vec![5], Vec::new()), vec![5]);
}

#[test]
fn empty_buffer_encodes_without_error() {
    let clip = encode_clip(&Vec::new(), &EncoderConfig::voice());
    assert!(clip.is_ok());
}

#[test]
fn one_second_of_audio_encodes_to_a_stream() {
    let clip = encode_clip(&tone(96000), &EncoderConfig::voice()).unwrap();
    assert!(!clip.is_empty());
    assert!(clip.len() < 96000 * 2);
}

#[test]
fn odd_number_of_samples_is_refused() {
    let clip = encode_clip(&vec![1, 2, 3], &EncoderConfig::voice());
    assert_eq!(clip, Err(Error::SkillIssue));
}

#[test]
fn other_configurations_encode_too() {
    let config = EncoderConfig { sample_rate: 44100, bitrate: Bitrate::Kbps128, quality: Quality::Worst };
    let low = encode_clip(&tone(88200), &config).unwrap();
    let config = EncoderConfig { sample_rate: 44100, bitrate: Bitrate::Kbps320, quality: Quality::Good };
    let high = encode_clip(&tone(88200), &config).unwrap();
    assert!(!low.is_empty());
    assert!(low.len() < high.len());
}

#[test]
fn encoder_is_used_once_and_flushed() {
    let mut encoder = ClipEncoder::new(&EncoderConfig::voice()).unwrap();
    let samples = tone(96000);
    let body = encoder.encode(&samples).unwrap();
    let trailer = encoder.flush().unwrap();
    assert!(body.len() + trailer.len() > 0);
    assert!(body.len() <= room_for(samples.len()).unwrap());
    assert!(trailer.len() <= 7200);
}

#[test]
fn accepted_configuration_steps_keep_their_value() {
    assert_eq!(build_outcome(Ok(5u8)), Ok(5u8));
    assert_eq!(build_outcome(Ok(())), Ok(()));
}

#[test]
fn refused_configuration_steps_are_internal_errors() {
    assert_eq!(build_outcome::<u8>(Err(mp3lame_encoder::BuildError::BadSampleFreq)), Err(Error::SkillIssue));
    assert_eq!(build_outcome::<()>(Err(mp3lame_encoder::BuildError::Other(-99))), Err(Error::SkillIssue));
}

#[test]
fn written_bytes_are_handed_on() {
    assert_eq!(encode_outcome(Ok(vec![1, 2, 3])), Ok(vec![1, 2, 3]));
    assert_eq!(encode_outcome(Ok(Vec::new())), Ok(Vec::new()));
}

#[test]
fn codec_failures_while_encoding_are_internal_errors() {
    assert_eq!(encode_outcome(Err(mp3lame_encoder::EncodeError::NoMem)), Err(Error::SkillIssue));
    assert_eq!(encode_outcome(Err(mp3lame_encoder::EncodeError::PsychoAcoustic)), Err(Error::SkillIssue));
}
