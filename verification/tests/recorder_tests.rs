use voice_clipper::queue::LimitedQueue;
use voice_clipper::mixer::FRAME_LEN;
use voice_clipper::recorder::{VoiceRecorder, BUFFER_SAMPLES};

const MS: u64 = 1_000_000;

fn tick_of(value: i16) -> Vec<Option<Vec<i16>>> {
    vec![Some(vec![value; FRAME_LEN])]
}

fn padded(elapsed_nanos: u64) -> usize {
    let mut buffer: LimitedQueue<i16, BUFFER_SAMPLES> = LimitedQueue::new();
    buffer.push(7);
    buffer.push(7);
    VoiceRecorder::pad_silence(&mut buffer, elapsed_nanos);
    let samples = buffer.snapshot();
    if samples.len() < BUFFER_SAMPLES {
        assert_eq!(&samples[..2], &[7, 7]);
        assert!(samples[2..].iter().all(|s| *s == 0));
        samples.len() - 2
    } else {
        assert!(samples.iter().all(|s| *s == 0));
        samples.len()
    }
}

#[test]
fn new_recorder_is_empty() {
    let recorder = VoiceRecorder::new(42);
    assert_eq!(recorder.snapshot(), Vec::<i16>::new());
    assert_eq!(recorder.timestamp(), 42);
}

#[test]
fn no_silence_within_the_slack() {
    assert_eq!(padded(0), 0);
    assert_eq!(padded(20 * MS), 0);
    assert_eq!(padded(39 * MS), 0);
    assert_eq!(padded(40 * MS - 1), 0);
}

#[test]
fn silence_is_sized_by_the_lateness() {
    assert_eq!(padded(40 * MS), 20 * 96);
    assert_eq!(padded(100 * MS), 80 * 96);
    assert_eq!(padded(100 * MS + 999_999), 80 * 96);
    assert_eq!(padded(1020 * MS), 1000 * 96);
}

#[test]
fn silence_beyond_the_capacity_fills_the_buffer() {
    assert_eq!(padded(60_000 * MS), BUFFER_SAMPLES);
    assert_eq!(padded(u64::MAX), BUFFER_SAMPLES);
}

#[test]
fn tick_without_speech_changes_nothing() {
    let mut recorder = VoiceRecorder::new(0);
    assert!(!recorder.write(&Vec::new(), 500 * MS));
    assert!(!recorder.write(&vec![None], 900 * MS));
    assert_eq!(recorder.snapshot().len(), 0);
    assert_eq!(recorder.timestamp(), 0);
}

#[test]
fn three_ticks_at_the_nominal_spacing_are_recorded_back_to_back() {
    let mut recorder = VoiceRecorder::new(0);
    assert!(recorder.write(&tick_of(1), 20 * MS));
    assert!(recorder.write(&tick_of(2), 40 * MS));
    assert!(recorder.write(&tick_of(3), 60 * MS));
    let mut expected = vec![1i16; FRAME_LEN];
    expected.extend(vec![2i16; FRAME_LEN]);
    expected.extend(vec![3i16; FRAME_LEN]);
    assert_eq!(recorder.snapshot(), expected);
    assert_eq!(recorder.timestamp(), 60 * MS);
}

#[test]
fn gap_between_two_ticks_is_filled_with_silence() {
    let mut recorder = VoiceRecorder::new(0);
    assert!(recorder.write(&tick_of(11), 20 * MS));
    assert!(recorder.write(&tick_of(22), 120 * MS));
    let mut expected = vec![11i16; FRAME_LEN];
    expected.extend(vec![0i16; 80 * 96]);
    expected.extend(vec![22i16; FRAME_LEN]);
    assert_eq!(recorder.snapshot(), expected);
}

#[test]
fn a_clock_that_runs_backwards_is_taken_as_no_time_passed() {
    let mut recorder = VoiceRecorder::new(1000 * MS);
    assert!(recorder.write(&tick_of(5), 10 * MS));
    assert_eq!(recorder.snapshot(), vec![5i16; FRAME_LEN]);
    assert_eq!(recorder.timestamp(), 1000 * MS);
}

#[test]
fn buffer_keeps_the_last_ten_seconds() {
    let mut recorder = VoiceRecorder::new(0);
    let mut now = 0;
    for round in 0..510u64 {
        now += 20 * MS;
        assert!(recorder.write(&tick_of((round % 100) as i16 + 1), now));
        assert!(recorder.snapshot().len() <= BUFFER_SAMPLES);
    }
    let samples = recorder.snapshot();
    assert_eq!(samples.len(), BUFFER_SAMPLES);
    assert_eq!(samples[0], 11);
    assert_eq!(samples[BUFFER_SAMPLES - 1], 10);
    assert_eq!(samples[BUFFER_SAMPLES - FRAME_LEN - 1], 9);
}

#[test]
fn long_gap_pushes_old_audio_out() {
    let mut recorder = VoiceRecorder::new(0);
    assert!(recorder.write(&tick_of(9), 20 * MS));
    assert!(recorder.write(&tick_of(4), 20_000 * MS));
    let samples = recorder.snapshot();
    assert_eq!(samples.len(), BUFFER_SAMPLES);
    assert!(samples[..BUFFER_SAMPLES - FRAME_LEN].iter().all(|s| *s == 0));
    assert!(samples[BUFFER_SAMPLES - FRAME_LEN..].iter().all(|s| *s == 4));
}
