use avio_core::audio::{per_channel_sample_rate, Audio, DecodedAudio, MemoryAudioSource};
use avio_core::timebase::RationalValue;

fn ms_time_base() -> RationalValue {
    RationalValue { numerator: 1, denominator: 1000 }
}

/// A decoded stream at the given per-channel rate holding `frames` stereo
/// frames of counted samples, with the duration its frame count implies.
fn decoded_stream(rate: u32, frames: usize) -> DecodedAudio {
    let mut audio = DecodedAudio::new(rate);
    let mut chunk: Vec<u32> = Vec::new();
    for i in 0..(2 * frames) {
        chunk.push(i as u32);
    }
    audio.push_frame(&chunk, false);
    let duration_ms = (frames as i64) * 1000 / (rate as i64);
    audio.note_packet_pts(duration_ms, ms_time_base());
    audio
}

#[test]
fn mono_frames_duplicate_into_both_channels() {
    let mut audio = DecodedAudio::new(8);
    let frame: Vec<u32> = vec![
        1.0f32.to_bits(),
        (-0.5f32).to_bits(),
        0.25f32.to_bits(),
    ];
    audio.push_frame(&frame, true);
    let samples = audio.samples();
    assert_eq!(samples.len(), 2 * frame.len());
    for i in 0..frame.len() {
        assert_eq!(samples[2 * i], frame[i]);
        assert_eq!(samples[2 * i + 1], frame[i]);
    }
}

#[test]
fn stereo_frames_append_unchanged() {
    let mut audio = DecodedAudio::new(8);
    audio.push_frame(&vec![10, 11], false);
    audio.push_frame(&vec![20, 21, 22, 23], false);
    assert_eq!(audio.samples(), &vec![10, 11, 20, 21, 22, 23]);
}

#[test]
fn duration_tracks_maximum_packet_timestamp() {
    let mut audio = DecodedAudio::new(8);
    audio.note_packet_pts(5000, ms_time_base());
    assert_eq!(audio.duration_ms(), 5000);
    audio.note_packet_pts(3000, ms_time_base());
    assert_eq!(audio.duration_ms(), 5000);
    audio.note_packet_pts(7000, ms_time_base());
    assert_eq!(audio.duration_ms(), 7000);
}

#[test]
fn sample_position_is_always_even() {
    let audio = decoded_stream(10, 50);
    for ms in [-50i64, 0, 1, 99, 100, 101, 4999, 5000, 1_000_000] {
        assert_eq!(audio.ms_to_sample_pos(ms) % 2, 0, "ms={ms}");
    }
}

#[test]
fn sample_position_clamps_into_buffer() {
    let audio = decoded_stream(10, 50);
    assert_eq!(audio.ms_to_sample_pos(-50), 0);
    // Past the buffer's end the position clamps to its length.
    assert_eq!(audio.ms_to_sample_pos(1_000_000), 100);
}

#[test]
fn position_time_round_trip_within_one_sample_period() {
    // 10 frames per second: one sample period is 100 ms.
    let audio = decoded_stream(10, 50);
    for ms in [0i64, 1, 99, 100, 101, 250, 2500, 4900, 5000] {
        let back = audio.sample_pos_to_ms(audio.ms_to_sample_pos(ms));
        assert!(back <= ms, "ms={ms} back={back}");
        assert!((ms - back) * 10 < 1000 + 10, "ms={ms} back={back}");
    }
    // On whole frames the round trip is exact.
    for ms in [0i64, 100, 400, 5000] {
        assert_eq!(audio.sample_pos_to_ms(audio.ms_to_sample_pos(ms)), ms);
    }
}

#[test]
fn cursor_reads_and_republishes_position() {
    let audio = decoded_stream(10, 3);
    let (mut cursor, published) = MemoryAudioSource::new(&audio, 0);
    assert_eq!(published, 0);
    // The first pull sits on a publish boundary.
    let (sample, publish) = cursor.next(&audio);
    assert_eq!(sample, Some(0));
    assert_eq!(publish, Some(0));
    assert_eq!(cursor.position(), 1);
    // The next pulls do not.
    let (sample, publish) = cursor.next(&audio);
    assert_eq!(sample, Some(1));
    assert_eq!(publish, None);
    let _ = cursor.next(&audio);
    let _ = cursor.next(&audio);
    let _ = cursor.next(&audio);
    let (sample, publish) = cursor.next(&audio);
    assert_eq!(sample, Some(5));
    assert_eq!(publish, None);
    // Past the end the sequence is exhausted and nothing moves.
    let (sample, publish) = cursor.next(&audio);
    assert_eq!(sample, None);
    assert_eq!(publish, None);
    assert_eq!(cursor.position(), 6);
}

#[test]
fn cursor_publishes_every_four_thousand_elements() {
    // 2001 stereo frames = 4002 elements; a cursor resumed at element
    // 4000 republishes on its first pull there.
    let audio = decoded_stream(1000, 2001);
    let (mut cursor, _) = MemoryAudioSource::new(&audio, 4000);
    let (sample, publish) = cursor.next(&audio);
    assert_eq!(sample, Some(4000));
    // Element 4000 is frame 2000 of a 1000 Hz stream: 2000 ms, clamped
    // to the 2001 ms duration only if beyond it.
    assert_eq!(publish, Some(2000));
    let (_, publish) = cursor.next(&audio);
    assert_eq!(publish, None);
}

#[test]
fn cursor_reports_stereo_and_stream_parameters() {
    let audio = decoded_stream(10, 3);
    let (cursor, _) = MemoryAudioSource::new(&audio, 0);
    assert_eq!(cursor.channels(), 2);
    assert_eq!(cursor.sample_rate(&audio), 10);
    // 3 frames at 10 Hz: 300 ms, truncated to whole seconds.
    assert_eq!(cursor.total_duration_secs(&audio), 0);
}

#[test]
fn seek_then_current_time_reports_target() {
    // 1000 frames per second: every whole millisecond is a frame
    // boundary, so the round trip through the sample position is exact.
    let audio = decoded_stream(1000, 1000);
    let mut control = Audio::new(audio);
    assert_eq!(control.get_current_time(), 0);
    let plan = control.seek(250);
    assert_eq!(plan.start_pos, 500);
    assert_eq!(control.get_current_time(), 250);
}

#[test]
fn seek_off_frame_boundary_reports_frame_start() {
    // 10 frames per second: a 250 ms target truncates to frame 2, whose
    // time is 200 ms; the clock reports the frame actually landed on.
    let audio = decoded_stream(10, 50);
    let mut control = Audio::new(audio);
    let plan = control.seek(250);
    assert_eq!(plan.start_pos, 4);
    assert_eq!(control.get_current_time(), 200);
}

#[test]
fn seek_clamps_target_into_stream() {
    let audio = decoded_stream(1000, 1000);
    let mut control = Audio::new(audio);
    let plan = control.seek(-400);
    assert_eq!(plan.start_pos, 0);
    assert_eq!(control.get_current_time(), 0);
    let plan = control.seek(99_999);
    // Clamped to the 1000 ms duration.
    assert_eq!(plan.start_pos, 2000);
    assert_eq!(control.get_current_time(), 1000);
}

#[test]
fn seek_resumes_according_to_recorded_state() {
    let audio = decoded_stream(1000, 1000);
    let mut control = Audio::new(audio);
    // Playback starts running.
    let plan = control.seek(10);
    assert!(plan.resume_playing);
    control.pause();
    let plan = control.seek(20);
    assert!(!plan.resume_playing);
    control.play();
    let plan = control.seek(30);
    assert!(plan.resume_playing);
}

#[test]
fn per_channel_rate_divides_by_channel_count() {
    assert_eq!(per_channel_sample_rate(48000, 2), 24000);
    assert_eq!(per_channel_sample_rate(44100, 1), 44100);
    assert_eq!(per_channel_sample_rate(1, 2), 0);
}
