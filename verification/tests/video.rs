use avio_core::timebase::RationalValue;
use avio_core::video::{
    calculate_duration, frame_interval_ms, frame_rate_or_default, needs_packet_scan,
    seek_target_timestamp, select_duration, SeekState, Video, SETTLE_FRAME_LIMIT,
};

fn rational(numerator: i32, denominator: i32) -> RationalValue {
    RationalValue { numerator, denominator }
}

/// A pipeline whose stream counts timestamps directly in milliseconds.
fn pipeline(duration_ms: i64) -> Video {
    Video::new(duration_ms, rational(25, 1), rational(1, 1000))
}

#[test]
fn new_pipeline_is_idle_at_zero() {
    let video = pipeline(60_000);
    assert_eq!(video.get_current_timestamp_ms(), 0);
    assert_eq!(video.get_duration_ms(), 60_000);
    assert_eq!(video.get_seek_state(), SeekState::Idle);
    assert_eq!(video.get_frame_rate(), rational(25, 1));
    assert_eq!(video.get_time_base(), rational(1, 1000));
}

#[test]
fn idle_frames_are_emitted_and_move_the_clock() {
    let mut video = pipeline(60_000);
    assert!(video.on_decoded_frame(Some(40)));
    assert_eq!(video.get_current_timestamp_ms(), 40);
    assert!(video.on_decoded_frame(Some(80)));
    assert_eq!(video.get_current_timestamp_ms(), 80);
    // An unstamped frame is still shown but leaves the clock alone.
    assert!(video.on_decoded_frame(None));
    assert_eq!(video.get_current_timestamp_ms(), 80);
}

#[test]
fn commit_seek_reports_target_immediately() {
    let mut video = pipeline(60_000);
    video.commit_seek(5000);
    assert_eq!(video.get_current_timestamp_ms(), 5000);
    assert_eq!(
        video.get_seek_state(),
        SeekState::AwaitingSettle { target_ms: 5000, frames_since_seek: 0 }
    );
}

#[test]
fn settling_discards_early_frames_until_target() {
    let mut video = pipeline(60_000);
    video.commit_seek(5000);
    // Early frames are discarded; the clock follows them while recovery
    // decodes forward from the keyframe.
    assert!(!video.on_decoded_frame(Some(4000)));
    assert_eq!(video.get_current_timestamp_ms(), 4000);
    assert!(!video.on_decoded_frame(Some(4500)));
    assert_eq!(video.get_current_timestamp_ms(), 4500);
    // The first frame at or past the target is emitted and settles.
    assert!(video.on_decoded_frame(Some(5000)));
    assert_eq!(video.get_current_timestamp_ms(), 5000);
    assert_eq!(video.get_seek_state(), SeekState::Idle);
}

#[test]
fn settling_safety_valve_emits_after_limit() {
    let mut video = pipeline(60_000);
    video.commit_seek(50_000);
    // A stream that never reaches the target: the limit counts stamped
    // frames, and the next one after the limit is emitted regardless.
    for i in 0..SETTLE_FRAME_LIMIT {
        assert!(!video.on_decoded_frame(Some(1)), "frame {i} should be discarded");
    }
    assert_eq!(
        video.get_seek_state(),
        SeekState::AwaitingSettle { target_ms: 50_000, frames_since_seek: SETTLE_FRAME_LIMIT }
    );
    assert!(video.on_decoded_frame(Some(1)));
    assert_eq!(video.get_seek_state(), SeekState::Idle);
    assert_eq!(video.get_current_timestamp_ms(), 1);
}

#[test]
fn settling_skips_zero_stamped_preroll() {
    let mut video = pipeline(60_000);
    video.commit_seek(5000);
    // A frame stamped exactly zero is skipped and leaves the clock at
    // the seek target, but it still counts toward the safety valve.
    assert!(!video.on_decoded_frame(Some(0)));
    assert_eq!(video.get_current_timestamp_ms(), 5000);
    assert_eq!(
        video.get_seek_state(),
        SeekState::AwaitingSettle { target_ms: 5000, frames_since_seek: 1 }
    );
}

#[test]
fn settling_valve_overrides_zero_skip() {
    let mut video = pipeline(60_000);
    video.commit_seek(5000);
    for _ in 0..SETTLE_FRAME_LIMIT {
        assert!(!video.on_decoded_frame(Some(0)));
    }
    // Past the limit even a zero-stamped frame is emitted.
    assert!(video.on_decoded_frame(Some(0)));
    assert_eq!(video.get_seek_state(), SeekState::Idle);
    assert_eq!(video.get_current_timestamp_ms(), 0);
}

#[test]
fn settling_ignores_unstamped_frames_entirely() {
    let mut video = pipeline(60_000);
    video.commit_seek(5000);
    for _ in 0..500 {
        assert!(!video.on_decoded_frame(None));
    }
    // Unstamped frames neither count toward the valve nor move the clock.
    assert_eq!(
        video.get_seek_state(),
        SeekState::AwaitingSettle { target_ms: 5000, frames_since_seek: 0 }
    );
    assert_eq!(video.get_current_timestamp_ms(), 5000);
    assert!(video.on_decoded_frame(Some(6000)));
    assert_eq!(video.get_current_timestamp_ms(), 6000);
}

#[test]
fn frame_rate_defaults_on_zero_denominator() {
    assert_eq!(frame_rate_or_default(rational(30000, 1001)), rational(30000, 1001));
    assert_eq!(frame_rate_or_default(rational(25, 0)), rational(30, 1));
}

#[test]
fn frame_interval_follows_frame_rate() {
    assert_eq!(frame_interval_ms(rational(25, 1)), 40);
    assert_eq!(frame_interval_ms(rational(30, 1)), 33);
    assert_eq!(frame_interval_ms(rational(30000, 1001)), 33);
    // Degenerate rates fall back to the 30 fps default interval.
    assert_eq!(frame_interval_ms(rational(0, 1)), 33);
    assert_eq!(frame_interval_ms(rational(25, 0)), 33);
}

#[test]
fn packet_scan_is_needed_below_ten_frame_intervals() {
    let fps25 = rational(25, 1);
    assert!(needs_packet_scan(0, fps25));
    assert!(needs_packet_scan(399, fps25));
    assert!(!needs_packet_scan(400, fps25));
    assert!(!needs_packet_scan(60_000, fps25));
}

#[test]
fn packet_scan_finds_maximum_timestamp() {
    let unit = rational(1, 1000);
    let pts: Vec<Option<i64>> = vec![Some(1000), None, Some(5000), Some(3000)];
    assert_eq!(calculate_duration(&pts, unit), 5000);
    let empty: Vec<Option<i64>> = Vec::new();
    assert_eq!(calculate_duration(&empty, unit), 0);
    let unstamped: Vec<Option<i64>> = vec![None, None];
    assert_eq!(calculate_duration(&unstamped, unit), 0);
}

#[test]
fn implausible_reported_duration_falls_back_to_scan() {
    // A container reporting zero for a stream whose true last packet
    // sits at 5000 ms must estimate 5000.
    let unit = rational(1, 1000);
    let pts: Vec<Option<i64>> = vec![Some(2000), Some(5000), Some(4000)];
    assert_eq!(select_duration(0, rational(25, 1), &pts, unit), 5000);
    // A plausible reported value is preferred over the scan.
    assert_eq!(select_duration(60_000, rational(25, 1), &pts, unit), 60_000);
}

#[test]
fn seek_target_converts_to_container_units() {
    // The container-level seek unit is millionths of a second.
    assert_eq!(seek_target_timestamp(1000), 1_000_000);
    assert_eq!(seek_target_timestamp(0), 0);
    assert_eq!(seek_target_timestamp(-40), -40_000);
}
