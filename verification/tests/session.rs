use simple_presenter::media::{LoadError, Rational, VideoMetadata};
use simple_presenter::session::{
    PlaybackRate, SeekRequest, Session, MIN_RATE_PERMILLE, NORMAL_RATE_PERMILLE,
};

fn metadata(duration_ms: u64, width: u32, height: u32) -> VideoMetadata {
    VideoMetadata {
        duration_ms,
        width,
        height,
        bitrate: 0,
        max_bitrate: 0,
        depth: 24,
        framerate: Rational::Ratio { numer: 25, denom: 1 },
        is_interlaced: false,
        par: Rational::Ratio { numer: 1, denom: 1 },
        media_type: "video/x-raw".to_string(),
        audio_meta: None,
    }
}

fn session(duration_ms: u64) -> Session {
    Session::open(metadata(duration_ms, 2, 2)).unwrap()
}

#[test]
fn an_opened_session_runs_at_normal_speed_from_the_start() {
    let mut s = Session::open(metadata(5000, 4, 2)).unwrap();
    assert!(!s.is_paused());
    assert_eq!(s.get_timestamp(), 0);
    assert_eq!(s.get_rate().permille(), 1000);
    assert_eq!(s.frame_len(), 24);
    assert_eq!(s.info(), &metadata(5000, 4, 2));
    let mut surface = vec![1u8];
    assert!(!s.update(&mut surface));
    assert_eq!(surface, vec![1]);
}

#[test]
fn a_session_with_frames_too_large_is_not_opened() {
    assert_eq!(
        Session::open(metadata(5000, u32::MAX, u32::MAX)).err(),
        Some(LoadError::ProbeFailed)
    );
}

#[test]
fn seek_clamps_to_the_duration() {
    let mut s = session(10000);
    assert_eq!(s.seek(-100).position_ms, 0);
    assert_eq!(s.get_timestamp(), 0);
    assert_eq!(s.seek(50000).position_ms, 10000);
    assert_eq!(s.get_timestamp(), 10000);
}

#[test]
fn seek_inside_the_media_lands_on_the_target() {
    let mut s = session(10000);
    assert_eq!(s.seek(0).position_ms, 0);
    assert_eq!(s.seek(1).position_ms, 1);
    assert_eq!(s.seek(4321).position_ms, 4321);
    assert_eq!(s.get_timestamp(), 4321);
    assert_eq!(s.seek(10000).position_ms, 10000);
    assert_eq!(s.seek(10001).position_ms, 10000);
    assert_eq!(s.seek(-1).position_ms, 0);
}

#[test]
fn seek_at_the_limits_of_the_number_range() {
    let mut s = session(10000);
    assert_eq!(s.seek(i64::MIN).position_ms, 0);
    assert_eq!(s.seek(i64::MAX).position_ms, 10000);
    let mut long = session(u64::MAX);
    assert_eq!(long.seek(i64::MAX).position_ms, i64::MAX as u64);
    assert_eq!(long.seek(-5).position_ms, 0);
    let mut empty = session(0);
    assert_eq!(empty.seek(5).position_ms, 0);
}

#[test]
fn seek_carries_the_rate() {
    let mut s = session(10000);
    s.set_rate(PlaybackRate::from_permille(2500));
    assert!(s.rate_settled(true));
    assert_eq!(
        s.seek(300),
        SeekRequest { position_ms: 300, rate: PlaybackRate::from_permille(2500) }
    );
}

#[test]
fn seek_relative_moves_from_the_published_timestamp() {
    let mut s = session(10000);
    s.seek(4000);
    assert_eq!(s.seek_relative(500).position_ms, 4500);
    assert_eq!(s.seek_relative(-1500).position_ms, 3000);
    assert_eq!(s.seek_relative(-5000).position_ms, 0);
    assert_eq!(s.seek_relative(i64::MAX).position_ms, 10000);
    assert_eq!(s.seek_relative(i64::MIN).position_ms, 0);
    assert_eq!(s.get_timestamp(), 0);
}

#[test]
fn seek_relative_from_a_timestamp_past_the_signed_range() {
    let mut s = session(u64::MAX);
    assert!(s.frame_decoded(Some(u64::MAX - 1), &[0; 12]));
    assert_eq!(s.seek_relative(1).position_ms, u64::MAX);
    assert_eq!(s.seek_relative(5).position_ms, u64::MAX);
    assert_eq!(s.seek_relative(-10).position_ms, u64::MAX - 10);
}

#[test]
fn rate_has_a_floor() {
    assert_eq!(MIN_RATE_PERMILLE, 10);
    assert_eq!(NORMAL_RATE_PERMILLE, 1000);
    assert_eq!(PlaybackRate::from_permille(0).permille(), 10);
    assert_eq!(PlaybackRate::from_permille(9).permille(), 10);
    assert_eq!(PlaybackRate::from_permille(10).permille(), 10);
    assert_eq!(PlaybackRate::from_permille(11).permille(), 11);
    assert_eq!(PlaybackRate::from_permille(u32::MAX).permille(), u32::MAX);
    assert_eq!(PlaybackRate::normal().permille(), 1000);
}

#[test]
fn set_rate_seeks_to_the_published_timestamp() {
    let mut s = session(10000);
    s.seek(7000);
    let request = s.set_rate(PlaybackRate::from_permille(0));
    assert_eq!(request.position_ms, 7000);
    assert_eq!(request.rate.permille(), 10);
    assert!(s.rate_settled(true));
    assert_eq!(s.get_rate().permille(), 10);
    assert_eq!(s.get_timestamp(), 7000);
    let request = s.set_rate(PlaybackRate::from_permille(4000));
    assert_eq!(request, SeekRequest { position_ms: 7000, rate: PlaybackRate::from_permille(4000) });
}

#[test]
fn a_rate_waits_for_the_answer_of_the_pipeline() {
    let mut s = session(10000);
    assert_eq!(s.pending_rate(), None);
    s.set_rate(PlaybackRate::from_permille(2000));
    assert_eq!(s.get_rate().permille(), 1000);
    assert_eq!(s.pending_rate(), Some(PlaybackRate::from_permille(2000)));
    assert_eq!(s.seek(100).rate.permille(), 1000);
    assert!(s.rate_settled(true));
    assert_eq!(s.get_rate().permille(), 2000);
    assert_eq!(s.pending_rate(), None);
    assert_eq!(s.seek(200).rate.permille(), 2000);
}

#[test]
fn a_refused_rate_changes_nothing() {
    let mut s = session(10000);
    s.seek(7000);
    s.pause();
    s.set_rate(PlaybackRate::from_permille(1500));
    assert!(s.rate_settled(true));
    assert!(s.frame_decoded(None, &[9; 12]));

    let request = s.set_rate(PlaybackRate::from_permille(4000));
    assert_eq!(request, SeekRequest { position_ms: 7000, rate: PlaybackRate::from_permille(4000) });
    assert!(!s.rate_settled(false));
    assert_eq!(s.get_rate().permille(), 1500);
    assert_eq!(s.pending_rate(), None);
    assert_eq!(s.get_timestamp(), 7000);
    assert!(s.is_paused());
    assert_eq!(s.frame_len(), 12);

    assert_eq!(s.seek(100).rate.permille(), 1500);
    s.play();
    assert!(!s.is_paused());
    let mut surface = Vec::new();
    assert!(s.update(&mut surface));
    assert_eq!(surface, vec![9; 12]);
    s.set_rate(PlaybackRate::from_permille(500));
    assert!(s.rate_settled(true));
    assert_eq!(s.get_rate().permille(), 500);
}

#[test]
fn an_answer_without_a_question_changes_nothing() {
    let mut s = session(10000);
    assert!(!s.rate_settled(true));
    assert!(!s.rate_settled(false));
    assert_eq!(s.get_rate().permille(), 1000);
    s.set_rate(PlaybackRate::from_permille(3000));
    assert!(s.rate_settled(true));
    assert!(!s.rate_settled(true));
    assert!(!s.rate_settled(false));
    assert_eq!(s.get_rate().permille(), 3000);
}

#[test]
fn the_latest_rate_asked_for_is_the_one_that_is_settled() {
    let mut s = session(10000);
    s.set_rate(PlaybackRate::from_permille(2000));
    s.set_rate(PlaybackRate::from_permille(250));
    assert_eq!(s.get_rate().permille(), 1000);
    assert!(s.rate_settled(true));
    assert_eq!(s.get_rate().permille(), 250);
}

#[test]
fn pause_and_play_toggle_and_keep_the_rest() {
    let mut s = session(10000);
    s.seek(1234);
    assert!(s.frame_decoded(None, &[7; 12]));
    s.pause();
    assert!(s.is_paused());
    s.pause();
    assert!(s.is_paused());
    assert_eq!(s.get_timestamp(), 1234);
    s.play();
    assert!(!s.is_paused());
    let mut surface = Vec::new();
    assert!(s.update(&mut surface));
    assert_eq!(surface, vec![7; 12]);
}

#[test]
fn a_decoded_frame_publishes_position_and_bytes() {
    let mut s = session(10000);
    assert!(s.frame_decoded(Some(40), &[1; 12]));
    assert_eq!(s.get_timestamp(), 40);
    assert!(s.frame_decoded(None, &[2; 12]));
    assert_eq!(s.get_timestamp(), 40);
    assert!(s.frame_decoded(Some(20000), &[3; 12]));
    assert_eq!(s.get_timestamp(), 20000);
    let mut surface = Vec::new();
    assert!(s.update(&mut surface));
    assert_eq!(surface, vec![3; 12]);
    assert!(!s.update(&mut surface));
}

#[test]
fn a_frame_of_another_size_still_publishes_the_position() {
    let mut s = session(10000);
    assert!(!s.frame_decoded(Some(80), &[1; 11]));
    assert_eq!(s.get_timestamp(), 80);
    let mut surface = Vec::new();
    assert!(!s.update(&mut surface));
    assert_eq!(s.frame_len(), 12);
}
