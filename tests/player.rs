use juke::{PlaybackState, PositionTracker, Transport};

#[test]
fn play_pause_measures_the_time_played() {
    let mut tracker = PositionTracker::new();
    tracker.on_load();
    assert_eq!(tracker.position(500), 0);
    tracker.on_play(1_000);
    assert!(tracker.is_running());
    assert_eq!(tracker.position(1_250), 250);
    tracker.on_pause(3_500);
    assert!(!tracker.is_running());
    assert_eq!(tracker.position(3_500), 2_500);
    assert_eq!(tracker.position(99_000), 2_500);
    tracker.on_seek(42_000, 100_000);
    assert_eq!(tracker.position(200_000), 42_000);
}

#[test]
fn play_and_pause_are_idempotent() {
    let mut tracker = PositionTracker::new();
    tracker.on_play(100);
    tracker.on_play(900);
    assert_eq!(tracker.position(1_100), 1_000);
    tracker.on_pause(1_100);
    tracker.on_pause(5_000);
    assert_eq!(tracker.position(9_000), 1_000);
}

#[test]
fn seek_while_running_runs_on_from_the_target() {
    let mut tracker = PositionTracker::new();
    tracker.on_play(0);
    tracker.on_seek(10_000, 4_000);
    assert_eq!(tracker.position(4_000), 10_000);
    assert_eq!(tracker.position(5_500), 11_500);
}

#[test]
fn load_resets_the_position() {
    let mut tracker = PositionTracker::new();
    tracker.on_play(0);
    tracker.on_pause(700);
    tracker.on_load();
    assert_eq!(tracker.position(10_000), 0);
    assert!(!tracker.is_running());
}

#[test]
fn position_saturates() {
    let mut tracker = PositionTracker::new();
    tracker.on_seek(u64::MAX - 5, 0);
    tracker.on_play(0);
    assert_eq!(tracker.position(100), u64::MAX);
    assert_eq!(tracker.position(0), u64::MAX - 5);
}

#[test]
fn transport_starts_stopped() {
    let mut transport = Transport::new();
    assert_eq!(transport.state(), PlaybackState::Stopped);
    assert!(!transport.has_track());
    assert_eq!(transport.current_position(1_000), 0);
    assert!(!transport.play(10));
    assert_eq!(transport.state(), PlaybackState::Stopped);
    assert_eq!(transport.toggle_play_pause(10), None);
    assert_eq!(transport.seek_forward_target(10_000, 10), None);
    assert_eq!(transport.seek_backward_target(10_000, 10), None);
}

#[test]
fn transport_plays_pauses_and_seeks() {
    let mut transport = Transport::new();
    transport.on_load(60_000);
    assert_eq!(transport.state(), PlaybackState::Paused);
    assert_eq!(transport.duration(), 60_000);
    assert_eq!(transport.toggle_play_pause(1_000), Some(true));
    assert_eq!(transport.state(), PlaybackState::Playing);
    assert!(!transport.play(1_500));
    assert_eq!(transport.current_position(6_000), 5_000);
    assert_eq!(transport.seek_forward_target(10_000, 6_000), Some(15_000));
    assert_eq!(transport.seek_forward_target(55_000, 6_000), None);
    assert_eq!(transport.seek_backward_target(10_000, 6_000), Some(0));
    transport.on_seek(15_000, 6_000);
    assert_eq!(transport.state(), PlaybackState::Playing);
    assert_eq!(transport.current_position(7_000), 16_000);
    assert_eq!(transport.toggle_play_pause(7_000), Some(false));
    assert_eq!(transport.current_position(50_000), 16_000);
    assert!(!transport.pause(50_000));
    transport.stop();
    assert!(!transport.has_track());
    assert_eq!(transport.duration(), 0);
    assert_eq!(transport.current_position(60_000), 0);
}

#[test]
fn seek_while_playing_runs_on_from_the_target() {
    let mut transport = Transport::new();
    transport.on_load(60_000);
    transport.play(0);
    transport.on_seek(20_000, 3_000);
    assert_eq!(transport.current_position(3_000), 20_000);
    assert_eq!(transport.current_position(4_000), 21_000);
    transport.pause(4_000);
    transport.on_seek(5_000, 9_000);
    assert_eq!(transport.current_position(12_000), 5_000);
}
