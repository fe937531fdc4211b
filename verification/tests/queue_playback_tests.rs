use textamp::action::Action;
use textamp::playback::{
    advance_playback, track_completed, AudioRetry, PlaybackClock, TrackEnd, AUDIO_RETRY_TICKS, TICK_MS,
};
use textamp::queue::QueueInteraction;
use textamp::transport::PlayStatus;

fn sorted(q: &QueueInteraction) -> Vec<usize> {
    let mut v = q.selected.clone();
    v.sort();
    v
}

#[test]
fn plain_click_plays_row() {
    let mut q = QueueInteraction::new();
    q.drag_start(3, false, false);
    assert_eq!(q.cursor, 3);
    assert_eq!(q.anchor, Some(3));
    assert!(q.drag_over(3).is_none());
    assert!(matches!(q.drag_end(false), Some(Action::PlayTrackFromCategory(3))));
    q.drag_start(2, false, false);
    assert!(matches!(q.drag_end(true), Some(Action::JumpToRadioTrack(2))));
    assert!(q.drag.is_none());
}

#[test]
fn drag_reorders_and_does_not_play() {
    let mut q = QueueInteraction::new();
    q.drag_start(1, false, false);
    assert!(matches!(q.drag_over(4), Some(Action::MoveQueueTrack { from: 1, to: 4 })));
    assert!(matches!(q.drag_over(2), Some(Action::MoveQueueTrack { from: 4, to: 2 })));
    assert!(q.drag_over(2).is_none());
    assert!(q.drag_end(false).is_none());
}

#[test]
fn shift_and_toggle_selection() {
    let mut q = QueueInteraction::new();
    q.drag_start(2, false, true);
    assert!(q.is_selected(2));
    assert_eq!(q.anchor, Some(2));
    assert!(q.drag.is_none());
    q.drag_start(5, true, false);
    assert_eq!(sorted(&q), vec![2, 3, 4, 5]);
    assert_eq!(q.anchor, Some(2));
    q.drag_start(0, true, false);
    assert_eq!(sorted(&q), vec![0, 1, 2]);
    q.drag_start(1, false, true);
    assert_eq!(sorted(&q), vec![0, 2]);
    q.drag_start(1, false, true);
    assert_eq!(sorted(&q), vec![0, 1, 2]);
    assert!(q.drag_end(false).is_none());
    q.drag_start(7, false, false);
    assert!(sorted(&q).is_empty());
    assert!(!q.is_selected(1));
}

#[test]
fn shift_without_anchor_extends_from_cursor() {
    let mut q = QueueInteraction::new();
    q.drag_start(2, true, false);
    assert_eq!(sorted(&q), vec![0, 1, 2]);
    assert_eq!(q.anchor, None);
}

#[test]
fn completion_threshold() {
    assert!(track_completed(0, 0));
    assert!(track_completed(100_000, 90_000));
    assert!(!track_completed(100_000, 89_999));
    assert!(track_completed(200_000, 195_000));
    assert!(!track_completed(200_000, 179_999));
    assert!(!track_completed(4_000, 3_500));
    assert!(track_completed(4_000, 3_600));
}

#[test]
fn tick_advances_and_reports_end() {
    let mut c = PlaybackClock { status: PlayStatus::Playing, position_ms: 1_000, duration_ms: 10_000 };
    assert_eq!(advance_playback(&mut c, true, false, false, None), None);
    assert_eq!(c.position_ms, 1_000 + TICK_MS);
    assert_eq!(c.status, PlayStatus::Playing);
    assert_eq!(advance_playback(&mut c, true, true, true, None), Some(TrackEnd::Premature));
    assert_eq!(c.status, PlayStatus::Paused);
    assert_eq!(c.position_ms, 1_200);
    let mut c = PlaybackClock { status: PlayStatus::Playing, position_ms: 0, duration_ms: 10_000 };
    assert_eq!(advance_playback(&mut c, true, true, true, Some(9_500)), Some(TrackEnd::TrackEnded));
    let mut c = PlaybackClock { status: PlayStatus::Playing, position_ms: u64::MAX - 5, duration_ms: 0 };
    assert_eq!(advance_playback(&mut c, true, false, true, None), None);
    assert_eq!(c.position_ms, u64::MAX);
}

#[test]
fn tick_does_nothing_when_not_playing_locally() {
    let mut c = PlaybackClock { status: PlayStatus::Paused, position_ms: 5, duration_ms: 10 };
    assert_eq!(advance_playback(&mut c, true, true, true, None), None);
    assert_eq!(c.position_ms, 5);
    let mut c = PlaybackClock { status: PlayStatus::Playing, position_ms: 5, duration_ms: 10 };
    assert_eq!(advance_playback(&mut c, false, true, true, None), None);
    assert_eq!(c.position_ms, 5);
    assert_eq!(c.status, PlayStatus::Playing);
}

#[test]
fn audio_retry_interval() {
    let mut r = AudioRetry { ticks_left: 0 };
    r.attach_failed();
    assert_eq!(r.ticks_left, AUDIO_RETRY_TICKS);
    for _ in 0..AUDIO_RETRY_TICKS - 1 {
        assert!(!r.tick());
    }
    assert!(r.tick());
    assert!(r.tick());
    assert_eq!(r.ticks_left, 0);
}
