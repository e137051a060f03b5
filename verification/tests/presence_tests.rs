//! The presence worker: message folding, the sync loop's decisions, and
//! the timestamp debounce with exact values.

use cef_bridge::discord::{
    disable, enable, update_play_state, update_timeline, PresenceAction, RpcWorker,
    TimestampPair,
};
use cef_bridge::model::{MetadataPayload, PlayStatePayload, PlaybackStatus, TimelinePayload};

fn track(duration: Option<u64>) -> MetadataPayload {
    MetadataPayload {
        song_name: String::from("song"),
        author_name: String::from("artist"),
        album_name: String::from("album"),
        cover: None,
        original_cover_url: Some(String::from("http://p1.music.example/img.jpg?param=5")),
        ncm_id: Some(42),
        duration,
    }
}

fn playing_worker(duration: Option<u64>) -> RpcWorker {
    let mut w = RpcWorker::new();
    enable(&mut w);
    cef_bridge::discord::update_metadata(&mut w, track(duration));
    update_play_state(&mut w, PlayStatePayload { status: PlaybackStatus::Playing });
    w.connected = true;
    w
}

#[test]
fn disabled_worker_closes_an_open_connection() {
    let mut w = RpcWorker::new();
    w.connected = true;
    match w.sync_discord(1000) {
        Some(PresenceAction::CloseClient) => {}
        _ => panic!("a disabled worker closes its connection"),
    }
    assert!(!w.connected);
}

#[test]
fn worker_without_data_clears_the_activity() {
    let mut w = RpcWorker::new();
    enable(&mut w);
    w.connected = true;
    match w.sync_discord(1000) {
        Some(PresenceAction::ClearActivity) => {}
        _ => panic!("no data means no published activity"),
    }
}

#[test]
fn connect_attempts_respect_the_cooldown() {
    let mut w = RpcWorker::new();
    enable(&mut w);
    cef_bridge::discord::update_metadata(&mut w, track(None));
    match w.sync_discord(0) {
        Some(PresenceAction::AttemptConnect) => {}
        _ => panic!("a disconnected worker with data attempts to connect"),
    }
    w.on_connect_result(false);
    assert_eq!(w.connect_retry_count, 5);
    for expected in [4u8, 3, 2, 1, 0] {
        assert!(w.sync_discord(0).is_none());
        assert_eq!(w.connect_retry_count, expected);
    }
    match w.sync_discord(0) {
        Some(PresenceAction::AttemptConnect) => {}
        _ => panic!("the cooldown has elapsed"),
    }
    w.on_connect_result(true);
    assert!(w.connected);
}

#[test]
fn playing_track_publishes_exact_timestamps() {
    let mut w = playing_worker(Some(185_000));
    update_timeline(&mut w, TimelinePayload { current_time: 5_000, total_time: 185_000 });
    let now = 1_700_000_000_000i64;
    match w.sync_discord(now) {
        Some(PresenceAction::UpdateActivity(u)) => {
            // end = now + (duration - current); start = end - duration
            assert_eq!(
                u.timestamps,
                Some(TimestampPair { start: now - 5_000, end: now + 180_000 })
            );
            assert_eq!(u.details, "song");
            assert_eq!(u.state_line, "artist");
            assert_eq!(u.large_text, "album");
            assert_eq!(u.song_url, "https://music.163.com/song?id=42");
            assert_eq!(
                u.large_image,
                "https://p1.music.example/img.jpg?imageView&enlarge=1&type=jpeg&quality=90&thumbnail=150y150"
            );
        }
        _ => panic!("a playing track publishes an activity"),
    }
    assert_eq!(w.last_sent_end_timestamp, Some(now + 180_000));
}

#[test]
fn timestamp_drift_below_threshold_is_debounced() {
    let mut w = playing_worker(Some(185_000));
    let now = 1_700_000_000_000i64;
    assert!(w.sync_discord(now).is_some());
    // 99 ms later the end timestamp has not moved: drift 0 < 100
    assert!(w.sync_discord(now).is_none());
    assert!(w.sync_discord(now + 99).is_none());
    // a seek moves the end timestamp far enough to republish
    update_timeline(&mut w, TimelinePayload { current_time: 60_000, total_time: 185_000 });
    match w.sync_discord(now) {
        Some(PresenceAction::UpdateActivity(u)) => {
            assert_eq!(u.timestamps.unwrap().end, now + 125_000);
        }
        _ => panic!("a seek republishes the timestamps"),
    }
}

#[test]
fn pausing_takes_the_activity_down_once() {
    let mut w = playing_worker(Some(185_000));
    assert!(w.sync_discord(1000).is_some());
    update_play_state(&mut w, PlayStatePayload { status: PlaybackStatus::Paused });
    match w.sync_discord(2000) {
        Some(PresenceAction::ClearActivity) => {}
        _ => panic!("a pause with a published activity clears it"),
    }
    assert!(w.sync_discord(3000).is_none());
}

#[test]
fn unknown_duration_publishes_without_timestamps() {
    let mut w = playing_worker(None);
    match w.sync_discord(1000) {
        // nothing published yet, so nothing to retract and nothing to send
        None => {}
        _ => panic!("without timestamps there is nothing to publish at first"),
    }
    // with stale timestamps still published, one retraction goes out
    w.last_sent_end_timestamp = Some(5000);
    match w.sync_discord(1000) {
        Some(PresenceAction::UpdateActivity(u)) => assert!(u.timestamps.is_none()),
        _ => panic!("stale timestamps are retracted once"),
    }
    assert_eq!(w.last_sent_end_timestamp, None);
    assert!(w.sync_discord(2000).is_none());
}

#[test]
fn failed_update_drops_the_connection_for_a_reconnect() {
    let mut w = playing_worker(Some(185_000));
    assert!(w.sync_discord(1000).is_some());
    match w.on_update_result(false) {
        Some(PresenceAction::CloseClient) => {}
        _ => panic!("a failed update closes the connection"),
    }
    assert!(!w.connected);
    assert_eq!(w.last_sent_end_timestamp, None);
}

#[test]
fn disable_closes_and_enable_rearms() {
    let mut w = playing_worker(Some(185_000));
    match disable(&mut w) {
        Some(PresenceAction::CloseClient) => {}
        _ => panic!("disabling with an open connection closes it"),
    }
    assert!(!w.is_enabled);
    assert!(enable(&mut w).is_none());
    assert!(w.is_enabled);
    assert_eq!(w.connect_retry_count, 0);
}
