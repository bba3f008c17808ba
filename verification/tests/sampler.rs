use smtc2web::sampler::{poll_interval_ms, Sampler, IDLE_INTERVAL_MS, PLAYING_INTERVAL_MS};
use smtc2web::session::{
    normalize, timeline_from_ticks, PlaybackStatus, ProbeResult, SessionSample, TICKS_PER_SECOND,
};
use smtc2web::store::SnapshotStore;

fn session(title: &str, status: PlaybackStatus, position_ticks: i64, end_ticks: i64) -> ProbeResult {
    ProbeResult::Session(SessionSample {
        title: title.to_string(),
        artist: "Artist".to_string(),
        album: "Album".to_string(),
        playback_status: status,
        artwork: None,
        position_ticks,
        end_ticks,
    })
}

#[test]
fn ticks_become_whole_seconds() {
    assert_eq!(TICKS_PER_SECOND, 10_000_000);
    let snapshot = normalize(session("Song", PlaybackStatus::Playing, 650_000_000, 1_300_000_000), 9);
    assert_eq!(snapshot.position_seconds(), Some(65));
    assert_eq!(snapshot.duration_seconds(), Some(130));
    assert_eq!(snapshot.progress_tenths(), Some(500));
    // Fractions of a second are cut off, not rounded.
    let cut = timeline_from_ticks(19_999_999, 29_999_999).unwrap();
    assert_eq!(cut.position_seconds(), 1);
    assert_eq!(cut.duration_seconds(), 2);
    assert_eq!(cut.progress_tenths(), 500);
    let start = timeline_from_ticks(9_999_999, 10_000_000).unwrap();
    assert_eq!(start.position_seconds(), 0);
    assert_eq!(start.duration_seconds(), 1);
    let far = timeline_from_ticks(i64::MAX, i64::MAX).unwrap();
    assert_eq!(far.position_seconds(), 922_337_203_685);
    assert_eq!(far.duration_seconds(), 922_337_203_685);
}

#[test]
fn session_without_duration_has_no_timeline() {
    let snapshot = normalize(session("Song", PlaybackStatus::Playing, 650_000_000, 0), 9);
    assert_eq!(snapshot.position_seconds(), None);
    assert_eq!(snapshot.duration_seconds(), None);
    assert_eq!(snapshot.progress_tenths(), None);
    assert_eq!(snapshot.title, "Song");
    assert!(snapshot.is_playing);
    // Less than a second is a duration of zero seconds.
    assert!(timeline_from_ticks(5, 9_999_999).is_none());
    assert!(timeline_from_ticks(0, 0).is_none());
}

#[test]
fn negative_ticks_have_no_timeline() {
    assert!(timeline_from_ticks(-1, 1_300_000_000).is_none());
    assert!(timeline_from_ticks(i64::MIN, 1_300_000_000).is_none());
    assert!(timeline_from_ticks(10, -1).is_none());
    assert!(timeline_from_ticks(10, i64::MIN).is_none());
}

#[test]
fn normalize_keeps_texts_and_time() {
    let snapshot = normalize(session("Title", PlaybackStatus::Paused, 0, 0), 77);
    assert_eq!(snapshot.title, "Title");
    assert_eq!(snapshot.artist, "Artist");
    assert_eq!(snapshot.album, "Album");
    assert_eq!(snapshot.artwork_uri, None);
    assert!(!snapshot.is_playing);
    assert_eq!(snapshot.published_at_epoch_seconds, 77);
}

#[test]
fn only_playing_counts_as_playing() {
    assert!(PlaybackStatus::Playing.is_playing());
    for status in [
        PlaybackStatus::Closed,
        PlaybackStatus::Opened,
        PlaybackStatus::Changing,
        PlaybackStatus::Stopped,
        PlaybackStatus::Paused,
    ] {
        assert!(!status.is_playing());
        assert!(!normalize(session("Song", status, 0, 0), 1).is_playing);
    }
}

#[test]
fn no_session_normalizes_to_the_empty_snapshot() {
    let snapshot = normalize(ProbeResult::NoSession, 12);
    assert_eq!(snapshot.title, "");
    assert_eq!(snapshot.artist, "");
    assert_eq!(snapshot.album, "");
    assert_eq!(snapshot.artwork_uri, None);
    assert!(snapshot.timeline.is_none());
    assert!(!snapshot.is_playing);
    assert_eq!(snapshot.published_at_epoch_seconds, 12);
}

#[test]
fn artwork_becomes_a_data_uri() {
    let probe = ProbeResult::Session(SessionSample {
        title: String::new(),
        artist: String::new(),
        album: String::new(),
        playback_status: PlaybackStatus::Playing,
        artwork: Some(b"Man".to_vec()),
        position_ticks: 0,
        end_ticks: 0,
    });
    let snapshot = normalize(probe, 1);
    assert_eq!(snapshot.artwork_uri.as_deref(), Some("data:image/png;base64,TWFu"));
}

#[test]
fn cadence_follows_the_play_state() {
    assert_eq!(PLAYING_INTERVAL_MS, 100);
    assert_eq!(IDLE_INTERVAL_MS, 200);
    assert_eq!(poll_interval_ms(true), 100);
    assert_eq!(poll_interval_ms(false), 200);
    let mut sampler = Sampler::new();
    let tick = sampler.step(session("Song", PlaybackStatus::Playing, 0, 0), 1);
    assert_eq!(tick.delay_ms, 100);
    let tick = sampler.step(session("Song", PlaybackStatus::Paused, 0, 0), 1);
    assert_eq!(tick.delay_ms, 200);
    let tick = sampler.step(ProbeResult::NoSession, 1);
    assert_eq!(tick.delay_ms, 200);
}

#[test]
fn new_sampler_has_published_the_empty_snapshot() {
    let sampler = Sampler::new();
    let last = sampler.last_published();
    assert_eq!(last.title, "");
    assert!(!last.is_playing);
    assert!(last.timeline.is_none());
    assert_eq!(last.published_at_epoch_seconds, 0);
}

#[test]
fn same_probe_twice_publishes_once() {
    let mut sampler = Sampler::new();
    let first = sampler.step(session("Song", PlaybackStatus::Playing, 300_000_000, 900_000_000), 50);
    let published = first.published.expect("the first tick publishes");
    assert_eq!(published.title, "Song");
    assert_eq!(published.position_seconds(), Some(30));
    assert_eq!(published.published_at_epoch_seconds, 50);
    let second = sampler.step(session("Song", PlaybackStatus::Playing, 300_000_000, 900_000_000), 50);
    assert!(second.published.is_none());
    let third = sampler.step(session("Song", PlaybackStatus::Playing, 300_000_000, 900_000_000), 55);
    assert!(third.published.is_none());
    assert_eq!(sampler.last_published().published_at_epoch_seconds, 50);
}

#[test]
fn quiet_session_is_republished_by_the_heartbeat() {
    let mut sampler = Sampler::new();
    let mut published_at = Vec::new();
    for now in 100..=120u64 {
        let tick = sampler.step(session("Song", PlaybackStatus::Paused, 0, 900_000_000), now);
        if let Some(snapshot) = tick.published {
            assert_eq!(snapshot.published_at_epoch_seconds, now);
            published_at.push(now);
        }
        // A reader never sees a snapshot older than five seconds.
        assert!(now - sampler.last_published().published_at_epoch_seconds <= 5);
    }
    assert_eq!(published_at, vec![100, 106, 112, 118]);
}

#[test]
fn play_and_pause_surface_at_once() {
    let mut sampler = Sampler::new();
    let tick = sampler.step(session("Song", PlaybackStatus::Playing, 300_000_000, 900_000_000), 50);
    assert!(tick.published.unwrap().is_playing);
    let tick = sampler.step(session("Song", PlaybackStatus::Paused, 300_000_000, 900_000_000), 50);
    let paused = tick.published.expect("a pause is published");
    assert!(!paused.is_playing);
    assert_eq!(paused.title, "Song");
    assert_eq!(paused.position_seconds(), Some(30));
    let tick = sampler.step(session("Song", PlaybackStatus::Playing, 300_000_000, 900_000_000), 50);
    assert!(tick.published.expect("a resume is published").is_playing);
}

#[test]
fn lost_session_clears_the_feed() {
    let mut sampler = Sampler::new();
    let mut store = SnapshotStore::new();
    let tick = sampler.step(session("Song", PlaybackStatus::Paused, 300_000_000, 900_000_000), 50);
    store.write(tick.published.expect("the session is published"));
    assert_eq!(store.read().title, "Song");
    let tick = sampler.step(ProbeResult::NoSession, 51);
    store.write(tick.published.expect("the loss is published"));
    let seen = store.read();
    assert_eq!(seen.title, "");
    assert_eq!(seen.artist, "");
    assert_eq!(seen.album, "");
    assert_eq!(seen.artwork_uri, None);
    assert_eq!(seen.position_seconds(), None);
    assert_eq!(seen.duration_seconds(), None);
    assert_eq!(seen.progress_tenths(), None);
    assert!(!seen.is_playing);
    assert_eq!(seen.published_at_epoch_seconds, 51);
}

#[test]
fn nothing_playing_from_the_start() {
    let mut sampler = Sampler::new();
    let mut store = SnapshotStore::new();
    for now in [1_700_000_000u64, 1_700_000_000, 1_700_000_001] {
        let tick = sampler.step(ProbeResult::NoSession, now);
        assert_eq!(tick.delay_ms, 200);
        if let Some(snapshot) = tick.published {
            store.write(snapshot);
        }
        let seen = store.read();
        assert!(!seen.is_playing);
        assert_eq!(seen.title, "");
        assert_eq!(seen.artist, "");
        assert_eq!(seen.album, "");
        assert_eq!(seen.artwork_uri, None);
        assert_eq!(seen.position_seconds(), None);
        assert_eq!(seen.duration_seconds(), None);
        assert_eq!(seen.progress_tenths(), None);
    }
    assert_eq!(store.read().published_at_epoch_seconds, 1_700_000_000);
}

#[test]
fn running_track_is_published_every_second() {
    let mut sampler = Sampler::new();
    let mut published = 0;
    for tenth in 0..50i64 {
        let position = tenth * 1_000_000;
        let now = 1000 + (tenth as u64) / 10;
        let tick = sampler.step(session("Song", PlaybackStatus::Playing, position, 900_000_000), now);
        assert_eq!(tick.delay_ms, 100);
        if tick.published.is_some() {
            published += 1;
        }
    }
    assert_eq!(published, 5);
}
