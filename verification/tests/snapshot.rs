use smtc2web::snapshot::{Snapshot, Timeline, FULL_PROGRESS_TENTHS};
use smtc2web::store::SnapshotStore;

fn titled(title: &str, timeline: Option<Timeline>, is_playing: bool, at: u64) -> Snapshot {
    Snapshot {
        title: title.to_string(),
        artist: "Artist".to_string(),
        album: "Album".to_string(),
        artwork_uri: None,
        timeline,
        is_playing,
        published_at_epoch_seconds: at,
    }
}

#[test]
fn progress_of_half_the_track_is_fifty_percent() {
    let timeline = Timeline::new(65, 130).unwrap();
    assert_eq!(timeline.position_seconds(), 65);
    assert_eq!(timeline.duration_seconds(), 130);
    assert_eq!(timeline.progress_tenths(), 500);
}

#[test]
fn zero_duration_has_no_timeline() {
    assert!(Timeline::new(65, 0).is_none());
    assert!(Timeline::new(0, 0).is_none());
    let snapshot = titled("Song", Timeline::new(65, 0), true, 1);
    assert_eq!(snapshot.position_seconds(), None);
    assert_eq!(snapshot.duration_seconds(), None);
    assert_eq!(snapshot.progress_tenths(), None);
}

#[test]
fn timeline_fields_come_together() {
    let known = titled("Song", Timeline::new(10, 40), true, 1);
    assert_eq!(known.position_seconds(), Some(10));
    assert_eq!(known.duration_seconds(), Some(40));
    assert_eq!(known.progress_tenths(), Some(250));
    let unknown = titled("Song", None, true, 1);
    assert_eq!(unknown.position_seconds(), None);
    assert_eq!(unknown.duration_seconds(), None);
    assert_eq!(unknown.progress_tenths(), None);
}

#[test]
fn progress_rounds_to_the_nearest_tenth() {
    assert_eq!(Timeline::new(1, 3).unwrap().progress_tenths(), 333);
    assert_eq!(Timeline::new(2, 3).unwrap().progress_tenths(), 667);
    assert_eq!(Timeline::new(0, 3).unwrap().progress_tenths(), 0);
    assert_eq!(Timeline::new(3, 3).unwrap().progress_tenths(), 1000);
    // 1 / 2000 is 0.05 %: the half goes up.
    assert_eq!(Timeline::new(1, 2000).unwrap().progress_tenths(), 1);
    // 1 / 2001 is just below 0.05 %.
    assert_eq!(Timeline::new(1, 2001).unwrap().progress_tenths(), 0);
    assert_eq!(Timeline::new(1999, 2000).unwrap().progress_tenths(), 1000);
    assert_eq!(Timeline::new(1998, 2000).unwrap().progress_tenths(), 999);
}

#[test]
fn progress_never_exceeds_one_hundred_percent() {
    assert_eq!(FULL_PROGRESS_TENTHS, 1000);
    assert_eq!(Timeline::new(200, 100).unwrap().progress_tenths(), 1000);
    assert_eq!(Timeline::new(u64::MAX, 1).unwrap().progress_tenths(), 1000);
    assert_eq!(Timeline::new(u64::MAX, u64::MAX).unwrap().progress_tenths(), 1000);
    assert_eq!(Timeline::new(u64::MAX / 2, u64::MAX).unwrap().progress_tenths(), 500);
}

#[test]
fn empty_snapshot_knows_nothing() {
    let snapshot = Snapshot::empty(42);
    assert_eq!(snapshot.title, "");
    assert_eq!(snapshot.artist, "");
    assert_eq!(snapshot.album, "");
    assert_eq!(snapshot.artwork_uri, None);
    assert!(snapshot.timeline.is_none());
    assert!(!snapshot.is_playing);
    assert_eq!(snapshot.published_at_epoch_seconds, 42);
    let default = Snapshot::default();
    assert_eq!(default.title, "");
    assert_eq!(default.published_at_epoch_seconds, 0);
    assert!(!default.is_playing);
}

#[test]
fn clone_keeps_every_field() {
    let mut source = titled("Song", Timeline::new(7, 9), true, 11);
    source.artwork_uri = Some("data:image/png;base64,AA==".to_string());
    let copy = source.clone();
    assert_eq!(copy.title, "Song");
    assert_eq!(copy.artist, "Artist");
    assert_eq!(copy.album, "Album");
    assert_eq!(copy.artwork_uri.as_deref(), Some("data:image/png;base64,AA=="));
    assert_eq!(copy.position_seconds(), Some(7));
    assert_eq!(copy.duration_seconds(), Some(9));
    assert!(copy.is_playing);
    assert_eq!(copy.published_at_epoch_seconds, 11);
}

#[test]
fn new_store_reads_as_nothing_playing() {
    let store = SnapshotStore::new();
    let seen = store.read();
    assert!(!seen.is_playing);
    assert_eq!(seen.title, "");
    assert_eq!(seen.artist, "");
    assert_eq!(seen.album, "");
    assert_eq!(seen.artwork_uri, None);
    assert_eq!(seen.position_seconds(), None);
    assert_eq!(seen.duration_seconds(), None);
    assert_eq!(seen.progress_tenths(), None);
}

#[test]
fn store_reads_what_was_written_last() {
    let mut store = SnapshotStore::new();
    store.write(titled("First", Timeline::new(1, 10), true, 5));
    let first = store.read();
    store.write(titled("Second", None, false, 9));
    let second = store.read();
    // The first copy is a value of its own: the later write did not touch it.
    assert_eq!(first.title, "First");
    assert_eq!(first.position_seconds(), Some(1));
    assert!(first.is_playing);
    assert_eq!(first.published_at_epoch_seconds, 5);
    // The second copy is the second write, whole.
    assert_eq!(second.title, "Second");
    assert_eq!(second.artist, "Artist");
    assert_eq!(second.position_seconds(), None);
    assert!(!second.is_playing);
    assert_eq!(second.published_at_epoch_seconds, 9);
}
