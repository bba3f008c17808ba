//! The admission policy: whether a candidate snapshot supersedes the
//! published one.

use vstd::prelude::*;
use crate::snapshot::{optional_nat, optional_text, Snapshot, SnapshotView};

verus! {

/// A published snapshot older than this many seconds is republished even if
/// nothing changed, so that readers can tell a quiet session from a dead feed.
pub const HEARTBEAT_SECONDS: u64 = 5;

/// Play and pause always surface at once.
pub open spec fn play_state_changed(candidate: SnapshotView, last_published: SnapshotView) -> bool {
    candidate.is_playing != last_published.is_playing
}

/// The reported position moved: a seek, or the track simply running.
pub open spec fn position_changed(candidate: SnapshotView, last_position: Option<nat>) -> bool {
    candidate.position_seconds() != last_position
}

/// Title, artist, album or artwork differ.
pub open spec fn track_changed(candidate: SnapshotView, last_published: SnapshotView) -> bool {
    !candidate.same_track(last_published)
}

/// The published snapshot is more than [`HEARTBEAT_SECONDS`] old.
pub open spec fn heartbeat_due(last_published: SnapshotView, now: nat) -> bool {
    now - last_published.published_at > HEARTBEAT_SECONDS
}

/// The policy: publish when the play state changed, the position changed, the
/// track changed, or the heartbeat is due.
pub open spec fn admits(
    candidate: SnapshotView,
    last_published: SnapshotView,
    last_position: Option<nat>,
    now: nat,
) -> bool {
    ||| play_state_changed(candidate, last_published)
    ||| position_changed(candidate, last_position)
    ||| track_changed(candidate, last_published)
    ||| heartbeat_due(last_published, now)
}

fn same_optional_seconds(a: Option<u64>, b: Option<u64>) -> (same: bool)
    ensures
        same == (optional_nat(a) == optional_nat(b)),
{
    match (a, b) {
        (Some(x), Some(y)) => x == y,
        (None, None) => true,
        _ => false,
    }
}

fn same_optional_text(a: &Option<String>, b: &Option<String>) -> (same: bool)
    ensures
        same == (optional_text(*a) == optional_text(*b)),
{
    match (a, b) {
        (Some(x), Some(y)) => *x == *y,
        (None, None) => true,
        _ => false,
    }
}

/// Decides whether `candidate`, sampled at `now`, is to replace
/// `last_published`. `last_published_position` is the position that was
/// reported when `last_published` was accepted.
pub fn admit_candidate(
    candidate: &Snapshot,
    last_published: &Snapshot,
    last_published_position: Option<u64>,
    now: u64,
) -> (publish: bool)
    ensures
        publish == admits(
            candidate@,
            last_published@,
            optional_nat(last_published_position),
            now as nat,
        ),
        candidate@.is_playing != last_published@.is_playing ==> publish,
{
    if candidate.is_playing != last_published.is_playing {
        return true;
    }
    if !same_optional_seconds(candidate.position_seconds(), last_published_position) {
        return true;
    }
    if !(candidate.title == last_published.title && candidate.artist == last_published.artist
        && candidate.album == last_published.album && same_optional_text(
        &candidate.artwork_uri,
        &last_published.artwork_uri,
    )) {
        return true;
    }
    now > last_published.published_at_epoch_seconds && now
        - last_published.published_at_epoch_seconds > HEARTBEAT_SECONDS
}

/// A change of the play state is published whatever the time and the
/// position are.
pub proof fn lemma_play_state_change_is_admitted(
    candidate: SnapshotView,
    last_published: SnapshotView,
    last_position: Option<nat>,
    now: nat,
)
    requires
        candidate.is_playing != last_published.is_playing,
    ensures
        admits(candidate, last_published, last_position, now),
{
}

/// Without a change and within the heartbeat period nothing is published.
pub proof fn lemma_unchanged_candidate_is_suppressed(
    candidate: SnapshotView,
    last_published: SnapshotView,
    now: nat,
)
    requires
        candidate.is_playing == last_published.is_playing,
        candidate.timeline == last_published.timeline,
        candidate.same_track(last_published),
        now - last_published.published_at <= HEARTBEAT_SECONDS,
    ensures
        !admits(candidate, last_published, last_published.position_seconds(), now),
{
}

} // verus!
