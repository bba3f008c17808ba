//! What a probe of the operating system's media session hands over, and how
//! it becomes a snapshot.

use vstd::prelude::*;
use crate::artwork::{artwork_uri_of, encode_artwork};
use crate::snapshot::{optional_timeline, Snapshot, SnapshotView, Timeline, TimelineView};

verus! {

/// The provider counts time in ticks of 100 ns.
pub const TICKS_PER_SECOND: i64 = 10000000;

/// The playback state as the provider reports it.
#[derive(Clone, Copy, Debug, PartialEq, Eq, Structural)]
pub enum PlaybackStatus {
    Closed,
    Opened,
    Changing,
    Stopped,
    Playing,
    Paused,
}

impl PlaybackStatus {
    /// Only `Playing` counts as playing.
    pub fn is_playing(self) -> (playing: bool)
        ensures
            playing == (self == PlaybackStatus::Playing),
    {
        match self {
            PlaybackStatus::Playing => true,
            _ => false,
        }
    }
}

/// One point-in-time reading of the current media session, as raw as the
/// provider gives it.
#[derive(Debug)]
pub struct SessionSample {
    pub title: String,
    pub artist: String,
    pub album: String,
    pub playback_status: PlaybackStatus,
    /// The bytes of the cover, if the session offers one.
    pub artwork: Option<Vec<u8>>,
    /// Position within the track, in ticks.
    pub position_ticks: i64,
    /// End of the track, in ticks; zero when the session has no timeline.
    pub end_ticks: i64,
}

/// Mathematical model of a [`SessionSample`].
pub struct SessionSampleView {
    pub title: Seq<char>,
    pub artist: Seq<char>,
    pub album: Seq<char>,
    pub playback_status: PlaybackStatus,
    pub artwork: Option<Seq<u8>>,
    pub position_ticks: int,
    pub end_ticks: int,
}

/// The bytes behind an optional payload.
pub open spec fn optional_bytes(payload: Option<Vec<u8>>) -> Option<Seq<u8>> {
    match payload {
        Some(p) => Some(p@),
        None => None,
    }
}

impl View for SessionSample {
    type V = SessionSampleView;

    open spec fn view(&self) -> SessionSampleView {
        SessionSampleView {
            title: self.title@,
            artist: self.artist@,
            album: self.album@,
            playback_status: self.playback_status,
            artwork: optional_bytes(self.artwork),
            position_ticks: self.position_ticks as int,
            end_ticks: self.end_ticks as int,
        }
    }
}

/// The outcome of one probe: a sample, or the finding that no session exists
/// (which is also what any failure of the provider amounts to).
#[derive(Debug)]
pub enum ProbeResult {
    NoSession,
    Session(SessionSample),
}

/// Mathematical model of a [`ProbeResult`].
pub enum ProbeView {
    NoSession,
    Session(SessionSampleView),
}

impl View for ProbeResult {
    type V = ProbeView;

    open spec fn view(&self) -> ProbeView {
        match self {
            ProbeResult::NoSession => ProbeView::NoSession,
            ProbeResult::Session(sample) => ProbeView::Session(sample@),
        }
    }
}

/// The timeline behind raw ticks: whole seconds, fractions cut off. There is
/// none when the track lasts less than a second or a tick count is negative.
pub open spec fn timeline_of(position_ticks: int, end_ticks: int) -> Option<TimelineView> {
    if position_ticks >= 0 && end_ticks >= TICKS_PER_SECOND {
        Some(
            TimelineView {
                position: (position_ticks / (TICKS_PER_SECOND as int)) as nat,
                duration: (end_ticks / (TICKS_PER_SECOND as int)) as nat,
            },
        )
    } else {
        None
    }
}

/// The snapshot that stands for a probe taken at `now`.
pub open spec fn normalized(probe: ProbeView, now: nat) -> SnapshotView {
    match probe {
        ProbeView::NoSession => SnapshotView::empty(now),
        ProbeView::Session(sample) => SnapshotView {
            title: sample.title,
            artist: sample.artist,
            album: sample.album,
            artwork_uri: artwork_uri_of(sample.artwork),
            timeline: timeline_of(sample.position_ticks, sample.end_ticks),
            is_playing: sample.playback_status == PlaybackStatus::Playing,
            published_at: now,
        },
    }
}

/// A track of zero whole seconds has no timeline, and so neither position nor
/// duration nor progress; a timeline that is known has a duration of at least
/// one second.
pub proof fn lemma_zero_duration_has_no_timeline(position_ticks: int, end_ticks: int)
    ensures
        end_ticks / (TICKS_PER_SECOND as int) <= 0 ==> timeline_of(position_ticks, end_ticks) is None,
        timeline_of(position_ticks, end_ticks) matches Some(t) ==> t.duration > 0,
{
}

/// Whatever was probed, the candidate is well formed.
pub proof fn lemma_normalized_is_well_formed(probe: ProbeView, now: nat)
    ensures
        normalized(probe, now).well_formed(),
{
    if let ProbeView::Session(sample) = probe {
        lemma_zero_duration_has_no_timeline(sample.position_ticks, sample.end_ticks);
    }
}

/// Turns raw ticks into a timeline of whole seconds.
pub fn timeline_from_ticks(position_ticks: i64, end_ticks: i64) -> (timeline: Option<Timeline>)
    ensures
        optional_timeline(timeline) == timeline_of(position_ticks as int, end_ticks as int),
{
    if position_ticks < 0 || end_ticks < TICKS_PER_SECOND {
        None
    } else {
        let position: u64 = (position_ticks / TICKS_PER_SECOND) as u64;
        let duration: u64 = (end_ticks / TICKS_PER_SECOND) as u64;
        Timeline::new(position, duration)
    }
}

/// Builds the candidate snapshot for a probe taken at `now`: the empty
/// snapshot when there is no session, else the sample's texts as they are, its
/// cover as a data URI, its ticks as whole seconds and its playback state as a
/// flag.
pub fn normalize(probe: ProbeResult, now: u64) -> (snapshot: Snapshot)
    ensures
        snapshot@ == normalized(probe@, now as nat),
{
    match probe {
        ProbeResult::NoSession => Snapshot::empty(now),
        ProbeResult::Session(sample) => {
            let artwork_uri = match &sample.artwork {
                Some(payload) => encode_artwork(payload.as_slice()),
                None => None,
            };
            let timeline = timeline_from_ticks(sample.position_ticks, sample.end_ticks);
            Snapshot {
                title: sample.title,
                artist: sample.artist,
                album: sample.album,
                artwork_uri,
                timeline,
                is_playing: sample.playback_status.is_playing(),
                published_at_epoch_seconds: now,
            }
        },
    }
}

} // verus!
