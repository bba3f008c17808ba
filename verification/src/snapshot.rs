//! The published value: what a reader should currently see.

use vstd::prelude::*;

verus! {

/// Progress is kept in tenths of a percent, so `1000` stands for 100.0 %.
pub const FULL_PROGRESS_TENTHS: u16 = 1000;

/// Mathematical model of a known timeline: whole seconds played and whole
/// seconds in total.
pub struct TimelineView {
    pub position: nat,
    pub duration: nat,
}

/// `round(position / duration * 100, one decimal)`, in tenths of a percent,
/// halves rounded up and the result held at 100.0 %.
pub open spec fn progress_tenths_of(position: nat, duration: nat) -> nat
    recommends
        duration > 0,
{
    let rounded = (2 * 1000 * position + duration) / (2 * duration);
    if rounded > 1000 {
        1000
    } else {
        rounded as nat
    }
}

/// What it means for `tenths` to be the progress of `position` out of
/// `duration`, said without division: up to the end of the track it is the
/// tenth of a percent nearest to the true ratio, halves going up; past the end
/// it is 100.0 %.
pub open spec fn is_nearest_tenth(position: nat, duration: nat, tenths: nat) -> bool {
    if position <= duration {
        &&& 2 * duration * tenths <= 2000 * position + duration
        &&& 2000 * position + duration < 2 * duration * (tenths + 1)
    } else {
        tenths == 1000
    }
}

/// The progress is between 0.0 % and 100.0 % and is the nearest tenth of a
/// percent.
pub proof fn lemma_progress_is_nearest_tenth(position: nat, duration: nat)
    requires
        duration > 0,
    ensures
        progress_tenths_of(position, duration) <= 1000,
        is_nearest_tenth(position, duration, progress_tenths_of(position, duration)),
{
    let x = (2000 * position + duration) as int;
    let d = (2 * duration) as int;
    let q = x / d;
    assert(x == d * q + x % d && 0 <= x % d < d) by {
        vstd::arithmetic::div_mod::lemma_fundamental_div_mod(x, d);
        vstd::arithmetic::div_mod::lemma_mod_bound(x, d);
    }
    assert(2 * 1000 * position + duration == x);
    assert(q >= 0) by (nonlinear_arith)
        requires
            x == d * q + x % d,
            0 <= x % d < d,
            x >= 0,
            d > 0,
    ;
    if position <= duration {
        assert(q <= 1000) by (nonlinear_arith)
            requires
                x == d * q + x % d,
                0 <= x % d < d,
                x <= 1000 * d + duration,
                d == 2 * duration,
                duration > 0,
        ;
        assert(d * q == 2 * duration * q) by (nonlinear_arith)
            requires
                d == 2 * duration,
        ;
        assert(d * (q + 1) == 2 * duration * (q + 1)) by (nonlinear_arith)
            requires
                d == 2 * duration,
        ;
        assert(d * (q + 1) == d * q + d) by (nonlinear_arith);
    } else {
        assert(q >= 1000) by (nonlinear_arith)
            requires
                x == d * q + x % d,
                0 <= x % d < d,
                x >= 1000 * d,
                d > 0,
        ;
    }
}

impl TimelineView {
    pub open spec fn progress_tenths(self) -> nat {
        progress_tenths_of(self.position, self.duration)
    }
}

/// A known timeline. The duration is never zero: a session whose duration is
/// zero has no timeline at all.
#[derive(Debug)]
pub struct Timeline {
    position_seconds: u64,
    duration_seconds: u64,
}

impl View for Timeline {
    type V = TimelineView;

    closed spec fn view(&self) -> TimelineView {
        TimelineView {
            position: self.position_seconds as nat,
            duration: self.duration_seconds as nat,
        }
    }
}

impl Clone for Timeline {
    fn clone(&self) -> (res: Self)
        ensures
            res == *self,
    {
        proof {
            use_type_invariant(self);
        }
        Timeline { position_seconds: self.position_seconds, duration_seconds: self.duration_seconds }
    }
}

impl Copy for Timeline {

}

impl Timeline {
    #[verifier::type_invariant]
    spec fn positive_duration(self) -> bool {
        self.duration_seconds > 0
    }

    /// The timeline of `position_seconds` out of `duration_seconds`, or
    /// nothing when the duration is zero.
    pub fn new(position_seconds: u64, duration_seconds: u64) -> (timeline: Option<Timeline>)
        ensures
            duration_seconds == 0 <==> timeline is None,
            timeline matches Some(t) ==> t@ == (TimelineView {
                position: position_seconds as nat,
                duration: duration_seconds as nat,
            }),
    {
        if duration_seconds == 0 {
            None
        } else {
            Some(Timeline { position_seconds, duration_seconds })
        }
    }

    pub fn position_seconds(&self) -> (position: u64)
        ensures
            position == self@.position,
    {
        self.position_seconds
    }

    pub fn duration_seconds(&self) -> (duration: u64)
        ensures
            duration == self@.duration,
            duration > 0,
    {
        proof {
            use_type_invariant(self);
        }
        self.duration_seconds
    }

    /// Progress through the track in tenths of a percent, between 0 and 1000.
    pub fn progress_tenths(&self) -> (tenths: u16)
        ensures
            tenths == self@.progress_tenths(),
            tenths <= FULL_PROGRESS_TENTHS,
            is_nearest_tenth(self@.position, self@.duration, tenths as nat),
    {
        proof {
            use_type_invariant(self);
            lemma_progress_is_nearest_tenth(self@.position, self@.duration);
        }
        let position: u128 = self.position_seconds as u128;
        let duration: u128 = self.duration_seconds as u128;
        let rounded: u128 = (2000 * position + duration) / (2 * duration);
        if rounded > 1000 {
            FULL_PROGRESS_TENTHS
        } else {
            rounded as u16
        }
    }
}

/// The text behind an optional string.
pub open spec fn optional_text(text: Option<String>) -> Option<Seq<char>> {
    match text {
        Some(t) => Some(t@),
        None => None,
    }
}

/// The model behind an optional timeline.
pub open spec fn optional_timeline(timeline: Option<Timeline>) -> Option<TimelineView> {
    match timeline {
        Some(t) => Some(t@),
        None => None,
    }
}

/// Mathematical model of a [`Snapshot`].
pub struct SnapshotView {
    pub title: Seq<char>,
    pub artist: Seq<char>,
    pub album: Seq<char>,
    pub artwork_uri: Option<Seq<char>>,
    pub timeline: Option<TimelineView>,
    pub is_playing: bool,
    pub published_at: nat,
}

impl SnapshotView {
    /// Nothing is playing and nothing is known, as of `now`.
    pub open spec fn empty(now: nat) -> SnapshotView {
        SnapshotView {
            title: Seq::empty(),
            artist: Seq::empty(),
            album: Seq::empty(),
            artwork_uri: None,
            timeline: None,
            is_playing: false,
            published_at: now,
        }
    }

    /// Nothing is playing and nothing is known, whenever this was published.
    pub open spec fn nothing_playing(self) -> bool {
        self == SnapshotView::empty(self.published_at)
    }

    pub open spec fn position_seconds(self) -> Option<nat> {
        match self.timeline {
            Some(t) => Some(t.position),
            None => None,
        }
    }

    pub open spec fn duration_seconds(self) -> Option<nat> {
        match self.timeline {
            Some(t) => Some(t.duration),
            None => None,
        }
    }

    pub open spec fn progress_tenths(self) -> Option<nat> {
        match self.timeline {
            Some(t) => Some(t.progress_tenths()),
            None => None,
        }
    }

    /// A known timeline has a duration of at least one second.
    pub open spec fn well_formed(self) -> bool {
        self.timeline matches Some(t) ==> t.duration > 0
    }

    /// Title, artist, album and artwork: what identifies the track.
    pub open spec fn same_track(self, other: SnapshotView) -> bool {
        &&& self.title == other.title
        &&& self.artist == other.artist
        &&& self.album == other.album
        &&& self.artwork_uri == other.artwork_uri
    }
}

/// Position, duration and progress are known together or not at all.
pub proof fn lemma_timeline_fields_come_together(snapshot: SnapshotView)
    ensures
        snapshot.position_seconds() is Some <==> snapshot.timeline is Some,
        snapshot.duration_seconds() is Some <==> snapshot.timeline is Some,
        snapshot.progress_tenths() is Some <==> snapshot.timeline is Some,
{
}

/// What a reader currently sees of the media session. An empty string stands
/// for an unknown title, artist or album. Position, duration and progress are
/// known together or not at all, which is why they live in one optional
/// [`Timeline`].
#[derive(Debug)]
pub struct Snapshot {
    pub title: String,
    pub artist: String,
    pub album: String,
    /// The cover as a data URI.
    pub artwork_uri: Option<String>,
    pub timeline: Option<Timeline>,
    pub is_playing: bool,
    /// Wall-clock time, in seconds since the epoch, at which this value was
    /// accepted for publication.
    pub published_at_epoch_seconds: u64,
}

impl View for Snapshot {
    type V = SnapshotView;

    open spec fn view(&self) -> SnapshotView {
        SnapshotView {
            title: self.title@,
            artist: self.artist@,
            album: self.album@,
            artwork_uri: optional_text(self.artwork_uri),
            timeline: optional_timeline(self.timeline),
            is_playing: self.is_playing,
            published_at: self.published_at_epoch_seconds as nat,
        }
    }
}

impl Clone for Snapshot {
    fn clone(&self) -> (res: Self)
        ensures
            res@ == self@,
    {
        let artwork_uri = match &self.artwork_uri {
            Some(uri) => Some(uri.clone()),
            None => None,
        };
        Snapshot {
            title: self.title.clone(),
            artist: self.artist.clone(),
            album: self.album.clone(),
            artwork_uri,
            timeline: self.timeline,
            is_playing: self.is_playing,
            published_at_epoch_seconds: self.published_at_epoch_seconds,
        }
    }
}

impl Default for Snapshot {
    fn default() -> (snapshot: Self)
        ensures
            snapshot@ == SnapshotView::empty(0),
    {
        Snapshot::empty(0)
    }
}

impl Snapshot {
    /// The snapshot of a moment at which no media session exists.
    pub fn empty(now: u64) -> (snapshot: Self)
        ensures
            snapshot@ == SnapshotView::empty(now as nat),
    {
        Snapshot {
            title: String::new(),
            artist: String::new(),
            album: String::new(),
            artwork_uri: None,
            timeline: None,
            is_playing: false,
            published_at_epoch_seconds: now,
        }
    }

    pub fn position_seconds(&self) -> (position: Option<u64>)
        ensures
            optional_nat(position) == self@.position_seconds(),
    {
        match &self.timeline {
            Some(t) => Some(t.position_seconds()),
            None => None,
        }
    }

    pub fn duration_seconds(&self) -> (duration: Option<u64>)
        ensures
            optional_nat(duration) == self@.duration_seconds(),
            duration matches Some(d) ==> d > 0,
    {
        match &self.timeline {
            Some(t) => Some(t.duration_seconds()),
            None => None,
        }
    }

    /// Progress through the track in tenths of a percent.
    pub fn progress_tenths(&self) -> (tenths: Option<u16>)
        ensures
            self@.progress_tenths() == match tenths {
                Some(t) => Some(t as nat),
                None => None,
            },
            tenths matches Some(t) ==> t <= FULL_PROGRESS_TENTHS,
    {
        match &self.timeline {
            Some(t) => Some(t.progress_tenths()),
            None => None,
        }
    }
}

/// The number behind an optional count of seconds.
pub open spec fn optional_nat(seconds: Option<u64>) -> Option<nat> {
    match seconds {
        Some(s) => Some(s as nat),
        None => None,
    }
}

} // verus!
