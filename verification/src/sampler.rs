//! The sampler: what one tick of the polling loop decides.
//!
//! The loop itself belongs to the caller: it probes the media session, hands
//! the probe and the time to [`Sampler::step`], stores what the tick
//! publishes, sleeps for the tick's delay and starts over.

use vstd::prelude::*;
use crate::admission::{admit_candidate, admits, HEARTBEAT_SECONDS};
use crate::session::{normalize, normalized, ProbeResult, ProbeView};
use crate::snapshot::{optional_nat, Snapshot, SnapshotView};

verus! {

/// Milliseconds between two ticks while the published snapshot is playing.
pub const PLAYING_INTERVAL_MS: u64 = 100;

/// Milliseconds between two ticks otherwise.
pub const IDLE_INTERVAL_MS: u64 = 200;

/// The pause before the next tick.
pub open spec fn interval_ms(is_playing: bool) -> nat {
    if is_playing {
        PLAYING_INTERVAL_MS as nat
    } else {
        IDLE_INTERVAL_MS as nat
    }
}

/// The pause before the next tick, given whether the published snapshot is
/// playing.
pub fn poll_interval_ms(is_playing: bool) -> (delay: u64)
    ensures
        delay == interval_ms(is_playing),
{
    if is_playing {
        PLAYING_INTERVAL_MS
    } else {
        IDLE_INTERVAL_MS
    }
}

/// One tick's input: what the probe found, and when.
pub struct TickInput {
    pub probe: ProbeView,
    pub now: nat,
}

/// Mathematical model of a [`Sampler`].
pub struct SamplerView {
    pub last_published: SnapshotView,
    pub last_position: Option<nat>,
}

impl SamplerView {
    /// Before the first tick: the empty snapshot counts as published.
    pub open spec fn initial() -> SamplerView {
        SamplerView { last_published: SnapshotView::empty(0), last_position: None }
    }

    /// The remembered position is the position of the published snapshot.
    pub open spec fn coherent(self) -> bool {
        self.last_position == self.last_published.position_seconds()
    }

    /// Whether a tick with this probe at this time publishes.
    pub open spec fn publishes(self, probe: ProbeView, now: nat) -> bool {
        admits(normalized(probe, now), self.last_published, self.last_position, now)
    }

    /// The sampler after a tick with this probe at this time.
    pub open spec fn after(self, probe: ProbeView, now: nat) -> SamplerView {
        if self.publishes(probe, now) {
            SamplerView {
                last_published: normalized(probe, now),
                last_position: normalized(probe, now).position_seconds(),
            }
        } else {
            self
        }
    }

    /// The sampler after a whole sequence of ticks, in order.
    pub open spec fn after_ticks(self, ticks: Seq<TickInput>) -> SamplerView
        decreases ticks.len(),
    {
        if ticks.len() == 0 {
            self
        } else {
            self.after_ticks(ticks.drop_last()).after(ticks.last().probe, ticks.last().now)
        }
    }
}

/// The snapshot behind an optional publication.
pub open spec fn optional_snapshot(snapshot: Option<Snapshot>) -> Option<SnapshotView> {
    match snapshot {
        Some(s) => Some(s@),
        None => None,
    }
}

/// What a tick asks of the loop around it.
#[derive(Debug)]
pub struct Tick {
    /// The snapshot to hand to the store, if this tick publishes.
    pub published: Option<Snapshot>,
    /// How long to sleep before the next tick, in milliseconds.
    pub delay_ms: u64,
}

/// The state that the polling loop carries from tick to tick.
#[derive(Debug)]
pub struct Sampler {
    last_published: Snapshot,
    last_position: Option<u64>,
}

impl View for Sampler {
    type V = SamplerView;

    closed spec fn view(&self) -> SamplerView {
        SamplerView {
            last_published: self.last_published@,
            last_position: optional_nat(self.last_position),
        }
    }
}

impl Sampler {
    /// A sampler that has published nothing yet.
    pub fn new() -> (sampler: Self)
        ensures
            sampler@ == SamplerView::initial(),
            sampler@.coherent(),
    {
        Sampler { last_published: Snapshot::empty(0), last_position: None }
    }

    /// The snapshot that was published last.
    pub fn last_published(&self) -> (snapshot: &Snapshot)
        ensures
            snapshot@ == self@.last_published,
    {
        &self.last_published
    }

    /// One tick: builds the candidate for `probe`, asks the admission policy,
    /// and either makes the candidate the published snapshot or drops it.
    pub fn step(&mut self, probe: ProbeResult, now: u64) -> (tick: Tick)
        ensures
            final(self)@ == old(self)@.after(probe@, now as nat),
            optional_snapshot(tick.published) == if old(self)@.publishes(probe@, now as nat) {
                Some(normalized(probe@, now as nat))
            } else {
                None
            },
            tick.delay_ms == interval_ms(final(self)@.last_published.is_playing),
            final(self)@.last_published.is_playing == normalized(probe@, now as nat).is_playing,
            now - final(self)@.last_published.published_at <= HEARTBEAT_SECONDS,
            old(self)@.coherent() ==> final(self)@.coherent(),
    {
        let candidate = normalize(probe, now);
        let publish = admit_candidate(&candidate, &self.last_published, self.last_position, now);
        let published = if publish {
            self.last_position = candidate.position_seconds();
            self.last_published = candidate.clone();
            Some(candidate)
        } else {
            None
        };
        let delay_ms = poll_interval_ms(self.last_published.is_playing);
        Tick { published, delay_ms }
    }
}

/// After a tick the published snapshot is never more than
/// [`HEARTBEAT_SECONDS`] older than the tick, whatever was probed, and it
/// plays exactly if the probed session plays.
pub proof fn lemma_tick_keeps_feed_fresh(sampler: SamplerView, probe: ProbeView, now: nat)
    ensures
        now - sampler.after(probe, now).last_published.published_at <= HEARTBEAT_SECONDS,
        sampler.after(probe, now).last_published.is_playing == normalized(probe, now).is_playing,
{
}

/// A tick keeps a coherent sampler coherent.
pub proof fn lemma_tick_stays_coherent(sampler: SamplerView, probe: ProbeView, now: nat)
    requires
        sampler.coherent(),
    ensures
        sampler.after(probe, now).coherent(),
{
}

/// The same holds at the end of every sequence of ticks: the published
/// snapshot is at most [`HEARTBEAT_SECONDS`] older than the last tick.
pub proof fn lemma_ticks_keep_feed_fresh(sampler: SamplerView, ticks: Seq<TickInput>)
    requires
        ticks.len() > 0,
    ensures
        ticks.last().now - sampler.after_ticks(ticks).last_published.published_at <= HEARTBEAT_SECONDS,
{
    lemma_tick_keeps_feed_fresh(sampler.after_ticks(ticks.drop_last()), ticks.last().probe, ticks.last().now);
}

/// A sampler that starts coherent stays coherent through every sequence of
/// ticks.
pub proof fn lemma_ticks_stay_coherent(sampler: SamplerView, ticks: Seq<TickInput>)
    requires
        sampler.coherent(),
    ensures
        sampler.after_ticks(ticks).coherent(),
    decreases ticks.len(),
{
    if ticks.len() > 0 {
        lemma_ticks_stay_coherent(sampler, ticks.drop_last());
    }
}

/// Between a suppressed tick and the publication that follows it, the
/// published time advances by at most [`HEARTBEAT_SECONDS`] plus the time
/// between the two ticks.
pub proof fn lemma_heartbeat_bounds_advance(
    sampler: SamplerView,
    suppressed: TickInput,
    next: TickInput,
)
    requires
        !sampler.publishes(suppressed.probe, suppressed.now),
        sampler.publishes(next.probe, next.now),
    ensures
        sampler.after(suppressed.probe, suppressed.now).after(
            next.probe,
            next.now,
        ).last_published.published_at - sampler.last_published.published_at <= HEARTBEAT_SECONDS + (
        next.now - suppressed.now),
{
}

/// Offering the same probe again within the heartbeat period publishes
/// nothing: of two such ticks in a row, only the first can publish.
pub proof fn lemma_repeated_probe_is_suppressed(
    sampler: SamplerView,
    probe: ProbeView,
    now: nat,
    later: nat,
)
    requires
        sampler.publishes(probe, now),
        later - now <= HEARTBEAT_SECONDS,
    ensures
        !sampler.after(probe, now).publishes(probe, later),
        sampler.after(probe, now).after(probe, later) == sampler.after(probe, now),
{
}

/// While nothing plays, nothing but the empty snapshot is ever published:
/// from the start, through every sequence of ticks that find no session, a
/// reader sees no title, artist, album or artwork, no timeline, and nothing
/// playing.
pub proof fn lemma_nothing_playing_stays_empty(ticks: Seq<TickInput>)
    requires
        forall|i: int| 0 <= i < ticks.len() ==> (#[trigger] ticks[i]).probe == ProbeView::NoSession,
    ensures
        SamplerView::initial().after_ticks(ticks).last_published.nothing_playing(),
    decreases ticks.len(),
{
    if ticks.len() > 0 {
        lemma_nothing_playing_stays_empty(ticks.drop_last());
        assert(ticks.last() == ticks[ticks.len() - 1]);
        assert forall|i: int| 0 <= i < ticks.drop_last().len() implies (#[trigger] ticks.drop_last()[i]).probe
            == ProbeView::NoSession by {
            assert(ticks.drop_last()[i] == ticks[i]);
        }
    }
}

/// When the session disappears while a titled snapshot is published, the tick
/// publishes, and what it publishes is the empty snapshot.
pub proof fn lemma_lost_session_clears_feed(sampler: SamplerView, now: nat)
    requires
        sampler.last_published.title.len() > 0,
    ensures
        sampler.publishes(ProbeView::NoSession, now),
        sampler.after(ProbeView::NoSession, now).last_published == SnapshotView::empty(now),
{
    assert(sampler.last_published.title != Seq::<char>::empty());
}

} // verus!
