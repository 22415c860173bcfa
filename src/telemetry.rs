//! Telemetry distribution: turns decoded telemetry frames into the two pieces
//! of shared state that subscribers watch, the distance reading and the track snapshot.
use vstd::prelude::*;
use crate::distance::{DistanceEstimate, mean_of, last_n, WINDOW};
use crate::message::{SerialData, ServerMessage, TrackSensorID};

verus! {

/// A distance reading is stale once no sample has arrived for this long.
pub const FRESHNESS_MS: u64 = 100;

/// Latest value of each track sensor, `[L1, L2, R1, R2]`.
pub type TrackData = [bool; 4];

/// Overwrites the bit of one sensor and leaves the other three as they are.
pub fn apply_track(track: TrackData, id: TrackSensorID, state: bool) -> (r: TrackData)
    ensures
        r@ == track@.update(id.spec_index(), state),
{
    let mut r = track;
    r[id.index()] = state;
    r
}

/// Whether a reading taken at `sampled_at` still counts at `now`.
pub open spec fn is_fresh(sampled_at: u64, now: u64) -> bool {
    now <= sampled_at || now - sampled_at <= FRESHNESS_MS
}

/// The published distance: the mean of the recent samples and when the last one arrived.
#[derive(Clone, Copy, Debug, PartialEq, Eq)]
pub struct DistanceReading {
    pub mean: Option<u16>,
    pub sampled_at_ms: u64,
}

impl DistanceReading {
    /// The distance a consumer may act on at `now_ms`: none if the reading
    /// holds no distance or has gone stale.
    pub fn fresh(&self, now_ms: u64) -> (r: Option<u16>)
        ensures
            r == (if is_fresh(self.sampled_at_ms, now_ms) {
                self.mean
            } else {
                None
            }),
    {
        if now_ms <= self.sampled_at_ms || now_ms - self.sampled_at_ms <= FRESHNESS_MS {
            self.mean
        } else {
            None
        }
    }
}

/// What a telemetry frame changed, to be broadcast on its topic.
#[derive(Clone, Copy, Debug, PartialEq, Eq)]
pub enum Update {
    Ultra(DistanceReading),
    Track(TrackData),
}

impl Update {
    /// The message that tells the operator about this update at `now_ms`; a
    /// stale distance is shown as no reading.
    pub fn to_server_message(&self, now_ms: u64) -> (r: ServerMessage)
        ensures
            match *self {
                Update::Ultra(d) => r == (ServerMessage::Ultra {
                    ultra: if is_fresh(d.sampled_at_ms, now_ms) { d.mean } else { None },
                }),
                Update::Track(t) => r matches ServerMessage::Track { track } && track@ == t@,
            },
    {
        match self {
            Update::Ultra(d) => ServerMessage::Ultra { ultra: d.fresh(now_ms) },
            Update::Track(t) => ServerMessage::Track { track: *t },
        }
    }
}

/// The shared derived state, written by the link's read flow alone.
pub struct Telemetry {
    distance: DistanceEstimate,
    track: TrackData,
    last_sample_ms: u64,
}

impl Telemetry {
    pub closed spec fn wf(&self) -> bool {
        self.distance.wf()
    }

    /// The accepted range samples, oldest first.
    pub closed spec fn samples(&self) -> Seq<u16> {
        self.distance.samples()
    }

    pub closed spec fn track_view(&self) -> Seq<bool> {
        self.track@
    }

    /// When the last range sample was accepted.
    pub closed spec fn last_sample_ms(&self) -> u64 {
        self.last_sample_ms
    }

    pub fn new() -> (r: Self)
        ensures
            r.wf(),
            r.samples() == Seq::<u16>::empty(),
            r.track_view() == seq![false, false, false, false],
            r.last_sample_ms() == 0,
    {
        let r = Telemetry { distance: DistanceEstimate::new(), track: [false; 4], last_sample_ms: 0 };
        proof {
            assert(r.track@ =~= seq![false, false, false, false]);
        }
        r
    }

    /// Applies one telemetry frame received at `now_ms` and returns what to publish.
    /// A distance is pushed into the ring; a missing distance publishes "no
    /// distance" and keeps the ring; a track edge overwrites one bit.
    pub fn apply(&mut self, data: SerialData, now_ms: u64) -> (r: Update)
        requires
            old(self).wf(),
        ensures
            final(self).wf(),
            match data {
                SerialData::UltraSensor(Some(d)) => {
                    &&& final(self).samples() == last_n(old(self).samples().push(d), WINDOW as nat)
                    &&& final(self).last_sample_ms() == now_ms
                    &&& final(self).track_view() == old(self).track_view()
                    &&& r == Update::Ultra(
                        DistanceReading { mean: mean_of(final(self).samples()), sampled_at_ms: now_ms },
                    )
                },
                SerialData::UltraSensor(None) => {
                    &&& final(self).samples() == old(self).samples()
                    &&& final(self).last_sample_ms() == old(self).last_sample_ms()
                    &&& final(self).track_view() == old(self).track_view()
                    &&& r == Update::Ultra(
                        DistanceReading { mean: None, sampled_at_ms: old(self).last_sample_ms() },
                    )
                },
                SerialData::TrackSensor((id, state)) => {
                    &&& final(self).samples() == old(self).samples()
                    &&& final(self).last_sample_ms() == old(self).last_sample_ms()
                    &&& final(self).track_view() == old(self).track_view().update(id.spec_index(), state)
                    &&& r matches Update::Track(t) && t@ == final(self).track_view()
                },
            },
    {
        match data {
            SerialData::UltraSensor(Some(d)) => {
                self.distance.push(d);
                self.last_sample_ms = now_ms;
                Update::Ultra(DistanceReading { mean: self.distance.mean(), sampled_at_ms: now_ms })
            },
            SerialData::UltraSensor(None) => {
                Update::Ultra(DistanceReading { mean: None, sampled_at_ms: self.last_sample_ms })
            },
            SerialData::TrackSensor((id, state)) => {
                self.track = apply_track(self.track, id, state);
                Update::Track(self.track)
            },
        }
    }

    /// The current track snapshot.
    pub fn track(&self) -> (r: TrackData)
        ensures
            r@ == self.track_view(),
    {
        self.track
    }
}

} // verus!
