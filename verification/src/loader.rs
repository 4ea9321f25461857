//! Source loading decisions: track selection, seek resolution and duration.
//!
//! The host opens the file and probes its container; it hands the probed
//! track list here as plain values and performs the seek the demuxer offers.
//! Every choice — which track plays, what the trim threshold becomes, what
//! duration is reported — is decided by the functions of this module.

use vstd::prelude::*;
use crate::engine::Session;

verus! {

/// The codec identifier a container uses for a track it cannot name: a track
/// carrying it is not playable.
pub const NULL_CODEC: u32 = 0;

/// What the loader reads of one probed track.
#[derive(Clone, Copy, PartialEq, Eq, Structural, Debug)]
pub struct TrackInfo {
    /// The track's identifier inside the container.
    pub id: u32,
    /// The track's codec identifier; `NULL_CODEC` when unrecognized.
    pub codec: u32,
    /// The timestamp of the track's first frame.
    pub start_ts: u64,
    /// The total number of frames, when the container exposes it.
    pub n_frames: Option<u64>,
}

/// Does the list hold any track with a recognized codec?
pub open spec fn has_supported_track(tracks: Seq<TrackInfo>) -> bool {
    exists|i: int| 0 <= i < tracks.len() && #[trigger] tracks[i].codec != NULL_CODEC
}

/// The index of the first track with a recognized, non-null codec.
pub fn first_supported_track(tracks: &Vec<TrackInfo>) -> (r: Option<usize>)
    ensures
        match r {
            Some(i) => {
                &&& i < tracks@.len()
                &&& tracks@[i as int].codec != NULL_CODEC
                &&& forall|j: int| 0 <= j < i ==> #[trigger] tracks@[j].codec == NULL_CODEC
            },
            None => !has_supported_track(tracks@),
        },
{
    let mut i: usize = 0;
    while i < tracks.len()
        invariant
            i <= tracks@.len(),
            forall|j: int| 0 <= j < i ==> #[trigger] tracks@[j].codec == NULL_CODEC,
        decreases tracks@.len() - i,
    {
        if tracks[i].codec != NULL_CODEC {
            return Some(i);
        }
        i = i + 1;
    }
    None
}

/// Pick the track to play: an explicitly selected index when it names a
/// track, otherwise the first track with a recognized codec.
pub fn select_track(track_num: Option<usize>, tracks: &Vec<TrackInfo>) -> (r: Option<usize>)
    ensures
        match track_num {
            Some(t) => {
                &&& t < tracks@.len() ==> r == Some(t)
                &&& t >= tracks@.len() ==> first_choice_spec(tracks@, r)
            },
            None => first_choice_spec(tracks@, r),
        },
{
    match track_num {
        Some(t) => {
            if t < tracks.len() {
                Some(t)
            } else {
                first_supported_track(tracks)
            }
        },
        None => first_supported_track(tracks),
    }
}

/// `r` names the first supported track of the list, or nothing when the list
/// has none.
pub open spec fn first_choice_spec(tracks: Seq<TrackInfo>, r: Option<usize>) -> bool {
    match r {
        Some(i) => {
            &&& i < tracks.len()
            &&& tracks[i as int].codec != NULL_CODEC
            &&& forall|j: int| 0 <= j < i ==> #[trigger] tracks[j].codec == NULL_CODEC
        },
        None => !has_supported_track(tracks),
    }
}

/// What the demuxer's seek attempt came to.  The host converts the demuxer's
/// answer into this value.
#[derive(Clone, Copy, PartialEq, Eq, Structural, Debug)]
pub enum SeekOutcome {
    /// The seek landed: the achieved timestamp, which packets must reach to
    /// be rendered.
    SeekedTo(u64),
    /// The codec needs a full reset to seek.
    ResetRequired,
    /// The seek failed for another reason.
    Failed,
}

/// Resolve a seek attempt into the track to play and the trim threshold.
///
/// A landed seek keeps the chosen track and trims below the achieved
/// timestamp.  When the codec demands a reset, the loader re-selects the
/// first supported track and falls back to a threshold of zero — seek
/// precision is given up, not the session.  Any other seek failure also
/// falls back to zero so no samples are trimmed.
pub fn resolve_seek(outcome: SeekOutcome, track_id: u32, tracks: &Vec<TrackInfo>) -> (r: (
    u32,
    u64,
))
    requires
        outcome is ResetRequired ==> has_supported_track(tracks@),
    ensures
        match outcome {
            SeekOutcome::SeekedTo(ts) => r == (track_id, ts),
            SeekOutcome::ResetRequired => r.1 == 0 && (exists|i: int|
                {
                    &&& 0 <= i < tracks@.len()
                    &&& #[trigger] tracks@[i].codec != NULL_CODEC
                    &&& tracks@[i].id == r.0
                    &&& forall|j: int| 0 <= j < i ==> #[trigger] tracks@[j].codec == NULL_CODEC
                }),
            SeekOutcome::Failed => r == (track_id, 0u64),
        },
{
    match outcome {
        SeekOutcome::SeekedTo(ts) => (track_id, ts),
        SeekOutcome::ResetRequired => {
            let first = first_supported_track(tracks);
            match first {
                Some(i) => (tracks[i].id, 0),
                None => (track_id, 0),  // unreachable: a supported track exists
            }
        },
        SeekOutcome::Failed => (track_id, 0),
    }
}

/// A track's total duration in ticks: the total frame count plus the start
/// offset when the container exposes the count, zero when it is unknown.
pub fn track_duration(track: &TrackInfo) -> (d: u64)
    requires
        track.n_frames matches Some(f) ==> track.start_ts + f <= u64::MAX,
    ensures
        d == match track.n_frames {
            Some(f) => track.start_ts + f,
            None => 0int,
        },
{
    match track.n_frames {
        Some(f) => track.start_ts + f,
        None => 0,
    }
}

/// Assemble the session the engine will run: the chosen track, the trim
/// threshold the seek resolution produced, and the track's duration.
pub fn make_session(track: &TrackInfo, track_id: u32, seek_ts: u64) -> (s: Session)
    requires
        track.n_frames matches Some(f) ==> track.start_ts + f <= u64::MAX,
    ensures
        s.track_id == track_id,
        s.seek_ts == seek_ts,
        s.duration == match track.n_frames {
            Some(f) => track.start_ts + f,
            None => 0int,
        },
{
    Session { track_id, seek_ts, duration: track_duration(track) }
}

/// The exit code of the decoder's final verification pass: zero when the
/// check passed or was never enabled, one when it ran and failed.
pub fn verification_code(verify_ok: Option<bool>) -> (r: i32)
    ensures
        r == match verify_ok {
            Some(ok) => if ok {
                0int
            } else {
                1int
            },
            None => 0int,
        },
{
    match verify_ok {
        Some(ok) => {
            if ok {
                0
            } else {
                1
            }
        },
        None => 0,
    }
}

} // verus!
