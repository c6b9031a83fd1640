//! The normalized track record and the playback status of a candidate
//! player, as derived from the raw string property on the bus.

use vstd::prelude::*;

verus! {

/// Playback activity of a media player, derived from the raw status
/// string. Anything other than exactly "Playing" or "Paused" ranks the
/// same ("Stopped" is kept apart only for readability).
#[derive(Clone, Copy, Debug, PartialEq, Eq, Structural)]
pub enum PlaybackStatus {
    Playing,
    Paused,
    Stopped,
    Unknown,
}

/// What a raw status string means: exact matches for "Playing", "Paused"
/// and "Stopped"; everything else is `Unknown`.
pub open spec fn spec_status(s: Seq<char>) -> PlaybackStatus {
    if s == "Playing"@ {
        PlaybackStatus::Playing
    } else if s == "Paused"@ {
        PlaybackStatus::Paused
    } else if s == "Stopped"@ {
        PlaybackStatus::Stopped
    } else {
        PlaybackStatus::Unknown
    }
}

impl PlaybackStatus {
    /// Normalize a raw status string read from the bus.
    pub fn parse(raw: &str) -> (st: PlaybackStatus)
        ensures
            st == spec_status(raw@),
    {
        let owned = raw.to_owned();
        if owned == "Playing".to_owned() {
            PlaybackStatus::Playing
        } else if owned == "Paused".to_owned() {
            PlaybackStatus::Paused
        } else if owned == "Stopped".to_owned() {
            PlaybackStatus::Stopped
        } else {
            PlaybackStatus::Unknown
        }
    }
}

/// An immutable "now playing" record. A record is displayable only when
/// both fields are non-empty; samples that would violate this are turned
/// into `None` before they reach any consumer.
#[derive(Debug)]
pub struct TrackRecord {
    pub title: String,
    pub artist: String,
}

/// Ghost image of a record: both strings as character sequences.
pub ghost struct TrackView {
    pub title: Seq<char>,
    pub artist: Seq<char>,
}

impl View for TrackRecord {
    type V = TrackView;

    open spec fn view(&self) -> TrackView {
        TrackView { title: self.title@, artist: self.artist@ }
    }
}

impl TrackRecord {
    /// A record may be shown only when both fields are non-empty.
    pub open spec fn spec_valid(&self) -> bool {
        self@.title.len() > 0 && self@.artist.len() > 0
    }

    /// Runtime counterpart of [`TrackRecord::spec_valid`].
    pub fn is_displayable(&self) -> (b: bool)
        ensures
            b == self.spec_valid(),
    {
        !self.title.as_str().is_empty() && !self.artist.as_str().is_empty()
    }
}

impl Clone for TrackRecord {
    /// Field-for-field copy; the clone views the same title and artist.
    fn clone(&self) -> (r: Self)
        ensures
            r@ == self@,
    {
        TrackRecord { title: self.title.clone(), artist: self.artist.clone() }
    }
}

/// A record image may be shown only when both fields are non-empty.
pub open spec fn track_view_valid(t: TrackView) -> bool {
    t.title.len() > 0 && t.artist.len() > 0
}

/// The published state is either nothing or a displayable record.
pub open spec fn opt_track_valid(v: Option<TrackRecord>) -> bool {
    match v {
        Some(t) => t.spec_valid(),
        None => true,
    }
}

} // verus!
