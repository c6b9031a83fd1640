//! Normalization of raw metadata samples into a track record.
//!
//! A sample arrives as an optional title string and a list of artist
//! strings. The record keeps the title and the first artist, and is
//! emitted only when both resolve to non-empty strings; every other
//! sample becomes `None`.

use vstd::prelude::*;

use crate::track::TrackRecord;
use crate::track::TrackView;
use crate::track::opt_track_valid;

verus! {

/// What a metadata sample normalizes to: the title and the first artist
/// when both are present and non-empty, otherwise nothing.
pub open spec fn spec_extract(title: Option<String>, artists: Seq<String>) -> Option<
    TrackRecord,
> {
    match title {
        Some(t) => {
            if t@.len() > 0 && artists.len() > 0 && artists[0]@.len() > 0 {
                Some(TrackRecord { title: t, artist: artists[0] })
            } else {
                None
            }
        },
        None => None,
    }
}

/// Build the published record from one metadata sample: the title as
/// read, the artist as the first element of the artist list; `None`
/// unless both are non-empty.
pub fn extract_track(title: Option<String>, artists: Vec<String>) -> (r: Option<TrackRecord>)
    ensures
        r == spec_extract(title, artists@),
        opt_track_valid(r),
{
    let first_artist: Option<String> = if artists.len() > 0 {
        let mut artists = artists;
        Some(artists.remove(0))
    } else {
        None
    };
    match (title, first_artist) {
        (Some(t), Some(a)) => {
            if !t.as_str().is_empty() && !a.as_str().is_empty() {
                Some(TrackRecord { title: t, artist: a })
            } else {
                None
            }
        },
        _ => None,
    }
}

/// No published record has an empty title or an empty artist: whatever
/// the sample held, the extracted value is `None` or a displayable record.
pub proof fn lemma_extract_never_partial(title: Option<String>, artists: Seq<String>)
    ensures
        opt_track_valid(spec_extract(title, artists)),
{
}

/// The characters of an optional string.
pub open spec fn opt_str_view(s: Option<String>) -> Option<Seq<char>> {
    match s {
        Some(t) => Some(t@),
        None => None,
    }
}

/// The ghost image of an optional record.
pub open spec fn opt_track_view(v: Option<TrackRecord>) -> Option<TrackView> {
    match v {
        Some(t) => Some(t@),
        None => None,
    }
}

/// What a metadata sample normalizes to, stated purely over character
/// sequences: the title and the first artist when both are present and
/// non-empty, otherwise nothing.
pub open spec fn spec_extract_view(title: Option<Seq<char>>, artists: Seq<Seq<char>>) -> Option<
    TrackView,
> {
    match title {
        Some(t) => {
            if t.len() > 0 && artists.len() > 0 && artists[0].len() > 0 {
                Some(TrackView { title: t, artist: artists[0] })
            } else {
                None
            }
        },
        None => None,
    }
}

/// The two statements of extraction agree: the ghost image of the
/// extracted record is the extraction of the sample's ghost image.
pub proof fn lemma_extract_view(title: Option<String>, artists: Vec<String>)
    ensures
        opt_track_view(spec_extract(title, artists@)) == spec_extract_view(
            opt_str_view(title),
            artists.deep_view(),
        ),
{
    assert(artists.deep_view().len() == artists@.len());
    if artists@.len() > 0 {
        assert(artists.deep_view()[0] == artists@[0]@);
    }
}

/// Sampling is deterministic: two samples that read the same underlying
/// metadata (the same title characters, the same artist list) yield
/// structurally equal results.
pub proof fn lemma_extract_idempotent(
    t1: Option<String>,
    a1: Seq<String>,
    t2: Option<String>,
    a2: Seq<String>,
)
    requires
        opt_str_view(t1) == opt_str_view(t2),
        a1.map_values(|s: String| s@) == a2.map_values(|s: String| s@),
    ensures
        opt_track_view(spec_extract(t1, a1)) == opt_track_view(spec_extract(t2, a2)),
{
    let v1 = a1.map_values(|s: String| s@);
    let v2 = a2.map_values(|s: String| s@);
    assert(a1.len() == v1.len());
    assert(a2.len() == v2.len());
    if a1.len() > 0 {
        assert(v1[0] == a1[0]@);
        assert(v2[0] == a2[0]@);
    }
}

} // verus!
