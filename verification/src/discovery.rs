//! Discovery of the active media player among the services registered on
//! the session bus.
//!
//! Candidates are the registered names that carry the media-player
//! prefix. Each candidate's playback status is sampled (a failed read
//! leaves the candidate with no status), and one candidate is selected
//! by a fixed ladder: the first one playing, else the first one paused,
//! else the first one found at all.

use vstd::prelude::*;

use crate::track::PlaybackStatus;

verus! {

/// The naming convention under which media players register on the bus.
pub open spec fn player_prefix() -> Seq<char> {
    "org.mpris.MediaPlayer2."@
}

/// Whether a registered name announces a media player.
pub open spec fn has_player_prefix(s: Seq<char>) -> bool {
    s.len() >= player_prefix().len() && s.subrange(0, player_prefix().len() as int)
        == player_prefix()
}

/// Runtime counterpart of [`has_player_prefix`].
pub fn is_player_name(name: &str) -> (b: bool)
    ensures
        b == has_player_prefix(name@),
{
    let prefix = "org.mpris.MediaPlayer2.";
    let plen = prefix.unicode_len();
    let nlen = name.unicode_len();
    if nlen < plen {
        return false;
    }
    let mut i: usize = 0;
    while i < plen
        invariant
            0 <= i <= plen,
            plen == player_prefix().len(),
            nlen == name@.len(),
            plen <= nlen,
            prefix@ == player_prefix(),
            forall|j: int| 0 <= j < i ==> name@[j] == player_prefix()[j],
        decreases plen - i,
    {
        if name.get_char(i) != prefix.get_char(i) {
            assert(name@[i as int] != player_prefix()[i as int]);
            assert(!has_player_prefix(name@)) by {
                if has_player_prefix(name@) {
                    assert(name@.subrange(0, player_prefix().len() as int)[i as int]
                        == name@[i as int]);
                }
            }
            return false;
        }
        i += 1;
    }
    assert(name@.subrange(0, player_prefix().len() as int) =~= player_prefix());
    true
}

/// The media-player names among a list of registered names, in their
/// enumeration order.
pub fn filter_player_names(names: &Vec<String>) -> (r: Vec<String>)
    ensures
        r.deep_view() == names.deep_view().filter(|s: Seq<char>| has_player_prefix(s)),
{
    let mut r: Vec<String> = Vec::new();
    let mut i: usize = 0;
    while i < names.len()
        invariant
            0 <= i <= names.len(),
            names.deep_view().len() == names.len(),
            r.deep_view() == names.deep_view().take(i as int).filter(
                |s: Seq<char>| has_player_prefix(s),
            ),
        decreases names.len() - i,
    {
        let ghost prev = names.deep_view().take(i as int);
        let ghost cur = names.deep_view().take(i + 1 as int);
        proof {
            reveal(Seq::filter);
            assert(cur.drop_last() =~= prev);
            assert(cur.last() == names.deep_view()[i as int]);
        }
        if is_player_name(names[i].as_str()) {
            let ghost old_r = r.deep_view();
            r.push(names[i].clone());
            proof {
                assert(r.deep_view() =~= old_r.push(names@[i as int]@));
                assert(r.deep_view() =~= cur.filter(|s: Seq<char>| has_player_prefix(s)));
            }
        } else {
            proof {
                assert(r.deep_view() =~= cur.filter(|s: Seq<char>| has_player_prefix(s)));
            }
        }
        i += 1;
    }
    proof {
        assert(names.deep_view().take(names@.len() as int) =~= names.deep_view());
    }
    r
}

/// One discovered candidate: its registered name and its playback
/// status, or `None` where the status read failed.
pub struct CandidateReport {
    pub name: String,
    pub status: Option<PlaybackStatus>,
}

/// A candidate answered and is playing.
pub open spec fn is_playing(c: CandidateReport) -> bool {
    c.status == Some(PlaybackStatus::Playing)
}

/// A candidate answered and is paused.
pub open spec fn is_paused(c: CandidateReport) -> bool {
    c.status == Some(PlaybackStatus::Paused)
}

/// Some candidate in the list is playing.
pub open spec fn has_playing(s: Seq<CandidateReport>) -> bool {
    exists|j: int| 0 <= j < s.len() && is_playing(#[trigger] s[j])
}

/// Some candidate in the list is paused.
pub open spec fn has_paused(s: Seq<CandidateReport>) -> bool {
    exists|j: int| 0 <= j < s.len() && is_paused(#[trigger] s[j])
}

/// Select the candidate to poll, by the fixed ladder: the first playing
/// candidate; else the first paused one; else the first candidate at
/// all; `None` only when the list is empty. A candidate whose status
/// read failed never outranks one that answered.
pub fn select_candidate(reports: &Vec<CandidateReport>) -> (r: Option<usize>)
    ensures
        (r is None) <==> reports@.len() == 0,
        r matches Some(i) ==> {
            &&& (i as int) < reports@.len()
            &&& (has_playing(reports@) ==> is_playing(reports@[i as int]) && (forall|j: int|
                0 <= j < i ==> !is_playing(#[trigger] reports@[j])))
            &&& (!has_playing(reports@) && has_paused(reports@) ==> is_paused(
                reports@[i as int],
            ) && (forall|j: int| 0 <= j < i ==> !is_paused(#[trigger] reports@[j])))
            &&& (!has_playing(reports@) && !has_paused(reports@) ==> i == 0)
        },
{
    let n = reports.len();
    if n == 0 {
        return None;
    }
    let mut paused: Option<usize> = None;
    let mut i: usize = 0;
    while i < n
        invariant
            0 <= i <= n,
            n == reports@.len(),
            forall|j: int| 0 <= j < i ==> !is_playing(#[trigger] reports@[j]),
            match paused {
                Some(p) => {
                    &&& (p as int) < i
                    &&& is_paused(reports@[p as int])
                    &&& forall|j: int| 0 <= j < p ==> !is_paused(#[trigger] reports@[j])
                },
                None => forall|j: int| 0 <= j < i ==> !is_paused(#[trigger] reports@[j]),
            },
        decreases n - i,
    {
        match reports[i].status {
            Some(PlaybackStatus::Playing) => {
                return Some(i);
            },
            Some(PlaybackStatus::Paused) => {
                if paused.is_none() {
                    paused = Some(i);
                }
            },
            _ => {},
        }
        i += 1;
    }
    match paused {
        Some(p) => Some(p),
        None => Some(0),
    }
}

} // verus!
