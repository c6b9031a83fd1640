//! Parsing of the configured "#rrggbb" color strings.
//!
//! Leading `#` marks are stripped; anything that is not six characters
//! long after that is white. Each two-character channel parses as a
//! hexadecimal byte, a malformed channel falling back to 255.

use vstd::prelude::*;

verus! {

/// One color channel value on which a malformed channel falls back.
pub const CHANNEL_FALLBACK: u8 = 255;

/// A color as the presentation layer consumes it: one byte per channel.
#[derive(Clone, Copy, Debug, PartialEq, Eq, Structural)]
pub struct Rgb {
    pub red: u8,
    pub green: u8,
    pub blue: u8,
}

/// The value of one hexadecimal digit, either case.
pub open spec fn spec_hex_digit(c: char) -> Option<u8> {
    let v = c as u32;
    if 48 <= v && v <= 57 {
        Some((v - 48) as u8)
    } else if 97 <= v && v <= 102 {
        Some((v - 97 + 10) as u8)
    } else if 65 <= v && v <= 70 {
        Some((v - 65 + 10) as u8)
    } else {
        None
    }
}

/// The value of one two-digit channel, or the fallback when either
/// digit is not hexadecimal.
pub open spec fn spec_channel(hi: char, lo: char) -> u8 {
    match (spec_hex_digit(hi), spec_hex_digit(lo)) {
        (Some(h), Some(l)) => (16 * h + l) as u8,
        _ => CHANNEL_FALLBACK,
    }
}

/// How many `#` marks the string starts with.
pub open spec fn leading_hashes(s: Seq<char>) -> int
    decreases s.len(),
{
    if s.len() > 0 && s[0] == '#' {
        1 + leading_hashes(s.drop_first())
    } else {
        0
    }
}

/// What a configured color string parses to: strip the leading `#`
/// marks; white unless exactly six characters remain; else one
/// hexadecimal byte per channel.
pub open spec fn spec_parse_color(s: Seq<char>) -> Rgb {
    let t = s.subrange(leading_hashes(s), s.len() as int);
    if t.len() != 6 {
        Rgb { red: 255, green: 255, blue: 255 }
    } else {
        Rgb {
            red: spec_channel(t[0], t[1]),
            green: spec_channel(t[2], t[3]),
            blue: spec_channel(t[4], t[5]),
        }
    }
}

proof fn lemma_leading_hashes(s: Seq<char>, k: int)
    requires
        0 <= k <= s.len(),
        forall|j: int| 0 <= j < k ==> s[j] == '#',
        k == s.len() || s[k] != '#',
    ensures
        leading_hashes(s) == k,
    decreases k,
{
    if k == 0 {
    } else {
        assert(s[0] == '#');
        let t = s.drop_first();
        assert(forall|j: int| 0 <= j < k - 1 ==> t[j] == s[j + 1] && t[j] == '#');
        if k - 1 < t.len() {
            assert(t[k - 1] == s[k]);
        }
        lemma_leading_hashes(t, k - 1);
    }
}

/// The value of one hexadecimal digit character, either case.
pub fn hex_digit(c: char) -> (d: Option<u8>)
    ensures
        d == spec_hex_digit(c),
{
    let v = c as u32;
    if 48 <= v && v <= 57 {
        Some((v - 48) as u8)
    } else if 97 <= v && v <= 102 {
        Some((v - 97 + 10) as u8)
    } else if 65 <= v && v <= 70 {
        Some((v - 65 + 10) as u8)
    } else {
        None
    }
}

fn channel(hi: char, lo: char) -> (b: u8)
    ensures
        b == spec_channel(hi, lo),
{
    match (hex_digit(hi), hex_digit(lo)) {
        (Some(h), Some(l)) => 16 * h + l,
        _ => CHANNEL_FALLBACK,
    }
}

/// Parse a configured color string.
pub fn parse_color(s: &str) -> (c: Rgb)
    ensures
        c == spec_parse_color(s@),
{
    let n = s.unicode_len();
    let mut start: usize = 0;
    while start < n && s.get_char(start) == '#'
        invariant
            0 <= start <= n,
            n == s@.len(),
            forall|j: int| 0 <= j < start ==> s@[j] == '#',
        decreases n - start,
    {
        start += 1;
    }
    proof {
        lemma_leading_hashes(s@, start as int);
    }
    if n - start != 6 {
        return Rgb { red: 255, green: 255, blue: 255 };
    }
    let ghost t = s@.subrange(start as int, n as int);
    assert(t.len() == 6);
    let c0 = s.get_char(start);
    let c1 = s.get_char(start + 1);
    let c2 = s.get_char(start + 2);
    let c3 = s.get_char(start + 3);
    let c4 = s.get_char(start + 4);
    let c5 = s.get_char(start + 5);
    assert(c0 == t[0] && c1 == t[1] && c2 == t[2] && c3 == t[3] && c4 == t[4] && c5 == t[5]);
    Rgb { red: channel(c0, c1), green: channel(c2, c3), blue: channel(c4, c5) }
}

} // verus!
