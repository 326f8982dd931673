//! The keymap asset as handed to the loader, and the heuristic that spots
//! a keymap authored in a non-JSON dialect.

use vstd::prelude::*;

use crate::state::Key;

verus! {

/// A keymap asset: the raw text for the dialect check, and the entries if
/// the text parsed as JSON.
pub struct KeymapData {
    /// The asset text as raw bytes.
    pub raw: Vec<u8>,
    /// The parsed entries; absent when the text did not parse.
    pub parsed: Option<Vec<Key>>,
}

/// The text with every space removed.
pub open spec fn spec_strip_spaces(s: Seq<u8>) -> Seq<u8>
    decreases s.len(),
{
    if s.len() == 0 {
        Seq::empty()
    } else if s.last() == 32 {
        spec_strip_spaces(s.drop_last())
    } else {
        spec_strip_spaces(s.drop_last()).push(s.last())
    }
}

/// The telltale marker of the non-JSON keymap dialect: the bytes of
/// `KeyName:`.
pub open spec fn spec_keyname_marker() -> Seq<u8> {
    seq![0x4Bu8, 0x65, 0x79, 0x4E, 0x61, 0x6D, 0x65, 0x3A]
}

/// Whether the marker stands at a position of a text.
pub open spec fn spec_marker_at(s: Seq<u8>, i: int) -> bool {
    &&& 0 <= i
    &&& i + 8 <= s.len()
    &&& s.subrange(i, i + 8) == spec_keyname_marker()
}

/// Whether a keymap text is authored in the non-JSON dialect: the marker
/// occurs somewhere once spaces are removed.
pub open spec fn spec_is_js_keymap(raw: Seq<u8>) -> bool {
    exists|i: int| spec_marker_at(spec_strip_spaces(raw), i)
}

/// One byte of the marker.
fn marker_byte(j: usize) -> (b: u8)
    requires
        j < 8,
    ensures
        b == spec_keyname_marker()[j as int],
{
    match j {
        0 => 0x4B,
        1 => 0x65,
        2 => 0x79,
        3 => 0x4E,
        4 => 0x61,
        5 => 0x6D,
        6 => 0x65,
        _ => 0x3A,
    }
}

/// Whether the marker stands at a position of a text.
fn marker_matches_at(s: &Vec<u8>, i: usize) -> (r: bool)
    requires
        i + 8 <= s@.len(),
    ensures
        r == spec_marker_at(s@, i as int),
{
    let sl = s.len();
    let mut j: usize = 0;
    while j < 8
        invariant
            0 <= j <= 8,
            sl == s@.len(),
            i + 8 <= sl,
            forall|t: int| 0 <= t < j ==> s@[i + t] == spec_keyname_marker()[t],
        decreases 8 - j,
    {
        if s[i + j] != marker_byte(j) {
            proof {
                if spec_marker_at(s@, i as int) {
                    let w = s@.subrange(i as int, i as int + 8);
                    assert(w[j as int] == spec_keyname_marker()[j as int]);
                    assert(w[j as int] == s@[i + j]);
                }
            }
            return false;
        }
        j = j + 1;
    }
    proof {
        assert(s@.subrange(i as int, i as int + 8) =~= spec_keyname_marker());
    }
    true
}

/// Spots a keymap authored in the non-JSON dialect: with spaces removed,
/// the text holds the `KeyName:` marker somewhere. Such a keymap is
/// skipped for its model, never an abort.
pub fn is_js_keymap(raw: &Vec<u8>) -> (r: bool)
    ensures
        r == spec_is_js_keymap(raw@),
{
    let mut stripped: Vec<u8> = Vec::new();
    let n = raw.len();
    let mut i: usize = 0;
    proof {
        assert(raw@.take(0) =~= Seq::<u8>::empty());
    }
    while i < n
        invariant
            0 <= i <= n,
            n == raw@.len(),
            stripped@ == spec_strip_spaces(raw@.take(i as int)),
        decreases n - i,
    {
        proof {
            assert(raw@.take(i + 1).drop_last() =~= raw@.take(i as int));
            assert(raw@.take(i + 1).last() == raw@[i as int]);
        }
        let b = raw[i];
        if b != 32 {
            stripped.push(b);
        }
        i = i + 1;
    }
    proof {
        assert(raw@.take(n as int) =~= raw@);
    }
    let m = stripped.len();
    let mut p: usize = 0;
    while m - p >= 8
        invariant
            0 <= p <= m,
            m == stripped@.len(),
            stripped@ == spec_strip_spaces(raw@),
            forall|t: int| 0 <= t < p ==> !spec_marker_at(stripped@, t),
        decreases m - p,
    {
        if marker_matches_at(&stripped, p) {
            return true;
        }
        p = p + 1;
    }
    proof {
        assert(forall|t: int| t > m - 8 ==> !spec_marker_at(stripped@, t));
    }
    false
}

} // verus!
