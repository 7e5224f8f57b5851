//! Byte-sequence predicates shared by the classifier and the handshake
//! planner: substring occurrence, ASCII case folding, and suffix tests.
//!
//! Classification and handshake decisions in this crate are substring
//! checks over the raw bytes of a connection.  The original wire data is
//! examined byte for byte; text signatures such as the SSH banner prefix
//! are ASCII, so byte-level matching is exact.

use vstd::prelude::*;

verus! {

/// `needle` occurs in `hay` starting at index `i`.
pub open spec fn match_at(hay: Seq<u8>, needle: Seq<u8>, i: int) -> bool {
    0 <= i && i + needle.len() <= hay.len() && hay.subrange(i, i + needle.len()) == needle
}

/// `needle` occurs somewhere in `hay`.
pub open spec fn contains_seq(hay: Seq<u8>, needle: Seq<u8>) -> bool {
    exists|i: int| match_at(hay, needle, i)
}

/// ASCII upper-case letters fold to lower case; every other byte is kept.
pub open spec fn lower_byte(b: u8) -> u8 {
    if 65 <= b <= 90 {
        (b + 32) as u8
    } else {
        b
    }
}

/// Byte-wise ASCII lower-casing of a sequence.
pub open spec fn lower_seq(s: Seq<u8>) -> Seq<u8> {
    s.map_values(|b: u8| lower_byte(b))
}

/// `needle` occurs in `hay`, compared up to ASCII case.
pub open spec fn contains_seq_ci(hay: Seq<u8>, needle: Seq<u8>) -> bool {
    contains_seq(lower_seq(hay), lower_seq(needle))
}

/// `s` ends with `suffix`.
pub open spec fn ends_with(s: Seq<u8>, suffix: Seq<u8>) -> bool {
    suffix.len() <= s.len() && s.subrange(s.len() - suffix.len(), s.len() as int) == suffix
}

/// Whether `needle` occurs in `hay` at position `i`.
fn matches_at(hay: &[u8], needle: &[u8], i: usize) -> (r: bool)
    requires
        i + needle@.len() <= hay@.len(),
    ensures
        r == match_at(hay@, needle@, i as int),
{
    let n = needle.len();
    let h = hay.len();
    let mut j: usize = 0;
    while j < n
        invariant
            n == needle@.len(),
            h == hay@.len(),
            i + n <= h,
            0 <= j <= n,
            forall|k: int| 0 <= k < j ==> hay@[i + k] == needle@[k],
        decreases n - j,
    {
        if hay[i + j] != needle[j] {
            assert(!match_at(hay@, needle@, i as int)) by {
                if match_at(hay@, needle@, i as int) {
                    assert(hay@.subrange(i as int, i + needle@.len())[j as int]
                        == needle@[j as int]);
                }
            }
            return false;
        }
        j = j + 1;
    }
    assert(hay@.subrange(i as int, i + needle@.len()) =~= needle@);
    true
}

/// Substring search: does `needle` occur anywhere in `hay`?
pub fn contains_slice(hay: &[u8], needle: &[u8]) -> (r: bool)
    ensures
        r == contains_seq(hay@, needle@),
{
    if needle.len() > hay.len() {
        assert(!contains_seq(hay@, needle@)) by {
            if contains_seq(hay@, needle@) {
                let w = choose|k: int| match_at(hay@, needle@, k);
            }
        }
        return false;
    }
    if needle.is_empty() {
        assert(hay@.subrange(0, 0) =~= needle@);
        assert(match_at(hay@, needle@, 0));
        return true;
    }
    let h = hay.len();
    let last = h - needle.len();
    let mut i: usize = 0;
    while i <= last
        invariant
            1 <= needle@.len() <= hay@.len(),
            h == hay@.len(),
            last == hay@.len() - needle@.len(),
            0 <= i <= last + 1,
            forall|k: int| 0 <= k < i ==> !match_at(hay@, needle@, k),
        decreases last + 1 - i,
    {
        if matches_at(hay, needle, i) {
            return true;
        }
        i = i + 1;
    }
    assert(!contains_seq(hay@, needle@)) by {
        if contains_seq(hay@, needle@) {
            let w = choose|k: int| match_at(hay@, needle@, k);
            assert(!match_at(hay@, needle@, w));
        }
    }
    false
}

/// Copies `s` with every ASCII upper-case letter folded to lower case.
pub fn ascii_lower(s: &[u8]) -> (v: Vec<u8>)
    ensures
        v@ == lower_seq(s@),
{
    let mut v: Vec<u8> = Vec::new();
    let mut i: usize = 0;
    while i < s.len()
        invariant
            0 <= i <= s@.len(),
            v@.len() == i,
            forall|k: int| 0 <= k < i ==> v@[k] == lower_byte(s@[k]),
        decreases s@.len() - i,
    {
        let b = s[i];
        let folded = if 65 <= b && b <= 90 {
            b + 32
        } else {
            b
        };
        v.push(folded);
        i = i + 1;
    }
    assert(v@ =~= lower_seq(s@));
    v
}

/// Substring search up to ASCII case.
pub fn contains_slice_ci(hay: &[u8], needle: &[u8]) -> (r: bool)
    ensures
        r == contains_seq_ci(hay@, needle@),
{
    let low_hay = ascii_lower(hay);
    let low_needle = ascii_lower(needle);
    contains_slice(low_hay.as_slice(), low_needle.as_slice())
}

} // verus!
