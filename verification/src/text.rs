//! ASCII case-insensitive substring matching over byte buffers.
//!
//! The installer's log is an append-only text file with no guaranteed
//! structure; progress milestones are recognised by searching each newly
//! appended chunk of bytes for fixed lower-case ASCII patterns, ignoring
//! the case of ASCII letters in the chunk.

use vstd::prelude::*;

verus! {

/// The bytes of an ASCII character sequence, one byte per character.
pub open spec fn ascii_bytes(s: Seq<char>) -> Seq<u8> {
    Seq::new(s.len(), |i: int| s[i] as u8)
}

/// ASCII lower-casing of one byte: `'A'..='Z'` map to `'a'..='z'`,
/// every other byte is unchanged.
pub open spec fn lower_byte(b: u8) -> u8 {
    if 65 <= b && b <= 90 {
        (b + 32) as u8
    } else {
        b
    }
}

/// `pat` occurs in `content` at offset `i`, comparing the content
/// ASCII case-insensitively (patterns are stored lower-case).
pub open spec fn match_at(content: Seq<u8>, pat: Seq<u8>, i: int) -> bool {
    forall|j: int| 0 <= j < pat.len() ==> lower_byte(content[i + j]) == pat[j]
}

/// `pat` occurs somewhere in `content`, ASCII case-insensitively.
pub open spec fn contains_pattern(content: Seq<u8>, pat: Seq<u8>) -> bool {
    exists|i: int| 0 <= i && i + pat.len() <= content.len() && match_at(content, pat, i)
}

/// Lower-case one byte as `lower_byte` does.
pub fn lower_byte_exec(b: u8) -> (r: u8)
    ensures
        r == lower_byte(b),
{
    if 65 <= b && b <= 90 {
        b + 32
    } else {
        b
    }
}

/// Does `pat` occur in `content` at offset `i`?
fn match_at_exec(content: &Vec<u8>, pat: &Vec<u8>, i: usize) -> (r: bool)
    requires
        i + pat@.len() <= content@.len(),
    ensures
        r == match_at(content@, pat@, i as int),
{
    let n = content.len();
    let m = pat.len();
    let mut j: usize = 0;
    while j < m
        invariant
            j <= m,
            n == content@.len(),
            m == pat@.len(),
            i + m <= n,
            forall|j2: int| 0 <= j2 < j ==> lower_byte(content@[i + j2]) == pat@[j2],
        decreases m - j,
    {
        if lower_byte_exec(content[i + j]) != pat[j] {
            assert(!match_at(content@, pat@, i as int)) by {
                assert(lower_byte(content@[i + j]) != pat@[j as int]);
            }
            return false;
        }
        j += 1;
    }
    true
}

/// Search `content` for `pat`, ASCII case-insensitively.
pub fn find_pattern(content: &Vec<u8>, pat: &Vec<u8>) -> (r: bool)
    ensures
        r == contains_pattern(content@, pat@),
{
    let n = content.len();
    let m = pat.len();
    if m > n {
        assert(!contains_pattern(content@, pat@));
        return false;
    }
    let mut i: usize = 0;
    while i <= n - m
        invariant
            m <= n,
            n == content@.len(),
            m == pat@.len(),
            i <= n - m + 1,
            forall|i2: int| 0 <= i2 < i ==> !match_at(content@, pat@, i2),
        decreases n - m + 1 - i,
    {
        if match_at_exec(content, pat, i) {
            assert(contains_pattern(content@, pat@));
            return true;
        }
        i += 1;
    }
    false
}

} // verus!
