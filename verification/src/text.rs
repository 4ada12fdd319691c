//! ASCII case folding on characters and case-insensitive comparison of
//! strings, used to match file extensions against the fixed lookup tables.
use vstd::prelude::*;
use vstd::string::StrSliceExecFns;

verus! {

/// ASCII lowercasing of a single character; anything outside `'A'..='Z'`
/// is left as it is.
pub open spec fn lower_char(c: char) -> char {
    if 'A' <= c && c <= 'Z' {
        (((c as u8) + 32) as char)
    } else {
        c
    }
}

/// ASCII lowercasing of a character sequence.
pub open spec fn lower_seq(s: Seq<char>) -> Seq<char> {
    s.map_values(|c: char| lower_char(c))
}

/// ASCII lowercasing of a single character.
pub fn to_lower_char(c: char) -> (r: char)
    ensures
        r == lower_char(c),
{
    if 'A' <= c && c <= 'Z' {
        ((c as u8) + 32) as char
    } else {
        c
    }
}

/// Decides whether `s`, lowered ASCII-wise, is exactly `key`.
pub fn eq_lowercase(s: &str, key: &str) -> (r: bool)
    ensures
        r == (lower_seq(s@) == key@),
{
    let n = s.unicode_len();
    let m = key.unicode_len();
    if n != m {
        proof {
            assert(lower_seq(s@).len() != key@.len());
        }
        return false;
    }
    let mut i: usize = 0;
    while i < n
        invariant
            i <= n,
            n == s@.len(),
            n == key@.len(),
            forall|j: int| 0 <= j < i ==> lower_char(s@[j]) == key@[j],
        decreases n - i,
    {
        let c = to_lower_char(s.get_char(i));
        let k = key.get_char(i);
        if c != k {
            proof {
                assert(lower_seq(s@)[i as int] != key@[i as int]);
            }
            return false;
        }
        i += 1;
    }
    proof {
        assert(lower_seq(s@) =~= key@);
    }
    true
}

} // verus!
