//! Small verified string helpers: exact equality, ASCII-case-insensitive
//! equality, and suffix testing, each specified over the string's view.

use vstd::prelude::*;

verus! {

/// True when `s` ends with `suffix`.
pub open spec fn ends_with(s: Seq<char>, suffix: Seq<char>) -> bool {
    &&& s.len() >= suffix.len()
    &&& s.subrange(s.len() - suffix.len(), s.len() as int) == suffix
}

/// Lowers an ASCII uppercase letter; leaves every other character alone.
pub open spec fn lower_char(c: char) -> char {
    if 65 <= c as u32 && c as u32 <= 90 {
        ((c as u32 + 32) as char)
    } else {
        c
    }
}

/// Lowers every character of a string, ASCII-wise.
pub open spec fn lower(s: Seq<char>) -> Seq<char> {
    s.map_values(|c: char| lower_char(c))
}

/// Exact (byte-for-byte, that is character-for-character) string equality.
pub fn str_eq(a: &str, b: &str) -> (r: bool)
    ensures
        r == (a@ == b@),
{
    let sa = String::from_str(a);
    let sb = String::from_str(b);
    sa == sb
}

/// True when `s` ends with `suffix`, comparing characters exactly.
pub fn str_ends_with(s: &str, suffix: &str) -> (r: bool)
    ensures
        r == ends_with(s@, suffix@),
{
    let n = s.unicode_len();
    let m = suffix.unicode_len();
    if n < m {
        false
    } else {
        let tail = s.substring_char(n - m, n);
        str_eq(tail, suffix)
    }
}

/// Compares two characters up to ASCII case.
fn char_case_eq(a: char, b: char) -> (r: bool)
    ensures
        r == (lower_char(a) == lower_char(b)),
{
    let ca: u32 = a as u32;
    let cb: u32 = b as u32;
    let la: u32 = if 65 <= ca && ca <= 90 {
        ca + 32
    } else {
        ca
    };
    let lb: u32 = if 65 <= cb && cb <= 90 {
        cb + 32
    } else {
        cb
    };
    proof {
        assert(la == lower_char(a) as u32);
        assert(lb == lower_char(b) as u32);
        assert((lower_char(a) == lower_char(b)) == (la == lb));
    }
    la == lb
}

/// String equality up to ASCII case.
pub fn str_eq_ignore_ascii_case(a: &str, b: &str) -> (r: bool)
    ensures
        r == (lower(a@) == lower(b@)),
{
    let n = a.unicode_len();
    if n != b.unicode_len() {
        proof {
            assert(lower(a@).len() != lower(b@).len());
        }
        return false;
    }
    let mut i: usize = 0;
    while i < n
        invariant
            n == a@.len(),
            n == b@.len(),
            0 <= i <= n,
            forall|j: int| 0 <= j < i ==> lower_char(a@[j]) == lower_char(b@[j]),
        decreases n - i,
    {
        let ca = a.get_char(i);
        let cb = b.get_char(i);
        if !char_case_eq(ca, cb) {
            proof {
                assert(lower(a@)[i as int] != lower(b@)[i as int]);
            }
            return false;
        }
        i += 1;
    }
    proof {
        assert(lower(a@) =~= lower(b@));
    }
    true
}

} // verus!
