//! Character-level string comparisons used by the alarm handlers.

use vstd::prelude::*;
use vstd::string::StrSliceExecFns;

verus! {

/// ASCII code of `x` with an upper-case letter folded to lower case;
/// every other code is left as it is.
pub open spec fn ascii_lower_code(x: int) -> int {
    if 65 <= x <= 90 {
        x + 32
    } else {
        x
    }
}

/// The two character sequences are equal up to ASCII case.
pub open spec fn chars_eq_ignore_ascii_case(a: Seq<char>, b: Seq<char>) -> bool {
    &&& a.len() == b.len()
    &&& forall|i: int|
        0 <= i < a.len() ==> ascii_lower_code(a[i] as int) == ascii_lower_code(b[i] as int)
}

/// Character-for-character string equality.
pub fn str_eq(a: &str, b: &str) -> (r: bool)
    ensures
        r == (a@ == b@),
{
    let a_len = a.unicode_len();
    let b_len = b.unicode_len();
    if a_len != b_len {
        assert(a@ != b@);
        return false;
    }
    let mut i: usize = 0;
    while i < a_len
        invariant
            a_len == a@.len(),
            b_len == b@.len(),
            a_len == b_len,
            0 <= i <= a_len,
            forall|j: int| 0 <= j < i ==> a@[j] == b@[j],
        decreases a_len - i,
    {
        if a.get_char(i) != b.get_char(i) {
            assert(a@ != b@);
            return false;
        }
        i += 1;
    }
    assert(a@ =~= b@);
    true
}

/// String equality up to ASCII case, as the alarm method match uses it.
pub fn eq_ignore_ascii_case(a: &str, b: &str) -> (r: bool)
    ensures
        r == chars_eq_ignore_ascii_case(a@, b@),
{
    let a_len = a.unicode_len();
    let b_len = b.unicode_len();
    if a_len != b_len {
        return false;
    }
    let mut i: usize = 0;
    while i < a_len
        invariant
            a_len == a@.len(),
            b_len == b@.len(),
            a_len == b_len,
            0 <= i <= a_len,
            forall|j: int|
                0 <= j < i ==> ascii_lower_code(a@[j] as int) == ascii_lower_code(b@[j] as int),
        decreases a_len - i,
    {
        let ca = a.get_char(i) as u32;
        let cb = b.get_char(i) as u32;
        let fa = if 65 <= ca && ca <= 90 { ca + 32 } else { ca };
        let fb = if 65 <= cb && cb <= 90 { cb + 32 } else { cb };
        if fa != fb {
            return false;
        }
        i += 1;
    }
    true
}

} // verus!
