//! Small verified helpers over character sequences.

use vstd::prelude::*;
use vstd::string::StrSliceExecFns;

verus! {

/// What `str::to_lowercase` makes of a character sequence.
pub uninterp spec fn lower_of(s: Seq<char>) -> Seq<char>;

/// Whether every character is ASCII.
pub open spec fn all_ascii(s: Seq<char>) -> bool {
    forall|i: int| 0 <= i < s.len() ==> (#[trigger] s[i] as u32) < 128
}

/// The code of the ASCII lower-case form of the character with code `u`:
/// `A`..`Z` become `a`..`z`, every other code stays.
pub open spec fn ascii_lower_code(u: u32) -> u32 {
    if 65 <= u && u <= 90 {
        (u + 32) as u32
    } else {
        u
    }
}

/// Relies on `str::to_lowercase`: the result depends on the characters
/// alone, and on ASCII text it lower-cases `A`..`Z` one for one and leaves
/// every other character as it is.
#[verifier::external_body]
pub(crate) fn to_lowercase(s: &str) -> (r: String)
    ensures
        r@ == lower_of(s@),
        all_ascii(s@) ==> r@.len() == s@.len() && forall|i: int|
            0 <= i < s@.len() ==> (#[trigger] r@[i] as u32) == ascii_lower_code(s@[i] as u32),
{
    s.to_lowercase()
}

/// Whether the two strings hold the same characters.
pub fn str_eq(a: &str, b: &str) -> (r: bool)
    ensures
        r == (a@ == b@),
{
    let n = a.unicode_len();
    if n != b.unicode_len() {
        return false;
    }
    let mut i: usize = 0;
    while i < n
        invariant
            n == a@.len(),
            n == b@.len(),
            i <= n,
            forall|j: int| 0 <= j < i ==> a@[j] == b@[j],
        decreases n - i,
    {
        if a.get_char(i) != b.get_char(i) {
            return false;
        }
        i = i + 1;
    }
    assert(a@ =~= b@);
    true
}

} // verus!
