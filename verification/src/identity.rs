//! The shape of an identity id.
//!
//! Identity ids travel as strings in the canonical hyphenated form: five
//! groups of hexadecimal digits, of 8, 4, 4, 4 and 12 characters, separated
//! by `-`. A token whose subject does not have this shape names no account,
//! and the mandatory gate rejects such a subject as malformed.

use vstd::prelude::*;
use vstd::string::StrSliceExecFns;

verus! {

/// A hexadecimal digit, either case.
pub open spec fn is_hex_char(c: char) -> bool {
    ('0' <= c && c <= '9') || ('a' <= c && c <= 'f') || ('A' <= c && c <= 'F')
}

/// What the character at position `i` of a canonical identity id must be:
/// a hyphen at the four separator positions, a hexadecimal digit elsewhere.
pub open spec fn uuid_char_ok(s: Seq<char>, i: int) -> bool {
    if i == 8 || i == 13 || i == 18 || i == 23 {
        s[i] == '-'
    } else {
        is_hex_char(s[i])
    }
}

/// A canonical identity id: 36 characters in the 8-4-4-4-12 hyphenated form.
pub open spec fn is_canonical_uuid(s: Seq<char>) -> bool {
    s.len() == 36 && (forall|i: int| 0 <= i < 36 ==> #[trigger] uuid_char_ok(s, i))
}

/// Whether a string is a well-formed identity id.
pub fn is_valid_identity_id(s: &str) -> (r: bool)
    ensures
        r == is_canonical_uuid(s@),
{
    let n = s.unicode_len();
    if n != 36 {
        return false;
    }
    let mut i: usize = 0;
    while i < 36
        invariant
            n == s@.len(),
            n == 36,
            0 <= i <= 36,
            forall|j: int| 0 <= j < i ==> #[trigger] uuid_char_ok(s@, j),
        decreases 36 - i,
    {
        let c = s.get_char(i);
        let ok = if i == 8 || i == 13 || i == 18 || i == 23 {
            c == '-'
        } else {
            ('0' <= c && c <= '9') || ('a' <= c && c <= 'f') || ('A' <= c && c <= 'F')
        };
        if !ok {
            assert(!uuid_char_ok(s@, i as int));
            return false;
        }
        i += 1;
    }
    true
}

} // verus!
