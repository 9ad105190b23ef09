//! Names of schemas and tables, restricted to characters that need no quoting.

use vstd::prelude::*;

verus! {

/// The longest identifier that MySQL accepts.
pub const MAX_IDENTIFIER_LEN: usize = 64;

/// An ASCII letter, an ASCII digit or an underscore.
pub open spec fn is_ident_char(c: char) -> bool {
    ('a' <= c && c <= 'z') || ('A' <= c && c <= 'Z') || ('0' <= c && c <= '9') || c == '_'
}

/// A non-empty name of at most `MAX_IDENTIFIER_LEN` identifier characters.
pub open spec fn is_safe_identifier(s: Seq<char>) -> bool {
    &&& 0 < s.len() <= MAX_IDENTIFIER_LEN
    &&& forall|i: int| 0 <= i < s.len() ==> #[trigger] is_ident_char(s[i])
}

/// Whether `s` may be spliced into a statement as a schema or table name.
pub fn check_identifier(s: &str) -> (r: bool)
    ensures
        r == is_safe_identifier(s@),
{
    let n = s.unicode_len();
    if n == 0 || n > MAX_IDENTIFIER_LEN {
        return false;
    }
    let mut i: usize = 0;
    while i < n
        invariant
            n == s@.len(),
            0 < n <= MAX_IDENTIFIER_LEN,
            0 <= i <= n,
            forall|j: int| 0 <= j < i ==> #[trigger] is_ident_char(s@[j]),
        decreases n - i,
    {
        let c = s.get_char(i);
        let ok = ('a' <= c && c <= 'z') || ('A' <= c && c <= 'Z') || ('0' <= c && c <= '9')
            || c == '_';
        if !ok {
            assert(!is_ident_char(s@[i as int]));
            return false;
        }
        i += 1;
    }
    true
}

} // verus!
