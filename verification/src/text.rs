//! Character classes and case folding for usernames.

use vstd::prelude::*;

verus! {

/// The alphabet of usernames: ASCII letters, ASCII digits and the underscore.
pub open spec fn is_username_char(c: char) -> bool {
    ||| 'a' <= c <= 'z'
    ||| 'A' <= c <= 'Z'
    ||| '0' <= c <= '9'
    ||| c == '_'
}

/// Every character of `s` belongs to the username alphabet.
pub open spec fn all_username_chars(s: Seq<char>) -> bool {
    forall|i: int| 0 <= i < s.len() ==> is_username_char(#[trigger] s[i])
}

/// An ASCII capital letter becomes its small letter; every other character stays.
pub open spec fn ascii_lower(c: char) -> char {
    if 'A' <= c <= 'Z' {
        ((c as u8) + 32) as char
    } else {
        c
    }
}

/// `s` with each character folded by [`ascii_lower`].
pub open spec fn ascii_lowercased(s: Seq<char>) -> Seq<char> {
    Seq::new(s.len(), |i: int| ascii_lower(s[i]))
}

/// No character of `s` is an ASCII capital letter.
pub open spec fn has_no_ascii_capital(s: Seq<char>) -> bool {
    forall|i: int| 0 <= i < s.len() ==> !('A' <= #[trigger] s[i] <= 'Z')
}

/// Tells whether `c` belongs to the username alphabet.
pub fn username_char(c: char) -> (ok: bool)
    ensures
        ok == is_username_char(c),
{
    ('a' <= c && c <= 'z') || ('A' <= c && c <= 'Z') || ('0' <= c && c <= '9') || c == '_'
}

/// Folding keeps a sequence inside the username alphabet, removes every ASCII
/// capital, and changes nothing when applied a second time.
pub proof fn lemma_lowercased_username(s: Seq<char>)
    requires
        all_username_chars(s),
    ensures
        all_username_chars(ascii_lowercased(s)),
        has_no_ascii_capital(ascii_lowercased(s)),
        ascii_lowercased(s).len() == s.len(),
        ascii_lowercased(ascii_lowercased(s)) == ascii_lowercased(s),
{
}

} // verus!
