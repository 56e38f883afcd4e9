//! Normalization of usernames: surrounding whitespace is removed and letters are
//! folded to lower case, once, before a name is compared or stored.

use vstd::prelude::*;
use vstd::string::*;
use vstd::utf8::is_ascii_chars;
use crate::text::{ascii_lowercased, is_username_char};
use crate::validation::is_valid_username;

verus! {

/// What `str::to_lowercase` returns for a string with the characters `s`.
pub uninterp spec fn lowercased_text(s: Seq<char>) -> Seq<char>;

/// A whitespace character: one with the property `White_Space` of Unicode. These
/// are the controls from tab to carriage return, the space, the next-line
/// control, the no-break space, the Ogham space mark, the spaces from en quad to
/// hair space, the line and paragraph separators, the narrow no-break space, the
/// medium mathematical space and the ideographic space.
pub open spec fn is_whitespace_char(c: char) -> bool {
    ||| '\u{9}' <= c <= '\u{d}'
    ||| c == ' '
    ||| c == '\u{85}'
    ||| c == '\u{a0}'
    ||| c == '\u{1680}'
    ||| '\u{2000}' <= c <= '\u{200a}'
    ||| c == '\u{2028}'
    ||| c == '\u{2029}'
    ||| c == '\u{202f}'
    ||| c == '\u{205f}'
    ||| c == '\u{3000}'
}

/// `s` without the whitespace at its start.
pub open spec fn trimmed_start(s: Seq<char>) -> Seq<char>
    decreases s.len(),
{
    if s.len() > 0 && is_whitespace_char(s.first()) {
        trimmed_start(s.drop_first())
    } else {
        s
    }
}

/// `s` without the whitespace at its end.
pub open spec fn trimmed_end(s: Seq<char>) -> Seq<char>
    decreases s.len(),
{
    if s.len() > 0 && is_whitespace_char(s.last()) {
        trimmed_end(s.drop_last())
    } else {
        s
    }
}

/// `s` without the whitespace at its start and at its end.
pub open spec fn trimmed_text(s: Seq<char>) -> Seq<char> {
    trimmed_end(trimmed_start(s))
}

/// `str::trim` of std: the slice without its leading and trailing whitespace,
/// where whitespace is what has the property `White_Space` of Unicode.
pub assume_specification[ str::trim ](s: &str) -> (r: &str)
    ensures
        r@ == trimmed_text(s@),
;

/// A text that neither begins nor ends with whitespace is its own trimmed form.
/// So is every name of valid shape.
pub proof fn lemma_trim_keeps(s: Seq<char>)
    requires
        s.len() > 0 ==> !is_whitespace_char(s.first()) && !is_whitespace_char(s.last()),
    ensures
        trimmed_text(s) == s,
{
}

/// `str::to_lowercase` of std: the lower-case equivalent as a new string. The
/// result depends on the characters alone. In a string of ASCII characters only
/// the capitals `A` to `Z` change, each to its small letter.
pub assume_specification[ str::to_lowercase ](s: &str) -> (r: String)
    ensures
        r@ == lowercased_text(s@),
        is_ascii_chars(s@) ==> r@ == ascii_lowercased(s@),
;

/// The normalized form of a name: trimmed, then folded to lower case.
pub open spec fn normalized_text(name: Seq<char>) -> Seq<char> {
    lowercased_text(trimmed_text(name))
}

/// Normalizes a username. For a name of valid shape the result is the name with
/// its ASCII capitals made small: such a name has no whitespace to trim.
pub fn normalize_username(name: &str) -> (normalized: String)
    ensures
        normalized@ == normalized_text(name@),
        is_valid_username(name@) ==> normalized@ == ascii_lowercased(name@),
{
    let trimmed = name.trim();
    let normalized = trimmed.to_lowercase();
    proof {
        if is_valid_username(name@) {
            assert(is_username_char(name@.first()));
            assert(is_username_char(name@.last()));
            lemma_trim_keeps(name@);
            assert forall|i: int| 0 <= i < name@.len() implies '\0' <= #[trigger] name@[i]
                <= '\u{7f}' by {}
        }
    }
    normalized
}

} // verus!
