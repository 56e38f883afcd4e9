//! Shape rules for the credentials a request carries.

use vstd::prelude::*;
use vstd::string::*;
use crate::text::{all_username_chars, username_char};

verus! {

/// Fewest characters a username may have.
pub const USERNAME_MIN_CHARS: usize = 3;

/// Most characters a username may have.
pub const USERNAME_MAX_CHARS: usize = 50;

/// Fewest characters a password may have.
pub const PASSWORD_MIN_CHARS: usize = 6;

/// Most characters a password may have.
pub const PASSWORD_MAX_CHARS: usize = 128;

/// The name has between 3 and 50 characters.
pub open spec fn name_length_ok(name: Seq<char>) -> bool {
    3 <= name.len() <= 50
}

/// The name is not empty and holds only letters, digits and underscores.
pub open spec fn name_charset_ok(name: Seq<char>) -> bool {
    name.len() > 0 && all_username_chars(name)
}

/// The password has between 6 and 128 characters.
pub open spec fn password_length_ok(password: Seq<char>) -> bool {
    6 <= password.len() <= 128
}

/// A name that a request may carry.
pub open spec fn is_valid_username(name: Seq<char>) -> bool {
    name_length_ok(name) && name_charset_ok(name)
}

/// A pair of name and password that a request may carry.
pub open spec fn is_valid_credentials(name: Seq<char>, password: Seq<char>) -> bool {
    is_valid_username(name) && password_length_ok(password)
}

/// The rules that a pair of name and password breaks, one flag per rule.
#[derive(Clone, Copy, Debug, PartialEq, Eq, Structural)]
pub struct ValidationErrors {
    /// The name is shorter than 3 or longer than 50 characters.
    pub name_length: bool,
    /// The name is empty or holds a character outside the username alphabet.
    pub name_charset: bool,
    /// The password is shorter than 6 or longer than 128 characters.
    pub password_length: bool,
}

/// Every rule that `name` and `password` break.
pub open spec fn violations(name: Seq<char>, password: Seq<char>) -> ValidationErrors {
    ValidationErrors {
        name_length: !name_length_ok(name),
        name_charset: !name_charset_ok(name),
        password_length: !password_length_ok(password),
    }
}

/// What validating `name` and `password` yields: nothing to report, or every broken rule.
pub open spec fn validation_result(name: Seq<char>, password: Seq<char>) -> Result<
    (),
    ValidationErrors,
> {
    if is_valid_credentials(name, password) {
        Ok(())
    } else {
        Err(violations(name, password))
    }
}

impl ValidationErrors {
    /// No rule is broken.
    pub open spec fn is_clean(self) -> bool {
        !self.name_length && !self.name_charset && !self.password_length
    }

    /// The report on the name: its broken rules, joined by a comma.
    pub open spec fn name_text(self) -> Seq<char> {
        if self.name_length && self.name_charset {
            "name: Username must be 3-50 characters, Username can only contain letters, numbers, and underscores"@
        } else if self.name_length {
            "name: Username must be 3-50 characters"@
        } else if self.name_charset {
            "name: Username can only contain letters, numbers, and underscores"@
        } else {
            Seq::empty()
        }
    }

    /// The report on the password.
    pub open spec fn password_text(self) -> Seq<char> {
        if self.password_length {
            "password: Password must be 6-128 characters"@
        } else {
            Seq::empty()
        }
    }

    /// The whole report: the name's line, then the password's line.
    pub open spec fn text(self) -> Seq<char> {
        if (self.name_length || self.name_charset) && self.password_length {
            self.name_text() + "\n"@ + self.password_text()
        } else {
            self.name_text() + self.password_text()
        }
    }

    /// Tells whether no rule is broken.
    pub fn is_empty(&self) -> (empty: bool)
        ensures
            empty == self.is_clean(),
    {
        !self.name_length && !self.name_charset && !self.password_length
    }

    /// Renders the report, one line per field that broke a rule.
    pub fn to_string(&self) -> (out: String)
        ensures
            out@ == self.text(),
    {
        let mut out = String::new();
        if self.name_length && self.name_charset {
            out.append(
                "name: Username must be 3-50 characters, Username can only contain letters, numbers, and underscores",
            );
        } else if self.name_length {
            out.append("name: Username must be 3-50 characters");
        } else if self.name_charset {
            out.append("name: Username can only contain letters, numbers, and underscores");
        }
        if (self.name_length || self.name_charset) && self.password_length {
            out.append("\n");
        }
        if self.password_length {
            out.append("password: Password must be 6-128 characters");
        }
        out
    }
}

/// Tells whether `name` is not empty and holds only letters, digits and underscores.
pub fn check_name_charset(name: &str) -> (ok: bool)
    ensures
        ok == name_charset_ok(name@),
{
    let mut all = true;
    let mut seen = false;
    let it = name.chars();
    for c in iter: it
        invariant
            iter.seq() == name@,
            seen == (iter.index() > 0),
            all == all_username_chars(name@.take(iter.index())),
    {
        let ok = username_char(c);
        assert(name@.take(iter.index() + 1)[iter.index()] == c);
        all = all && ok;
        seen = true;
    }
    assert(name@.take(name@.len() as int) =~= name@);
    seen && all
}

/// Tells whether `name` has between 3 and 50 characters.
pub fn check_name_length(name: &str) -> (ok: bool)
    ensures
        ok == name_length_ok(name@),
{
    let n = name.unicode_len();
    USERNAME_MIN_CHARS <= n && n <= USERNAME_MAX_CHARS
}

/// Tells whether `password` has between 6 and 128 characters.
pub fn check_password_length(password: &str) -> (ok: bool)
    ensures
        ok == password_length_ok(password@),
{
    let n = password.unicode_len();
    PASSWORD_MIN_CHARS <= n && n <= PASSWORD_MAX_CHARS
}

/// Checks the shape of a name and a password, and reports every rule that is
/// broken, not only the first.
pub fn validate_credentials(name: &str, password: &str) -> (checked: Result<(), ValidationErrors>)
    ensures
        checked == validation_result(name@, password@),
{
    let errors = ValidationErrors {
        name_length: !check_name_length(name),
        name_charset: !check_name_charset(name),
        password_length: !check_password_length(password),
    };
    if errors.is_empty() {
        Ok(())
    } else {
        Err(errors)
    }
}

} // verus!
