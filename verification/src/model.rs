//! The data of the service: user identifiers, instants, and the stored credential
//! record.

use vstd::prelude::*;
use vstd::arithmetic::power::pow;

verus! {

/// The identifier of a user: a 128-bit value, assigned by the store at creation.
#[derive(Clone, Copy, Debug, PartialEq, Eq, Hash, Structural)]
pub struct UserId {
    pub value: u128,
}

/// An instant on the UTC time line: whole seconds since 1970-01-01 00:00:00 and
/// the nanoseconds into that second.
#[derive(Clone, Copy, Debug, PartialEq, Eq, Structural)]
pub struct Timestamp {
    pub secs: i64,
    pub nanos: u32,
}

/// A credential record as the store holds it.
#[derive(Clone, Debug, PartialEq, Eq)]
pub struct User {
    pub id: UserId,
    /// The normalized username.
    pub username: String,
    /// The digest of the user's secret.
    pub password_hash: String,
    pub created_at: Timestamp,
    pub updated_at: Timestamp,
    pub is_active: bool,
}

/// A [`User`] with its texts as character sequences.
pub struct UserModel {
    pub id: UserId,
    pub username: Seq<char>,
    pub password_hash: Seq<char>,
    pub created_at: Timestamp,
    pub updated_at: Timestamp,
    pub is_active: bool,
}

impl View for User {
    type V = UserModel;

    open spec fn view(&self) -> UserModel {
        UserModel {
            id: self.id,
            username: self.username@,
            password_hash: self.password_hash@,
            created_at: self.created_at,
            updated_at: self.updated_at,
            is_active: self.is_active,
        }
    }
}

/// The character for a hexadecimal digit, in lower case.
pub open spec fn hex_digit(d: int) -> char {
    if d < 10 {
        ('0' as int + d) as char
    } else {
        ('a' as int + (d - 10)) as char
    }
}

/// The `k`-th of the 32 hexadecimal digits of `value`, counted from the most
/// significant.
pub open spec fn hex_digit_at(value: u128, k: int) -> int {
    (value as int / pow(16, (31 - k) as nat)) % 16
}

/// How many hyphens stand before position `i` of an identifier's text.
pub open spec fn hyphens_before(i: int) -> int {
    if i > 23 {
        4
    } else if i > 18 {
        3
    } else if i > 13 {
        2
    } else if i > 8 {
        1
    } else {
        0
    }
}

/// The text of an identifier: its 32 hexadecimal digits in lower case, most
/// significant first, in groups of 8, 4, 4, 4 and 12 with a hyphen between groups.
pub open spec fn id_text(value: u128) -> Seq<char> {
    Seq::new(
        36,
        |i: int|
            if i == 8 || i == 13 || i == 18 || i == 23 {
                '-'
            } else {
                hex_digit(hex_digit_at(value, i - hyphens_before(i)))
            },
    )
}

/// Formats the value with `Uuid::to_string` of the `uuid` crate, which writes the
/// hyphenated lower-case form of the sixteen bytes, most significant first.
#[verifier::external_body]
fn uuid_text(value: u128) -> (text: String)
    ensures
        text@ == id_text(value),
{
    uuid::Uuid::from_u128(value).to_string()
}

/// Reads the system clock and makes the instant with `DateTime::from_timestamp`
/// of the `chrono` crate, which returns nothing for an instant outside the years
/// it can hold. A clock that stands before 1970 gives nothing either. Nothing is
/// claimed of an instant that comes back.
#[verifier::external_body]
pub(crate) fn utc_now() -> (now: Option<Timestamp>) {
    let since = std::time::SystemTime::now().duration_since(std::time::UNIX_EPOCH).ok()?;
    let secs = i64::try_from(since.as_secs()).ok()?;
    let now = chrono::DateTime::from_timestamp(secs, since.subsec_nanos())?;
    Some(Timestamp { secs: now.timestamp(), nanos: now.timestamp_subsec_nanos() })
}

impl UserId {
    /// The identifier as text, in the hyphenated form of a UUID.
    pub fn to_string(&self) -> (text: String)
        ensures
            text@ == id_text(self.value),
    {
        uuid_text(self.value)
    }
}

} // verus!
