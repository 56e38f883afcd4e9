//! Issuing of identity tokens: the claims a token carries and their signing.

use vstd::prelude::*;
use vstd::string::*;
use crate::error::{result_view, token_failure, AppError, AppResult, ErrorModel};
use crate::model::{id_text, utc_now, Timestamp, UserId};

verus! {

/// How long a token is valid, in seconds: 24 hours.
pub const TOKEN_LIFETIME_SECS: usize = 86400;

/// The claims of a token.
#[derive(Clone, Debug, PartialEq, Eq)]
pub struct Claims {
    /// The subject: the user's identifier as text.
    pub sub: String,
    /// The normalized username.
    pub username: String,
    /// The second at which the token expires.
    pub exp: usize,
    /// The second at which the token was issued.
    pub iat: usize,
}

/// [`Claims`] with its texts as character sequences and its instants as numbers.
pub struct ClaimsModel {
    pub sub: Seq<char>,
    pub username: Seq<char>,
    pub exp: int,
    pub iat: int,
}

impl View for Claims {
    type V = ClaimsModel;

    open spec fn view(&self) -> ClaimsModel {
        ClaimsModel {
            sub: self.sub@,
            username: self.username@,
            exp: self.exp as int,
            iat: self.iat as int,
        }
    }
}

/// The error type of the `jsonwebtoken` crate. Its contents are never read here.
#[verifier::external_type_specification]
#[verifier::external_body]
pub struct ExTokenError(jsonwebtoken::errors::Error);

/// The compact token that `jsonwebtoken::encode` returns for the default header,
/// the four claims in the order subject, username, expiry, issue, and a shared
/// secret as the signing key.
pub uninterp spec fn signed_token_text(
    sub: Seq<char>,
    username: Seq<char>,
    exp: int,
    iat: int,
    key: Seq<char>,
) -> Seq<char>;

/// The token for `claims` under the signing key `key`.
pub open spec fn token_text(claims: ClaimsModel, key: Seq<char>) -> Seq<char> {
    signed_token_text(claims.sub, claims.username, claims.exp, claims.iat, key)
}

/// The claims for a user at the second `now`: issued then, expiring 24 hours later.
pub open spec fn claims_at(user: UserId, username: Seq<char>, now: int) -> ClaimsModel {
    ClaimsModel { sub: id_text(user.value), username, exp: now + 86400, iat: now }
}

/// A second at which claims can be made: not before 1970, and with room for the
/// expiry in a `usize`.
pub open spec fn is_issuable_at(now: int) -> bool {
    0 <= now && now + 86400 <= usize::MAX
}

/// What issuing for a user at the second `now` gives: the signed claims of that
/// second where claims can be made at it, the one internal error where not.
pub open spec fn token_result_at(
    user: UserId,
    username: Seq<char>,
    key: Seq<char>,
    now: int,
) -> Result<Seq<char>, ErrorModel> {
    if is_issuable_at(now) {
        Ok(token_text(claims_at(user, username, now), key))
    } else {
        Err(token_failure())
    }
}

/// What issuing gives on a reading of the clock: the result for the second of the
/// instant, or the internal error where the clock gave no instant.
pub open spec fn token_result_on(
    user: UserId,
    username: Seq<char>,
    key: Seq<char>,
    clock: Option<Timestamp>,
) -> Result<Seq<char>, ErrorModel> {
    match clock {
        Some(at) => token_result_at(user, username, key, at.secs as int),
        None => Err(token_failure()),
    }
}

/// `token` is what issuing for this user under `key` gives at some second.
pub open spec fn is_issued_token(
    token: Result<Seq<char>, ErrorModel>,
    user: UserId,
    username: Seq<char>,
    key: Seq<char>,
) -> bool {
    exists|now: int| token == #[trigger] token_result_at(user, username, key, now)
}

/// Calls `jsonwebtoken::encode` with the default header (HS256), the claims as a
/// JSON object that keeps their order, and `key` as the shared secret. The call
/// fails only for a key of another family than the header's algorithm or for
/// claims that cannot be written as JSON; neither can happen here, so a token
/// always comes back. It depends on the claims and the key alone.
#[verifier::external_body]
fn sign_claims(claims: &Claims, key: &str) -> (signed: Result<String, jsonwebtoken::errors::Error>)
    ensures
        signed is Ok,
        signed matches Ok(token) ==> token@ == signed_token_text(
            claims.sub@,
            claims.username@,
            claims.exp as int,
            claims.iat as int,
            key@,
        ),
{
    let mut body = serde_json::Map::new();
    body.insert("sub".to_string(), serde_json::Value::from(claims.sub.as_str()));
    body.insert("username".to_string(), serde_json::Value::from(claims.username.as_str()));
    body.insert("exp".to_string(), serde_json::Value::from(claims.exp));
    body.insert("iat".to_string(), serde_json::Value::from(claims.iat));
    let key = jsonwebtoken::EncodingKey::from_secret(key.as_bytes());
    jsonwebtoken::encode(&jsonwebtoken::Header::default(), &body, &key)
}

impl Claims {
    /// The claims for a user at the second `now`.
    pub fn issued_at(user_id: &UserId, username: &str, now: i64) -> (claims: Claims)
        requires
            is_issuable_at(now as int),
        ensures
            claims@ == claims_at(*user_id, username@, now as int),
            claims.exp - claims.iat == 86400,
    {
        let iat = now as usize;
        Claims {
            sub: user_id.to_string(),
            username: username.to_owned(),
            exp: iat + TOKEN_LIFETIME_SECS,
            iat,
        }
    }
}

/// Turns the outcome of the signing into the service's result: the token as it
/// is, or the one internal error.
pub fn token_outcome(signed: Result<String, jsonwebtoken::errors::Error>) -> (out: AppResult<
    String,
>)
    ensures
        result_view(out) == match signed {
            Ok(token) => Ok::<Seq<char>, ErrorModel>(token@),
            Err(_) => Err(token_failure()),
        },
{
    match signed {
        Ok(token) => Ok(token),
        Err(_) => Err(AppError::token_failed()),
    }
}

/// Issues the token of a user at the second `now`: signs the claims of that
/// instant with `secret`. The result is always a token, and exactly the signed
/// claims.
pub fn create_jwt_at(user_id: &UserId, username: &str, secret: &str, now: i64) -> (out: AppResult<
    String,
>)
    requires
        is_issuable_at(now as int),
    ensures
        out matches Ok(token) && token@ == token_text(
            claims_at(*user_id, username@, now as int),
            secret@,
        ),
{
    let claims = Claims::issued_at(user_id, username, now);
    token_outcome(sign_claims(&claims, secret))
}

/// Tells whether claims can be made at the second `now`.
pub fn issuable_at(now: i64) -> (ok: bool)
    ensures
        ok == is_issuable_at(now as int),
{
    now >= 0 && now as u64 <= (usize::MAX - TOKEN_LIFETIME_SECS) as u64
}

/// Issues the token of a user at the second `now`, whatever second it is: the
/// signed claims of that second where claims can be made at it, and the internal
/// error where not.
pub fn try_create_jwt_at(user_id: &UserId, username: &str, secret: &str, now: i64) -> (out:
    AppResult<String>)
    ensures
        result_view(out) == token_result_at(*user_id, username@, secret@, now as int),
{
    if issuable_at(now) {
        create_jwt_at(user_id, username, secret, now)
    } else {
        Err(AppError::token_failed())
    }
}

/// Issues the token of a user on a reading of the clock: at the second of the
/// instant, or not at all where the clock gave no instant.
pub fn create_jwt_on(
    user_id: &UserId,
    username: &str,
    secret: &str,
    clock: Option<Timestamp>,
) -> (out: AppResult<String>)
    ensures
        result_view(out) == token_result_on(*user_id, username@, secret@, clock),
{
    match clock {
        Some(at) => try_create_jwt_at(user_id, username, secret, at.secs),
        None => Err(AppError::token_failed()),
    }
}

/// Issues the token of a user at the present second: the result is what issuing
/// gives on some reading of the clock.
pub fn create_jwt(user_id: &UserId, username: &str, secret: &str) -> (out: AppResult<String>)
    ensures
        exists|clock: Option<Timestamp>|
            result_view(out) == #[trigger] token_result_on(*user_id, username@, secret@, clock),
        is_issued_token(result_view(out), *user_id, username@, secret@),
{
    let clock = utc_now();
    let out = create_jwt_on(user_id, username, secret, clock);
    proof {
        lemma_reading_is_some_second(*user_id, username@, secret@, clock);
    }
    out
}

/// What issuing gives on a reading of the clock is what it gives at some second.
pub proof fn lemma_reading_is_some_second(
    user: UserId,
    username: Seq<char>,
    key: Seq<char>,
    clock: Option<Timestamp>,
)
    ensures
        is_issued_token(token_result_on(user, username, key, clock), user, username, key),
{
    let now = match clock {
        Some(at) => at.secs as int,
        None => -1,
    };
    assert(token_result_on(user, username, key, clock) == token_result_at(
        user,
        username,
        key,
        now,
    ));
}

/// Every token expires exactly 24 hours after it was issued.
pub proof fn lemma_token_lifetime(user: UserId, username: Seq<char>, now: int)
    ensures
        claims_at(user, username, now).exp - claims_at(user, username, now).iat == 86400,
        claims_at(user, username, now).iat == now,
{
}

/// Every token that issuing gives is the signing of claims that name the user
/// as subject, carry the username, and expire exactly 24 hours after their issue.
pub proof fn lemma_issued_token_claims(
    token: Seq<char>,
    user: UserId,
    username: Seq<char>,
    key: Seq<char>,
)
    requires
        is_issued_token(Ok(token), user, username, key),
    ensures
        exists|claims: ClaimsModel|
            {
                &&& token == #[trigger] token_text(claims, key)
                &&& claims.sub == id_text(user.value)
                &&& claims.username == username
                &&& claims.iat >= 0
                &&& claims.exp - claims.iat == 86400
            },
{
    let now = choose|now: int|
        Ok::<Seq<char>, ErrorModel>(token) == #[trigger] token_result_at(user, username, key, now);
    assert(token == token_text(claims_at(user, username, now), key));
}

} // verus!
