//! The signup and login flows. Each flow is a chain of decisions; between two
//! decisions the caller asks the user store, or hashes or verifies the secret on a
//! worker, and hands the answer to the next decision.

use vstd::prelude::*;
use vstd::string::*;
use crate::error::{
    conflict_error, hashing_failure, invalid_credentials_error, result_view, token_failure,
    AppError, AppResult, ErrorModel,
};
use crate::model::{utc_now, Timestamp, User, UserId, UserModel};
use crate::normalize::normalize_username;
use crate::secret::{hash_password, is_hash_of, verification_result, verify_password};
use crate::text::ascii_lowercased;
use crate::token::{create_jwt_on, token_result_on, try_create_jwt_at};
use crate::validation::{
    is_valid_credentials, validate_credentials, validation_result, violations, ValidationErrors,
};

verus! {

/// A request to register a user.
#[derive(Clone, Debug, PartialEq, Eq)]
pub struct SignupRequest {
    pub name: String,
    pub password: String,
}

/// A request to log a user in.
#[derive(Clone, Debug, PartialEq, Eq)]
pub struct LoginRequest {
    pub name: String,
    pub password: String,
}

/// What a caller learns about a user.
#[derive(Clone, Debug, PartialEq, Eq)]
pub struct UserResponse {
    pub id: UserId,
    pub username: String,
    pub created_at: Timestamp,
}

/// The answer to a signup or a login that succeeded.
#[derive(Clone, Debug, PartialEq, Eq)]
pub struct AuthResponse {
    pub message: String,
    pub token: Option<String>,
    pub user: Option<UserResponse>,
}

/// A flow that waits for the store to say whether, or under which record, the
/// normalized `username` is registered.
#[derive(Clone, Debug, PartialEq, Eq)]
pub struct Lookup {
    pub username: String,
    pub password: String,
}

/// A signup that waits for the digest of `password`.
#[derive(Clone, Debug, PartialEq, Eq)]
pub struct Hashing {
    pub username: String,
    pub password: String,
}

/// A signup that waits for the store to insert the record.
#[derive(Clone, Debug, PartialEq, Eq)]
pub struct Insertion {
    pub username: String,
    pub password_hash: String,
}

/// A login that waits for `password` to be verified against the record's digest.
#[derive(Clone, Debug, PartialEq, Eq)]
pub struct Checking {
    pub user: User,
    pub password: String,
}

/// How the store answered an insert. The store checks the name and writes the
/// record in one atomic step.
#[derive(Clone, Debug, PartialEq, Eq)]
pub enum InsertOutcome {
    /// The record was written under this new identifier.
    Created(UserId),
    /// A record with the same username exists already.
    NameTaken,
    /// The store failed; the text is its own detail.
    Failed(String),
}

/// A username with a password.
pub struct CredentialsModel {
    pub username: Seq<char>,
    pub password: Seq<char>,
}

/// An [`Insertion`] as character sequences.
pub struct InsertionModel {
    pub username: Seq<char>,
    pub password_hash: Seq<char>,
}

/// A [`Checking`] as models.
pub struct CheckingModel {
    pub user: UserModel,
    pub password: Seq<char>,
}

/// An [`InsertOutcome`] with its text as a character sequence.
pub enum InsertOutcomeModel {
    Created(UserId),
    NameTaken,
    Failed(Seq<char>),
}

/// A [`UserResponse`] with its text as a character sequence.
pub struct UserResponseModel {
    pub id: UserId,
    pub username: Seq<char>,
    pub created_at: Timestamp,
}

/// An [`AuthResponse`] as models.
pub struct AuthResponseModel {
    pub message: Seq<char>,
    pub token: Option<Seq<char>>,
    pub user: Option<UserResponseModel>,
}

impl View for Lookup {
    type V = CredentialsModel;

    open spec fn view(&self) -> CredentialsModel {
        CredentialsModel { username: self.username@, password: self.password@ }
    }
}

impl View for Hashing {
    type V = CredentialsModel;

    open spec fn view(&self) -> CredentialsModel {
        CredentialsModel { username: self.username@, password: self.password@ }
    }
}

impl View for Insertion {
    type V = InsertionModel;

    open spec fn view(&self) -> InsertionModel {
        InsertionModel { username: self.username@, password_hash: self.password_hash@ }
    }
}

impl View for Checking {
    type V = CheckingModel;

    open spec fn view(&self) -> CheckingModel {
        CheckingModel { user: self.user@, password: self.password@ }
    }
}

impl View for InsertOutcome {
    type V = InsertOutcomeModel;

    open spec fn view(&self) -> InsertOutcomeModel {
        match self {
            InsertOutcome::Created(id) => InsertOutcomeModel::Created(*id),
            InsertOutcome::NameTaken => InsertOutcomeModel::NameTaken,
            InsertOutcome::Failed(detail) => InsertOutcomeModel::Failed(detail@),
        }
    }
}

impl View for UserResponse {
    type V = UserResponseModel;

    open spec fn view(&self) -> UserResponseModel {
        UserResponseModel { id: self.id, username: self.username@, created_at: self.created_at }
    }
}

impl View for AuthResponse {
    type V = AuthResponseModel;

    open spec fn view(&self) -> AuthResponseModel {
        AuthResponseModel {
            message: self.message@,
            token: match self.token {
                Some(token) => Some(token@),
                None => None,
            },
            user: match self.user {
                Some(user) => Some(user@),
                None => None,
            },
        }
    }
}

/// The outcome of a flow that ended with an error.
pub open spec fn refused(e: ErrorModel) -> Result<AuthResponseModel, ErrorModel> {
    Err(e)
}

/// The outcome of a flow that ended with an answer.
pub open spec fn answered(response: AuthResponseModel) -> Result<AuthResponseModel, ErrorModel> {
    Ok(response)
}

/// A store's answer with its texts as character sequences.
pub open spec fn answer_view<T: View>(answer: Result<T, String>) -> Result<T::V, Seq<char>> {
    match answer {
        Ok(value) => Ok(value@),
        Err(detail) => Err(detail@),
    }
}

/// What the store found, with its texts as character sequences.
pub open spec fn found_view(found: Result<Option<User>, String>) -> Result<
    Option<UserModel>,
    Seq<char>,
> {
    match found {
        Ok(Some(user)) => Ok(Some(user@)),
        Ok(None) => Ok(None),
        Err(detail) => Err(detail@),
    }
}

/// The first decision of both flows: a request of valid shape goes on under its
/// normalized name; any other is refused with every rule that it breaks.
pub open spec fn begin_spec(name: Seq<char>, password: Seq<char>) -> Result<
    CredentialsModel,
    ErrorModel,
> {
    if is_valid_credentials(name, password) {
        Ok(CredentialsModel { username: ascii_lowercased(name), password })
    } else {
        Err(ErrorModel::Validation(violations(name, password)))
    }
}

/// The signup's decision on the store's answer to "is this name registered?": a
/// registered name ends the signup with the conflict, a store failure with a
/// database error, and a free name lets it go on to the hashing.
pub open spec fn signup_lookup_spec(
    pending: CredentialsModel,
    exists: Result<bool, Seq<char>>,
) -> Result<CredentialsModel, ErrorModel> {
    match exists {
        Ok(true) => Err(conflict_error()),
        Ok(false) => Ok(pending),
        Err(detail) => Err(ErrorModel::Database(detail)),
    }
}

/// The signup's decision on the outcome of the hashing: a digest goes to the
/// store with the name, an error ends the signup.
pub open spec fn signup_hash_spec(
    pending: CredentialsModel,
    digest: Result<Seq<char>, ErrorModel>,
) -> Result<InsertionModel, ErrorModel> {
    match digest {
        Ok(password_hash) => Ok(InsertionModel { username: pending.username, password_hash }),
        Err(e) => Err(e),
    }
}

/// The answer to a signup that succeeded.
pub open spec fn signup_success(
    id: UserId,
    username: Seq<char>,
    created_at: Timestamp,
    token: Seq<char>,
) -> AuthResponseModel {
    AuthResponseModel {
        message: "User registered successfully!"@,
        token: Some(token),
        user: Some(UserResponseModel { id, username, created_at }),
    }
}

/// The answer to a login that succeeded.
pub open spec fn login_success(user: UserModel, token: Seq<char>) -> AuthResponseModel {
    AuthResponseModel {
        message: "Login successful!"@,
        token: Some(token),
        user: Some(
            UserResponseModel { id: user.id, username: user.username, created_at: user.created_at },
        ),
    }
}

/// The signup's last decision, on the store's answer to the insert. A name that
/// another signup took in the meantime gives the same conflict as a name found
/// taken at the start; a store failure gives a database error. For a record that
/// was written, the result follows the issuing of the token, at the instant `at`.
pub open spec fn signup_insert_spec(
    pending: InsertionModel,
    outcome: InsertOutcomeModel,
    at: Timestamp,
    token: Result<Seq<char>, ErrorModel>,
) -> Result<AuthResponseModel, ErrorModel> {
    match outcome {
        InsertOutcomeModel::Created(id) => match token {
            Ok(text) => Ok(signup_success(id, pending.username, at, text)),
            Err(e) => Err(e),
        },
        InsertOutcomeModel::NameTaken => Err(conflict_error()),
        InsertOutcomeModel::Failed(detail) => Err(ErrorModel::Database(detail)),
    }
}

/// The login's decision on what the store found under the name. No record and a
/// record that is not active are refused alike; a store failure gives a database
/// error; an active record goes on to the verification.
pub open spec fn login_lookup_spec(
    pending: CredentialsModel,
    found: Result<Option<UserModel>, Seq<char>>,
) -> Result<CheckingModel, ErrorModel> {
    match found {
        Ok(Some(user)) => if user.is_active {
            Ok(CheckingModel { user, password: pending.password })
        } else {
            Err(invalid_credentials_error())
        },
        Ok(None) => Err(invalid_credentials_error()),
        Err(detail) => Err(ErrorModel::Database(detail)),
    }
}

/// The login's last decision, on the outcome of the verification. A secret that
/// does not match is refused with the same error as an unknown name; an error of
/// the verification ends the login. For a secret that matches, the result follows
/// the issuing of the token.
pub open spec fn login_verify_spec(
    pending: CheckingModel,
    verdict: Result<bool, ErrorModel>,
    token: Result<Seq<char>, ErrorModel>,
) -> Result<AuthResponseModel, ErrorModel> {
    match verdict {
        Ok(true) => match token {
            Ok(text) => Ok(login_success(pending.user, text)),
            Err(e) => Err(e),
        },
        Ok(false) => Err(invalid_credentials_error()),
        Err(e) => Err(e),
    }
}

/// The instant of a reading of the clock; the start of 1970 where it gave none.
pub open spec fn clock_instant(clock: Option<Timestamp>) -> Timestamp {
    match clock {
        Some(at) => at,
        None => Timestamp { secs: 0, nanos: 0 },
    }
}

/// The signup's last decision on a reading of the clock: for a record that was
/// written, the token is what issuing gives on that reading, for the new user
/// under the pending name, and the answer carries the reading's instant.
pub open spec fn signup_finish_spec(
    pending: InsertionModel,
    outcome: InsertOutcomeModel,
    key: Seq<char>,
    clock: Option<Timestamp>,
) -> Result<AuthResponseModel, ErrorModel> {
    signup_insert_spec(
        pending,
        outcome,
        clock_instant(clock),
        match outcome {
            InsertOutcomeModel::Created(id) => token_result_on(id, pending.username, key, clock),
            _ => Err(token_failure()),
        },
    )
}

/// The login's last decision on a reading of the clock: for a secret that
/// matched, the token is what issuing gives on that reading, for the user and
/// the name of the record.
pub open spec fn login_finish_spec(
    pending: CheckingModel,
    verdict: Result<bool, ErrorModel>,
    key: Seq<char>,
    clock: Option<Timestamp>,
) -> Result<AuthResponseModel, ErrorModel> {
    login_verify_spec(
        pending,
        verdict,
        token_result_on(pending.user.id, pending.user.username, key, clock),
    )
}

/// Validates the shape of a pair of name and password and maps what is broken to
/// the validation error.
pub fn validate_shape(name: &str, password: &str) -> (out: AppResult<()>)
    ensures
        result_view(out) == match validation_result(name@, password@) {
            Ok(_) => Ok::<(), ErrorModel>(()),
            Err(errors) => Err(ErrorModel::Validation(errors)),
        },
{
    match validate_credentials(name, password) {
        Ok(_) => Ok(()),
        Err(errors) => Err(AppError::Validation(errors)),
    }
}

/// Validates, then normalizes the name: the first decision of both flows.
fn begin(name: &str, password: String) -> (out: AppResult<Lookup>)
    ensures
        result_view(out) == begin_spec(name@, password@),
{
    match validate_shape(name, password.as_str()) {
        Ok(_) => Ok(Lookup { username: normalize_username(name), password }),
        Err(e) => Err(e),
    }
}

impl SignupRequest {
    /// Checks the shape of the request and reports every rule that it breaks.
    pub fn validate(&self) -> (checked: Result<(), ValidationErrors>)
        ensures
            checked == validation_result(self.name@, self.password@),
    {
        validate_credentials(self.name.as_str(), self.password.as_str())
    }
}

impl LoginRequest {
    /// Checks the shape of the request and reports every rule that it breaks.
    pub fn validate(&self) -> (checked: Result<(), ValidationErrors>)
        ensures
            checked == validation_result(self.name@, self.password@),
    {
        validate_credentials(self.name.as_str(), self.password.as_str())
    }
}

impl Hashing {
    /// Hashes the pending password. This is the slow step of a signup: run it on
    /// a worker, away from the handling of other requests.
    pub fn hash(&self) -> (digest: AppResult<String>)
        ensures
            digest matches Ok(d) ==> is_hash_of(self.password@, d@),
            digest matches Err(e) ==> e@ == hashing_failure(),
    {
        hash_password(self.password.as_str())
    }
}

impl Checking {
    /// Verifies the pending password against the digest of the record. Like the
    /// hashing, this is slow and belongs on a worker.
    pub fn verify(&self) -> (verdict: AppResult<bool>)
        ensures
            result_view(verdict) == verification_result(self.password@, self.user.password_hash@),
    {
        verify_password(self.password.as_str(), self.user.password_hash.as_str())
    }
}

/// Starts a signup. A request of valid shape asks the store whether its
/// normalized name is registered; any other ends with the validation error.
pub fn signup_begin(request: SignupRequest) -> (out: AppResult<Lookup>)
    ensures
        result_view(out) == begin_spec(request.name@, request.password@),
{
    begin(request.name.as_str(), request.password)
}

/// Takes the store's answer to "is this name registered?". The check saves the
/// hashing where the name is taken; it does not decide: the insert does.
pub fn signup_after_lookup(pending: Lookup, exists: Result<bool, String>) -> (out: AppResult<
    Hashing,
>)
    ensures
        result_view(out) == signup_lookup_spec(pending@, answer_view(exists)),
{
    match exists {
        Ok(true) => Err(AppError::username_taken()),
        Ok(false) => Ok(Hashing { username: pending.username, password: pending.password }),
        Err(detail) => Err(AppError::Database(detail)),
    }
}

/// Takes the outcome of the hashing and asks the store to insert the record.
pub fn signup_after_hash(pending: Hashing, digest: AppResult<String>) -> (out: AppResult<
    Insertion,
>)
    ensures
        result_view(out) == signup_hash_spec(pending@, result_view(digest)),
{
    match digest {
        Ok(password_hash) => Ok(Insertion { username: pending.username, password_hash }),
        Err(e) => Err(e),
    }
}

/// Builds the answer of a signup whose record was written, from the outcome of
/// issuing the token.
pub fn signup_reply(
    id: UserId,
    username: String,
    created_at: Timestamp,
    token: AppResult<String>,
) -> (out: AppResult<AuthResponse>)
    ensures
        result_view(out) == match result_view(token) {
            Ok(text) => Ok::<AuthResponseModel, ErrorModel>(
                signup_success(id, username@, created_at, text),
            ),
            Err(e) => Err(e),
        },
{
    match token {
        Ok(text) => Ok(
            AuthResponse {
                message: String::from_str("User registered successfully!"),
                token: Some(text),
                user: Some(UserResponse { id, username, created_at }),
            },
        ),
        Err(e) => Err(e),
    }
}

/// Builds the answer of a login whose secret matched, from the outcome of issuing
/// the token.
pub fn login_reply(user: User, token: AppResult<String>) -> (out: AppResult<AuthResponse>)
    ensures
        result_view(out) == match result_view(token) {
            Ok(text) => Ok::<AuthResponseModel, ErrorModel>(login_success(user@, text)),
            Err(e) => Err(e),
        },
{
    match token {
        Ok(text) => Ok(
            AuthResponse {
                message: String::from_str("Login successful!"),
                token: Some(text),
                user: Some(
                    UserResponse {
                        id: user.id,
                        username: user.username,
                        created_at: user.created_at,
                    },
                ),
            },
        ),
        Err(e) => Err(e),
    }
}

/// Takes the store's answer to the insert and a reading of the clock, and ends
/// the signup. For a record that was written, the token is issued at the second
/// of the reading and the answer carries its instant.
pub fn signup_after_insert_on(
    pending: Insertion,
    outcome: InsertOutcome,
    jwt_secret: &str,
    clock: Option<Timestamp>,
) -> (out: AppResult<AuthResponse>)
    ensures
        result_view(out) == signup_finish_spec(pending@, outcome@, jwt_secret@, clock),
{
    match outcome {
        InsertOutcome::Created(id) => match clock {
            Some(at) => {
                let token = try_create_jwt_at(&id, pending.username.as_str(), jwt_secret, at.secs);
                signup_reply(id, pending.username, at, token)
            },
            None => Err(AppError::token_failed()),
        },
        InsertOutcome::NameTaken => Err(AppError::username_taken()),
        InsertOutcome::Failed(detail) => Err(AppError::Database(detail)),
    }
}

/// Takes the store's answer to the insert and ends the signup, reading the clock
/// itself: the result is the last decision on some reading of the clock.
pub fn signup_after_insert(pending: Insertion, outcome: InsertOutcome, jwt_secret: &str) -> (out:
    AppResult<AuthResponse>)
    ensures
        exists|clock: Option<Timestamp>|
            result_view(out) == #[trigger] signup_finish_spec(
                pending@,
                outcome@,
                jwt_secret@,
                clock,
            ),
{
    signup_after_insert_on(pending, outcome, jwt_secret, utc_now())
}

/// Starts a login. A request of valid shape asks the store for the active record
/// under its normalized name; any other ends with the validation error.
pub fn login_begin(request: LoginRequest) -> (out: AppResult<Lookup>)
    ensures
        result_view(out) == begin_spec(request.name@, request.password@),
{
    begin(request.name.as_str(), request.password)
}

/// Takes what the store found under the name.
pub fn login_after_lookup(pending: Lookup, found: Result<Option<User>, String>) -> (out: AppResult<
    Checking,
>)
    ensures
        result_view(out) == login_lookup_spec(pending@, found_view(found)),
{
    match found {
        Ok(Some(user)) => {
            if user.is_active {
                Ok(Checking { user, password: pending.password })
            } else {
                Err(AppError::invalid_credentials())
            }
        },
        Ok(None) => Err(AppError::invalid_credentials()),
        Err(detail) => Err(AppError::Database(detail)),
    }
}

/// Takes the outcome of the verification and a reading of the clock, and ends
/// the login. For a secret that matched, the token is issued at the second of the
/// reading.
pub fn login_after_verify_on(
    pending: Checking,
    verdict: AppResult<bool>,
    jwt_secret: &str,
    clock: Option<Timestamp>,
) -> (out: AppResult<AuthResponse>)
    ensures
        result_view(out) == login_finish_spec(pending@, result_view(verdict), jwt_secret@, clock),
{
    match verdict {
        Ok(true) => {
            let token = create_jwt_on(
                &pending.user.id,
                pending.user.username.as_str(),
                jwt_secret,
                clock,
            );
            login_reply(pending.user, token)
        },
        Ok(false) => Err(AppError::invalid_credentials()),
        Err(e) => Err(e),
    }
}

/// Takes the outcome of the verification and ends the login, reading the clock
/// itself: the result is the last decision on some reading of the clock.
pub fn login_after_verify(pending: Checking, verdict: AppResult<bool>, jwt_secret: &str) -> (out:
    AppResult<AuthResponse>)
    ensures
        exists|clock: Option<Timestamp>|
            result_view(out) == #[trigger] login_finish_spec(
                pending@,
                result_view(verdict),
                jwt_secret@,
                clock,
            ),
{
    login_after_verify_on(pending, verdict, jwt_secret, utc_now())
}

} // verus!
