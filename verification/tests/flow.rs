use incognito_auth::error::{AppError, AppResult};
use incognito_auth::flow::{
    login_after_lookup, login_after_verify, login_after_verify_on, login_begin, login_reply,
    signup_after_hash, signup_after_insert, signup_after_insert_on, signup_after_lookup,
    signup_begin, signup_reply, validate_shape, AuthResponse, Checking, Hashing, InsertOutcome,
    Insertion, LoginRequest, Lookup, SignupRequest, UserResponse,
};
use incognito_auth::token::create_jwt_at;
use incognito_auth::model::{Timestamp, User, UserId};
use incognito_auth::validation::ValidationErrors;
use jsonwebtoken::{decode, Algorithm, DecodingKey, Validation};
use std::collections::HashMap;

const JWT_KEY: &str = "flow-test-key";

// A digest of "password" at the lowest cost, so that verifying it is quick.
const PASSWORD_DIGEST: &str = "$2a$04$UuTkLRZZ6QofpDOlMz32MuuxEHA43WOemOYHPz6.SjsVsyO1tDU96";

struct MemoryStore {
    users: HashMap<String, User>,
    next_id: u128,
}

fn empty_store() -> MemoryStore {
    MemoryStore { users: HashMap::new(), next_id: 0x1000 }
}

fn store_insert(store: &mut MemoryStore, username: &str, password_hash: &str) -> InsertOutcome {
    if store.users.contains_key(username) {
        return InsertOutcome::NameTaken;
    }
    let id = UserId { value: store.next_id };
    store.next_id += 1;
    let at = Timestamp { secs: 1_700_000_000, nanos: 0 };
    store.users.insert(
        username.to_string(),
        User {
            id,
            username: username.to_string(),
            password_hash: password_hash.to_string(),
            created_at: at,
            updated_at: at,
            is_active: true,
        },
    );
    InsertOutcome::Created(id)
}

fn store_find_active(store: &MemoryStore, username: &str) -> Option<User> {
    store.users.get(username).filter(|u| u.is_active).cloned()
}

fn signup_request(name: &str, password: &str) -> SignupRequest {
    SignupRequest { name: name.to_string(), password: password.to_string() }
}

fn login_request(name: &str, password: &str) -> LoginRequest {
    LoginRequest { name: name.to_string(), password: password.to_string() }
}

fn run_signup(store: &mut MemoryStore, name: &str, password: &str) -> AppResult<AuthResponse> {
    let lookup = signup_begin(signup_request(name, password))?;
    let exists = store.users.contains_key(&lookup.username);
    let hashing = signup_after_lookup(lookup, Ok(exists))?;
    let digest = hashing.hash();
    let insertion = signup_after_hash(hashing, digest)?;
    let outcome = store_insert(store, &insertion.username, &insertion.password_hash);
    signup_after_insert(insertion, outcome, JWT_KEY)
}

fn run_login(store: &MemoryStore, name: &str, password: &str) -> AppResult<AuthResponse> {
    let lookup = login_begin(login_request(name, password))?;
    let found = store_find_active(store, &lookup.username);
    let checking = login_after_lookup(lookup, Ok(found))?;
    let verdict = checking.verify();
    login_after_verify(checking, verdict, JWT_KEY)
}

fn subject_of(token: &str) -> String {
    let validation = Validation::new(Algorithm::HS256);
    let data = decode::<serde_json::Value>(
        token,
        &DecodingKey::from_secret(JWT_KEY.as_bytes()),
        &validation,
    )
    .unwrap();
    data.claims["sub"].as_str().unwrap().to_string()
}

fn store_with_password_user(name: &str) -> MemoryStore {
    let mut store = empty_store();
    store_insert(&mut store, name, PASSWORD_DIGEST);
    store
}

fn conflict() -> AppError {
    AppError::Conflict("Username already exists".to_string())
}

fn refused() -> AppError {
    AppError::Unauthorized("Invalid credentials".to_string())
}

#[test]
fn signup_then_login_names_the_same_user() {
    let mut store = empty_store();
    let signed_up = run_signup(&mut store, "Alice_1", "wonderland").unwrap();
    let logged_in = run_login(&store, "Alice_1", "wonderland").unwrap();
    assert_eq!(signed_up.message, "User registered successfully!");
    assert_eq!(logged_in.message, "Login successful!");
    let new_user = signed_up.user.unwrap();
    let old_user = logged_in.user.unwrap();
    assert_eq!(new_user.id, UserId { value: 0x1000 });
    assert_eq!(old_user.id, new_user.id);
    assert_eq!(new_user.username, "alice_1");
    assert_eq!(old_user.username, "alice_1");
    assert_eq!(old_user.created_at, Timestamp { secs: 1_700_000_000, nanos: 0 });
    let first = subject_of(&signed_up.token.unwrap());
    let second = subject_of(&logged_in.token.unwrap());
    assert_eq!(first, "00000000-0000-0000-0000-000000001000");
    assert_eq!(first, second);
}

#[test]
fn signup_stores_a_digest_not_the_secret() {
    let mut store = empty_store();
    run_signup(&mut store, "carol", "opensesame").unwrap();
    let record = store.users.get("carol").unwrap();
    assert_ne!(record.password_hash, "opensesame");
    assert!(record.password_hash.starts_with("$2b$12$"));
}

#[test]
fn login_ignores_the_case_of_the_name() {
    let store = store_with_password_user("dave_7");
    let answer = run_login(&store, "DAVE_7", "password").unwrap();
    assert_eq!(answer.user.unwrap().username, "dave_7");
}

#[test]
fn signup_begin_normalizes_the_name() {
    let lookup = signup_begin(signup_request("MiXed_Case9", "secret1")).unwrap();
    assert_eq!(
        lookup,
        Lookup { username: "mixed_case9".to_string(), password: "secret1".to_string() }
    );
    let lookup = login_begin(login_request("MiXed_Case9", "secret1")).unwrap();
    assert_eq!(lookup.username, "mixed_case9");
    assert_eq!(lookup.password, "secret1");
}

#[test]
fn begin_reports_every_broken_rule() {
    let expected = AppError::Validation(ValidationErrors {
        name_length: true,
        name_charset: true,
        password_length: true,
    });
    assert_eq!(signup_begin(signup_request("a!", "123")), Err(expected.clone()));
    assert_eq!(login_begin(login_request("a!", "123")), Err(expected.clone()));
    assert_eq!(validate_shape("a!", "123"), Err(expected));
    assert_eq!(validate_shape("abc", "123456"), Ok(()));
}

#[test]
fn invalid_signup_never_reaches_the_store() {
    let mut store = empty_store();
    let e = run_signup(&mut store, "a b", "secret1").unwrap_err();
    assert_eq!(e.status_code(), 400);
    assert!(store.users.is_empty());
    let e = run_login(&store, " bob ", "secret1").unwrap_err();
    assert_eq!(e.status_code(), 400);
}

#[test]
fn registered_name_is_a_conflict() {
    let mut store = store_with_password_user("erin");
    assert_eq!(run_signup(&mut store, "erin", "another1"), Err(conflict()));
    assert_eq!(run_signup(&mut store, "ERIN", "another1"), Err(conflict()));
    assert_eq!(run_signup(&mut store, "Erin", "another1"), Err(conflict()));
    assert_eq!(store.users.len(), 1);
    assert_eq!(store.users.get("erin").unwrap().password_hash, PASSWORD_DIGEST);
    assert_eq!(conflict().status_code(), 409);
}

#[test]
fn lookup_answers_decide_the_next_step() {
    let pending = Lookup { username: "frank".to_string(), password: "secret1".to_string() };
    assert_eq!(
        signup_after_lookup(pending.clone(), Ok(false)),
        Ok(Hashing { username: "frank".to_string(), password: "secret1".to_string() })
    );
    assert_eq!(signup_after_lookup(pending.clone(), Ok(true)), Err(conflict()));
    assert_eq!(
        signup_after_lookup(pending, Err("connection reset".to_string())),
        Err(AppError::Database("connection reset".to_string()))
    );
}

#[test]
fn hashing_outcome_decides_the_next_step() {
    let pending = Hashing { username: "frank".to_string(), password: "secret1".to_string() };
    assert_eq!(
        signup_after_hash(pending.clone(), Ok("digest".to_string())),
        Ok(Insertion { username: "frank".to_string(), password_hash: "digest".to_string() })
    );
    let failure = AppError::Internal("Password hashing failed".to_string());
    assert_eq!(signup_after_hash(pending, Err(failure.clone())), Err(failure));
}

#[test]
fn lost_race_is_a_conflict_not_an_internal_error() {
    let pending = Insertion { username: "gina".to_string(), password_hash: "digest".to_string() };
    let e = signup_after_insert(pending, InsertOutcome::NameTaken, JWT_KEY).unwrap_err();
    assert_eq!(e, conflict());
    assert_eq!(e.status_code(), 409);
}

#[test]
fn failed_insert_is_a_database_error() {
    let pending = Insertion { username: "gina".to_string(), password_hash: "digest".to_string() };
    let e = signup_after_insert(pending, InsertOutcome::Failed("disk full".to_string()), JWT_KEY)
        .unwrap_err();
    assert_eq!(e, AppError::Database("disk full".to_string()));
    assert_eq!(e.status_code(), 500);
    assert_eq!(e.message(), "Database error");
}

#[test]
fn written_record_is_answered_with_a_token() {
    let pending = Insertion { username: "gina".to_string(), password_hash: "digest".to_string() };
    let id = UserId { value: 42 };
    let answer = signup_after_insert(pending, InsertOutcome::Created(id), JWT_KEY).unwrap();
    assert_eq!(answer.message, "User registered successfully!");
    let user = answer.user.unwrap();
    assert_eq!(user.id, id);
    assert_eq!(user.username, "gina");
    assert!(user.created_at.secs > 1_600_000_000);
    assert_eq!(subject_of(&answer.token.unwrap()), "00000000-0000-0000-0000-00000000002a");
}

#[test]
fn signup_ends_exactly_on_a_given_reading_of_the_clock() {
    let pending = Insertion { username: "nina".to_string(), password_hash: "digest".to_string() };
    let id = UserId { value: 0xabc };
    let at = Timestamp { secs: 1_700_000_000, nanos: 123 };
    let answer =
        signup_after_insert_on(pending.clone(), InsertOutcome::Created(id), JWT_KEY, Some(at));
    assert_eq!(
        answer,
        Ok(AuthResponse {
            message: "User registered successfully!".to_string(),
            token: Some(create_jwt_at(&id, "nina", JWT_KEY, 1_700_000_000).unwrap()),
            user: Some(UserResponse { id, username: "nina".to_string(), created_at: at }),
        })
    );
    let failure = Err(AppError::Internal("Token creation failed".to_string()));
    assert_eq!(
        signup_after_insert_on(pending.clone(), InsertOutcome::Created(id), JWT_KEY, None),
        failure
    );
    let early = Timestamp { secs: -1, nanos: 0 };
    assert_eq!(
        signup_after_insert_on(pending.clone(), InsertOutcome::Created(id), JWT_KEY, Some(early)),
        failure
    );
    assert_eq!(
        signup_after_insert_on(pending.clone(), InsertOutcome::NameTaken, JWT_KEY, None),
        Err(conflict())
    );
    assert_eq!(
        signup_after_insert_on(pending.clone(), InsertOutcome::NameTaken, JWT_KEY, Some(at)),
        Err(conflict())
    );
    assert_eq!(
        signup_after_insert_on(pending, InsertOutcome::Failed("x".to_string()), JWT_KEY, Some(at)),
        Err(AppError::Database("x".to_string()))
    );
}

#[test]
fn login_ends_exactly_on_a_given_reading_of_the_clock() {
    let store = store_with_password_user("olga");
    let record = store.users.get("olga").unwrap().clone();
    let pending = Checking { user: record.clone(), password: "password".to_string() };
    let at = Timestamp { secs: 1_800_000_000, nanos: 0 };
    assert_eq!(
        login_after_verify_on(pending.clone(), Ok(true), JWT_KEY, Some(at)),
        Ok(AuthResponse {
            message: "Login successful!".to_string(),
            token: Some(create_jwt_at(&record.id, "olga", JWT_KEY, 1_800_000_000).unwrap()),
            user: Some(UserResponse {
                id: record.id,
                username: "olga".to_string(),
                created_at: record.created_at,
            }),
        })
    );
    let failure = Err(AppError::Internal("Token creation failed".to_string()));
    assert_eq!(login_after_verify_on(pending.clone(), Ok(true), JWT_KEY, None), failure);
    assert_eq!(login_after_verify_on(pending.clone(), Ok(false), JWT_KEY, None), Err(refused()));
    assert_eq!(login_after_verify_on(pending.clone(), Ok(false), JWT_KEY, Some(at)), Err(refused()));
    let broken = AppError::Internal("Password verification failed".to_string());
    assert_eq!(
        login_after_verify_on(pending, Err(broken.clone()), JWT_KEY, Some(at)),
        Err(broken)
    );
}

#[test]
fn hundred_signups_for_one_name_have_one_winner() {
    let mut store = empty_store();
    // All of them pass the first check before any of them inserts.
    let mut waiting = Vec::new();
    for i in 0..100 {
        let name = if i % 2 == 0 { "Racer" } else { "racer" };
        let lookup = signup_begin(signup_request(name, "password")).unwrap();
        let exists = store.users.contains_key(&lookup.username);
        let hashing = signup_after_lookup(lookup, Ok(exists)).unwrap();
        waiting.push(signup_after_hash(hashing, Ok(PASSWORD_DIGEST.to_string())).unwrap());
    }
    let mut winners = 0;
    let mut conflicts = 0;
    for insertion in waiting {
        let outcome = store_insert(&mut store, &insertion.username, &insertion.password_hash);
        match signup_after_insert(insertion, outcome, JWT_KEY) {
            Ok(_) => winners += 1,
            Err(e) => {
                assert_eq!(e, conflict());
                conflicts += 1;
            }
        }
    }
    assert_eq!(winners, 1);
    assert_eq!(conflicts, 99);
    assert_eq!(store.users.len(), 1);
}

#[test]
fn unknown_name_and_wrong_secret_are_refused_alike() {
    let store = store_with_password_user("heidi");
    let unknown = run_login(&store, "nobody", "password").unwrap_err();
    let wrong = run_login(&store, "heidi", "passw0rd").unwrap_err();
    assert_eq!(unknown, wrong);
    assert_eq!(unknown, refused());
    assert_eq!(unknown.message(), "Invalid credentials");
    assert_eq!(wrong.message(), "Invalid credentials");
    assert_eq!(unknown.status_code(), 401);
    assert_eq!(wrong.status_code(), 401);
    assert_eq!(unknown.to_string(), wrong.to_string());
}

#[test]
fn right_secret_logs_in() {
    let store = store_with_password_user("heidi");
    let answer = run_login(&store, "heidi", "password").unwrap();
    let user = answer.user.unwrap();
    assert_eq!(user.id, UserId { value: 0x1000 });
    assert_eq!(subject_of(&answer.token.unwrap()), "00000000-0000-0000-0000-000000001000");
}

#[test]
fn inactive_record_is_refused_like_an_unknown_name() {
    let mut store = store_with_password_user("ivan");
    store.users.get_mut("ivan").unwrap().is_active = false;
    let record = store.users.get("ivan").unwrap().clone();
    assert_eq!(run_login(&store, "ivan", "password"), Err(refused()));
    // Even a store that hands out the inactive record does not get it logged in.
    let pending = Lookup { username: "ivan".to_string(), password: "password".to_string() };
    assert_eq!(login_after_lookup(pending, Ok(Some(record))), Err(refused()));
}

#[test]
fn login_lookup_answers_decide_the_next_step() {
    let store = store_with_password_user("judy");
    let record = store.users.get("judy").unwrap().clone();
    let pending = Lookup { username: "judy".to_string(), password: "password".to_string() };
    assert_eq!(
        login_after_lookup(pending.clone(), Ok(Some(record.clone()))),
        Ok(Checking { user: record, password: "password".to_string() })
    );
    assert_eq!(login_after_lookup(pending.clone(), Ok(None)), Err(refused()));
    assert_eq!(
        login_after_lookup(pending, Err("pool timed out".to_string())),
        Err(AppError::Database("pool timed out".to_string()))
    );
}

#[test]
fn verification_outcome_decides_the_answer() {
    let store = store_with_password_user("kim");
    let record = store.users.get("kim").unwrap().clone();
    let pending = Checking { user: record, password: "password".to_string() };
    assert_eq!(login_after_verify(pending.clone(), Ok(false), JWT_KEY), Err(refused()));
    let failure = AppError::Internal("Password verification failed".to_string());
    assert_eq!(
        login_after_verify(pending.clone(), Err(failure.clone()), JWT_KEY),
        Err(failure)
    );
    let answer = login_after_verify(pending, Ok(true), JWT_KEY).unwrap();
    assert_eq!(answer.message, "Login successful!");
    assert_eq!(answer.user.unwrap().username, "kim");
}

#[test]
fn malformed_stored_digest_is_an_internal_error() {
    let mut store = empty_store();
    store_insert(&mut store, "leo", "not a digest");
    let e = run_login(&store, "leo", "password").unwrap_err();
    assert_eq!(e, AppError::Internal("Password verification failed".to_string()));
    assert_eq!(e.status_code(), 500);
}

#[test]
fn replies_carry_what_they_are_given() {
    let id = UserId { value: 9 };
    let at = Timestamp { secs: 5, nanos: 6 };
    let answer = signup_reply(id, "mia".to_string(), at, Ok("tok".to_string())).unwrap();
    assert_eq!(answer.message, "User registered successfully!");
    assert_eq!(answer.token, Some("tok".to_string()));
    let user = answer.user.unwrap();
    assert_eq!((user.id, user.username.as_str(), user.created_at), (id, "mia", at));
    let failure = AppError::Internal("Token creation failed".to_string());
    assert_eq!(signup_reply(id, "mia".to_string(), at, Err(failure.clone())), Err(failure.clone()));

    let record = User {
        id,
        username: "mia".to_string(),
        password_hash: "digest".to_string(),
        created_at: at,
        updated_at: Timestamp { secs: 7, nanos: 8 },
        is_active: true,
    };
    let answer = login_reply(record.clone(), Ok("tok".to_string())).unwrap();
    assert_eq!(answer.message, "Login successful!");
    assert_eq!(answer.token, Some("tok".to_string()));
    let user = answer.user.unwrap();
    assert_eq!((user.id, user.username.as_str(), user.created_at), (id, "mia", at));
    assert_eq!(login_reply(record, Err(failure.clone())), Err(failure));
}
