//! What holds of the flows as a whole, proved over the model of the store.

use vstd::prelude::*;
use crate::error::{conflict_error, invalid_credentials_error, ErrorModel};
use crate::flow::{
    answered, begin_spec, clock_instant, login_finish_spec, login_success, login_verify_spec,
    refused, signup_finish_spec, signup_insert_spec, signup_success, CheckingModel,
    InsertOutcomeModel, InsertionModel,
};
use crate::model::{Timestamp, UserId};
use crate::secret::{is_hash_of, verification_result};
use crate::store::{login_run, signup_run, signup_runs, Attempt, SignupWorld, StoreModel};
use crate::text::{
    ascii_lower, ascii_lowercased, has_no_ascii_capital, lemma_lowercased_username,
};
use crate::token::{is_issued_token, lemma_reading_is_some_second, token_result_on};
use crate::validation::{is_valid_credentials, is_valid_username};

verus! {

/// A signup is well served: its hashing gave a digest of its password and its
/// token was issued.
pub open spec fn is_well_served(password: Seq<char>, world: SignupWorld) -> bool {
    &&& world.digest matches Ok(digest) && is_hash_of(password, digest)
    &&& world.token is Ok
}

/// A signup with valid credentials for a free name, well served, succeeds and
/// leaves an active record under the normalized name; a login with the same
/// credentials right after it succeeds as well. Both answers name the same user,
/// and the token of the login is one issued for the very user and name for which
/// the signup issued its own: the two tokens carry the same subject.
pub proof fn lemma_signup_then_login(
    store: StoreModel,
    name: Seq<char>,
    password: Seq<char>,
    world: SignupWorld,
    login_token: Seq<char>,
    key: Seq<char>,
)
    requires
        is_valid_credentials(name, password),
        !store.has_name(ascii_lowercased(name)),
        !world.seen,
        is_well_served(password, world),
        is_issued_token(world.token, world.id, ascii_lowercased(name), key),
        signup_run(store, name, password, world).0.find_active(ascii_lowercased(name)) matches Some(
            record,
        ) ==> is_issued_token(Ok(login_token), record.id, record.username, key),
    ensures
        ({
            let username = ascii_lowercased(name);
            let (after, signed_up) = signup_run(store, name, password, world);
            let logged_in = login_run(after, name, password, Ok(login_token));
            &&& signed_up == answered(
                signup_success(world.id, username, world.at, world.token->Ok_0),
            )
            &&& after.find_active(username) matches Some(record) && {
                &&& record.id == world.id
                &&& record.username == username
                &&& record.password_hash == world.digest->Ok_0
                &&& logged_in == answered(login_success(record, login_token))
            }
            &&& signed_up->Ok_0.user->0.id == logged_in->Ok_0.user->0.id
            &&& signed_up->Ok_0.user->0.username == logged_in->Ok_0.user->0.username
            &&& is_issued_token(Ok(login_token), world.id, username, key)
        }),
{
}

/// The last decisions on a reading of the clock are the last decisions of a run
/// whose token is one that issuing gives: for the new user under the pending
/// name in a signup, for the user and name of the record in a login.
pub proof fn lemma_finish_issues(
    insertion: InsertionModel,
    id: UserId,
    checking: CheckingModel,
    verdict: Result<bool, ErrorModel>,
    key: Seq<char>,
    clock: Option<Timestamp>,
)
    ensures
        ({
            let token = token_result_on(id, insertion.username, key, clock);
            &&& is_issued_token(token, id, insertion.username, key)
            &&& signup_finish_spec(insertion, InsertOutcomeModel::Created(id), key, clock)
                == signup_insert_spec(
                insertion,
                InsertOutcomeModel::Created(id),
                clock_instant(clock),
                token,
            )
        }),
        ({
            let token = token_result_on(checking.user.id, checking.user.username, key, clock);
            &&& is_issued_token(token, checking.user.id, checking.user.username, key)
            &&& login_finish_spec(checking, verdict, key, clock) == login_verify_spec(
                checking,
                verdict,
                token,
            )
        }),
{
    lemma_reading_is_some_second(id, insertion.username, key, clock);
    lemma_reading_is_some_second(checking.user.id, checking.user.username, key, clock);
}

/// A signup with valid credentials for a name that the store holds ends with the
/// conflict and changes nothing, whether its first check saw the name or, beside
/// another signup, missed it and only the insert met it. (A signup that missed the
/// name and whose hashing then failed never reaches the insert: it is left out.)
pub proof fn lemma_taken_name_conflicts(
    store: StoreModel,
    name: Seq<char>,
    password: Seq<char>,
    world: SignupWorld,
)
    requires
        is_valid_credentials(name, password),
        store.has_name(ascii_lowercased(name)),
        world.seen || world.digest is Ok,
    ensures
        signup_run(store, name, password, world).1 == refused(conflict_error()),
        signup_run(store, name, password, world).0 == store,
        conflict_error().status() == 409,
{
}

/// A flow goes on only under a name in normal form: of valid shape, without
/// capitals, and unchanged by normalizing it again. The password goes on as it
/// came.
pub proof fn lemma_begin_normalizes(name: Seq<char>, password: Seq<char>)
    ensures
        begin_spec(name, password) is Ok <==> is_valid_credentials(name, password),
        begin_spec(name, password) matches Ok(next) ==> {
            &&& is_valid_username(next.username)
            &&& has_no_ascii_capital(next.username)
            &&& ascii_lowercased(next.username) == next.username
            &&& next.password == password
        },
{
    if is_valid_credentials(name, password) {
        lemma_lowercased_username(name);
    }
}

/// The store never holds two records for one name, and a record, once written,
/// is never changed: a signup leaves every record as it was and adds at most one,
/// under a name that was free; it adds one whenever it succeeds. A store in which
/// every record stands under its own normalized name stays so.
pub proof fn lemma_signup_keeps_records(
    store: StoreModel,
    name: Seq<char>,
    password: Seq<char>,
    world: SignupWorld,
)
    requires
        store.wf(),
    ensures
        ({
            let (after, reply) = signup_run(store, name, password, world);
            let username = ascii_lowercased(name);
            &&& after.wf()
            &&& forall|other: Seq<char>| #[trigger]
                store.has_name(other) ==> after.has_name(other) && after.records[other]
                    == store.records[other]
            &&& after == store || (!store.has_name(username) && after.records.dom()
                == store.records.dom().insert(username))
            &&& reply is Ok ==> after.has_name(username) && after.records[username].id == world.id
        }),
{
    if is_valid_credentials(name, password) {
        lemma_lowercased_username(name);
    }
}

/// A login reads the store and writes nothing: its outcome depends on the record
/// under the normalized name alone.
pub proof fn lemma_login_reads_one_record(
    store: StoreModel,
    other: StoreModel,
    name: Seq<char>,
    password: Seq<char>,
    token: Result<Seq<char>, ErrorModel>,
)
    requires
        store.find_active(ascii_lowercased(name)) == other.find_active(ascii_lowercased(name)),
    ensures
        login_run(store, name, password, token) == login_run(other, name, password, token),
{
}

/// Of any number of signups for one free name that run beside each other,
/// exactly one succeeds: the one whose insert reaches the store first, where it
/// is well served. Every other one ends with the conflict, whatever its first
/// check saw, where its hashing did not fail before it reached the insert.
pub proof fn lemma_single_winner(store: StoreModel, attempts: Seq<Attempt>, username: Seq<char>)
    requires
        attempts.len() > 0,
        !store.has_name(username),
        !attempts[0].world.seen,
        is_well_served(attempts[0].password, attempts[0].world),
        forall|i: int|
            0 <= i < attempts.len() ==> {
                &&& is_valid_credentials((#[trigger] attempts[i]).name, attempts[i].password)
                &&& ascii_lowercased(attempts[i].name) == username
                &&& attempts[i].world.seen || attempts[i].world.digest is Ok
            },
    ensures
        signup_runs(store, attempts).len() == attempts.len(),
        signup_runs(store, attempts)[0] == answered(
            signup_success(
                attempts[0].world.id,
                username,
                attempts[0].world.at,
                attempts[0].world.token->Ok_0,
            ),
        ),
        forall|i: int|
            1 <= i < attempts.len() ==> #[trigger] signup_runs(store, attempts)[i] == refused(
                conflict_error(),
            ),
{
    let first = attempts[0];
    let (after, reply) = signup_run(store, first.name, first.password, first.world);
    let rest = attempts.drop_first();
    assert(after.has_name(username));
    lemma_all_conflict(after, rest, username);
    assert(signup_runs(store, attempts) == seq![reply] + signup_runs(after, rest));
}

/// Every signup for a name that the store holds ends with the conflict, however
/// many there are.
pub proof fn lemma_all_conflict(store: StoreModel, attempts: Seq<Attempt>, username: Seq<char>)
    requires
        store.has_name(username),
        forall|i: int|
            0 <= i < attempts.len() ==> {
                &&& is_valid_credentials((#[trigger] attempts[i]).name, attempts[i].password)
                &&& ascii_lowercased(attempts[i].name) == username
                &&& attempts[i].world.seen || attempts[i].world.digest is Ok
            },
    ensures
        signup_runs(store, attempts).len() == attempts.len(),
        forall|i: int|
            0 <= i < attempts.len() ==> #[trigger] signup_runs(store, attempts)[i] == refused(
                conflict_error(),
            ),
    decreases attempts.len(),
{
    if attempts.len() > 0 {
        let first = attempts[0];
        let rest = attempts.drop_first();
        lemma_taken_name_conflicts(store, first.name, first.password, first.world);
        let (after, reply) = signup_run(store, first.name, first.password, first.world);
        assert forall|i: int| 0 <= i < rest.len() implies {
            &&& is_valid_credentials((#[trigger] rest[i]).name, rest[i].password)
            &&& ascii_lowercased(rest[i].name) == username
            &&& rest[i].world.seen || rest[i].world.digest is Ok
        } by {
            assert(rest[i] == attempts[i + 1]);
        }
        lemma_all_conflict(after, rest, username);
        assert(signup_runs(store, attempts) == seq![reply] + signup_runs(after, rest));
    }
}

/// A login under a name that has no active record and a login under a registered
/// name with a secret that does not match get the same error: the same kind, the
/// same text, the same status. A caller cannot tell which part was wrong.
pub proof fn lemma_refusals_alike(
    store: StoreModel,
    unknown: Seq<char>,
    known: Seq<char>,
    password: Seq<char>,
    wrong: Seq<char>,
    token: Result<Seq<char>, ErrorModel>,
)
    requires
        is_valid_credentials(unknown, password),
        is_valid_credentials(known, wrong),
        store.find_active(ascii_lowercased(unknown)) is None,
        store.find_active(ascii_lowercased(known)) matches Some(record) && verification_result(
            wrong,
            record.password_hash,
        ) == Ok::<bool, ErrorModel>(false),
    ensures
        login_run(store, unknown, password, token) == refused(
            invalid_credentials_error(),
        ),
        login_run(store, known, wrong, token) == login_run(store, unknown, password, token),
        invalid_credentials_error().public_text() == "Invalid credentials"@,
        invalid_credentials_error().status() == 401,
{
}

/// Names that differ only in the case of their letters are one name to the
/// flows: they normalize alike, so a signup under one of them meets the record of
/// the other.
pub proof fn lemma_case_is_ignored(first: Seq<char>, second: Seq<char>)
    requires
        first.len() == second.len(),
        forall|i: int| 0 <= i < first.len() ==> ascii_lower(first[i]) == ascii_lower(second[i]),
    ensures
        ascii_lowercased(first) == ascii_lowercased(second),
{
    assert(ascii_lowercased(first) =~= ascii_lowercased(second));
}

} // verus!
