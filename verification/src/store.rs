//! A model of the user store and of whole flows run against it. The store itself
//! lives outside this library; the model says what the flows expect of it: at most
//! one record per normalized username, ever, and a check-and-write that is one
//! atomic step.

use vstd::prelude::*;
use crate::error::ErrorModel;
use crate::flow::{
    begin_spec, login_lookup_spec, login_verify_spec, signup_hash_spec, signup_insert_spec,
    signup_lookup_spec, AuthResponseModel, InsertOutcomeModel,
};
use crate::model::{Timestamp, UserId, UserModel};
use crate::secret::verification_result;
use crate::text::has_no_ascii_capital;
use crate::validation::is_valid_username;

verus! {

/// The records of the store, each under its normalized username.
pub struct StoreModel {
    pub records: Map<Seq<char>, UserModel>,
}

/// What a signup meets on its way, besides the store: the answer to its first
/// check, which may be stale when other signups run beside it; the outcome of the
/// hashing; the identifier and instant that the store would assign; the instant
/// of the answer; and the outcome of issuing the token.
pub struct SignupWorld {
    pub seen: bool,
    pub digest: Result<Seq<char>, ErrorModel>,
    pub id: UserId,
    pub stored_at: Timestamp,
    pub at: Timestamp,
    pub token: Result<Seq<char>, ErrorModel>,
}

/// One signup among several: its request and what it meets.
pub struct Attempt {
    pub name: Seq<char>,
    pub password: Seq<char>,
    pub world: SignupWorld,
}

impl StoreModel {
    /// Every record stands under its own username, and that username is in
    /// normal form: of valid shape and without capitals.
    pub open spec fn wf(self) -> bool {
        forall|name: Seq<char>| #[trigger]
            self.records.dom().contains(name) ==> {
                &&& self.records[name].username == name
                &&& is_valid_username(name)
                &&& has_no_ascii_capital(name)
            }
    }

    /// A record exists under `username`, active or not.
    pub open spec fn has_name(self, username: Seq<char>) -> bool {
        self.records.dom().contains(username)
    }

    /// The active record under `username`, if there is one.
    pub open spec fn find_active(self, username: Seq<char>) -> Option<UserModel> {
        if self.has_name(username) && self.records[username].is_active {
            Some(self.records[username])
        } else {
            None
        }
    }

    /// The atomic insert: where the name is free, the store gains an active record
    /// and answers with its identifier; where it is taken, nothing changes.
    pub open spec fn insert_if_absent(
        self,
        username: Seq<char>,
        password_hash: Seq<char>,
        id: UserId,
        at: Timestamp,
    ) -> (StoreModel, InsertOutcomeModel) {
        if self.has_name(username) {
            (self, InsertOutcomeModel::NameTaken)
        } else {
            (
                StoreModel {
                    records: self.records.insert(
                        username,
                        UserModel {
                            id,
                            username,
                            password_hash,
                            created_at: at,
                            updated_at: at,
                            is_active: true,
                        },
                    ),
                },
                InsertOutcomeModel::Created(id),
            )
        }
    }
}

/// A whole signup against a store that answers: the store afterwards, and the
/// answer to the caller.
pub open spec fn signup_run(
    store: StoreModel,
    name: Seq<char>,
    password: Seq<char>,
    world: SignupWorld,
) -> (StoreModel, Result<AuthResponseModel, ErrorModel>) {
    match begin_spec(name, password) {
        Err(e) => (store, Err(e)),
        Ok(lookup) => match signup_lookup_spec(lookup, Ok(world.seen)) {
            Err(e) => (store, Err(e)),
            Ok(hashing) => match signup_hash_spec(hashing, world.digest) {
                Err(e) => (store, Err(e)),
                Ok(insertion) => {
                    let (after, outcome) = store.insert_if_absent(
                        insertion.username,
                        insertion.password_hash,
                        world.id,
                        world.stored_at,
                    );
                    (after, signup_insert_spec(insertion, outcome, world.at, world.token))
                },
            },
        },
    }
}

/// A whole login against a store that answers, with the secret verified against
/// the digest of the record that was found.
pub open spec fn login_run(
    store: StoreModel,
    name: Seq<char>,
    password: Seq<char>,
    token: Result<Seq<char>, ErrorModel>,
) -> Result<AuthResponseModel, ErrorModel> {
    match begin_spec(name, password) {
        Err(e) => Err(e),
        Ok(lookup) => match login_lookup_spec(lookup, Ok(store.find_active(lookup.username))) {
            Err(e) => Err(e),
            Ok(checking) => login_verify_spec(
                checking,
                verification_result(checking.password, checking.user.password_hash),
                token,
            ),
        },
    }
}

/// Several signups, one after the other in the order in which their inserts reach
/// the store: the answer that each one gets.
pub open spec fn signup_runs(store: StoreModel, attempts: Seq<Attempt>) -> Seq<
    Result<AuthResponseModel, ErrorModel>,
>
    decreases attempts.len(),
{
    if attempts.len() == 0 {
        Seq::empty()
    } else {
        let first = attempts.first();
        let (after, reply) = signup_run(store, first.name, first.password, first.world);
        seq![reply] + signup_runs(after, attempts.drop_first())
    }
}

} // verus!
