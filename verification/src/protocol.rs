//! The server-side protocol: per-user registration and challenge state, and
//! the three operations the service exposes.
//!
//! A username moves from unregistered to registered with `register`, gets a
//! live challenge with `request_challenge`, and is authenticated or rejected
//! by `submit_challenge_answer`. Re-registration overwrites the public keys;
//! a second challenge request overwrites the per-attempt fields, so at most
//! one challenge per username is live at a time. Nothing is ever deleted.

use crate::bignum::{big_clone, big_from_u64, nat_of};
use crate::zkp::{
    is_alphanumeric_string, proof_accepted, standard_generator_g, standard_generator_h,
    standard_modulus_p, standard_subgroup_q, ChaumPedersenZKP,
};
use num_bigint::BigUint;
use vstd::hash_map::StringHashMap;
use vstd::pervasive::unreached;
use vstd::prelude::*;
use vstd::string::StringExecFns;

verus! {

/// Everything the service keeps about one username: the registered public
/// keys, and the commitment and challenge of the most recent login attempt.
/// The per-attempt fields are zero until a challenge is issued and are
/// overwritten on every new challenge request.
pub struct UserRecord {
    pub username: String,
    pub public_y1: BigUint,
    pub public_y2: BigUint,
    pub commitment_t1: BigUint,
    pub commitment_t2: BigUint,
    pub challenge_c: BigUint,
}

/// The distinguishable failure kinds of the protocol operations. Each
/// carries the subject it is about: the unknown username or attempt
/// identifier for `NotFound`, the implicated username for
/// `PermissionDenied`.
#[derive(Debug)]
pub enum AuthError {
    NotFound(String),
    PermissionDenied(String),
}

/// The two collections of protocol state: `registry` maps a username to its
/// `UserRecord`, and `attempts` maps an issued attempt identifier to the
/// username it was issued for. Attempt identifiers are never reused and
/// never removed.
pub struct SessionStore {
    registry: StringHashMap<UserRecord>,
    attempts: StringHashMap<String>,
}

impl SessionStore {
    /// The username-to-record map.
    pub closed spec fn registry(&self) -> Map<Seq<char>, UserRecord> {
        self.registry@
    }

    /// The attempt-identifier-to-username map.
    pub closed spec fn attempts(&self) -> Map<Seq<char>, String> {
        self.attempts@
    }

    /// Well-formedness: every issued attempt points at a registered
    /// username, and every record carries the username it is filed under.
    pub open spec fn wf(&self) -> bool {
        &&& forall|id: Seq<char>| #[trigger]
            self.attempts().contains_key(id) ==> self.registry().contains_key(
                self.attempts()[id]@,
            )
        &&& forall|name: Seq<char>| #[trigger]
            self.registry().contains_key(name) ==> self.registry()[name].username@ == name
    }

    pub fn new() -> (r: SessionStore)
        ensures
            r.wf(),
            r.registry() == Map::<Seq<char>, UserRecord>::empty(),
            r.attempts() == Map::<Seq<char>, String>::empty(),
    {
        SessionStore { registry: StringHashMap::new(), attempts: StringHashMap::new() }
    }

    /// Files a record for `username` with the given public keys and cleared
    /// per-attempt fields, replacing any prior record: last write wins.
    pub fn register(&mut self, username: String, public_y1: BigUint, public_y2: BigUint)
        requires
            old(self).wf(),
        ensures
            final(self).wf(),
            final(self).registry() == old(self).registry().insert(
                username@,
                final(self).registry()[username@],
            ),
            final(self).registry()[username@].username@ == username@,
            nat_of(final(self).registry()[username@].public_y1) == nat_of(public_y1),
            nat_of(final(self).registry()[username@].public_y2) == nat_of(public_y2),
            nat_of(final(self).registry()[username@].commitment_t1) == 0,
            nat_of(final(self).registry()[username@].commitment_t2) == 0,
            nat_of(final(self).registry()[username@].challenge_c) == 0,
            final(self).attempts() == old(self).attempts(),
    {
        let record = UserRecord {
            username: username.clone(),
            public_y1,
            public_y2,
            commitment_t1: big_from_u64(0),
            commitment_t2: big_from_u64(0),
            challenge_c: big_from_u64(0),
        };
        self.registry.insert(username, record);
        proof {
            assert forall|id: Seq<char>| #[trigger] self.attempts().contains_key(id) implies
                self.registry().contains_key(self.attempts()[id]@) by {
                assert(old(self).attempts().contains_key(id));
            };
            assert forall|name: Seq<char>| #[trigger] self.registry().contains_key(name) implies
                self.registry()[name].username@ == name by {
                if name != username@ {
                    assert(old(self).registry().contains_key(name));
                }
            };
        }
    }

    /// Issues a challenge for `username`: fails with `NotFound` when the
    /// username is not registered; otherwise draws a fresh challenge below
    /// `subgroup_order_q` and a random attempt identifier, stores the
    /// commitments and the challenge into the user's record (overwriting any
    /// prior in-flight attempt), files the identifier, and returns both.
    pub fn issue_challenge(
        &mut self,
        username: &String,
        commitment_t1: BigUint,
        commitment_t2: BigUint,
        subgroup_order_q: &BigUint,
    ) -> (r: Result<(String, BigUint), AuthError>)
        requires
            old(self).wf(),
            nat_of(*subgroup_order_q) > 0,
        ensures
            final(self).wf(),
            (r matches Result::Err(_)) <==> !old(self).registry().contains_key(username@),
            match r {
                Result::Err(e) => {
                    &&& e matches AuthError::NotFound(subject) && subject@ == username@
                    &&& final(self).registry() == old(self).registry()
                    &&& final(self).attempts() == old(self).attempts()
                },
                Result::Ok((auth_id, challenge)) => {
                    &&& auth_id@.len() == 12
                    &&& is_alphanumeric_string(auth_id@)
                    &&& nat_of(challenge) < nat_of(*subgroup_order_q)
                    &&& final(self).attempts() == old(self).attempts().insert(
                        auth_id@,
                        *username,
                    )
                    &&& final(self).registry() == old(self).registry().insert(
                        username@,
                        final(self).registry()[username@],
                    )
                    &&& final(self).registry()[username@].username@ == username@
                    &&& nat_of(final(self).registry()[username@].public_y1) == nat_of(
                        old(self).registry()[username@].public_y1,
                    )
                    &&& nat_of(final(self).registry()[username@].public_y2) == nat_of(
                        old(self).registry()[username@].public_y2,
                    )
                    &&& nat_of(final(self).registry()[username@].commitment_t1) == nat_of(
                        commitment_t1,
                    )
                    &&& nat_of(final(self).registry()[username@].commitment_t2) == nat_of(
                        commitment_t2,
                    )
                    &&& nat_of(final(self).registry()[username@].challenge_c) == nat_of(
                        challenge,
                    )
                },
            },
    {
        if !self.registry.contains_key(username.as_str()) {
            return Result::Err(AuthError::NotFound(username.clone()));
        }
        let challenge = ChaumPedersenZKP::random_biguint_below(subgroup_order_q);
        let auth_id = ChaumPedersenZKP::random_alphanumeric_string(12);
        let (public_y1, public_y2) = match self.registry.get(username.as_str()) {
            Option::Some(record) => (big_clone(&record.public_y1), big_clone(&record.public_y2)),
            Option::None => unreached(),
        };
        let record = UserRecord {
            username: username.clone(),
            public_y1,
            public_y2,
            commitment_t1,
            commitment_t2,
            challenge_c: big_clone(&challenge),
        };
        self.registry.insert(username.clone(), record);
        self.attempts.insert(auth_id.clone(), username.clone());
        proof {
            assert forall|id: Seq<char>| #[trigger] self.attempts().contains_key(id) implies
                self.registry().contains_key(self.attempts()[id]@) by {
                if id != auth_id@ {
                    assert(old(self).attempts().contains_key(id));
                }
            };
            assert forall|name: Seq<char>| #[trigger] self.registry().contains_key(name) implies
                self.registry()[name].username@ == name by {
                if name != username@ {
                    assert(old(self).registry().contains_key(name));
                }
            };
        }
        Result::Ok((auth_id, challenge))
    }

    /// The username an attempt identifier was issued for, if any.
    pub fn resolve_attempt(&self, auth_id: &String) -> (r: Option<&String>)
        ensures
            match r {
                Option::Some(username) => self.attempts().contains_key(auth_id@) && *username
                    == self.attempts()[auth_id@],
                Option::None => !self.attempts().contains_key(auth_id@),
            },
    {
        self.attempts.get(auth_id.as_str())
    }

    /// The stored record for a username, if any: its public keys and the
    /// commitments and challenge of the live attempt.
    pub fn read_challenge_state(&self, username: &String) -> (r: Option<&UserRecord>)
        ensures
            match r {
                Option::Some(record) => self.registry().contains_key(username@) && *record
                    == self.registry()[username@],
                Option::None => !self.registry().contains_key(username@),
            },
    {
        self.registry.get(username.as_str())
    }
}

/// The service boundary: the three protocol operations, run against the
/// engine's parameters and the session store.
pub struct AuthService {
    pub zkp: ChaumPedersenZKP,
    pub store: SessionStore,
}

impl AuthService {
    /// Well-formedness: the store invariants, and usable group parameters.
    pub open spec fn wf(&self) -> bool {
        &&& self.store.wf()
        &&& nat_of(self.zkp.modulus_p) > 0
        &&& nat_of(self.zkp.subgroup_order_q) > 0
    }

    /// Whether the service's verification equation accepts the stored
    /// record's transcript against the response `s`.
    pub open spec fn transcript_accepted(&self, record: UserRecord, s: nat) -> bool {
        proof_accepted(
            nat_of(self.zkp.generator_g),
            nat_of(self.zkp.generator_h),
            nat_of(self.zkp.modulus_p),
            nat_of(record.commitment_t1),
            nat_of(record.commitment_t2),
            nat_of(record.public_y1),
            nat_of(record.public_y2),
            nat_of(record.challenge_c),
            s,
        )
    }

    /// A service over the standard 1024-bit parameters, with empty state.
    pub fn new() -> (r: AuthService)
        ensures
            r.wf(),
            r.store.registry() == Map::<Seq<char>, UserRecord>::empty(),
            r.store.attempts() == Map::<Seq<char>, String>::empty(),
            nat_of(r.zkp.generator_g) == standard_generator_g(),
            nat_of(r.zkp.generator_h) == standard_generator_h(),
            nat_of(r.zkp.modulus_p) == standard_modulus_p(),
            nat_of(r.zkp.subgroup_order_q) == standard_subgroup_q(),
    {
        let (generator_g, generator_h, modulus_p, subgroup_order_q) =
            ChaumPedersenZKP::get_standard_parameters();
        let zkp = ChaumPedersenZKP { generator_g, generator_h, modulus_p, subgroup_order_q };
        AuthService { zkp, store: SessionStore::new() }
    }

    /// A service over caller-chosen parameters, with empty state.
    pub fn with_parameters(zkp: ChaumPedersenZKP) -> (r: AuthService)
        requires
            nat_of(zkp.modulus_p) > 0,
            nat_of(zkp.subgroup_order_q) > 0,
        ensures
            r.wf(),
            r.zkp == zkp,
            r.store.registry() == Map::<Seq<char>, UserRecord>::empty(),
            r.store.attempts() == Map::<Seq<char>, String>::empty(),
    {
        AuthService { zkp, store: SessionStore::new() }
    }

    /// Registers (or re-registers) a username with its public keys. Always
    /// succeeds and returns the confirmation message; a prior record is
    /// simply replaced and its per-attempt fields cleared.
    pub fn register(&mut self, username: String, public_y1: BigUint, public_y2: BigUint) -> (r:
        String)
        requires
            old(self).wf(),
        ensures
            r@ == "User "@ + username@ + " registration successful"@,
            final(self).wf(),
            final(self).zkp == old(self).zkp,
            final(self).store.registry() == old(self).store.registry().insert(
                username@,
                final(self).store.registry()[username@],
            ),
            final(self).store.registry()[username@].username@ == username@,
            nat_of(final(self).store.registry()[username@].public_y1) == nat_of(public_y1),
            nat_of(final(self).store.registry()[username@].public_y2) == nat_of(public_y2),
            nat_of(final(self).store.registry()[username@].commitment_t1) == 0,
            nat_of(final(self).store.registry()[username@].commitment_t2) == 0,
            nat_of(final(self).store.registry()[username@].challenge_c) == 0,
            final(self).store.attempts() == old(self).store.attempts(),
    {
        let message = String::from_str("User ").concat(username.as_str()).concat(
            " registration successful",
        );
        self.store.register(username, public_y1, public_y2);
        message
    }

    /// Issues a challenge for a registered username: returns a fresh attempt
    /// identifier and a fresh challenge below the subgroup order, or
    /// `NotFound` for an unknown username.
    pub fn request_challenge(
        &mut self,
        username: &String,
        commitment_t1: BigUint,
        commitment_t2: BigUint,
    ) -> (r: Result<(String, BigUint), AuthError>)
        requires
            old(self).wf(),
        ensures
            final(self).wf(),
            final(self).zkp == old(self).zkp,
            (r matches Result::Err(_)) <==> !old(self).store.registry().contains_key(username@),
            match r {
                Result::Err(e) => {
                    &&& e matches AuthError::NotFound(subject) && subject@ == username@
                    &&& final(self).store.registry() == old(self).store.registry()
                    &&& final(self).store.attempts() == old(self).store.attempts()
                },
                Result::Ok((auth_id, challenge)) => {
                    &&& auth_id@.len() == 12
                    &&& is_alphanumeric_string(auth_id@)
                    &&& nat_of(challenge) < nat_of(old(self).zkp.subgroup_order_q)
                    &&& final(self).store.attempts() == old(self).store.attempts().insert(
                        auth_id@,
                        *username,
                    )
                    &&& final(self).store.registry() == old(self).store.registry().insert(
                        username@,
                        final(self).store.registry()[username@],
                    )
                    &&& final(self).store.registry()[username@].username@ == username@
                    &&& nat_of(final(self).store.registry()[username@].public_y1) == nat_of(
                        old(self).store.registry()[username@].public_y1,
                    )
                    &&& nat_of(final(self).store.registry()[username@].public_y2) == nat_of(
                        old(self).store.registry()[username@].public_y2,
                    )
                    &&& nat_of(final(self).store.registry()[username@].commitment_t1) == nat_of(
                        commitment_t1,
                    )
                    &&& nat_of(final(self).store.registry()[username@].commitment_t2) == nat_of(
                        commitment_t2,
                    )
                    &&& nat_of(final(self).store.registry()[username@].challenge_c) == nat_of(
                        challenge,
                    )
                },
            },
    {
        self.store.issue_challenge(
            username,
            commitment_t1,
            commitment_t2,
            &self.zkp.subgroup_order_q,
        )
    }

    /// Checks a submitted response: `NotFound` for an unknown attempt
    /// identifier; otherwise verifies the stored transcript for the attempt's
    /// username against the response, and either mints a session identifier
    /// or rejects with `PermissionDenied` naming that username. No state is
    /// changed either way; after a rejection a new challenge may be
    /// requested.
    pub fn submit_challenge_answer(&self, auth_id: &String, response_s: &BigUint) -> (r: Result<
        String,
        AuthError,
    >)
        requires
            self.wf(),
        ensures
            match r {
                Result::Ok(session_id) => {
                    &&& self.store.attempts().contains_key(auth_id@)
                    &&& self.transcript_accepted(
                        self.store.registry()[self.store.attempts()[auth_id@]@],
                        nat_of(*response_s),
                    )
                    &&& session_id@.len() == 12
                    &&& is_alphanumeric_string(session_id@)
                },
                Result::Err(e) => match e {
                    AuthError::NotFound(subject) => {
                        &&& !self.store.attempts().contains_key(auth_id@)
                        &&& subject@ == auth_id@
                    },
                    AuthError::PermissionDenied(name) => {
                        &&& self.store.attempts().contains_key(auth_id@)
                        &&& !self.transcript_accepted(
                            self.store.registry()[self.store.attempts()[auth_id@]@],
                            nat_of(*response_s),
                        )
                        &&& name@ == self.store.attempts()[auth_id@]@
                    },
                },
            },
    {
        match self.store.resolve_attempt(auth_id) {
            Option::None => Result::Err(AuthError::NotFound(auth_id.clone())),
            Option::Some(username) => match self.store.read_challenge_state(username) {
                Option::None => unreached(),
                Option::Some(record) => {
                    let accepted = self.zkp.verify_proof(
                        &record.commitment_t1,
                        &record.commitment_t2,
                        &record.public_y1,
                        &record.public_y2,
                        &record.challenge_c,
                        response_s,
                    );
                    if accepted {
                        Result::Ok(ChaumPedersenZKP::random_alphanumeric_string(12))
                    } else {
                        Result::Err(AuthError::PermissionDenied(record.username.clone()))
                    }
                },
            },
        }
    }
}

} // verus!
