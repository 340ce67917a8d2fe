//! The credential lifecycle: registration and login.
//!
//! Registration is create-once: an empty field is rejected, a taken
//! client id is a conflict, otherwise the secret is hashed and the pair
//! persisted.  Login deliberately answers a wrong secret and an unknown
//! client id with the same error value, so callers cannot probe which
//! client ids exist.

use vstd::prelude::*;

use crate::jwt::{jwt_claims_of, AuthBody, AuthError, AuthPayload, TokenService,
    TOKEN_LIFETIME_SECS};
use crate::security::{hash_password, phc_matches, phc_valid, verify_password};
use crate::store::{distinct_client_ids, lemma_user_index_agrees, stored_hash, store_unchanged,
    user_with_id, Credential, Store};

verus! {

/// Failure modes of registration.
#[derive(Clone, Copy, Debug, PartialEq, Eq, Structural)]
pub enum RegisterError {
    MissingCredentials,
    UserAlreadyExists,
    HashFailure,
}

/// The user-facing message of a registration failure.
pub open spec fn register_error_message(e: RegisterError) -> Seq<char> {
    match e {
        RegisterError::MissingCredentials => "Missing credentials"@,
        RegisterError::UserAlreadyExists => "User already exists"@,
        RegisterError::HashFailure => "Error while creating user"@,
    }
}

/// The HTTP status of a registration failure: missing fields and a
/// taken client id are bad requests, a hashing failure is the server's
/// fault.
pub open spec fn register_error_status(e: RegisterError) -> u16 {
    match e {
        RegisterError::MissingCredentials => 400,
        RegisterError::UserAlreadyExists => 400,
        RegisterError::HashFailure => 500,
    }
}

impl RegisterError {
    /// The user-facing message of this failure.
    pub fn message(&self) -> (r: String)
        ensures
            r@ == register_error_message(*self),
    {
        match self {
            RegisterError::MissingCredentials => String::from_str("Missing credentials"),
            RegisterError::UserAlreadyExists => String::from_str("User already exists"),
            RegisterError::HashFailure => String::from_str("Error while creating user"),
        }
    }

    /// The HTTP status this failure is reported under.
    pub fn status(&self) -> (r: u16)
        ensures
            r == register_error_status(*self),
    {
        match self {
            RegisterError::MissingCredentials => 400,
            RegisterError::UserAlreadyExists => 400,
            RegisterError::HashFailure => 500,
        }
    }
}

/// What registration answers before any secret is hashed: an empty
/// field is missing credentials, a taken client id is a conflict,
/// otherwise registration proceeds.
pub open spec fn register_decision(
    users: Seq<Credential>,
    client_id: Seq<char>,
    client_secret: Seq<char>,
) -> Option<RegisterError> {
    if client_id.len() == 0 || client_secret.len() == 0 {
        Some(RegisterError::MissingCredentials)
    } else if user_with_id(users, client_id) {
        Some(RegisterError::UserAlreadyExists)
    } else {
        None
    }
}

/// What login answers for a credential pair: empty fields are missing
/// credentials; an unknown client id, an unreadable stored hash and a
/// non-matching secret are all the same `WrongCredentials`; otherwise a
/// token is owed.
pub open spec fn login_decision(
    users: Seq<Credential>,
    client_id: Seq<char>,
    client_secret: Seq<char>,
) -> Option<AuthError> {
    if client_id.len() == 0 || client_secret.len() == 0 {
        Some(AuthError::MissingCredentials)
    } else if !user_with_id(users, client_id) {
        Some(AuthError::WrongCredentials)
    } else if !phc_valid(stored_hash(users, client_id)) {
        Some(AuthError::WrongCredentials)
    } else if !phc_matches(stored_hash(users, client_id), client_secret) {
        Some(AuthError::WrongCredentials)
    } else {
        None
    }
}

/// The position of the credential row for this client id, if any.
fn user_position(store: &Store, client_id: &String) -> (r: Option<usize>)
    ensures
        (match r {
            Some(k) => k < store.users@.len() && store.users@[k as int].client_id@ == client_id@,
            None => !user_with_id(store.users@, client_id@),
        }),
{
    let n = store.users.len();
    let mut i: usize = 0;
    while i < n
        invariant
            i <= n,
            n == store.users@.len(),
            forall|j: int| 0 <= j < i ==> store.users@[j].client_id@ != client_id@,
        decreases n - i,
    {
        if store.users[i].client_id == *client_id {
            return Some(i);
        }
        i += 1;
    }
    None
}

/// Persists a credential whose secret is already hashed: the repository
/// insert with its uniqueness check.  Refused exactly when the client
/// id is taken; otherwise the pair is appended.
pub fn store_credential(store: &mut Store, client_id: String, password_hash: String) -> (r: Result<
    (),
    RegisterError,
>)
    requires
        old(store).wf(),
    ensures
        final(store).wf(),
        user_with_id(old(store).users@, client_id@) ==> r == Err::<(), RegisterError>(
            RegisterError::UserAlreadyExists,
        ) && store_unchanged(*final(store), *old(store)),
        !user_with_id(old(store).users@, client_id@) ==> r == Ok::<(), RegisterError>(())
            && final(store).users@ == old(store).users@.push(
            (Credential { client_id: client_id, password_hash: password_hash }),
        ),
        crate::store::providers_unchanged(*final(store), *old(store)),
        crate::store::zones_unchanged(*final(store), *old(store)),
        crate::store::links_unchanged(*final(store), *old(store)),
        crate::store::prices_unchanged(*final(store), *old(store)),
        crate::store::runs_unchanged(*final(store), *old(store)),
{
    match user_position(store, &client_id) {
        Some(_) => Err(RegisterError::UserAlreadyExists),
        None => {
            let ghost old_users = store.users@;
            let ghost cid_view = client_id@;
            store.users.push(Credential { client_id, password_hash });
            proof {
                assert forall|i: int, j: int|
                    0 <= i < j < store.users@.len() implies store.users@[i].client_id@
                    != store.users@[j].client_id@ by {
                    if j < old_users.len() {
                        assert(old_users[i].client_id@ != old_users[j].client_id@);
                    } else {
                        assert(store.users@[j].client_id@ == cid_view);
                        assert(old_users[i].client_id@ != cid_view);
                    }
                }
            }
            Ok(())
        },
    }
}

/// Registers a client: rejects an empty field, then a taken client id,
/// then hashes the secret and persists the pair.  On any error the
/// store is untouched; on success exactly one credential was appended,
/// whose hash matches the given secret.
pub fn create_user(store: &mut Store, payload: AuthPayload) -> (r: Result<(), RegisterError>)
    requires
        old(store).wf(),
    ensures
        final(store).wf(),
        (match register_decision(
            old(store).users@,
            payload.client_id@,
            payload.client_secret@,
        ) {
            Some(e) => r == Err::<(), RegisterError>(e) && store_unchanged(
                *final(store),
                *old(store),
            ),
            None => (r == Ok::<(), RegisterError>(()) && final(store).users@.len() == old(
                store,
            ).users@.len() + 1 && final(store).users@.subrange(
                0,
                old(store).users@.len() as int,
            ) == old(store).users@ && final(store).users@.last().client_id@
                == payload.client_id@ && phc_valid(final(store).users@.last().password_hash@)
                && phc_matches(
                final(store).users@.last().password_hash@,
                payload.client_secret@,
            )) || (r == Err::<(), RegisterError>(RegisterError::HashFailure) && store_unchanged(
                *final(store),
                *old(store),
            )),
        }),
        crate::store::providers_unchanged(*final(store), *old(store)),
        crate::store::zones_unchanged(*final(store), *old(store)),
        crate::store::links_unchanged(*final(store), *old(store)),
        crate::store::prices_unchanged(*final(store), *old(store)),
        crate::store::runs_unchanged(*final(store), *old(store)),
{
    if payload.client_id.as_str().is_empty() || payload.client_secret.as_str().is_empty() {
        return Err(RegisterError::MissingCredentials);
    }
    match user_position(store, &payload.client_id) {
        Some(_) => {
            return Err(RegisterError::UserAlreadyExists);
        },
        None => {},
    }
    let hash = match hash_password(payload.client_secret.as_str()) {
        Some(h) => h,
        None => {
            return Err(RegisterError::HashFailure);
        },
    };
    let ghost old_users = store.users@;
    let r = store_credential(store, payload.client_id, hash);
    proof {
        assert(store.users@.subrange(0, old_users.len() as int) =~= old_users);
    }
    r
}

/// Logs a client in: empty fields are rejected, an unknown id and a
/// wrong secret are answered identically, and a verified pair is owed a
/// bearer token whose subject is the client id and whose expiry lies
/// `TOKEN_LIFETIME_SECS` past `now` — unless signing itself fails,
/// which is reported as `TokenCreation`.
pub fn authorize(
    store: &Store,
    keys: &TokenService,
    payload: AuthPayload,
    now: u64,
) -> (r: Result<AuthBody, AuthError>)
    requires
        store.wf(),
    ensures
        (login_decision(store.users@, payload.client_id@, payload.client_secret@) is None && now
            <= u64::MAX - TOKEN_LIFETIME_SECS) ==> r is Ok,
        (match login_decision(store.users@, payload.client_id@, payload.client_secret@) {
            Some(e) => r == Err::<AuthBody, AuthError>(e),
            None => (r matches Ok(b) && b.token_type@ == "Bearer"@ && now <= u64::MAX
                - TOKEN_LIFETIME_SECS && jwt_claims_of(keys@, b.access_token@) == Some(
                (payload.client_id@, (now + TOKEN_LIFETIME_SECS) as u64),
            )) || r == Err::<AuthBody, AuthError>(AuthError::TokenCreation),
        }),
{
    if payload.client_id.as_str().is_empty() || payload.client_secret.as_str().is_empty() {
        return Err(AuthError::MissingCredentials);
    }
    let k = match user_position(store, &payload.client_id) {
        Some(k) => k,
        None => {
            return Err(AuthError::WrongCredentials);
        },
    };
    proof {
        lemma_user_index_agrees(store.users@, k as int, payload.client_id@);
    }
    let verified = match verify_password(
        store.users[k].password_hash.as_str(),
        payload.client_secret.as_str(),
    ) {
        Some(b) => b,
        None => {
            return Err(AuthError::WrongCredentials);
        },
    };
    if !verified {
        return Err(AuthError::WrongCredentials);
    }
    match keys.issue(payload.client_id.as_str(), now) {
        Ok(token) => Ok(AuthBody::new(token)),
        Err(e) => Err(e),
    }
}

/// Registering a valid pair and then logging in with the same pair
/// succeeds: once a credential hashed from the secret is appended for a
/// fresh client id, the login decision for that pair is acceptance, so
/// `authorize` issues a token whose subject is the client id.
pub proof fn lemma_register_then_login(
    users: Seq<Credential>,
    client_id: String,
    password_hash: String,
    client_secret: Seq<char>,
)
    requires
        client_id@.len() > 0,
        client_secret.len() > 0,
        distinct_client_ids(users),
        !user_with_id(users, client_id@),
    ensures
        (phc_valid(password_hash@) && phc_matches(password_hash@, client_secret))
            ==> login_decision(
            users.push((Credential { client_id, password_hash })),
            client_id@,
            client_secret,
        ) is None,
{
    let users2 = users.push(Credential { client_id, password_hash });
    assert forall|i: int, j: int| 0 <= i < j < users2.len() implies users2[i].client_id@
        != users2[j].client_id@ by {
        if j < users.len() {
            assert(users[i].client_id@ != users[j].client_id@);
        } else {
            assert(users2[i].client_id@ == users[i].client_id@);
        }
    }
    lemma_user_index_agrees(users2, users.len() as int, client_id@);
    assert(stored_hash(users2, client_id@) == password_hash@);
}

/// Anti-enumeration: a login for an unknown client id is refused with
/// `WrongCredentials`, and a login with a non-matching secret for an
/// existing client id yields the very same error value — the two are
/// indistinguishable to the caller.
pub proof fn lemma_login_anti_enumeration(
    users: Seq<Credential>,
    known_id: Seq<char>,
    known_secret: Seq<char>,
    unknown_id: Seq<char>,
    unknown_secret: Seq<char>,
)
    requires
        known_id.len() > 0,
        known_secret.len() > 0,
        unknown_id.len() > 0,
        unknown_secret.len() > 0,
        user_with_id(users, known_id),
        !user_with_id(users, unknown_id),
    ensures
        login_decision(users, unknown_id, unknown_secret) == Some(AuthError::WrongCredentials),
        !phc_matches(stored_hash(users, known_id), known_secret) ==> login_decision(
            users,
            known_id,
            known_secret,
        ) == login_decision(users, unknown_id, unknown_secret),
        !phc_matches(stored_hash(users, known_id), known_secret)
            ==> crate::jwt::auth_error_message(
            login_decision(users, known_id, known_secret)->Some_0,
        ) == crate::jwt::auth_error_message(
            login_decision(users, unknown_id, unknown_secret)->Some_0,
        ),
{
}

/// Registering a client id twice is a conflict: while a credential for
/// the id is present — as it is after a successful registration — the
/// registration decision for that id is the conflict error, whatever
/// nonempty secret comes with it.  (Empty fields are answered
/// `MissingCredentials` before the conflict check, per the ordering of
/// registration's checks.)
pub proof fn lemma_duplicate_register_conflict(
    users: Seq<Credential>,
    client_id: Seq<char>,
    second_secret: Seq<char>,
)
    requires
        client_id.len() > 0,
        second_secret.len() > 0,
        user_with_id(users, client_id),
    ensures
        register_decision(users, client_id, second_secret) == Some(
            RegisterError::UserAlreadyExists,
        ),
{
}

} // verus!
