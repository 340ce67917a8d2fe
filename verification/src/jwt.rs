//! Token issuance, validation, and the request-boundary gate.
//!
//! A `TokenService` holds the process-wide symmetric signing key: built
//! once at startup from 60 random alphanumeric bytes, injected into the
//! handlers, never persisted.  Tokens are signed JWTs carrying a
//! subject (`username`) and an expiry (`exp`, unix seconds).
//!
//! The outside signing and signature-checking calls sit behind two
//! trusted wrappers.  Their common ground is the named spec function
//! `jwt_claims_of`: the claims a token yields under a key when only the
//! signature is checked.  That check is a deterministic function of key
//! and token text; the expiry comparison, which depends on the current
//! time, is done here in verified code against a caller-supplied clock
//! reading, so an accepted token's expiry is proved to be strictly in
//! the future.

use rand::distributions::{Alphanumeric, DistString};
use vstd::prelude::*;

verus! {

/// Seconds a freshly issued token stays valid: thirty days.
pub const TOKEN_LIFETIME_SECS: u64 = 30 * 24 * 60 * 60;

/// Failure modes of authentication.
#[derive(Clone, Copy, Debug, PartialEq, Eq, Structural)]
pub enum AuthError {
    InvalidToken,
    WrongCredentials,
    TokenCreation,
    MissingCredentials,
}

/// The user-facing message of an authentication failure.
pub open spec fn auth_error_message(e: AuthError) -> Seq<char> {
    match e {
        AuthError::WrongCredentials => "Wrong credentials"@,
        AuthError::MissingCredentials => "Missing credentials"@,
        AuthError::TokenCreation => "Token creation error"@,
        AuthError::InvalidToken => "Invalid token"@,
    }
}

/// The HTTP status of an authentication failure: wrong credentials are
/// unauthorized, a missing or invalid credential is a bad request, and
/// a signing failure is the server's fault.
pub open spec fn auth_error_status(e: AuthError) -> u16 {
    match e {
        AuthError::WrongCredentials => 401,
        AuthError::MissingCredentials => 400,
        AuthError::TokenCreation => 500,
        AuthError::InvalidToken => 400,
    }
}

impl AuthError {
    /// The user-facing message of this failure.
    pub fn message(&self) -> (r: String)
        ensures
            r@ == auth_error_message(*self),
    {
        match self {
            AuthError::WrongCredentials => String::from_str("Wrong credentials"),
            AuthError::MissingCredentials => String::from_str("Missing credentials"),
            AuthError::TokenCreation => String::from_str("Token creation error"),
            AuthError::InvalidToken => String::from_str("Invalid token"),
        }
    }

    /// The HTTP status this failure is reported under.
    pub fn status(&self) -> (r: u16)
        ensures
            r == auth_error_status(*self),
    {
        match self {
            AuthError::WrongCredentials => 401,
            AuthError::MissingCredentials => 400,
            AuthError::TokenCreation => 500,
            AuthError::InvalidToken => 400,
        }
    }
}

/// The decoded payload of a bearer token: subject identity and expiry
/// (unix seconds).
#[derive(Debug, PartialEq, Eq)]
pub struct Claims {
    pub username: String,
    pub exp: u64,
}

/// The body of a successful login response.
#[derive(Debug, PartialEq, Eq)]
pub struct AuthBody {
    pub access_token: String,
    pub token_type: String,
}

/// A login request: client id and secret.
#[derive(Debug)]
pub struct AuthPayload {
    pub client_id: String,
    pub client_secret: String,
}

impl AuthBody {
    /// Wraps a token in the response body, with the bearer scheme name.
    pub fn new(access_token: String) -> (r: AuthBody)
        ensures
            r.access_token == access_token,
            r.token_type@ == "Bearer"@,
    {
        AuthBody { access_token, token_type: String::from_str("Bearer") }
    }
}

/// The claims this token yields under this key when only the signature
/// is verified: `Some((subject, expiry))` when the token is a
/// well-formed HS256 JWT signed with the key whose payload carries a
/// string `username`, an integral `exp`, and no `aud` claim (with no
/// expected audience configured, a present one is refused).  A
/// deterministic function of the two arguments; expiry is not judged
/// here.
pub uninterp spec fn jwt_claims_of(key: Seq<u8>, token: Seq<char>) -> Option<(Seq<char>, u64)>;

/// Signs claims `{username, exp}` into a compact JWT.
///
/// Relies on `jsonwebtoken::encode` with an HS256 header: the result is
/// a token that `jsonwebtoken::decode` under the same secret accepts,
/// returning exactly the claims that were signed.  For this
/// configuration the call cannot fail: the secret key's family is HMAC,
/// matching HS256; the header and the claims (a JSON object of one
/// string and one integer) always serialize; and HMAC signing itself
/// returns unconditionally.
#[verifier::external_body]
fn jwt_encode(secret: &Vec<u8>, username: &str, exp: u64) -> (r: Option<String>)
    ensures
        r is Some,
        (r matches Some(t) ==> jwt_claims_of(secret@, t@) == Some((username@, exp))),
{
    let mut claims = serde_json::Map::new();
    claims.insert("username".to_string(), serde_json::Value::String(username.to_string()));
    claims.insert("exp".to_string(), serde_json::Value::from(exp));
    let key = jsonwebtoken::EncodingKey::from_secret(secret.as_slice());
    jsonwebtoken::encode(&jsonwebtoken::Header::default(), &serde_json::Value::Object(claims), &key).ok()
}

/// Checks a token's signature and recovers its claims.
///
/// Relies on `jsonwebtoken::decode` under HS256 with the library's
/// expiry check disabled (the service re-checks expiry itself, in
/// verified code): what remains — parsing, signature verification and
/// claim extraction — is a deterministic function of secret and token,
/// the one `jwt_claims_of` names.  Note that the decoder also refuses a
/// token whose payload carries an `aud` claim, since no expected
/// audience is configured; that check reads no clock, so determinism
/// stands.
#[verifier::external_body]
fn jwt_decode(secret: &Vec<u8>, token: &str) -> (r: Option<Claims>)
    ensures
        (match r {
            Some(c) => jwt_claims_of(secret@, token@) == Some((c.username@, c.exp)),
            None => jwt_claims_of(secret@, token@) is None,
        }),
{
    let mut validation = jsonwebtoken::Validation::default();
    validation.validate_exp = false;
    validation.required_spec_claims = std::collections::HashSet::new();
    let key = jsonwebtoken::DecodingKey::from_secret(secret.as_slice());
    let data = jsonwebtoken::decode::<serde_json::Value>(token, &key, &validation).ok()?;
    let username = data.claims.get("username")?.as_str()?.to_string();
    let exp = data.claims.get("exp")?.as_u64()?;
    Some(Claims { username, exp })
}

/// Draws a fresh signing secret.
///
/// Relies on rand's `Alphanumeric` distribution: 60 characters sampled
/// from the thread rng, each one alphanumeric ASCII, so one byte each.
/// The result is random; nothing relates two calls.
#[verifier::external_body]
fn generate_signing_secret() -> (s: Vec<u8>)
    ensures
        s@.len() == 60,
{
    Alphanumeric.sample_string(&mut rand::thread_rng(), 60).into_bytes()
}

/// The outcome of validating a token at time `now`: the claims, if the
/// signature is good and the expiry is strictly in the future.
pub open spec fn validate_outcome(key: Seq<u8>, token: Seq<char>, now: u64) -> Option<
    (Seq<char>, u64),
> {
    match jwt_claims_of(key, token) {
        Some(p) => if p.1 > now {
            Some(p)
        } else {
            None
        },
        None => None,
    }
}

/// The token service: the signing key, held for the process lifetime.
pub struct TokenService {
    secret: Vec<u8>,
}

impl View for TokenService {
    type V = Seq<u8>;

    closed spec fn view(&self) -> Seq<u8> {
        self.secret@
    }
}

impl TokenService {
    /// A service keyed with fresh random material, as at process start.
    /// Tokens signed by it do not survive the process: the key is never
    /// persisted.
    pub fn new() -> (s: TokenService)
        ensures
            s@.len() == 60,
    {
        TokenService { secret: generate_signing_secret() }
    }

    /// A service with a caller-chosen key, for injection and tests.
    pub fn with_secret(secret: Vec<u8>) -> (s: TokenService)
        ensures
            s@ == secret@,
    {
        TokenService { secret }
    }

    /// Issues a token for `username`, expiring `TOKEN_LIFETIME_SECS`
    /// after `now`.  Success is owed whenever that expiry is
    /// representable, and then the token's claims under this service's
    /// key are exactly that subject and expiry; the only failure is
    /// `TokenCreation`, for a clock reading so large the expiry has no
    /// representation.
    pub fn issue(&self, username: &str, now: u64) -> (r: Result<String, AuthError>)
        ensures
            now <= u64::MAX - TOKEN_LIFETIME_SECS ==> r is Ok,
            (r matches Ok(t) ==> now <= u64::MAX - TOKEN_LIFETIME_SECS && jwt_claims_of(
                self@,
                t@,
            ) == Some((username@, (now + TOKEN_LIFETIME_SECS) as u64))),
            (r matches Err(e) ==> e == AuthError::TokenCreation),
    {
        if now > u64::MAX - TOKEN_LIFETIME_SECS {
            return Err(AuthError::TokenCreation);
        }
        match jwt_encode(&self.secret, username, now + TOKEN_LIFETIME_SECS) {
            Some(t) => Ok(t),
            None => Err(AuthError::TokenCreation),
        }
    }

    /// Validates a token at time `now`: the signature must check out
    /// under this service's key and the expiry must be strictly in the
    /// future.  Anything else is `InvalidToken`.
    pub fn validate(&self, token: &str, now: u64) -> (r: Result<Claims, AuthError>)
        ensures
            (match validate_outcome(self@, token@, now) {
                Some(p) => r matches Ok(c) && c.username@ == p.0 && c.exp == p.1,
                None => r == Err::<Claims, AuthError>(AuthError::InvalidToken),
            }),
    {
        match jwt_decode(&self.secret, token) {
            Some(c) => {
                if c.exp > now {
                    Ok(c)
                } else {
                    Err(AuthError::InvalidToken)
                }
            },
            None => Err(AuthError::InvalidToken),
        }
    }
}

/// The scheme prefix a bearer credential carries in the authorization
/// header.
pub open spec fn bearer_prefix() -> Seq<char> {
    seq!['B', 'e', 'a', 'r', 'e', 'r', ' ']
}

/// The token inside an authorization header value, if the value carries
/// the bearer scheme.
pub open spec fn bearer_token(header: Seq<char>) -> Option<Seq<char>> {
    if header.len() >= 7 && header.subrange(0, 7) == bearer_prefix() {
        Some(header.skip(7))
    } else {
        None
    }
}

/// The character at position `i` of the bearer scheme prefix.
fn bearer_prefix_char(i: usize) -> (c: char)
    requires
        i < 7,
    ensures
        c == bearer_prefix()[i as int],
{
    match i {
        0 => 'B',
        1 => 'e',
        2 => 'a',
        3 => 'r',
        4 => 'e',
        5 => 'r',
        _ => ' ',
    }
}

impl Claims {
    /// The request-boundary gate: pulls the bearer token out of the
    /// authorization header, if one came, and validates it.  A missing
    /// header, or one without the bearer scheme, is rejected as
    /// `MissingCredentials`; a bad or expired token as `InvalidToken`.
    pub fn from_request_parts(header: Option<&str>, keys: &TokenService, now: u64) -> (r: Result<
        Claims,
        AuthError,
    >)
        ensures
            (match header {
                None => r == Err::<Claims, AuthError>(AuthError::MissingCredentials),
                Some(h) => match bearer_token(h@) {
                    None => r == Err::<Claims, AuthError>(AuthError::MissingCredentials),
                    Some(tok) => match validate_outcome(keys@, tok, now) {
                        None => r == Err::<Claims, AuthError>(AuthError::InvalidToken),
                        Some(p) => r matches Ok(c) && c.username@ == p.0 && c.exp == p.1,
                    },
                },
            }),
    {
        let h = match header {
            Some(h) => h,
            None => {
                return Err(AuthError::MissingCredentials);
            },
        };
        let n = h.unicode_len();
        if n < 7 {
            return Err(AuthError::MissingCredentials);
        }
        let mut i: usize = 0;
        while i < 7
            invariant
                header == Some(h),
                i <= 7,
                n == h@.len(),
                n >= 7,
                forall|j: int| 0 <= j < i ==> h@[j] == bearer_prefix()[j],
            decreases 7 - i,
        {
            if h.get_char(i) != bearer_prefix_char(i) {
                proof {
                    assert(h@.subrange(0, 7)[i as int] == h@[i as int]);
                    assert(h@.subrange(0, 7) != bearer_prefix());
                }
                return Err(AuthError::MissingCredentials);
            }
            i += 1;
        }
        proof {
            assert(h@.subrange(0, 7) =~= bearer_prefix());
        }
        let token = h.substring_char(7, n);
        proof {
            assert(token@ =~= h@.skip(7));
        }
        keys.validate(token, now)
    }
}

/// A token whose expiry is not strictly in the future is never
/// accepted, regardless of whether its signature checks out: its
/// validation outcome is empty.
pub proof fn lemma_expired_token_rejected(key: Seq<u8>, token: Seq<char>, now: u64)
    ensures
        (match jwt_claims_of(key, token) {
            Some(p) => p.1 <= now ==> validate_outcome(key, token, now) is None,
            None => validate_outcome(key, token, now) is None,
        }),
{
}

} // verus!
