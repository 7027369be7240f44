//! Credentials and the session gate.
//!
//! Passwords are stored as salted Argon2 hashes in the PHC string format. The
//! session gate has two states: a request is anonymous, or it is authenticated
//! as one user. Every protected route asks for an [`AuthUser`] first and
//! sends an anonymous request to the login page.

use vstd::prelude::*;
use vstd::string::*;
use argon2::password_hash::rand_core::OsRng;
use argon2::password_hash::SaltString;
use argon2::{Argon2, PasswordHash, PasswordHasher, PasswordVerifier};
use crate::response::Redirect;

verus! {

/// The error type of the password-hashing crate. Nothing is read from it here.
#[verifier::external_type_specification]
#[verifier::external_body]
pub struct ExPasswordHashError(argon2::password_hash::Error);

/// Why a credential operation failed.
#[derive(Clone, Copy, Debug, PartialEq, Eq, Structural)]
pub enum CredentialError {
    /// The hashing primitive could not produce a hash.
    Hashing,
    /// The stored string is not a password hash in the PHC string format.
    MalformedHash,
}

/// The name of the parameter of a stored hash that holds its degree of
/// parallelism.
pub const LANES_PARAM: &'static str = "p";

/// The least degree of parallelism that the verifier cannot take: eight times
/// the value no longer fits the 32 bits in which the verifier multiplies.
pub const LANES_LIMIT: u32 = 0x2000_0000;

/// The parameters of the stored PHC string `hash`, in their order, as
/// `argon2::PasswordHash::new` parses them and `Value::decimal` reads their
/// values; `None` where `hash` does not parse.
pub uninterp spec fn stored_params(hash: Seq<char>) -> Option<Seq<(Seq<char>, Option<u32>)>>;

/// Whether `password` matches the stored PHC string `hash`, as
/// `argon2::Argon2::default().verify_password` decides it after
/// `argon2::PasswordHash::new` has parsed `hash`; `None` where `hash` does not
/// parse.
pub uninterp spec fn password_matches(password: Seq<char>, hash: Seq<char>) -> Option<bool>;

/// The parameters as plain values.
pub open spec fn params_view(params: Seq<(String, Option<u32>)>) -> Seq<(Seq<char>, Option<u32>)> {
    Seq::new(params.len(), |i: int| (params[i].0@, params[i].1))
}

/// The degree of parallelism that the verifier takes from the parameters:
/// the value of the last parameter named [`LANES_PARAM`], where that value is
/// a decimal number.
pub open spec fn lanes_of(params: Seq<(Seq<char>, Option<u32>)>) -> Option<u32>
    decreases params.len(),
{
    if params.len() == 0 {
        None
    } else if params.last().0 == LANES_PARAM@ {
        params.last().1
    } else {
        lanes_of(params.drop_last())
    }
}

/// Whether the verifier can take the degree of parallelism of the stored
/// string: it is below [`LANES_LIMIT`], or the string names none.
pub open spec fn lanes_fit(hash: Seq<char>) -> bool {
    match stored_params(hash) {
        Some(params) => match lanes_of(params) {
            Some(lanes) => lanes < LANES_LIMIT,
            None => true,
        },
        None => true,
    }
}

/// What checking `password` against the stored string `hash` gives: an error
/// for a string that does not parse, a mismatch for one whose degree of
/// parallelism the verifier cannot take, and otherwise what the verifier
/// decides.
pub open spec fn password_check(password: Seq<char>, hash: Seq<char>) -> Result<bool, CredentialError> {
    match stored_params(hash) {
        None => Err(CredentialError::MalformedHash),
        Some(params) => if lanes_fit(hash) {
            verification(password_matches(password, hash))
        } else {
            Ok(false)
        },
    }
}

/// Whether `password` passes the check against the stored string `hash`.
pub open spec fn password_accepted(password: Seq<char>, hash: Seq<char>) -> bool {
    password_check(password, hash) == Ok::<bool, CredentialError>(true)
}

/// What the verifier's decision is as a result.
pub open spec fn verification(outcome: Option<bool>) -> Result<bool, CredentialError> {
    match outcome {
        Some(b) => Ok(b),
        None => Err(CredentialError::MalformedHash),
    }
}

/// Calls `argon2::password_hash::SaltString::generate` with the operating
/// system's random generator, then `PasswordHasher::hash_password` on
/// `Argon2::default()`, and writes the hash out as a PHC string. The salt is
/// random, so the string is not determined; the contract claims what the
/// crate's documentation shows for a hash made in this way: it parses, it
/// carries the default degree of parallelism, and it verifies against the
/// password.
#[verifier::external_body]
fn argon2_hash(password: &str) -> (r: Result<String, argon2::password_hash::Error>)
    ensures
        r matches Ok(hash) ==> password_accepted(password@, hash@),
{
    let salt = SaltString::generate(&mut OsRng);
    let hash = Argon2::default().hash_password(password.as_bytes(), &salt)?;
    Ok(hash.to_string())
}

/// Calls `argon2::PasswordHash::new` on `hash` and hands out the parameters
/// of the parsed string: for each pair of `ParamsString::iter` the name, and
/// the value as `Value::decimal` reads it. The contract claims only that the
/// outcome is a function of the string.
#[verifier::external_body]
fn phc_params(hash: &str) -> (r: Option<Vec<(String, Option<u32>)>>)
    ensures
        r is Some <==> stored_params(hash@) is Some,
        r matches Some(params) ==> stored_params(hash@) == Some(params_view(params@)),
{
    match PasswordHash::new(hash) {
        Ok(parsed) => Some(
            parsed.params.iter().map(|(name, value)| (name.as_str().to_owned(), value.decimal().ok())).collect(),
        ),
        Err(_) => None,
    }
}

/// Calls `argon2::PasswordHash::new` on `hash` and, where that parses,
/// `PasswordVerifier::verify_password` on `Argon2::default()`. The verifier
/// multiplies the degree of parallelism by eight in 32 bits before it checks
/// its range, so a stored string with a degree of [`LANES_LIMIT`] or more is
/// left out. The contract claims only that the outcome is a function of the
/// two strings: an error where the stored string does not parse, otherwise
/// whether the password verified.
#[verifier::external_body]
fn argon2_verify(password: &str, hash: &str) -> (r: Result<bool, argon2::password_hash::Error>)
    requires
        lanes_fit(hash@),
    ensures
        r is Ok <==> password_matches(password@, hash@) is Some,
        r matches Ok(b) ==> password_matches(password@, hash@) == Some(b),
{
    let parsed = PasswordHash::new(hash)?;
    Ok(Argon2::default().verify_password(password.as_bytes(), &parsed).is_ok())
}

/// The degree of parallelism among `params`: the value of the last parameter
/// named [`LANES_PARAM`].
pub fn lanes(params: &Vec<(String, Option<u32>)>) -> (r: Option<u32>)
    ensures
        r == lanes_of(params_view(params@)),
{
    let name = LANES_PARAM.to_owned();
    let ghost all = params_view(params@);
    let mut i = params.len();
    assert(all.take(i as int) =~= all);
    while i > 0
        invariant
            i <= params.len(),
            name@ == LANES_PARAM@,
            all == params_view(params@),
            lanes_of(all) == lanes_of(all.take(i as int)),
        decreases i,
    {
        let ghost front = all.take(i as int);
        assert(front.last() == all[i - 1]);
        assert(front.drop_last() =~= all.take(i - 1));
        if params[i - 1].0 == name {
            return params[i - 1].1;
        }
        i -= 1;
    }
    None
}

/// Hashes `password` with a fresh random salt. The hash verifies against the
/// password. It fails only where the hashing primitive fails.
pub fn hash_password(password: &str) -> (r: Result<String, CredentialError>)
    ensures
        match r {
            Ok(hash) => password_accepted(password@, hash@),
            Err(e) => e == CredentialError::Hashing,
        },
{
    match argon2_hash(password) {
        Ok(hash) => Ok(hash),
        Err(_) => Err(CredentialError::Hashing),
    }
}

/// Checks `password` against the stored `hash`. A stored string that does not
/// parse is an error, not a mismatch. A stored string whose degree of
/// parallelism is beyond what the verifier can take matches no password.
pub fn verify_password(password: &str, hash: &str) -> (r: Result<bool, CredentialError>)
    ensures
        r == password_check(password@, hash@),
{
    match phc_params(hash) {
        None => Err(CredentialError::MalformedHash),
        Some(params) => {
            let fit = match lanes(&params) {
                Some(count) => count < LANES_LIMIT,
                None => true,
            };
            if fit {
                match argon2_verify(password, hash) {
                    Ok(matched) => Ok(matched),
                    Err(_) => Err(CredentialError::MalformedHash),
                }
            } else {
                Ok(false)
            }
        },
    }
}

/// The key under which the session store keeps the user's id.
pub const USER_ID_KEY: &'static str = "user_id";

/// Where an anonymous request is sent.
pub const LOGIN_PATH: &'static str = "/login";

/// The session store could not be read or written.
#[derive(Clone, Copy, Debug, PartialEq, Eq, Structural)]
pub struct SessionError;

/// The state of the session gate for one session token.
#[derive(Clone, Copy, Debug, PartialEq, Eq, Structural)]
pub enum Session {
    Anonymous,
    Authenticated(i64),
}

impl Session {
    /// The state for an inbound request, from what the session store
    /// gave: `None` where the request carries no session, an error where the
    /// store failed, otherwise the user id stored under [`USER_ID_KEY`], if
    /// any.
    pub open spec fn of_lookup(lookup: Option<Result<Option<i64>, SessionError>>) -> Session {
        match lookup {
            Some(Ok(Some(user_id))) => Session::Authenticated(user_id),
            _ => Session::Anonymous,
        }
    }

    /// A request without a session, without a stored user id, or whose session
    /// could not be read is anonymous.
    pub fn from_lookup(lookup: Option<Result<Option<i64>, SessionError>>) -> (session: Session)
        ensures
            session == Session::of_lookup(lookup),
    {
        match lookup {
            Some(Ok(Some(user_id))) => Session::Authenticated(user_id),
            _ => Session::Anonymous,
        }
    }
}

/// A successful login or registration: the session now belongs to `user_id`.
pub fn login_session(session: &mut Session, user_id: i64)
    ensures
        *final(session) == Session::Authenticated(user_id),
{
    *session = Session::Authenticated(user_id);
}

/// Logout: whatever the session held is cleared.
pub fn logout_session(session: &mut Session)
    ensures
        *final(session) == Session::Anonymous,
{
    *session = Session::Anonymous;
}

/// The authenticated user, as handed to every protected handler.
#[derive(Clone, Copy, Debug, PartialEq, Eq, Structural)]
pub struct AuthUser {
    pub id: i64,
}

impl AuthUser {
    /// Lets an authenticated request through with its user id and redirects
    /// every other request to the login page.
    pub fn from_request_parts(session: &Session) -> (r: Result<AuthUser, Redirect>)
        ensures
            match *session {
                Session::Authenticated(id) => r == Ok::<AuthUser, Redirect>(AuthUser { id }),
                Session::Anonymous => r matches Err(to) && to.location@ == LOGIN_PATH@,
            },
    {
        match session {
            Session::Authenticated(id) => Ok(AuthUser { id: *id }),
            Session::Anonymous => Err(Redirect::to(LOGIN_PATH)),
        }
    }
}

} // verus!
