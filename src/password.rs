use crate::errors::{AuthError, CustomError, DbError};
use vstd::prelude::*;
use vstd::utf8::encode_utf8;

verus! {

/// `hash` is a PHC string whose Argon2 verification accepts the UTF-8
/// bytes of `password`.
pub uninterp spec fn password_matches(hash: Seq<char>, password: Seq<char>) -> bool;

/// `hash` parses as a PHC string.
pub uninterp spec fn phc_parses(hash: Seq<char>) -> bool;

/// Longest password that Argon2 takes, in bytes.
pub const MAX_PASSWORD_BYTES: usize = 0xFFFF_FFFF;

/// A password that Argon2 can hash: at most `MAX_PASSWORD_BYTES` bytes of UTF-8.
pub open spec fn hashable(password: Seq<char>) -> bool {
    encode_utf8(password).len() <= MAX_PASSWORD_BYTES
}

/// The error type of the `password-hash` traits.
#[verifier::external_type_specification]
#[verifier::external_body]
pub struct ExHashError(argon2::password_hash::Error);

/// Relies on `SaltString::generate` fed by `rand::thread_rng()`, which makes
/// a 16-byte salt, and `Argon2::default().hash_password`, which then fails
/// only for a password over `MAX_PASSWORD_BYTES` bytes. The PHC string it
/// returns parses, and Argon2 verification of the same password accepts it.
#[verifier::external_body]
fn hash_with_fresh_salt(password: &str) -> (r: Result<String, argon2::password_hash::Error>)
    ensures
        hashable(password@) ==> r is Ok,
        r matches Ok(h) ==> phc_parses(h@) && password_matches(h@, password@),
{
    let salt = argon2::password_hash::SaltString::generate(&mut rand::thread_rng());
    let hasher = argon2::Argon2::default();
    argon2::PasswordHasher::hash_password(&hasher, password.as_bytes(), &salt).map(|h| h.to_string())
}

/// Relies on `PasswordHash::new` and `Argon2::default().verify_password`:
/// an error exactly when the stored string does not parse; otherwise
/// whether verification accepts the candidate.
#[verifier::external_body]
fn check_against_hash(stored: &str, candidate: &str) -> (r: Result<
    bool,
    argon2::password_hash::Error,
>)
    ensures
        r is Err <==> !phc_parses(stored@),
        (r matches Ok(b) && b) <==> password_matches(stored@, candidate@),
{
    let parsed = argon2::PasswordHash::new(stored)?;
    let verifier = argon2::Argon2::default();
    Ok(argon2::PasswordVerifier::verify_password(&verifier, candidate.as_bytes(), &parsed).is_ok())
}

/// Hashes a secret with a fresh random salt; only a secret too long for
/// Argon2 fails.
pub fn hash_password(secret: &str) -> (r: Result<String, CustomError>)
    ensures
        match r {
            Ok(h) => phc_parses(h@) && password_matches(h@, secret@),
            Err(e) => e is HashingError && !hashable(secret@),
        },
{
    match hash_with_fresh_salt(secret) {
        Ok(h) => Ok(h),
        Err(_) => Err(CustomError::HashingError(String::from_str("password hashing failed"))),
    }
}

/// What checking `candidate` against the stored `hash` gives: whether it
/// matches when the hash parses, a hashing error exactly when it does not.
pub open spec fn verification_outcome(
    r: Result<bool, CustomError>,
    hash: Seq<char>,
    candidate: Seq<char>,
) -> bool {
    match r {
        Ok(b) => phc_parses(hash) && b == password_matches(hash, candidate),
        Err(e) => e is HashingError && !phc_parses(hash),
    }
}

/// Checks a candidate password against a stored hash; a stored hash that
/// cannot be read is a hashing error.
pub fn verify_password(expected_hash: &str, candidate: &str) -> (r: Result<bool, CustomError>)
    ensures
        verification_outcome(r, expected_hash@, candidate@),
{
    match check_against_hash(expected_hash, candidate) {
        Ok(b) => Ok(b),
        Err(_) => Err(CustomError::HashingError(String::from_str("stored password hash is malformed"))),
    }
}

/// The identifier and stored hash found for a username, or why there are none.
pub open spec fn lookup_outcome(
    r: Result<(u128, String), CustomError>,
    rows: Result<Vec<(u128, String)>, DbError>,
) -> bool {
    match rows {
        Err(e) => r == Err::<(u128, String), CustomError>(CustomError::DatabaseError(e)),
        Ok(v) => if v@.len() == 0 {
            r == Err::<(u128, String), CustomError>(
                CustomError::AuthenticationError(AuthError::InvalidCredentials),
            )
        } else {
            r matches Ok((id, h)) && id == v@[0].0 && h@ == v@[0].1@
        },
    }
}

/// Picks the stored credentials out of the rows found for a username. No
/// row is reported exactly as a wrong password is.
pub fn stored_credentials(rows: Result<Vec<(u128, String)>, DbError>) -> (r: Result<
    (u128, String),
    CustomError,
>)
    ensures
        lookup_outcome(r, rows),
{
    match rows {
        Err(e) => Err(CustomError::DatabaseError(e)),
        Ok(v) => {
            let mut v = v;
            if v.len() == 0 {
                Err(CustomError::AuthenticationError(AuthError::InvalidCredentials))
            } else {
                let first = v.remove(0);
                Ok(first)
            }
        },
    }
}

/// The result of a login once the password check has come back from the
/// hashing worker (`Err` when the worker could not run it).
pub open spec fn login_verdict(
    user_id: u128,
    verification: Result<Result<bool, CustomError>, String>,
) -> Result<u128, CustomError> {
    match verification {
        Err(m) => Err(CustomError::BlockingError(m)),
        Ok(Err(e)) => Err(e),
        Ok(Ok(false)) => Err(CustomError::AuthenticationError(AuthError::InvalidCredentials)),
        Ok(Ok(true)) => Ok(user_id),
    }
}

/// Concludes a login from the outcome of the password check.
pub fn login_decision(user_id: u128, verification: Result<Result<bool, CustomError>, String>) -> (r:
    Result<u128, CustomError>)
    ensures
        r == login_verdict(user_id, verification),
{
    match verification {
        Err(m) => Err(CustomError::BlockingError(m)),
        Ok(Err(e)) => Err(e),
        Ok(Ok(false)) => Err(CustomError::AuthenticationError(AuthError::InvalidCredentials)),
        Ok(Ok(true)) => Ok(user_id),
    }
}

/// The outcome of validating `candidate` against the rows found for a
/// username: a lookup failure; an unknown username and a wrong password
/// alike as invalid credentials; a hashing error for a stored hash that does
/// not parse; otherwise the actor's identifier.
pub open spec fn credentials_outcome(
    r: Result<u128, CustomError>,
    rows: Result<Vec<(u128, String)>, DbError>,
    candidate: Seq<char>,
) -> bool {
    match rows {
        Err(e) => r == Err::<u128, CustomError>(CustomError::DatabaseError(e)),
        Ok(v) => if v@.len() == 0 {
            r == Err::<u128, CustomError>(
                CustomError::AuthenticationError(AuthError::InvalidCredentials),
            )
        } else if !phc_parses(v@[0].1@) {
            r matches Err(CustomError::HashingError(_))
        } else if password_matches(v@[0].1@, candidate) {
            r == Ok::<u128, CustomError>(v@[0].0)
        } else {
            r == Err::<u128, CustomError>(
                CustomError::AuthenticationError(AuthError::InvalidCredentials),
            )
        },
    }
}

/// Validates a username's credentials: the rows found for it and the
/// candidate password give the actor's identifier or the reason for refusal.
pub fn validate_credentials(rows: Result<Vec<(u128, String)>, DbError>, candidate: &str) -> (r:
    Result<u128, CustomError>)
    ensures
        credentials_outcome(r, rows, candidate@),
{
    match stored_credentials(rows) {
        Err(e) => Err(e),
        Ok((id, hash)) => {
            let checked = verify_password(hash.as_str(), candidate);
            login_decision(id, Ok(checked))
        },
    }
}

/// Validates an admin's credentials, by the same rules as a customer's.
pub fn validate_admin_credentials(
    rows: Result<Vec<(u128, String)>, DbError>,
    candidate: &str,
) -> (r: Result<u128, CustomError>)
    ensures
        credentials_outcome(r, rows, candidate@),
{
    validate_credentials(rows, candidate)
}

/// A password hashed at registration is accepted at login: the login
/// yields the actor's identifier.
pub proof fn lemma_registered_password_accepted(
    user_id: u128,
    hash: Seq<char>,
    password: Seq<char>,
    checked: Result<bool, CustomError>,
)
    requires
        phc_parses(hash),
        password_matches(hash, password),
        verification_outcome(checked, hash, password),
    ensures
        login_verdict(user_id, Ok(checked)) == Ok::<u128, CustomError>(user_id),
{
}

/// An unknown username and a wrong password against a readable stored hash
/// are refused alike: the same error, reported as 401.
pub proof fn lemma_refusals_alike(
    unknown: Result<u128, CustomError>,
    wrong: Result<u128, CustomError>,
    no_rows: Vec<(u128, String)>,
    rows: Vec<(u128, String)>,
    candidate: Seq<char>,
)
    requires
        no_rows@.len() == 0,
        rows@.len() > 0,
        phc_parses(rows@[0].1@),
        !password_matches(rows@[0].1@, candidate),
        credentials_outcome(unknown, Ok(no_rows), candidate),
        credentials_outcome(wrong, Ok(rows), candidate),
    ensures
        unknown == wrong,
        unknown == Err::<u128, CustomError>(
            CustomError::AuthenticationError(AuthError::InvalidCredentials),
        ),
        crate::errors::status_of(CustomError::AuthenticationError(AuthError::InvalidCredentials))
            == 401,
{
}

} // verus!
