use crate::auth::{
    claims_text, hyphenated, issue_token, issued_claims, lemma_hyphenated_plain, token_outcome,
    token_payload, GRACE_PERIOD, TOKEN_LIFETIME,
};
use crate::errors::{AuthError, CustomError, DbError};
use crate::name_email::{email_shape, grapheme_count, name_accepted, UserEmail, UserName};
use crate::order::{insertion_outcome, OrderStatus};
use crate::password::{
    hash_password, hashable, login_verdict, password_matches, phc_parses, verification_outcome,
};
use crate::session_state::{status_after_write, ActorKind, TypedSession};
use vstd::prelude::*;

verus! {

/// A customer's registration request.
pub struct CreateCustomerBody {
    pub username: String,
    pub password: String,
    pub email: String,
}

/// A customer's profile change.
pub struct UpdateCustomerBody {
    pub username: String,
    pub email: String,
}

/// A customer's login request.
pub struct LoginCustomerBody {
    pub username: String,
    pub password: String,
}

/// An admin's registration request.
pub struct CreateAdminBody {
    pub username: String,
    pub password: String,
}

/// An admin's login request.
pub struct LoginAdminBody {
    pub username: String,
    pub password: String,
}

/// An admin's request to set the status of an order.
pub struct UpdateStatusBody {
    pub order_id: u128,
    pub status: OrderStatus,
}

/// A customer's request for a new order.
pub struct CreateOrder {
    pub product_id: u128,
}

/// Both fields of a customer's details are acceptable.
pub open spec fn customer_fields_accepted(username: Seq<char>, email: Seq<char>) -> bool {
    name_accepted(username, grapheme_count(username)) && email_shape(email)
}

/// Validates a username and an email address, the name first.
fn validate_name_and_email(username: String, email: String) -> (r: Result<
    (UserName, UserEmail),
    String,
>)
    ensures
        r is Ok <==> customer_fields_accepted(username@, email@),
        r matches Ok((n, e)) ==> n@ == username@ && e@ == email@,
{
    let name = UserName::parse(username)?;
    let mail = UserEmail::parse(email)?;
    Ok((name, mail))
}

impl CreateCustomerBody {
    pub fn validate(self) -> (r: Result<(UserName, UserEmail), String>)
        ensures
            r is Ok <==> customer_fields_accepted(self.username@, self.email@),
            r matches Ok((n, e)) ==> n@ == self.username@ && e@ == self.email@,
    {
        validate_name_and_email(self.username, self.email)
    }
}

impl UpdateCustomerBody {
    pub fn validate(self) -> (r: Result<(UserName, UserEmail), String>)
        ensures
            r is Ok <==> customer_fields_accepted(self.username@, self.email@),
            r matches Ok((n, e)) ==> n@ == self.username@ && e@ == self.email@,
    {
        validate_name_and_email(self.username, self.email)
    }
}

impl CreateAdminBody {
    pub fn validate(self) -> (r: Result<UserName, String>)
        ensures
            r is Ok <==> name_accepted(self.username@, grapheme_count(self.username@)),
            r matches Ok(n) ==> n@ == self.username@,
    {
        UserName::parse(self.username)
    }
}

/// What registration stores for a new actor: the validated name, the
/// address for a customer, and the password hash.
pub struct Registration {
    pub username: UserName,
    pub email: Option<UserEmail>,
    pub password_hash: String,
}

/// Prepares a customer's registration: validation first, then hashing.
/// Acceptable details always register unless the password is too long for
/// Argon2.
pub fn register_customer(body: CreateCustomerBody) -> (r: Result<Registration, CustomError>)
    ensures
        !customer_fields_accepted(body.username@, body.email@) ==> r matches Err(
            CustomError::ValidationError(_),
        ),
        customer_fields_accepted(body.username@, body.email@) ==> match r {
            Ok(reg) => reg.username@ == body.username@ && (reg.email matches Some(e) && e@
                == body.email@) && phc_parses(reg.password_hash@) && password_matches(
                reg.password_hash@,
                body.password@,
            ),
            Err(e) => e is HashingError && !hashable(body.password@),
        },
{
    let password = body.password;
    match validate_name_and_email(body.username, body.email) {
        Err(m) => Err(CustomError::ValidationError(m)),
        Ok((username, email)) => match hash_password(password.as_str()) {
            Err(e) => Err(e),
            Ok(h) => Ok(Registration { username, email: Some(email), password_hash: h }),
        },
    }
}

/// Prepares an admin's registration: validation first, then hashing. An
/// acceptable name always registers unless the password is too long for
/// Argon2.
pub fn register_admin(body: CreateAdminBody) -> (r: Result<Registration, CustomError>)
    ensures
        !name_accepted(body.username@, grapheme_count(body.username@)) ==> r matches Err(
            CustomError::ValidationError(_),
        ),
        name_accepted(body.username@, grapheme_count(body.username@)) ==> match r {
            Ok(reg) => reg.username@ == body.username@ && reg.email is None && phc_parses(
                reg.password_hash@,
            ) && password_matches(reg.password_hash@, body.password@),
            Err(e) => e is HashingError && !hashable(body.password@),
        },
{
    let password = body.password;
    match UserName::parse(body.username) {
        Err(m) => Err(CustomError::ValidationError(m)),
        Ok(username) => match hash_password(password.as_str()) {
            Err(e) => Err(e),
            Ok(h) => Ok(Registration { username, email: None, password_hash: h }),
        },
    }
}

/// The token a successful login hands out, issued at `now` for `id`.
pub open spec fn login_token_payload(id: u128, now: u64) -> Seq<char> {
    claims_text(issued_claims(hyphenated(id), now))
}

/// What completing a login gives: a refusal passes through and leaves the
/// session as it was; an accepted actor always gets a token issued at `now`
/// and is recorded in the namespace of `kind`, the other namespace untouched.
pub open spec fn login_outcome(
    kind: ActorKind,
    before: TypedSession,
    after: TypedSession,
    validated: Result<u128, CustomError>,
    r: Result<String, CustomError>,
    secret: Seq<u8>,
    now: u64,
) -> bool {
    match validated {
        Err(e) => r == Err::<String, CustomError>(e) && after == before,
        Ok(id) => {
            &&& r matches Ok(t) && token_payload(t@, secret) == Some(login_token_payload(id, now))
            &&& after.identity(kind) == Some(id)
            &&& kind == ActorKind::Customer ==> after.admin == before.admin
            &&& kind == ActorKind::Admin ==> after.customer == before.customer
            &&& after.status == status_after_write(before.status)
        },
    }
}

fn complete_login(
    kind: ActorKind,
    session: &mut TypedSession,
    validated: Result<u128, CustomError>,
    secret: &[u8],
    now: u64,
) -> (r: Result<String, CustomError>)
    requires
        now <= u64::MAX - TOKEN_LIFETIME,
    ensures
        login_outcome(kind, *old(session), *final(session), validated, r, secret@, now),
{
    match validated {
        Err(e) => Err(e),
        Ok(id) => {
            let token = issue_token(id, secret, now);
            session.insert(kind, id);
            Ok(token)
        },
    }
}

/// Completes a customer's login once the credentials have been validated:
/// a token is issued and the customer is recorded in the session.
pub fn login_customer(
    session: &mut TypedSession,
    validated: Result<u128, CustomError>,
    secret: &[u8],
    now: u64,
) -> (r: Result<String, CustomError>)
    requires
        now <= u64::MAX - TOKEN_LIFETIME,
    ensures
        login_outcome(ActorKind::Customer, *old(session), *final(session), validated, r, secret@, now),
{
    complete_login(ActorKind::Customer, session, validated, secret, now)
}

/// Completes an admin's login once the credentials have been validated:
/// a token is issued and the admin is recorded in the session.
pub fn login_admin(
    session: &mut TypedSession,
    validated: Result<u128, CustomError>,
    secret: &[u8],
    now: u64,
) -> (r: Result<String, CustomError>)
    requires
        now <= u64::MAX - TOKEN_LIFETIME,
    ensures
        login_outcome(ActorKind::Admin, *old(session), *final(session), validated, r, secret@, now),
{
    complete_login(ActorKind::Admin, session, validated, secret, now)
}

/// Finishes a registration once the new actor's row has been written: the
/// actor is recorded in the session's namespace for `kind`. No row written
/// is an insertion error, and the session is left as it was.
pub fn finish_registration(
    kind: ActorKind,
    session: &mut TypedSession,
    id: u128,
    rows_affected: usize,
) -> (r: Result<(), CustomError>)
    ensures
        r is Ok <==> rows_affected > 0,
        r matches Err(e) ==> e matches CustomError::DatabaseError(DbError::InsertionError(_)),
        r is Err ==> *final(session) == *old(session),
        r is Ok ==> final(session).identity(kind) == Some(id),
        r is Ok && kind == ActorKind::Customer ==> final(session).admin == old(session).admin,
        r is Ok && kind == ActorKind::Admin ==> final(session).customer == old(session).customer,
{
    insertion_outcome(rows_affected)?;
    session.insert(kind, id);
    Ok(())
}

/// Registration and then login with the same password succeed: the
/// password check against the hash that registration stored yields the
/// actor's identifier, and the token issued at that login verifies, from
/// the end of its grace period until it expires, to claims whose subject is
/// that identifier's text.
pub proof fn lemma_register_then_login(
    id: u128,
    hash: Seq<char>,
    password: Seq<char>,
    checked: Result<bool, CustomError>,
    token: Seq<char>,
    secret: Seq<u8>,
    iat: u64,
    now: u64,
    verdict: Result<crate::auth::Claims, AuthError>,
)
    requires
        phc_parses(hash),
        password_matches(hash, password),
        verification_outcome(checked, hash, password),
        iat <= u64::MAX - TOKEN_LIFETIME,
        token_payload(token, secret) == Some(login_token_payload(id, iat)),
        iat + GRACE_PERIOD <= now <= iat + TOKEN_LIFETIME,
        token_outcome(verdict, token, secret, now),
    ensures
        login_verdict(id, Ok(checked)) == Ok::<u128, CustomError>(id),
        verdict matches Ok(c) && c.sub@ == hyphenated(id),
{
    lemma_hyphenated_plain(id);
    crate::auth::lemma_issued_token_verdict(token, secret, hyphenated(id), iat, now, verdict);
}

} // verus!
