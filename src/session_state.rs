use crate::auth::{hyphenated, subject_id, Claims};
use crate::errors::{AuthError, CustomError};
use vstd::prelude::*;

verus! {

/// The two kinds of actor; each has its own namespace in a session.
#[derive(PartialEq, Eq, Structural, Clone, Copy, Debug)]
pub enum ActorKind {
    Customer,
    Admin,
}

/// What must happen to the stored session once a request is done.
#[derive(PartialEq, Eq, Structural, Clone, Copy, Debug)]
pub enum SessionStatus {
    /// Nothing changed: the store is left alone.
    Unchanged,
    /// An identity was recorded: the record is written back.
    Changed,
    /// The record is kept under a fresh handle.
    Renewed,
    /// The whole record is deleted, both namespaces together.
    Purged,
}

/// The server-side session of one browser: at most one customer and,
/// independently, at most one admin.
#[derive(PartialEq, Eq, Structural, Clone, Copy, Debug)]
pub struct TypedSession {
    pub customer: Option<u128>,
    pub admin: Option<u128>,
    pub status: SessionStatus,
}

/// The status after a write, as the session store records it: a purge or a
/// renewal already decided stays.
pub open spec fn status_after_write(s: SessionStatus) -> SessionStatus {
    match s {
        SessionStatus::Unchanged => SessionStatus::Changed,
        other => other,
    }
}

impl TypedSession {
    /// The identity recorded for `kind`.
    pub open spec fn identity(self, kind: ActorKind) -> Option<u128> {
        match kind {
            ActorKind::Customer => self.customer,
            ActorKind::Admin => self.admin,
        }
    }

    /// A session with no identity, as a new handle has.
    pub fn new() -> (r: TypedSession)
        ensures
            r.customer is None,
            r.admin is None,
            r.status == SessionStatus::Unchanged,
    {
        TypedSession { customer: None, admin: None, status: SessionStatus::Unchanged }
    }

    /// A session as the store holds it at the start of a request.
    pub fn restored(customer: Option<u128>, admin: Option<u128>) -> (r: TypedSession)
        ensures
            r.customer == customer,
            r.admin == admin,
            r.status == SessionStatus::Unchanged,
    {
        TypedSession { customer, admin, status: SessionStatus::Unchanged }
    }

    /// A session from what the store answered for each namespace. A read
    /// that failed counts as no identity: the caller is then refused as
    /// unauthenticated, and nothing of the store's failure reaches them.
    pub fn from_lookups(
        customer: Result<Option<u128>, String>,
        admin: Result<Option<u128>, String>,
    ) -> (r: TypedSession)
        ensures
            r.customer == (match customer {
                Ok(c) => c,
                Err(_) => None,
            }),
            r.admin == (match admin {
                Ok(a) => a,
                Err(_) => None,
            }),
            r.status == SessionStatus::Unchanged,
    {
        let customer = match customer {
            Ok(c) => c,
            Err(_) => None,
        };
        let admin = match admin {
            Ok(a) => a,
            Err(_) => None,
        };
        TypedSession { customer, admin, status: SessionStatus::Unchanged }
    }

    /// Records `id` in the namespace of `kind`; the other namespace is untouched.
    pub fn insert(&mut self, kind: ActorKind, id: u128)
        ensures
            final(self).identity(kind) == Some(id),
            kind == ActorKind::Customer ==> final(self).admin == old(self).admin,
            kind == ActorKind::Admin ==> final(self).customer == old(self).customer,
            final(self).status == status_after_write(old(self).status),
    {
        match kind {
            ActorKind::Customer => self.customer = Some(id),
            ActorKind::Admin => self.admin = Some(id),
        }
        if self.status == SessionStatus::Unchanged {
            self.status = SessionStatus::Changed;
        }
    }

    /// The identity recorded for `kind`, if any.
    pub fn get(&self, kind: ActorKind) -> (r: Option<u128>)
        ensures
            r == self.identity(kind),
    {
        match kind {
            ActorKind::Customer => self.customer,
            ActorKind::Admin => self.admin,
        }
    }

    /// Keeps the identities under a fresh handle; a purge already decided stays.
    pub fn renew(&mut self)
        ensures
            final(self).customer == old(self).customer,
            final(self).admin == old(self).admin,
            final(self).status == (if old(self).status == SessionStatus::Purged {
                SessionStatus::Purged
            } else {
                SessionStatus::Renewed
            }),
    {
        if self.status != SessionStatus::Purged {
            self.status = SessionStatus::Renewed;
        }
    }

    /// Logout: the whole session ends, in both namespaces.
    pub fn purge(&mut self)
        ensures
            final(self).customer is None,
            final(self).admin is None,
            final(self).status == SessionStatus::Purged,
    {
        self.customer = None;
        self.admin = None;
        self.status = SessionStatus::Purged;
    }

    pub fn insert_user_id(&mut self, user_id: u128)
        ensures
            final(self).customer == Some(user_id),
            final(self).admin == old(self).admin,
            final(self).status == status_after_write(old(self).status),
    {
        self.insert(ActorKind::Customer, user_id)
    }

    pub fn get_user_id(&self) -> (r: Option<u128>)
        ensures
            r == self.customer,
    {
        self.get(ActorKind::Customer)
    }

    /// A customer's logout ends the whole session.
    pub fn log_out(&mut self)
        ensures
            final(self).customer is None,
            final(self).admin is None,
            final(self).status == SessionStatus::Purged,
    {
        self.purge()
    }

    pub fn admin_renew(&mut self)
        ensures
            final(self).customer == old(self).customer,
            final(self).admin == old(self).admin,
            old(self).status != SessionStatus::Purged ==> final(self).status
                == SessionStatus::Renewed,
            old(self).status == SessionStatus::Purged ==> final(self).status
                == SessionStatus::Purged,
    {
        self.renew()
    }

    pub fn insert_admin_id(&mut self, admin_id: u128)
        ensures
            final(self).admin == Some(admin_id),
            final(self).customer == old(self).customer,
            final(self).status == status_after_write(old(self).status),
    {
        self.insert(ActorKind::Admin, admin_id)
    }

    pub fn get_admin_id(&self) -> (r: Option<u128>)
        ensures
            r == self.admin,
    {
        self.get(ActorKind::Admin)
    }

    /// An admin's logout ends the whole session.
    pub fn admin_log_out(&mut self)
        ensures
            final(self).customer is None,
            final(self).admin is None,
            final(self).status == SessionStatus::Purged,
    {
        self.purge()
    }
}

/// Which credentials a protected operation asks for.
#[derive(PartialEq, Eq, Structural, Clone, Copy, Debug)]
pub enum Requirement {
    /// A session with an identity of the required kind.
    Session,
    /// A verified bearer token.
    Token,
    /// Both, naming the same actor.
    SessionAndToken,
}

/// The decision of the authorization gate. `token` is the subject of the
/// caller's verified token, or why there is none.
pub open spec fn gate_verdict(
    need: Requirement,
    kind: ActorKind,
    session: TypedSession,
    token: Result<u128, AuthError>,
) -> Result<u128, CustomError> {
    match need {
        Requirement::Session => match session.identity(kind) {
            Some(id) => Ok(id),
            None => Err(CustomError::AuthenticationError(AuthError::SessionMissing)),
        },
        Requirement::Token => match token {
            Ok(id) => Ok(id),
            Err(e) => Err(CustomError::AuthenticationError(e)),
        },
        Requirement::SessionAndToken => match session.identity(kind) {
            None => Err(CustomError::AuthenticationError(AuthError::SessionMissing)),
            Some(id) => match token {
                Err(e) => Err(CustomError::AuthenticationError(e)),
                Ok(sub) => if sub == id {
                    Ok(id)
                } else {
                    Err(CustomError::AuthenticationError(AuthError::InvalidToken))
                },
            },
        },
    }
}

/// The authorization gate: resolves the caller for a protected operation,
/// or refuses before the operation runs.
pub fn authorize(
    need: Requirement,
    kind: ActorKind,
    session: &TypedSession,
    token: Result<u128, AuthError>,
) -> (r: Result<u128, CustomError>)
    ensures
        r == gate_verdict(need, kind, *session, token),
{
    match need {
        Requirement::Session => match session.get(kind) {
            Some(id) => Ok(id),
            None => Err(CustomError::AuthenticationError(AuthError::SessionMissing)),
        },
        Requirement::Token => match token {
            Ok(id) => Ok(id),
            Err(e) => Err(CustomError::AuthenticationError(e)),
        },
        Requirement::SessionAndToken => match session.get(kind) {
            None => Err(CustomError::AuthenticationError(AuthError::SessionMissing)),
            Some(id) => match token {
                Err(e) => Err(CustomError::AuthenticationError(e)),
                Ok(sub) => if sub == id {
                    Ok(id)
                } else {
                    Err(CustomError::AuthenticationError(AuthError::InvalidToken))
                },
            },
        },
    }
}

/// The actor that a token verification names: its subject, or why there is none.
pub fn token_subject(verified: Result<Claims, AuthError>) -> (r: Result<u128, AuthError>)
    ensures
        verified matches Err(e) ==> r == Err::<u128, AuthError>(e),
        verified matches Ok(c) ==> forall|id: u128|
            #[trigger] hyphenated(id) == c.sub@ ==> r == Ok::<u128, AuthError>(id),
{
    match verified {
        Err(e) => Err(e),
        Ok(c) => match subject_id(&c) {
            Some(id) => Ok(id),
            None => Err(AuthError::InvalidToken),
        },
    }
}

/// After logout, no protected operation that asks for a session goes
/// through, whatever token the caller still holds.
pub proof fn lemma_logout_rejects(
    after: TypedSession,
    kind: ActorKind,
    token: Result<u128, AuthError>,
)
    requires
        after.customer is None,
        after.admin is None,
        after.status == SessionStatus::Purged,
    ensures
        gate_verdict(Requirement::Session, kind, after, token) == Err::<u128, CustomError>(
            CustomError::AuthenticationError(AuthError::SessionMissing),
        ),
        gate_verdict(Requirement::SessionAndToken, kind, after, token) == Err::<u128, CustomError>(
            CustomError::AuthenticationError(AuthError::SessionMissing),
        ),
        crate::errors::status_of(CustomError::AuthenticationError(AuthError::SessionMissing))
            == 401,
{
}

} // verus!
