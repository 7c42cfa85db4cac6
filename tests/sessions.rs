use ecommerce::errors::{AuthError, CustomError};
use ecommerce::session_state::{
    authorize, token_subject, ActorKind, Requirement, SessionStatus, TypedSession,
};

#[test]
fn namespaces_are_independent() {
    let mut s = TypedSession::new();
    s.insert_user_id(1);
    assert_eq!(s.get_user_id(), Some(1));
    assert_eq!(s.get_admin_id(), None);
    assert_eq!(s.status, SessionStatus::Changed);
    s.insert_admin_id(2);
    assert_eq!(s.get(ActorKind::Customer), Some(1));
    assert_eq!(s.get(ActorKind::Admin), Some(2));
    let only_admin = TypedSession::restored(None, Some(2));
    assert!(authorize(Requirement::Session, ActorKind::Customer, &only_admin, Err(AuthError::InvalidToken)).is_err());
    assert_eq!(authorize(Requirement::Session, ActorKind::Admin, &only_admin, Err(AuthError::InvalidToken)).ok(), Some(2));
}

#[test]
fn logout_purges_both_namespaces() {
    let mut s = TypedSession::restored(Some(1), Some(2));
    s.log_out();
    assert_eq!(s.customer, None);
    assert_eq!(s.admin, None);
    assert_eq!(s.status, SessionStatus::Purged);
    let mut t = TypedSession::restored(Some(1), Some(2));
    t.admin_log_out();
    assert_eq!(t, s);
}

#[test]
fn renewal_keeps_identities_and_a_purge_stays() {
    let mut s = TypedSession::restored(Some(1), None);
    s.renew();
    assert_eq!(s.status, SessionStatus::Renewed);
    assert_eq!(s.customer, Some(1));
    s.insert_admin_id(4);
    assert_eq!(s.status, SessionStatus::Renewed);
    s.purge();
    s.admin_renew();
    assert_eq!(s.status, SessionStatus::Purged);
}

#[test]
fn logout_rejects_even_with_a_valid_token() {
    let mut s = TypedSession::restored(Some(5), None);
    assert_eq!(authorize(Requirement::SessionAndToken, ActorKind::Customer, &s, Ok(5)).ok(), Some(5));
    s.log_out();
    let r = authorize(Requirement::SessionAndToken, ActorKind::Customer, &s, Ok(5));
    assert!(matches!(r, Err(CustomError::AuthenticationError(AuthError::SessionMissing))));
    assert_eq!(r.err().unwrap().status_code(), 401);
    // A token alone still opens what asks only for a token: it is not revoked.
    assert_eq!(authorize(Requirement::Token, ActorKind::Customer, &s, Ok(5)).ok(), Some(5));
}

#[test]
fn token_and_session_must_name_the_same_actor() {
    let s = TypedSession::restored(Some(5), None);
    let r = authorize(Requirement::SessionAndToken, ActorKind::Customer, &s, Ok(6));
    assert!(matches!(r, Err(CustomError::AuthenticationError(AuthError::InvalidToken))));
    let r = authorize(Requirement::SessionAndToken, ActorKind::Customer, &s, Err(AuthError::Expired));
    assert!(matches!(r, Err(CustomError::AuthenticationError(AuthError::Expired))));
    let r = authorize(Requirement::Token, ActorKind::Admin, &s, Err(AuthError::NotYetValid));
    assert!(matches!(r, Err(CustomError::AuthenticationError(AuthError::NotYetValid))));
}

#[test]
fn token_subject_passes_errors_on() {
    assert!(matches!(token_subject(Err(AuthError::Expired)), Err(AuthError::Expired)));
}

#[test]
fn a_failed_store_read_counts_as_no_identity() {
    let s = TypedSession::from_lookups(Err("store down".to_string()), Ok(Some(9)));
    assert_eq!(s.customer, None);
    assert_eq!(s.admin, Some(9));
    let r = authorize(Requirement::Session, ActorKind::Customer, &s, Ok(1));
    assert!(matches!(r, Err(CustomError::AuthenticationError(AuthError::SessionMissing))));
}
