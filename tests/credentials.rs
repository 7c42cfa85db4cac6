use ecommerce::errors::{AuthError, CustomError, DbError};
use ecommerce::password::{
    hash_password, login_decision, stored_credentials, validate_admin_credentials,
    validate_credentials, verify_password,
};

#[test]
fn a_hashed_password_verifies() {
    let h = hash_password("pw1").unwrap();
    assert!(h.starts_with("$argon2"));
    assert!(!h.contains("pw1"));
    assert!(matches!(verify_password(&h, "pw1"), Ok(true)));
    assert!(matches!(verify_password(&h, "pw2"), Ok(false)));
}

#[test]
fn each_hash_has_its_own_salt() {
    let a = hash_password("same").unwrap();
    let b = hash_password("same").unwrap();
    assert_ne!(a, b);
}

#[test]
fn a_malformed_stored_hash_is_a_hashing_error() {
    let r = verify_password("not a phc string", "pw");
    assert!(matches!(r, Err(CustomError::HashingError(_))));
    assert_eq!(r.err().unwrap().status_code(), 500);
}

#[test]
fn unknown_user_and_wrong_password_are_refused_alike() {
    let h = hash_password("right").unwrap();
    let unknown = validate_credentials(Ok(vec![]), "right");
    let wrong = validate_credentials(Ok(vec![(7, h)]), "wrong");
    assert!(matches!(unknown, Err(CustomError::AuthenticationError(AuthError::InvalidCredentials))));
    assert!(matches!(wrong, Err(CustomError::AuthenticationError(AuthError::InvalidCredentials))));
    assert_eq!(unknown.err().unwrap().message(), wrong.err().unwrap().message());
}

#[test]
fn right_password_gives_the_actor() {
    let h = hash_password("right").unwrap();
    assert_eq!(validate_credentials(Ok(vec![(7, h.clone())]), "right").ok(), Some(7));
    assert_eq!(validate_admin_credentials(Ok(vec![(9, h)]), "right").ok(), Some(9));
}

#[test]
fn lookup_failures_are_database_errors() {
    let r = validate_credentials(Err(DbError::ConnectionError("down".to_string())), "x");
    assert!(matches!(r, Err(CustomError::DatabaseError(DbError::ConnectionError(_)))));
    let r = stored_credentials(Err(DbError::QueryError("bad".to_string())));
    assert!(matches!(r, Err(CustomError::DatabaseError(DbError::QueryError(_)))));
}

#[test]
fn the_first_row_is_used() {
    let r = stored_credentials(Ok(vec![(1, "h1".to_string()), (2, "h2".to_string())]));
    let (id, h) = r.unwrap();
    assert_eq!(id, 1);
    assert_eq!(h, "h1");
}

#[test]
fn worker_failure_is_a_blocking_error() {
    let r = login_decision(3, Err("pool gone".to_string()));
    assert!(matches!(r, Err(CustomError::BlockingError(ref m)) if m == "pool gone"));
    assert_eq!(login_decision(3, Ok(Ok(true))).ok(), Some(3));
    assert!(matches!(
        login_decision(3, Ok(Ok(false))),
        Err(CustomError::AuthenticationError(AuthError::InvalidCredentials))
    ));
    assert!(matches!(
        login_decision(3, Ok(Err(CustomError::HashingError("x".to_string())))),
        Err(CustomError::HashingError(_))
    ));
}

#[test]
fn a_readable_hash_that_does_not_match_is_not_a_hashing_error() {
    let h = hash_password("right").unwrap();
    let r = validate_admin_credentials(Ok(vec![(9, h)]), "wrong");
    assert!(matches!(r, Err(CustomError::AuthenticationError(AuthError::InvalidCredentials))));
    let r = validate_credentials(Ok(vec![(9, "no phc string here".to_string())]), "wrong");
    assert!(matches!(r, Err(CustomError::HashingError(_))));
}
