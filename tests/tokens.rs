use ecommerce::auth::{
    claims_json, create_jwt, issue_claims, issue_token, parse_claims, subject_id, verify_jwt,
    verify_payload, verify_token, Claims, GRACE_PERIOD, ISSUER, TOKEN_LIFETIME,
};
use ecommerce::decimal::{append_decimal, read_number};
use ecommerce::errors::AuthError;

const SECRET: &[u8] = b"a-test-signing-secret";
const ID: u128 = 0x67e5_5044_10b1_426f_9247_bb68_0e5f_e0c8;

fn claims(sub: &str, exp: u64, iss: &str, iat: u64, nfb: u64) -> Claims {
    Claims { sub: sub.to_string(), exp, iss: iss.to_string(), iat, nfb }
}

#[test]
fn issued_claims_have_the_fixed_windows() {
    let c = issue_claims("someone", 1_000);
    assert_eq!(c.sub, "someone");
    assert_eq!(c.iss, ISSUER);
    assert_eq!(c.iat, 1_000);
    assert_eq!(c.nfb, 1_000 + GRACE_PERIOD);
    assert_eq!(c.exp, 1_000 + TOKEN_LIFETIME);
    assert_eq!(GRACE_PERIOD, 10);
    assert_eq!(TOKEN_LIFETIME, 3600);
}

#[test]
fn claims_are_written_in_a_fixed_form() {
    let c = claims("abc", 4600, "ecommerce", 1000, 1010);
    assert_eq!(
        claims_json(&c),
        "{\"sub\":\"abc\",\"exp\":4600,\"iss\":\"ecommerce\",\"iat\":1000,\"nfb\":1010}"
    );
    let z = claims("", 0, "", 0, u64::MAX);
    assert_eq!(
        claims_json(&z),
        "{\"sub\":\"\",\"exp\":0,\"iss\":\"\",\"iat\":0,\"nfb\":18446744073709551615}"
    );
}

#[test]
fn written_claims_read_back() {
    let c = claims("67e55044-10b1-426f-9247-bb680e5fe0c8", 7, "ecommerce", 0, u64::MAX);
    let back = parse_claims(&claims_json(&c)).unwrap();
    assert_eq!(back.sub, c.sub);
    assert_eq!(back.exp, 7);
    assert_eq!(back.iss, "ecommerce");
    assert_eq!(back.iat, 0);
    assert_eq!(back.nfb, u64::MAX);
}

#[test]
fn other_claim_texts_are_refused() {
    let good = "{\"sub\":\"a\",\"exp\":1,\"iss\":\"i\",\"iat\":2,\"nfb\":3}";
    assert!(parse_claims(good).is_some());
    assert!(parse_claims("{\"sub\":\"a\",\"exp\":01,\"iss\":\"i\",\"iat\":2,\"nfb\":3}").is_none());
    assert!(parse_claims("{\"sub\":\"a\", \"exp\":1,\"iss\":\"i\",\"iat\":2,\"nfb\":3}").is_none());
    assert!(parse_claims("{\"sub\":\"a\",\"exp\":1,\"iss\":\"i\",\"iat\":2,\"nfb\":3} ").is_none());
    assert!(parse_claims("{\"sub\":\"a\\\"\",\"exp\":1,\"iss\":\"i\",\"iat\":2,\"nfb\":3}").is_none());
    assert!(parse_claims("{\"sub\":\"a\",\"exp\":18446744073709551616,\"iss\":\"i\",\"iat\":2,\"nfb\":3}").is_none());
    assert!(parse_claims("").is_none());
}

#[test]
fn decimal_text_round_trip() {
    let mut s = String::from("x");
    append_decimal(&mut s, 9_007_199_254_740_993);
    assert_eq!(s, "x9007199254740993");
    assert_eq!(read_number(&s, s.chars().count(), 1), Some((9_007_199_254_740_993, 17)));
    assert_eq!(read_number("0,", 2, 0), Some((0, 1)));
    assert_eq!(read_number("00", 2, 0), None);
    assert_eq!(read_number(",", 1, 0), None);
}

#[test]
fn claim_checks_in_order() {
    let now = 5_000;
    assert!(verify_payload(&claims_json(&claims("s", 6_000, "ecommerce", 4_000, 4_010)), now).is_ok());
    let expired = claims_json(&claims("s", 4_999, "other", 6_000, 6_000));
    assert!(matches!(verify_payload(&expired, now), Err(AuthError::Expired)));
    let issuer = claims_json(&claims("s", 6_000, "other", 6_000, 6_000));
    assert!(matches!(verify_payload(&issuer, now), Err(AuthError::InvalidIssuer)));
    let future = claims_json(&claims("s", 6_000, "ecommerce", 5_001, 6_000));
    assert!(matches!(verify_payload(&future, now), Err(AuthError::IssuedInFuture)));
    let early = claims_json(&claims("s", 6_000, "ecommerce", 5_000, 5_001));
    assert!(matches!(verify_payload(&early, now), Err(AuthError::NotYetValid)));
    assert!(matches!(verify_payload("{}", now), Err(AuthError::InvalidToken)));
}

#[test]
fn a_fresh_token_passes_after_the_grace_period() {
    let iat = 1_700_000_000;
    let token = issue_token(ID, SECRET, iat);
    let c = verify_token(&token, SECRET, iat + GRACE_PERIOD).unwrap();
    assert_eq!(c.sub, "67e55044-10b1-426f-9247-bb680e5fe0c8");
    assert_eq!(subject_id(&c), Some(ID));
    assert!(verify_token(&token, SECRET, iat + TOKEN_LIFETIME).is_ok());
}

#[test]
fn a_token_checked_at_its_issue_instant_is_not_yet_valid() {
    let iat = 1_700_000_000;
    let token = issue_token(ID, SECRET, iat);
    assert!(matches!(verify_token(&token, SECRET, iat), Err(AuthError::NotYetValid)));
}

#[test]
fn an_expired_token_fails_with_expired() {
    let iat = 1_700_000_000;
    let token = issue_token(ID, SECRET, iat);
    let r = verify_token(&token, SECRET, iat + TOKEN_LIFETIME + 1);
    assert!(matches!(r, Err(AuthError::Expired)));
}

#[test]
fn a_tampered_token_fails_with_invalid_token() {
    let iat = 1_700_000_000;
    let token = issue_token(ID, SECRET, iat);
    let mut chars: Vec<char> = token.chars().collect();
    let last = chars.len() - 2;
    chars[last] = if chars[last] == 'A' { 'B' } else { 'A' };
    let tampered: String = chars.into_iter().collect();
    assert_ne!(tampered, token);
    let r = verify_token(&tampered, SECRET, iat + 100);
    assert!(matches!(r, Err(AuthError::InvalidToken)));
    let r = verify_token(&token, b"another-secret", iat + 100);
    assert!(matches!(r, Err(AuthError::InvalidToken)));
    assert!(matches!(verify_token("not.a.token", SECRET, iat), Err(AuthError::InvalidToken)));
}

#[test]
fn tokens_for_different_actors_differ() {
    let a = issue_token(1, SECRET, 50);
    let b = issue_token(2, SECRET, 50);
    assert_ne!(a, b);
    assert_eq!(issue_token(1, SECRET, 50), a);
}

#[test]
fn create_and_verify_against_the_clock() {
    let token = create_jwt(ID, SECRET);
    // Within the grace period the token is not valid yet.
    assert!(matches!(verify_jwt(&token, SECRET), Err(AuthError::NotYetValid)));
}
