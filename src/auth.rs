use crate::decimal::{
    append_decimal, decimal, digit_char, is_digit, lemma_number_at_unique, number_at, read_number,
};
use crate::errors::AuthError;
use vstd::prelude::*;

verus! {

/// The issuer that every token of this service names.
pub const ISSUER: &'static str = "ecommerce";

/// Seconds between issuing a token and the moment it becomes valid.
pub const GRACE_PERIOD: u64 = 10;

/// Seconds for which a token stays valid after it was issued.
pub const TOKEN_LIFETIME: u64 = 3600;

/// The signed claims of a bearer token.
#[derive(Debug)]
pub struct Claims {
    /// The actor's identifier, as hyphenated UUID text.
    pub sub: String,
    /// Expiry, in seconds since the epoch.
    pub exp: u64,
    pub iss: String,
    /// Time of issue, in seconds since the epoch.
    pub iat: u64,
    /// Not valid before this time.
    pub nfb: u64,
}

pub struct ClaimsView {
    pub sub: Seq<char>,
    pub exp: u64,
    pub iss: Seq<char>,
    pub iat: u64,
    pub nfb: u64,
}

impl View for Claims {
    type V = ClaimsView;

    open spec fn view(&self) -> ClaimsView {
        ClaimsView { sub: self.sub@, exp: self.exp, iss: self.iss@, iat: self.iat, nfb: self.nfb }
    }
}

/// A character that a claim string carries without escaping.
pub open spec fn plain_char(c: char) -> bool {
    c != '"' && c != '\\' && c as u32 >= 0x20
}

pub open spec fn plain(s: Seq<char>) -> bool {
    forall|i: int| 0 <= i < s.len() ==> plain_char(#[trigger] s[i])
}

/// Claims whose strings can be written without escapes.
pub open spec fn claims_well_formed(v: ClaimsView) -> bool {
    plain(v.sub) && plain(v.iss)
}

/// The JSON text of the claims, in a fixed field order and without spaces.
pub open spec fn claims_text(v: ClaimsView) -> Seq<char> {
    "{\"sub\":\""@ + v.sub + "\",\"exp\":"@ + decimal(v.exp as nat) + ",\"iss\":\""@ + v.iss
        + "\",\"iat\":"@ + decimal(v.iat as nat) + ",\"nfb\":"@ + decimal(v.nfb as nat) + "}"@
}

/// The claims issued at time `now` for subject `sub`.
pub open spec fn issued_claims(sub: Seq<char>, now: u64) -> ClaimsView
    recommends
        now <= u64::MAX - TOKEN_LIFETIME,
{
    ClaimsView {
        sub,
        exp: (now + TOKEN_LIFETIME) as u64,
        iss: ISSUER@,
        iat: now,
        nfb: (now + GRACE_PERIOD) as u64,
    }
}

/// The time checks and the issuer check, in the order in which they are made.
pub open spec fn claims_check(v: ClaimsView, now: u64) -> Result<(), AuthError> {
    if now > v.exp {
        Err(AuthError::Expired)
    } else if v.iss != ISSUER@ {
        Err(AuthError::InvalidIssuer)
    } else if v.iat > now {
        Err(AuthError::IssuedInFuture)
    } else if v.nfb > now {
        Err(AuthError::NotYetValid)
    } else {
        Ok(())
    }
}

/// `r` is what checking the claims `v` at time `now` gives.
pub open spec fn checked_outcome(r: Result<Claims, AuthError>, v: ClaimsView, now: u64) -> bool {
    match claims_check(v, now) {
        Ok(_) => r matches Ok(c) && c@ == v,
        Err(e) => r matches Err(x) && x == e,
    }
}

/// `r` is the verdict on a signed payload `p` at time `now`: claims that
/// read back are checked, anything else is an invalid token.
pub open spec fn payload_outcome(r: Result<Claims, AuthError>, p: Seq<char>, now: u64) -> bool {
    &&& forall|v: ClaimsView|
        claims_well_formed(v) && #[trigger] claims_text(v) == p ==> checked_outcome(r, v, now)
    &&& (forall|v: ClaimsView| !(claims_well_formed(v) && #[trigger] claims_text(v) == p)) ==> r
        == Err::<Claims, AuthError>(AuthError::InvalidToken)
}

/// The token that signs `payload` with HS256 under `secret`.
pub uninterp spec fn signed_token(payload: Seq<char>, secret: Seq<u8>) -> Seq<char>;

/// The payload text that `decode_payload` reads from `token` under `secret`,
/// if it reads one: the signature must verify and the payload must pass the
/// decoder's own checks.
pub uninterp spec fn token_payload(token: Seq<char>, secret: Seq<u8>) -> Option<Seq<char>>;

/// The error type of `jsonwebtoken`.
#[verifier::external_type_specification]
#[verifier::external_body]
pub struct ExJwtError(jsonwebtoken::errors::Error);

/// Lower-case hex digit of a value below 16.
pub open spec fn hex_digit(n: u128) -> char {
    if n < 10 {
        digit_char(n as nat)
    } else if n == 10 {
        'a'
    } else if n == 11 {
        'b'
    } else if n == 12 {
        'c'
    } else if n == 13 {
        'd'
    } else if n == 14 {
        'e'
    } else {
        'f'
    }
}

/// Which of the 32 hex digits stands at position `i` of the hyphenated text.
pub open spec fn nibble_index(i: int) -> int {
    if i < 8 {
        i
    } else if i < 13 {
        i - 1
    } else if i < 18 {
        i - 2
    } else if i < 23 {
        i - 3
    } else {
        i - 4
    }
}

/// Hyphenated lower-case text of a UUID: its 32 hex digits, most
/// significant first, with hyphens at positions 8, 13, 18 and 23.
pub open spec fn hyphenated(id: u128) -> Seq<char> {
    Seq::new(
        36,
        |i: int|
            if i == 8 || i == 13 || i == 18 || i == 23 {
                '-'
            } else {
                hex_digit((id >> ((124 - 4 * nibble_index(i)) as u128)) & 0xf)
            },
    )
}

/// The hyphenated text of an identifier needs no escaping.
pub proof fn lemma_hyphenated_plain(id: u128)
    ensures
        plain(hyphenated(id)),
        forall|i: int| 0 <= i < hyphenated(id).len() ==> uuid_char(#[trigger] hyphenated(id)[i]),
{
    let s = hyphenated(id);
    assert forall|i: int| 0 <= i < s.len() implies uuid_char(#[trigger] s[i]) && plain_char(s[i]) by {
        if !(i == 8 || i == 13 || i == 18 || i == 23) {
            let n = (id >> ((124 - 4 * nibble_index(i)) as u128)) & 0xf;
            if n < 10 {
                assert(is_digit(digit_char(n as nat)));
            }
        }
    }
}

pub open spec fn uuid_char(c: char) -> bool {
    ('0' <= c && c <= '9') || ('a' <= c && c <= 'f') || c == '-'
}

/// Relies on `serde_json::value::RawValue::from_string`, which keeps valid
/// JSON text as it stands, and on `jsonwebtoken::encode` with the default
/// HS256 header, whose HMAC signing cannot fail. A claims text is valid JSON
/// with no surrounding space, no repeated key and no audience claim, so the
/// token is made, is a function of payload and secret, and `decode_payload`
/// reads exactly that text back from it.
#[verifier::external_body]
fn sign_payload(payload: &str, secret: &[u8]) -> (r: Result<String, jsonwebtoken::errors::Error>)
    requires
        exists|v: ClaimsView| claims_well_formed(v) && #[trigger] claims_text(v) == payload@,
    ensures
        r is Ok,
        r matches Ok(t) ==> t@ == signed_token(payload@, secret@) && token_payload(t@, secret@)
            == Some(payload@),
{
    let raw = serde_json::value::RawValue::from_string(payload.to_string())?;
    let key = jsonwebtoken::EncodingKey::from_secret(secret);
    jsonwebtoken::encode(&jsonwebtoken::Header::default(), &raw, &key)
}

/// Relies on `jsonwebtoken::decode` for HS256 with the expiry check and the
/// required claims switched off, into a `RawValue`: with no clock involved,
/// the result depends on token and secret alone; `token_payload` names it.
#[verifier::external_body]
fn decode_payload(token: &str, secret: &[u8]) -> (r: Result<String, jsonwebtoken::errors::Error>)
    ensures
        match r {
            Ok(p) => token_payload(token@, secret@) == Some(p@),
            Err(_) => token_payload(token@, secret@) is None,
        },
{
    let mut validation = jsonwebtoken::Validation::new(jsonwebtoken::Algorithm::HS256);
    validation.validate_exp = false;
    validation.required_spec_claims.clear();
    let key = jsonwebtoken::DecodingKey::from_secret(secret);
    let data = jsonwebtoken::decode::<Box<serde_json::value::RawValue>>(token, &key, &validation)?;
    Ok(data.claims.get().to_string())
}

/// Relies on `chrono::Utc::now().timestamp()`: the current time, in whole
/// seconds since the epoch. chrono reads the system clock as a duration
/// since the epoch (it panics on a clock set before 1970), so the count is
/// never negative; nothing more is known of it.
#[verifier::external_body]
fn clock_now() -> (r: i64)
    ensures
        r >= 0,
{
    chrono::Utc::now().timestamp()
}

/// Relies on `uuid::Uuid::from_u128`, which takes the bytes most
/// significant first, and its `Display`, the hyphenated lower-case form.
#[verifier::external_body]
pub(crate) fn uuid_text(id: u128) -> (r: String)
    ensures
        r@ == hyphenated(id),
{
    uuid::Uuid::from_u128(id).to_string()
}

/// Relies on `uuid::Uuid::parse_str` and `Uuid::as_u128`: the hyphenated text
/// of an identifier parses back to that identifier.
#[verifier::external_body]
pub(crate) fn parse_uuid(s: &str) -> (r: Option<u128>)
    ensures
        forall|id: u128| #[trigger] hyphenated(id) == s@ ==> r == Some(id),
{
    uuid::Uuid::parse_str(s).ok().map(|u| u.as_u128())
}

/// Whether `lit` stands in `t` at `pos`; if so, the position after it.
fn match_lit(t: &str, n: usize, pos: usize, lit: &str) -> (r: Option<usize>)
    requires
        n == t@.len(),
        pos <= n,
    ensures
        match r {
            Some(e) => e == pos + lit@.len() && e <= n && t@.subrange(pos as int, e as int)
                == lit@,
            None => !(pos + lit@.len() <= n && t@.subrange(pos as int, pos + lit@.len())
                == lit@),
        },
{
    let m = lit.unicode_len();
    if m > n - pos {
        return None;
    }
    let mut i: usize = 0;
    while i < m
        invariant
            n == t@.len(),
            m == lit@.len(),
            pos + m <= n,
            i <= m,
            forall|j: int| 0 <= j < i ==> t@[pos + j] == lit@[j],
        decreases m - i,
    {
        if t.get_char(pos + i) != lit.get_char(i) {
            assert(t@.subrange(pos as int, pos + m)[i as int] != lit@[i as int]);
            return None;
        }
        i = i + 1;
    }
    assert(t@.subrange(pos as int, pos + m) =~= lit@);
    Some(pos + m)
}

pub fn is_plain_char(c: char) -> (r: bool)
    ensures
        r == plain_char(c),
{
    c != '"' && c != '\\' && c as u32 >= 0x20
}

/// The plain text that starts at `pos` and ends at the next quote, if all
/// of it is plain; returns the position of that quote.
fn scan_plain(t: &str, n: usize, pos: usize) -> (r: Option<usize>)
    requires
        n == t@.len(),
        pos <= n,
    ensures
        r matches Some(e) ==> pos <= e < n && t@[e as int] == '"' && plain(
            t@.subrange(pos as int, e as int),
        ),
        forall|e: int|
            pos <= e < n && t@[e] == '"' && #[trigger] plain(t@.subrange(pos as int, e)) ==> r
                == Some(e as usize),
{
    let mut i: usize = pos;
    while i < n
        invariant
            n == t@.len(),
            pos <= i <= n,
            forall|j: int| pos <= j < i ==> plain_char(#[trigger] t@[j]),
        decreases n - i,
    {
        let c = t.get_char(i);
        if c == '"' {
            proof {
                assert forall|e: int|
                    pos <= e < n && t@[e] == '"' && #[trigger] plain(
                        t@.subrange(pos as int, e),
                    ) implies e == i by {
                    if e < i {
                        assert(plain_char(t@[e]));
                    } else if e > i {
                        assert(t@.subrange(pos as int, e)[i - pos] == t@[i as int]);
                    }
                }
            }
            return Some(i);
        }
        if !is_plain_char(c) {
            proof {
                assert forall|e: int|
                    pos <= e < n && t@[e] == '"' && #[trigger] plain(
                        t@.subrange(pos as int, e),
                    ) implies false by {
                    if e < i {
                        assert(plain_char(t@[e]));
                    } else if e > i {
                        assert(t@.subrange(pos as int, e)[i - pos] == t@[i as int]);
                    }
                }
            }
            return None;
        }
        i = i + 1;
    }
    None
}

/// Writes the JSON text of well-formed claims.
pub fn claims_json(c: &Claims) -> (r: String)
    ensures
        r@ == claims_text(c@),
{
    let mut out = String::new();
    out.append("{\"sub\":\"");
    out.append(c.sub.as_str());
    out.append("\",\"exp\":");
    append_decimal(&mut out, c.exp);
    out.append(",\"iss\":\"");
    out.append(c.iss.as_str());
    out.append("\",\"iat\":");
    append_decimal(&mut out, c.iat);
    out.append(",\"nfb\":");
    append_decimal(&mut out, c.nfb);
    out.append("}");
    assert(out@ =~= claims_text(c@));
    out
}

proof fn lemma_join(t: Seq<char>, i: int, j: int, k: int)
    requires
        0 <= i <= j <= k <= t.len(),
    ensures
        t.subrange(i, k) == t.subrange(i, j) + t.subrange(j, k),
{
    assert(t.subrange(i, k) =~= t.subrange(i, j) + t.subrange(j, k));
}

/// Where each part of the claims text stands.
proof fn lemma_layout(v: ClaimsView)
    requires
        claims_well_formed(v),
    ensures
        ({
            let t = claims_text(v);
            let a: int = 8 + v.sub.len() as int;
            let b: int = a + 8 + decimal(v.exp as nat).len();
            let c: int = b + 8 + v.iss.len();
            let d: int = c + 8 + decimal(v.iat as nat).len();
            let e: int = d + 7 + decimal(v.nfb as nat).len();
            &&& t.len() == e + 1
            &&& t.subrange(0, 8) == "{\"sub\":\""@
            &&& t[a] == '"'
            &&& plain(t.subrange(8, a))
            &&& t.subrange(8, a) == v.sub
            &&& t.subrange(a, a + 8) == "\",\"exp\":"@
            &&& number_at(t, a + 8, v.exp as nat)
            &&& t.subrange(b, b + 8) == ",\"iss\":\""@
            &&& t[c] == '"'
            &&& plain(t.subrange(b + 8, c))
            &&& t.subrange(b + 8, c) == v.iss
            &&& t.subrange(c, c + 8) == "\",\"iat\":"@
            &&& number_at(t, c + 8, v.iat as nat)
            &&& t.subrange(d, d + 7) == ",\"nfb\":"@
            &&& number_at(t, d + 7, v.nfb as nat)
            &&& t.subrange(e, e + 1) == "}"@
        }),
{
    reveal_strlit("{\"sub\":\"");
    reveal_strlit("\",\"exp\":");
    reveal_strlit(",\"iss\":\"");
    reveal_strlit("\",\"iat\":");
    reveal_strlit(",\"nfb\":");
    reveal_strlit("}");
    let t = claims_text(v);
    let l1 = "{\"sub\":\""@;
    let l2 = "\",\"exp\":"@;
    let l3 = ",\"iss\":\""@;
    let l4 = "\",\"iat\":"@;
    let l5 = ",\"nfb\":"@;
    let l6 = "}"@;
    let de = decimal(v.exp as nat);
    let di = decimal(v.iat as nat);
    let dn = decimal(v.nfb as nat);
    let a: int = 8 + v.sub.len() as int;
    let b: int = a + 8 + de.len();
    let c: int = b + 8 + v.iss.len();
    let d: int = c + 8 + di.len();
    let e: int = d + 7 + dn.len();
    assert(t == l1 + v.sub + l2 + de + l3 + v.iss + l4 + di + l5 + dn + l6);
    assert(t.len() == e + 1);
    assert(t.subrange(0, 8) =~= l1);
    assert(t.subrange(8, a) =~= v.sub);
    assert(t[a] == l2[0]);
    assert(t.subrange(a, a + 8) =~= l2);
    assert(t.subrange(a + 8, b) =~= de);
    assert(t[b] == l3[0]);
    assert(t.subrange(b, b + 8) =~= l3);
    assert(t.subrange(b + 8, c) =~= v.iss);
    assert(t[c] == l4[0]);
    assert(t.subrange(c, c + 8) =~= l4);
    assert(t.subrange(c + 8, d) =~= di);
    assert(t[d] == l5[0]);
    assert(t.subrange(d, d + 7) =~= l5);
    assert(t.subrange(d + 7, e) =~= dn);
    assert(t[e] == l6[0]);
    assert(t.subrange(e, e + 1) =~= l6);
}

/// Different claims have different texts.
pub proof fn lemma_claims_text_injective(v1: ClaimsView, v2: ClaimsView)
    requires
        claims_well_formed(v1),
        claims_well_formed(v2),
        claims_text(v1) == claims_text(v2),
    ensures
        v1 == v2,
{
    lemma_layout(v1);
    lemma_layout(v2);
    let t = claims_text(v1);
    let a1: int = 8 + v1.sub.len() as int;
    let a2: int = 8 + v2.sub.len() as int;
    if a1 < a2 {
        assert(t.subrange(8, a2)[a1 - 8] == t[a1]);
    } else if a2 < a1 {
        assert(t.subrange(8, a1)[a2 - 8] == t[a2]);
    }
    assert(v1.sub == v2.sub);
    lemma_number_at_unique(t, a1 + 8, v1.exp as nat, v2.exp as nat);
    let b: int = a1 + 8 + decimal(v1.exp as nat).len();
    let c1: int = b + 8 + v1.iss.len();
    let c2: int = b + 8 + v2.iss.len();
    if c1 < c2 {
        assert(t.subrange(b + 8, c2)[c1 - b - 8] == t[c1]);
    } else if c2 < c1 {
        assert(t.subrange(b + 8, c1)[c2 - b - 8] == t[c2]);
    }
    assert(v1.iss == v2.iss);
    lemma_number_at_unique(t, c1 + 8, v1.iat as nat, v2.iat as nat);
    let d: int = c1 + 8 + decimal(v1.iat as nat).len();
    lemma_number_at_unique(t, d + 7, v1.nfb as nat, v2.nfb as nat);
}

/// Reads claims back from the text that `claims_json` writes; any other
/// text gives `None`.
#[verifier::spinoff_prover]
#[verifier::rlimit(50)]
pub fn parse_claims(t: &str) -> (r: Option<Claims>)
    ensures
        r matches Some(c) ==> claims_well_formed(c@) && claims_text(c@) == t@,
        forall|v: ClaimsView|
            claims_well_formed(v) && #[trigger] claims_text(v) == t@ ==> (r matches Some(c)
                && c@ == v),
{
    proof {
        reveal_strlit("{\"sub\":\"");
        reveal_strlit("\",\"exp\":");
        reveal_strlit(",\"iss\":\"");
        reveal_strlit("\",\"iat\":");
        reveal_strlit(",\"nfb\":");
        reveal_strlit("}");
    }
    // When some well-formed claims are written as `t`, their parts stand at
    // the positions below, and each step must find its part there.
    let ghost expected = exists|v: ClaimsView|
        claims_well_formed(v) && #[trigger] claims_text(v) == t@;
    let ghost v0 = choose|v: ClaimsView| claims_well_formed(v) && #[trigger] claims_text(v) == t@;
    let ghost a: int = 8 + v0.sub.len() as int;
    let ghost b: int = a + 8 + decimal(v0.exp as nat).len();
    let ghost c: int = b + 8 + v0.iss.len();
    let ghost d: int = c + 8 + decimal(v0.iat as nat).len();
    let ghost e: int = d + 7 + decimal(v0.nfb as nat).len();
    proof {
        if expected {
            lemma_layout(v0);
        }
    }
    let n = t.unicode_len();
    let sub_start = match match_lit(t, n, 0, "{\"sub\":\"") {
        Some(p) => p,
        None => { return None; },
    };
    assert(expected ==> sub_start == 8);
    let sub_end = match scan_plain(t, n, sub_start) {
        Some(x) => x,
        None => { return None; },
    };
    assert(expected ==> sub_end == a);
    let exp_start = match match_lit(t, n, sub_end, "\",\"exp\":") {
        Some(p) => p,
        None => { return None; },
    };
    assert(expected ==> exp_start == a + 8);
    let (exp, exp_end) = match read_number(t, n, exp_start) {
        Some(x) => x,
        None => { return None; },
    };
    assert(expected ==> exp_end == b && exp == v0.exp);
    let iss_start = match match_lit(t, n, exp_end, ",\"iss\":\"") {
        Some(p) => p,
        None => { return None; },
    };
    assert(expected ==> iss_start == b + 8);
    let iss_end = match scan_plain(t, n, iss_start) {
        Some(x) => x,
        None => { return None; },
    };
    assert(expected ==> iss_end == c);
    let iat_start = match match_lit(t, n, iss_end, "\",\"iat\":") {
        Some(p) => p,
        None => { return None; },
    };
    assert(expected ==> iat_start == c + 8);
    let (iat, iat_end) = match read_number(t, n, iat_start) {
        Some(x) => x,
        None => { return None; },
    };
    assert(expected ==> iat_end == d && iat == v0.iat);
    let nfb_start = match match_lit(t, n, iat_end, ",\"nfb\":") {
        Some(p) => p,
        None => { return None; },
    };
    assert(expected ==> nfb_start == d + 7);
    let (nfb, nfb_end) = match read_number(t, n, nfb_start) {
        Some(x) => x,
        None => { return None; },
    };
    assert(expected ==> nfb_end == e && nfb == v0.nfb);
    let end = match match_lit(t, n, nfb_end, "}") {
        Some(p) => p,
        None => { return None; },
    };
    if end != n {
        return None;
    }
    let sub = String::from_str(t.substring_char(sub_start, sub_end));
    let iss = String::from_str(t.substring_char(iss_start, iss_end));
    let claims = Claims { sub, exp, iss, iat, nfb };
    proof {
        let ts = t@;
        lemma_join(ts, 0, sub_start as int, sub_end as int);
        lemma_join(ts, 0, sub_end as int, exp_start as int);
        lemma_join(ts, 0, exp_start as int, exp_end as int);
        lemma_join(ts, 0, exp_end as int, iss_start as int);
        lemma_join(ts, 0, iss_start as int, iss_end as int);
        lemma_join(ts, 0, iss_end as int, iat_start as int);
        lemma_join(ts, 0, iat_start as int, iat_end as int);
        lemma_join(ts, 0, iat_end as int, nfb_start as int);
        lemma_join(ts, 0, nfb_start as int, nfb_end as int);
        lemma_join(ts, 0, nfb_end as int, end as int);
        assert(ts.subrange(0, n as int) =~= ts);
        assert(claims_text(claims@) =~= ts);
        if expected {
            assert(claims@ == v0);
            assert forall|v: ClaimsView|
                claims_well_formed(v) && #[trigger] claims_text(v) == t@ implies claims@ == v by {
                lemma_claims_text_injective(v, v0);
            }
        }
    }
    Some(claims)
}
/// The verdict on `token` under `secret` at time `now`: a bad signature or
/// malformed token is an invalid token, signed claims are checked.
pub open spec fn token_outcome(
    r: Result<Claims, AuthError>,
    token: Seq<char>,
    secret: Seq<u8>,
    now: u64,
) -> bool {
    match token_payload(token, secret) {
        None => r == Err::<Claims, AuthError>(AuthError::InvalidToken),
        Some(p) => payload_outcome(r, p, now),
    }
}

/// The claims issued at `now` for the subject `sub`.
pub fn issue_claims(sub: &str, now: u64) -> (r: Claims)
    requires
        now <= u64::MAX - TOKEN_LIFETIME,
    ensures
        r@ == issued_claims(sub@, now),
{
    Claims {
        sub: String::from_str(sub),
        exp: now + TOKEN_LIFETIME,
        iss: String::from_str(ISSUER),
        iat: now,
        nfb: now + GRACE_PERIOD,
    }
}

/// Whether two texts hold the same characters.
pub fn same_text(a: &str, b: &str) -> (r: bool)
    ensures
        r == (a@ == b@),
{
    let n = a.unicode_len();
    if n != b.unicode_len() {
        return false;
    }
    let mut i: usize = 0;
    while i < n
        invariant
            n == a@.len(),
            n == b@.len(),
            i <= n,
            forall|j: int| 0 <= j < i ==> a@[j] == b@[j],
        decreases n - i,
    {
        if a.get_char(i) != b.get_char(i) {
            return false;
        }
        i = i + 1;
    }
    assert(a@ =~= b@);
    true
}

/// The expiry, issuer, issued-at and not-before checks, in this order.
pub fn check_claims(c: &Claims, now: u64) -> (r: Result<(), AuthError>)
    ensures
        r == claims_check(c@, now),
{
    if now > c.exp {
        Err(AuthError::Expired)
    } else if !same_text(c.iss.as_str(), ISSUER) {
        Err(AuthError::InvalidIssuer)
    } else if c.iat > now {
        Err(AuthError::IssuedInFuture)
    } else if c.nfb > now {
        Err(AuthError::NotYetValid)
    } else {
        Ok(())
    }
}

/// The verdict on a payload whose signature has verified.
pub fn verify_payload(payload: &str, now: u64) -> (r: Result<Claims, AuthError>)
    ensures
        payload_outcome(r, payload@, now),
{
    match parse_claims(payload) {
        None => Err(AuthError::InvalidToken),
        Some(c) => match check_claims(&c, now) {
            Ok(()) => Ok(c),
            Err(e) => Err(e),
        },
    }
}

/// Verifies a token at time `now`: signature first, then the claims.
pub fn verify_token(token: &str, secret: &[u8], now: u64) -> (r: Result<Claims, AuthError>)
    ensures
        token_outcome(r, token@, secret@, now),
{
    match decode_payload(token, secret) {
        Err(_) => Err(AuthError::InvalidToken),
        Ok(p) => verify_payload(p.as_str(), now),
    }
}

/// Signs the claims issued at `now` for the actor `user_id`.
pub fn issue_token(user_id: u128, secret: &[u8], now: u64) -> (r: String)
    requires
        now <= u64::MAX - TOKEN_LIFETIME,
    ensures
        r@ == signed_token(claims_text(issued_claims(hyphenated(user_id), now)), secret@),
        token_payload(r@, secret@) == Some(claims_text(issued_claims(hyphenated(user_id), now))),
{
    let sub = uuid_text(user_id);
    let claims = issue_claims(sub.as_str(), now);
    let text = claims_json(&claims);
    proof {
        reveal_strlit("ecommerce");
        lemma_hyphenated_plain(user_id);
        assert(claims_well_formed(claims@));
    }
    let signed = sign_payload(text.as_str(), secret);
    signed.unwrap()
}

/// The current time in whole seconds since the epoch.
fn now_seconds() -> (r: u64)
    ensures
        r <= i64::MAX,
{
    clock_now() as u64
}

/// Issues a signed token for `user_id`, valid from ten seconds after now
/// for one hour.
pub fn create_jwt(user_id: u128, secret: &[u8]) -> (r: String)
    ensures
        exists|now: u64|
            #![trigger issued_claims(hyphenated(user_id), now)]
            token_payload(r@, secret@) == Some(claims_text(issued_claims(hyphenated(user_id), now))),
{
    let now = now_seconds();
    issue_token(user_id, secret, now)
}

/// Verifies a token against the current time.
pub fn verify_jwt(token: &str, secret: &[u8]) -> (r: Result<Claims, AuthError>)
    ensures
        exists|now: u64| #[trigger] token_outcome(r, token@, secret@, now),
{
    let now = now_seconds();
    let r = verify_token(token, secret, now);
    assert(token_outcome(r, token@, secret@, now));
    r
}

/// The actor that the claims name.
pub fn subject_id(c: &Claims) -> (r: Option<u128>)
    ensures
        forall|id: u128| #[trigger] hyphenated(id) == c.sub@ ==> r == Some(id),
{
    parse_uuid(c.sub.as_str())
}

/// A token's claims pass every check from the end of the grace period
/// until the token expires.
pub proof fn lemma_fresh_claims_pass(sub: Seq<char>, iat: u64, now: u64)
    requires
        iat <= u64::MAX - TOKEN_LIFETIME,
        iat + GRACE_PERIOD <= now <= iat + TOKEN_LIFETIME,
    ensures
        claims_check(issued_claims(sub, iat), now) == Ok::<(), AuthError>(()),
{
}

/// After its lifetime a token's claims fail with `Expired`.
pub proof fn lemma_expired_claims_fail(sub: Seq<char>, iat: u64, now: u64)
    requires
        iat <= u64::MAX - TOKEN_LIFETIME,
        now > iat + TOKEN_LIFETIME,
    ensures
        claims_check(issued_claims(sub, iat), now) == Err::<(), AuthError>(AuthError::Expired),
{
}

/// A token that carries the claims issued at `iat` for `sub` is accepted,
/// with exactly those claims, from the end of the grace period until it
/// expires, and rejected as expired afterwards.
pub proof fn lemma_issued_token_verdict(
    token: Seq<char>,
    secret: Seq<u8>,
    sub: Seq<char>,
    iat: u64,
    now: u64,
    r: Result<Claims, AuthError>,
)
    requires
        plain(sub),
        iat <= u64::MAX - TOKEN_LIFETIME,
        token_payload(token, secret) == Some(claims_text(issued_claims(sub, iat))),
        token_outcome(r, token, secret, now),
    ensures
        iat + GRACE_PERIOD <= now <= iat + TOKEN_LIFETIME ==> (r matches Ok(c) && c@
            == issued_claims(sub, iat)),
        now > iat + TOKEN_LIFETIME ==> r == Err::<Claims, AuthError>(AuthError::Expired),
{
    reveal_strlit("ecommerce");
    let v = issued_claims(sub, iat);
    assert(claims_well_formed(v));
    assert(checked_outcome(r, v, now));
}

} // verus!
