use vstd::prelude::*;
use jsonwebtoken::{decode, encode, Algorithm, DecodingKey, EncodingKey, Header, Validation};
use serde_json::Value;
use crate::assoc::{assoc_lookup, lemma_assoc_lookup_absent, lemma_assoc_lookup_found};
use crate::errors::{AppError, AppResult};
use crate::ids::{uuid_hyphenated, uuid_parse, uuid_parsed, uuid_to_string};
use crate::time::{secs_in_range, utc_checked_add_seconds, utc_from_timestamp, utc_now, Timestamp, MAX_DELTA_SECONDS};

verus! {

/// Configuration of the tokens this service issues.
#[derive(Debug, Clone)]
pub struct JwtConfig {
    /// HMAC secret that signs and checks tokens.
    pub secret: String,
    /// Lifetime in seconds of a token when no outside expiry is given.
    pub expiry: i64,
}

/// The claims carried by a session token.
#[derive(Debug, Clone)]
pub struct JwtClaims {
    /// The user's identifier, in its hyphenated textual form.
    pub uid: String,
    /// The session's identifier.
    pub sid: u128,
    /// Expiry time (serialised as whole seconds).
    pub exp: Timestamp,
    /// Issue time (serialised as whole seconds).
    pub iat: Timestamp,
}

/// What a token's claims say, at the precision of the token (whole seconds).
pub struct ClaimsModel {
    pub uid: Seq<char>,
    pub sid: u128,
    pub exp: i64,
    pub iat: i64,
}

impl JwtClaims {
    pub open spec fn model(self) -> ClaimsModel {
        ClaimsModel { uid: self.uid@, sid: self.sid, exp: self.exp.secs, iat: self.iat.secs }
    }
}

/// A top-level value of a token's payload, as far as the claims read it.
#[derive(Debug, Clone)]
pub enum ClaimValue {
    Text(String),
    Integer(i64),
    /// Any other JSON value (objects, arrays, booleans, null, fractional or
    /// too large numbers).
    Other,
}

pub enum ClaimModel {
    Text(Seq<char>),
    Integer(i64),
    Other,
}

impl ClaimValue {
    pub open spec fn model(self) -> ClaimModel {
        match self {
            ClaimValue::Text(s) => ClaimModel::Text(s@),
            ClaimValue::Integer(i) => ClaimModel::Integer(i),
            ClaimValue::Other => ClaimModel::Other,
        }
    }
}

pub open spec fn payload_model(entries: Seq<(String, ClaimValue)>) -> Seq<(Seq<char>, ClaimModel)> {
    entries.map_values(|e: (String, ClaimValue)| (e.0@, e.1.model()))
}

/// The payload written for a set of claims: a JSON object with `uid`, `sid`,
/// `exp` and `iat` in that order, the times as whole seconds and the session
/// identifier in its hyphenated form.
pub open spec fn claims_payload(uid: Seq<char>, sid: u128, exp: i64, iat: i64) -> Seq<(Seq<char>, ClaimModel)> {
    seq![
        ("uid"@, ClaimModel::Text(uid)),
        ("sid"@, ClaimModel::Text(uuid_hyphenated(sid))),
        ("exp"@, ClaimModel::Integer(exp)),
        ("iat"@, ClaimModel::Integer(iat)),
    ]
}

/// The same payload as a reader's `serde_json::Map` holds it: keys sorted.
pub open spec fn claims_payload_read(uid: Seq<char>, sid: u128, exp: i64, iat: i64) -> Seq<(Seq<char>, ClaimModel)> {
    seq![
        ("exp"@, ClaimModel::Integer(exp)),
        ("iat"@, ClaimModel::Integer(iat)),
        ("sid"@, ClaimModel::Text(uuid_hyphenated(sid))),
        ("uid"@, ClaimModel::Text(uid)),
    ]
}

/// The claims that a payload holds: `uid` and `sid` as texts, the latter an
/// identifier, `exp` and `iat` as whole seconds within the UTC range; other
/// entries are ignored.
pub open spec fn claims_of_payload(p: Seq<(Seq<char>, ClaimModel)>) -> Option<ClaimsModel> {
    match (
        assoc_lookup(p, "uid"@),
        assoc_lookup(p, "sid"@),
        assoc_lookup(p, "exp"@),
        assoc_lookup(p, "iat"@),
    ) {
        (
            Some(ClaimModel::Text(uid)),
            Some(ClaimModel::Text(sid)),
            Some(ClaimModel::Integer(exp)),
            Some(ClaimModel::Integer(iat)),
        ) => {
            if uuid_parsed(sid) is Some && secs_in_range(exp as int) && secs_in_range(iat as int) {
                Some(ClaimsModel { uid, sid: uuid_parsed(sid)->0, exp, iat })
            } else {
                None
            }
        },
        _ => None,
    }
}

/// The HS256 token that `jsonwebtoken::encode` writes for a payload and a secret.
pub uninterp spec fn jwt_hs256_token(payload: Seq<(Seq<char>, ClaimModel)>, secret: Seq<char>) -> Seq<char>;

/// The top-level entries of a token's payload when it is a JSON object, as a
/// `serde_json::Map` holds them: sorted by key, each key once (a repeated key
/// keeps its last value); `None` when it is not.
pub uninterp spec fn jwt_payload(token: Seq<char>) -> Option<Seq<(Seq<char>, ClaimModel)>>;

/// Whether the token's HS256 signature checks out under the secret.
pub uninterp spec fn jwt_signed_with(token: Seq<char>, secret: Seq<char>) -> bool;

/// A token signed with `secret` whose payload holds exactly `claims`.
pub open spec fn token_carries(token: Seq<char>, secret: Seq<char>, claims: ClaimsModel) -> bool {
    &&& jwt_signed_with(token, secret)
    &&& jwt_payload(token) matches Some(p)
    &&& claims_of_payload(p) == Some(claims)
}

/// A token signed with `secret` for the user `uid` and the session `sid`,
/// expiring at second `exp`, whatever its issue time.
pub open spec fn token_issued_for(token: Seq<char>, secret: Seq<char>, uid: u128, sid: u128, exp: i64) -> bool {
    exists|iat: i64| #[trigger] token_carries(token, secret, ClaimsModel { uid: uuid_hyphenated(uid), sid, exp, iat })
}

#[verifier::external_type_specification]
#[verifier::external_body]
pub struct ExJwtError(jsonwebtoken::errors::Error);

/// `jsonwebtoken::encode` with the default header (HS256) and
/// `EncodingKey::from_secret`, on the claims object
/// `{"uid":..,"sid":..,"exp":..,"iat":..}` written in that order as a
/// `serde_json::value::RawValue` (the strings JSON-escaped by
/// `serde_json::Value`, the times as integers). The text is valid JSON, so
/// `RawValue::from_string` accepts it, and with an HMAC key `encode` never
/// fails. The contract names the token and states the two facts a reader
/// relies on: the signature checks under the same secret, and the payload
/// reads back as that object, its keys in `serde_json::Map` order.
#[verifier::external_body]
fn jwt_encode(uid: &str, sid: &str, exp: i64, iat: i64, secret: &str) -> (r: Result<String, jsonwebtoken::errors::Error>)
    ensures
        r is Ok,
        r matches Ok(t) ==> {
            &&& t@ == jwt_hs256_token(
                seq![
                    ("uid"@, ClaimModel::Text(uid@)),
                    ("sid"@, ClaimModel::Text(sid@)),
                    ("exp"@, ClaimModel::Integer(exp)),
                    ("iat"@, ClaimModel::Integer(iat)),
                ],
                secret@,
            )
            &&& jwt_signed_with(t@, secret@)
            &&& jwt_payload(t@) == Some(
                seq![
                    ("exp"@, ClaimModel::Integer(exp)),
                    ("iat"@, ClaimModel::Integer(iat)),
                    ("sid"@, ClaimModel::Text(sid@)),
                    ("uid"@, ClaimModel::Text(uid@)),
                ],
            )
        },
{
    let text = format!("{{\"uid\":{},\"sid\":{},\"exp\":{},\"iat\":{}}}", Value::from(uid), Value::from(sid), exp, iat);
    let claims = serde_json::value::RawValue::from_string(text)?;
    encode(&Header::default(), &claims, &EncodingKey::from_secret(secret.as_bytes()))
}

/// `jsonwebtoken::decode` with `Validation::new(Algorithm::HS256)` and
/// `DecodingKey::from_secret`, its claims read as a `serde_json` object whose
/// values are kept as strings, `i64` integers or neither. What comes back is
/// only promised to be the token's own payload under a signature that checks:
/// whether a signed token is accepted also depends on the clock (the `exp`
/// check with sixty seconds of leeway) and on the other checks of
/// `Validation`, which the contract leaves unsaid.
#[verifier::external_body]
fn jwt_decode(token: &str, secret: &str) -> (r: Option<Vec<(String, ClaimValue)>>)
    ensures
        r matches Some(p) ==> jwt_signed_with(token@, secret@) && jwt_payload(token@) == Some(payload_model(p@)),
{
    let key = DecodingKey::from_secret(secret.as_bytes());
    let validation = Validation::new(Algorithm::HS256);
    match decode::<Value>(token, &key, &validation).ok()?.claims {
        Value::Object(map) => Some(map.into_iter().map(|(k, v)| (k, match v {
            Value::String(s) => ClaimValue::Text(s),
            Value::Number(n) => n.as_i64().map_or(ClaimValue::Other, ClaimValue::Integer),
            _ => ClaimValue::Other,
        })).collect()),
        _ => None,
    }
}

/// The text of a `jsonwebtoken` error (its `Display`). Nothing is promised of it.
#[verifier::external_body]
fn jwt_error_text(e: &jsonwebtoken::errors::Error) -> String {
    e.to_string()
}

/// The first claim with the given name.
fn find_claim<'a>(payload: &'a Vec<(String, ClaimValue)>, name: &str) -> (r: Option<&'a ClaimValue>)
    ensures
        match r {
            Some(v) => assoc_lookup(payload_model(payload@), name@) == Some(v.model()),
            None => assoc_lookup(payload_model(payload@), name@) is None,
        },
{
    let key = String::from_str(name);
    let ghost model = payload_model(payload@);
    let mut i: usize = 0;
    while i < payload.len()
        invariant
            i <= payload.len(),
            model == payload_model(payload@),
            key@ == name@,
            forall|j: int| 0 <= j < i ==> model[j].0 != name@,
        decreases payload.len() - i,
    {
        if payload[i].0 == key {
            proof {
                lemma_assoc_lookup_found(model, name@, i as int);
            }
            return Some(&payload[i].1);
        }
        i = i + 1;
    }
    proof {
        lemma_assoc_lookup_absent(model, name@);
    }
    None
}

/// Reads the claims out of a token payload (see `claims_of_payload`).
pub fn claims_from_payload(payload: &Vec<(String, ClaimValue)>) -> (r: Option<JwtClaims>)
    ensures
        match r {
            Some(c) => claims_of_payload(payload_model(payload@)) == Some(c.model())
                && c.exp.nanos == 0 && c.iat.nanos == 0,
            None => claims_of_payload(payload_model(payload@)) is None,
        },
{
    let uid = match find_claim(payload, "uid") {
        Some(ClaimValue::Text(s)) => s.clone(),
        _ => return None,
    };
    let sid = match find_claim(payload, "sid") {
        Some(ClaimValue::Text(s)) => match uuid_parse(s.as_str()) {
            Some(id) => id,
            None => return None,
        },
        _ => return None,
    };
    let exp = match find_claim(payload, "exp") {
        Some(ClaimValue::Integer(e)) => match utc_from_timestamp(*e) {
            Some(t) => t,
            None => return None,
        },
        _ => return None,
    };
    let iat = match find_claim(payload, "iat") {
        Some(ClaimValue::Integer(i)) => match utc_from_timestamp(*i) {
            Some(t) => t,
            None => return None,
        },
        _ => return None,
    };
    Some(JwtClaims { uid, sid, exp, iat })
}

/// The expiry a token gets: the outside expiry when given, else `now` plus
/// the default lifetime.
pub open spec fn token_expiry(now: Timestamp, default_expiry_seconds: i64, external_exp: Option<Timestamp>) -> Timestamp {
    match external_exp {
        Some(e) => e,
        None => Timestamp { secs: (now.secs + default_expiry_seconds) as i64, nanos: now.nanos },
    }
}

/// Issues a token at the time `now`: the claims name the user and the session,
/// expire at the outside expiry when given (else `now` plus the default
/// lifetime) and were issued at `now`. Returns the token and its expiry.
pub fn generate_jwt_token_at(
    uid: u128,
    sid: u128,
    secret: &str,
    default_expiry_seconds: i64,
    external_exp: Option<Timestamp>,
    now: Timestamp,
) -> (r: AppResult<(String, Timestamp)>)
    requires
        now.wf(),
        external_exp matches Some(e) ==> e.wf(),
        external_exp is None ==> secs_in_range(now.secs + default_expiry_seconds),
    ensures
        r matches Ok((token, exp)) && {
            let claims = ClaimsModel { uid: uuid_hyphenated(uid), sid, exp: exp.secs, iat: now.secs };
            &&& exp == token_expiry(now, default_expiry_seconds, external_exp)
            &&& token@ == jwt_hs256_token(
                claims_payload(claims.uid, sid, claims.exp, claims.iat),
                secret@,
            )
            &&& token_carries(token@, secret@, claims)
        },
{
    let exp = match external_exp {
        Some(e) => e,
        None => match utc_checked_add_seconds(now, default_expiry_seconds) {
            Some(t) => t,
            None => return Err(AppError::internal("JWT expiry out of range")),
        },
    };
    let uid_text = uuid_to_string(uid);
    let sid_text = uuid_to_string(sid);
    match jwt_encode(uid_text.as_str(), sid_text.as_str(), exp.secs, now.secs, secret) {
        Ok(token) => {
            proof {
                let p = claims_payload_read(uid_text@, sid, exp.secs, now.secs);
                reveal_strlit("uid");
                reveal_strlit("sid");
                reveal_strlit("exp");
                reveal_strlit("iat");
                assert("exp"@[0] == 'e' && "iat"@[0] == 'i' && "sid"@[0] == 's' && "uid"@[0] == 'u');
                assert(assoc_lookup(p, "uid"@) == Some(p[3].1)) by {
                    lemma_assoc_lookup_found(p, "uid"@, 3);
                }
                assert(assoc_lookup(p, "sid"@) == Some(p[2].1)) by {
                    lemma_assoc_lookup_found(p, "sid"@, 2);
                }
                assert(assoc_lookup(p, "exp"@) == Some(p[0].1)) by {
                    lemma_assoc_lookup_found(p, "exp"@, 0);
                }
                assert(assoc_lookup(p, "iat"@) == Some(p[1].1)) by {
                    lemma_assoc_lookup_found(p, "iat"@, 1);
                }
            }
            Ok((token, exp))
        },
        Err(e) => {
            let text = jwt_error_text(&e);
            let message = String::from_str("JWT encoding failed: ").concat(text.as_str());
            Err(AppError::internal(message.as_str()))
        },
    }
}

/// Issues a token for a user session at the current time (see
/// `generate_jwt_token_at`). With an outside expiry this always succeeds.
/// Without one the default lifetime must be a whole number of seconds that
/// a `chrono::TimeDelta` holds; the call then fails, with an internal error,
/// only when the current time plus that lifetime leaves the representable
/// UTC range.
pub fn generate_jwt_token(
    uid: u128,
    sid: u128,
    secret: &str,
    default_expiry_seconds: i64,
    external_exp: Option<Timestamp>,
) -> (r: AppResult<(String, Timestamp)>)
    requires
        external_exp matches Some(e) ==> e.wf(),
        external_exp is None ==> -MAX_DELTA_SECONDS <= default_expiry_seconds <= MAX_DELTA_SECONDS,
    ensures
        external_exp is Some ==> r is Ok,
        r matches Err(e) ==> {
            &&& e is Internal
            &&& external_exp is None
            &&& exists|now: Timestamp| #[trigger] now.wf() && !secs_in_range(now.secs + default_expiry_seconds)
        },
        r matches Ok((token, exp)) ==> exists|now: Timestamp| {
            &&& now.wf()
            &&& #[trigger] token_expiry(now, default_expiry_seconds, external_exp) == exp
            &&& token_carries(
                token@,
                secret@,
                ClaimsModel { uid: uuid_hyphenated(uid), sid, exp: exp.secs, iat: now.secs },
            )
        },
{
    let now = utc_now();
    if external_exp.is_none() && utc_checked_add_seconds(now, default_expiry_seconds).is_none() {
        return Err(AppError::internal("JWT expiry out of range"));
    }
    generate_jwt_token_at(uid, sid, secret, default_expiry_seconds, external_exp, now)
}

/// Decodes and checks a token, returning its claims when it is accepted.
/// An accepted token is signed with `secret` and holds exactly the claims
/// returned (a claim repeated in the payload is read by its last value);
/// which signed tokens are refused for their expiry depends on the clock and
/// is not stated.
pub fn get_token_claims(token: &str, secret: &str) -> (r: Option<JwtClaims>)
    ensures
        r matches Some(c) ==> token_carries(token@, secret@, c.model()) && c.exp.nanos == 0
            && c.iat.nanos == 0,
{
    match jwt_decode(token, secret) {
        Some(payload) => claims_from_payload(&payload),
        None => None,
    }
}

/// Checks a token's signature and expiry, without looking at the session
/// store. True only for a token signed with `secret` whose payload holds
/// well-formed claims.
pub fn is_jwt_token_signature_valid(token: &str, secret: &str) -> (r: bool)
    ensures
        r ==> exists|c: ClaimsModel| #[trigger] token_carries(token@, secret@, c),
{
    match get_token_claims(token, secret) {
        Some(c) => {
            assert(token_carries(token@, secret@, c.model()));
            true
        },
        None => false,
    }
}

/// Whether a session found for the token's claims belongs to the token's
/// user: true exactly when claims were accepted, an active session was found,
/// and the session's user identifier, written out, equals the `uid` claim.
pub fn session_is_active(claims: Option<&JwtClaims>, session_user_id: Option<u128>) -> (r: bool)
    ensures
        r == (claims matches Some(c) && session_user_id matches Some(u) && uuid_hyphenated(u)
            == c.uid@),
{
    match (claims, session_user_id) {
        (Some(c), Some(u)) => {
            let text = uuid_to_string(u);
            text == c.uid
        },
        _ => false,
    }
}

/// A token carries one set of claims only: whatever claims a token was issued
/// with are the claims any reader that accepts it gets back.
pub proof fn lemma_token_claims_unique(token: Seq<char>, secret: Seq<char>, issued: ClaimsModel, read: ClaimsModel)
    requires
        token_carries(token, secret, issued),
        token_carries(token, secret, read),
    ensures
        read == issued,
{
}

} // verus!
