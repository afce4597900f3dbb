use backend::ids::{uuid_parse, uuid_to_string};
use backend::jwt::{
    claims_from_payload, generate_jwt_token, generate_jwt_token_at, get_token_claims,
    is_jwt_token_signature_valid, session_is_active, ClaimValue, JwtClaims,
};
use backend::time::{utc_checked_add_seconds, utc_from_timestamp, utc_now, Timestamp, MAX_TIMESTAMP, MIN_TIMESTAMP};

const USER: u128 = 0x67e5504410b1426f9247bb680e5fe0c8;
const SESSION: u128 = 0x0191a3f2_7c4e_7b8a_9d2e_3f4a5b6c7d8e;

#[test]
fn uuid_text_round_trip() {
    assert_eq!(uuid_to_string(USER), "67e55044-10b1-426f-9247-bb680e5fe0c8");
    assert_eq!(uuid_to_string(0), "00000000-0000-0000-0000-000000000000");
    assert_eq!(uuid_parse("67e55044-10b1-426f-9247-bb680e5fe0c8"), Some(USER));
    assert_eq!(uuid_parse(&uuid_to_string(SESSION)), Some(SESSION));
    assert_eq!(uuid_parse("67e5504410b1426f9247bb680e5fe0c8"), Some(USER));
    assert_eq!(uuid_parse("xyz"), None);
}

#[test]
fn timestamp_range_matches_chrono() {
    assert_eq!(utc_from_timestamp(MAX_TIMESTAMP), Some(Timestamp { secs: MAX_TIMESTAMP, nanos: 0 }));
    assert_eq!(utc_from_timestamp(MAX_TIMESTAMP + 1), None);
    assert_eq!(utc_from_timestamp(MIN_TIMESTAMP), Some(Timestamp { secs: MIN_TIMESTAMP, nanos: 0 }));
    assert_eq!(utc_from_timestamp(MIN_TIMESTAMP - 1), None);
    assert_eq!(utc_from_timestamp(1_700_000_000), Some(Timestamp { secs: 1_700_000_000, nanos: 0 }));
}

#[test]
fn adding_seconds_keeps_nanos() {
    let t = Timestamp { secs: 1_700_000_000, nanos: 123 };
    assert_eq!(utc_checked_add_seconds(t, 3600), Some(Timestamp { secs: 1_700_003_600, nanos: 123 }));
    assert_eq!(utc_checked_add_seconds(t, -1_700_000_000), Some(Timestamp { secs: 0, nanos: 123 }));
    assert_eq!(utc_checked_add_seconds(Timestamp { secs: MAX_TIMESTAMP, nanos: 0 }, 1), None);
    assert_eq!(utc_checked_add_seconds(t, i64::MAX), None);
}

#[test]
fn now_is_a_valid_time() {
    let now = utc_now();
    assert!(now.secs > 1_600_000_000);
    assert!(now.nanos < 1_000_000_000);
}

#[test]
fn issued_token_reads_back() {
    let (token, exp) = generate_jwt_token(USER, SESSION, "s3cr3t", 3600, None).unwrap();
    let claims = get_token_claims(&token, "s3cr3t").expect("a fresh token is accepted");
    assert_eq!(claims.uid, "67e55044-10b1-426f-9247-bb680e5fe0c8");
    assert_eq!(claims.sid, SESSION);
    assert_eq!(claims.exp, Timestamp { secs: exp.secs, nanos: 0 });
    assert_eq!(claims.exp.secs - claims.iat.secs, 3600);
    assert!(is_jwt_token_signature_valid(&token, "s3cr3t"));
}

#[test]
fn outside_expiry_is_used() {
    let external = Timestamp { secs: utc_now().secs + 7200, nanos: 0 };
    let (token, exp) = generate_jwt_token(USER, SESSION, "k", 60, Some(external)).unwrap();
    assert_eq!(exp, external);
    assert_eq!(get_token_claims(&token, "k").unwrap().exp, external);
}

#[test]
fn token_at_fixed_time() {
    let now = Timestamp { secs: 1_000, nanos: 5 };
    let (token, exp) = generate_jwt_token_at(USER, SESSION, "k", 10, None, now).unwrap();
    assert_eq!(exp, Timestamp { secs: 1_010, nanos: 5 });
    assert_eq!(token.split('.').count(), 3);
    // Long expired, so refused.
    assert!(get_token_claims(&token, "k").is_none());
}

#[test]
fn wrong_secret_or_tampering_is_refused() {
    let (token, _) = generate_jwt_token(USER, SESSION, "right", 3600, None).unwrap();
    assert!(get_token_claims(&token, "wrong").is_none());
    assert!(!is_jwt_token_signature_valid(&token, "wrong"));
    let mut tampered = token.clone();
    tampered.push('x');
    assert!(get_token_claims(&tampered, "right").is_none());
    assert!(get_token_claims("not.a.token", "right").is_none());
}

#[test]
fn payload_needs_all_claims() {
    let full = vec![
        ("exp".to_string(), ClaimValue::Integer(20)),
        ("iat".to_string(), ClaimValue::Integer(10)),
        ("sid".to_string(), ClaimValue::Text("00000000-0000-0000-0000-000000000007".to_string())),
        ("uid".to_string(), ClaimValue::Text("u".to_string())),
        ("extra".to_string(), ClaimValue::Other),
    ];
    let c = claims_from_payload(&full).unwrap();
    assert_eq!(c.sid, 7);
    assert_eq!(c.uid, "u");
    assert_eq!(c.exp, Timestamp { secs: 20, nanos: 0 });
    assert_eq!(c.iat, Timestamp { secs: 10, nanos: 0 });
    let mut missing = full.clone();
    missing.remove(1);
    assert!(claims_from_payload(&missing).is_none());
    let mut bad_sid = full.clone();
    bad_sid[2].1 = ClaimValue::Text("nope".to_string());
    assert!(claims_from_payload(&bad_sid).is_none());
    let mut float_exp = full.clone();
    float_exp[0].1 = ClaimValue::Other;
    assert!(claims_from_payload(&float_exp).is_none());
    let mut far = full;
    far[0].1 = ClaimValue::Integer(i64::MAX);
    assert!(claims_from_payload(&far).is_none());
}

#[test]
fn session_belongs_to_token_user() {
    let claims = JwtClaims {
        uid: uuid_to_string(USER),
        sid: SESSION,
        exp: Timestamp { secs: 0, nanos: 0 },
        iat: Timestamp { secs: 0, nanos: 0 },
    };
    assert!(session_is_active(Some(&claims), Some(USER)));
    assert!(!session_is_active(Some(&claims), Some(SESSION)));
    assert!(!session_is_active(Some(&claims), None));
    assert!(!session_is_active(None, Some(USER)));
}

fn base64url_decode(s: &str) -> Vec<u8> {
    let alphabet = b"ABCDEFGHIJKLMNOPQRSTUVWXYZabcdefghijklmnopqrstuvwxyz0123456789-_";
    let mut bits: u32 = 0;
    let mut n: u32 = 0;
    let mut out = Vec::new();
    for c in s.bytes() {
        let v = alphabet.iter().position(|&a| a == c).expect("base64url digit") as u32;
        bits = (bits << 6) | v;
        n += 6;
        if n >= 8 {
            n -= 8;
            out.push(((bits >> n) & 0xff) as u8);
        }
    }
    out
}

#[test]
fn token_payload_lists_claims_in_declared_order() {
    let now = Timestamp { secs: 1_700_000_000, nanos: 5 };
    let (token, exp) = generate_jwt_token_at(USER, SESSION, "secret", 3600, None, now).unwrap();
    assert_eq!(exp, Timestamp { secs: 1_700_003_600, nanos: 5 });
    let parts: Vec<&str> = token.split('.').collect();
    assert_eq!(parts.len(), 3);
    let payload = String::from_utf8(base64url_decode(parts[1])).unwrap();
    assert_eq!(
        payload,
        format!(
            "{{\"uid\":\"{}\",\"sid\":\"{}\",\"exp\":1700003600,\"iat\":1700000000}}",
            uuid_to_string(USER),
            uuid_to_string(SESSION)
        )
    );
    let header = String::from_utf8(base64url_decode(parts[0])).unwrap();
    assert_eq!(header, "{\"typ\":\"JWT\",\"alg\":\"HS256\"}");
}
