use backend::errors::AppError;
use backend::firebase::{
    external_user_from_claims, firebase_verification_error, FirebaseFeatures, FirebaseTokenClaims,
};
use backend::json::JsonValue;
use backend::time::Timestamp;

fn text(s: &str) -> JsonValue {
    JsonValue::String(s.to_string())
}

fn object(members: Vec<(&str, JsonValue)>) -> JsonValue {
    JsonValue::Object(members.into_iter().map(|(k, v)| (k.to_string(), v)).collect())
}

fn members(members: Vec<(&str, JsonValue)>) -> Vec<(String, JsonValue)> {
    members.into_iter().map(|(k, v)| (k.to_string(), v)).collect()
}

fn claims(extra: Vec<(String, JsonValue)>, exp: u64) -> FirebaseTokenClaims {
    FirebaseTokenClaims {
        sub: "fb-uid-1".to_string(),
        exp,
        name: Some("Ada".to_string()),
        picture: Some("https://example.com/a.png".to_string()),
        email: Some("ada@example.com".to_string()),
        email_verified: Some(true),
        claims: extra,
    }
}

#[test]
fn identities_are_normalised() {
    let firebase = object(vec![
        (
            "identities",
            object(vec![
                ("email", JsonValue::Array(vec![text("ada@example.com")])),
                ("google.com", JsonValue::Array(vec![text("1234"), text("ignored")])),
                ("phone", JsonValue::Array(vec![text("+15550100")])),
                ("twitter.com", text("not a list")),
                ("github.com", JsonValue::Array(vec![])),
                ("apple.com", JsonValue::Array(vec![JsonValue::Number("9".to_string())])),
            ]),
        ),
        ("sign_in_provider", text("google.com")),
    ]);
    let user = external_user_from_claims(claims(
        members(vec![("firebase", firebase), ("phone_number", text("+15550100"))]),
        1_900_000_000,
    ))
    .unwrap();
    assert_eq!(user.uid, "fb-uid-1");
    assert_eq!(user.provider_id, "google.com");
    assert_eq!(user.email, Some("ada@example.com".to_string()));
    assert!(user.email_verified);
    assert_eq!(user.display_name, Some("Ada".to_string()));
    assert_eq!(user.photo_url, Some("https://example.com/a.png".to_string()));
    assert_eq!(user.phone_number, Some("+15550100".to_string()));
    assert_eq!(user.expiration, Timestamp { secs: 1_900_000_000, nanos: 0 });
    let ids: Vec<(String, String, Option<String>)> = user
        .identities
        .iter()
        .map(|i| (i.provider_slug.clone(), i.provider_uid.clone(), i.identifier.clone()))
        .collect();
    assert_eq!(
        ids,
        vec![
            ("password".to_string(), "ada@example.com".to_string(), Some("ada@example.com".to_string())),
            ("google.com".to_string(), "1234".to_string(), None),
            ("phone".to_string(), "+15550100".to_string(), Some("+15550100".to_string())),
        ]
    );
}

#[test]
fn missing_claims_give_defaults() {
    let mut c = claims(vec![], 10);
    c.email_verified = None;
    let user = external_user_from_claims(c).unwrap();
    assert_eq!(user.provider_id, "unknown");
    assert!(user.identities.is_empty());
    assert_eq!(user.phone_number, None);
    assert!(!user.email_verified);
}

#[test]
fn non_object_firebase_claim_is_ignored() {
    let user = external_user_from_claims(claims(
        members(vec![("firebase", text("oops")), ("phone_number", JsonValue::Number("5".to_string()))]),
        10,
    ))
    .unwrap();
    assert_eq!(user.provider_id, "unknown");
    assert_eq!(user.phone_number, None);
}

#[test]
fn out_of_range_expiry_is_internal_error() {
    let r = external_user_from_claims(claims(vec![], 9_000_000_000_000));
    assert!(matches!(r, Err(AppError::Internal(m)) if m == "Invalid expiration timestamp from Firebase"));
    // The expiry is read as a signed count of seconds, so the largest value wraps to -1.
    let r = external_user_from_claims(claims(vec![], u64::MAX)).unwrap();
    assert_eq!(r.expiration, Timestamp { secs: -1, nanos: 0 });
}

#[test]
fn refused_token_error() {
    let e = firebase_verification_error("expired");
    assert!(matches!(e, AppError::Unauthorized(m) if m == "Firebase verification failed: expired"));
}

#[test]
fn default_features() {
    assert_eq!(FirebaseFeatures::default(), FirebaseFeatures { auth: true, messaging: true, storage: false });
}
