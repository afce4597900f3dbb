use backend::dtos::{apply_profile_update, AuthenticationResult, FirebaseLoginResponse, UpdateProfileRequest, UserProfileResponse};
use backend::entities::{FullUserRecord, Gender, Session, User};
use backend::errors::AppError;
use backend::firebase::{ExternalAuthUser, ExternalIdentity};
use backend::flows::{
    begin_user_sync, finish_authentication, normalize_identities, profile_lookup_result, profile_update_result,
    profile_update_target, session_input_for, sign_in_after_session, sign_in_after_user, sign_in_after_verification,
};
use backend::ids::uuid_to_string;
use backend::jwt::{get_token_claims, JwtConfig};
use backend::models::{synced_user_record, FullUserRecordRow, GenderDb, SessionRow, UserRow};
use backend::time::{utc_now, Date, Timestamp};

fn ts(secs: i64) -> Timestamp {
    Timestamp { secs, nanos: 0 }
}

fn user() -> User {
    User {
        id: 42,
        firebase_uid: "fb".to_string(),
        username: Some("ada".to_string()),
        display_name: Some("Ada".to_string()),
        bio: None,
        avatar_url: None,
        phone_number: Some("+1".to_string()),
        gender: Some(Gender::Female),
        dob: Some(Date { days_from_ce: 700_000 }),
        embedding_dirty: false,
        created_at: ts(1),
        updated_at: ts(2),
        deleted_at: None,
    }
}

fn empty_request() -> UpdateProfileRequest {
    UpdateProfileRequest {
        username: None,
        display_name: None,
        bio: None,
        avatar_url: None,
        phone_number: None,
        gender: None,
        dob: None,
    }
}

#[test]
fn gender_round_trips() {
    for g in [
        Gender::Male,
        Gender::Female,
        Gender::NonBinary,
        Gender::Transgender,
        Gender::Intersex,
        Gender::PreferNotToSay,
        Gender::Other,
    ] {
        assert_eq!(Gender::from(GenderDb::from(g)), g);
    }
    assert_eq!(GenderDb::from(Gender::PreferNotToSay), GenderDb::PreferNotToSay);
}

#[test]
fn rows_convert_field_by_field() {
    let row = UserRow {
        id: 9,
        firebase_uid: "f".to_string(),
        username: None,
        display_name: Some("D".to_string()),
        bio: Some("b".to_string()),
        avatar_url: None,
        phone_number: None,
        gender: Some(GenderDb::NonBinary),
        dob: None,
        embedding_dirty: true,
        created_at: ts(5),
        updated_at: ts(6),
        deleted_at: Some(ts(7)),
    };
    let u = User::from(row);
    assert_eq!(u.id, 9);
    assert_eq!(u.gender, Some(Gender::NonBinary));
    assert_eq!(u.bio, Some("b".to_string()));
    assert!(u.embedding_dirty);
    assert_eq!(u.deleted_at, Some(ts(7)));
    let s = Session::from(SessionRow {
        id: 1,
        user_id: 2,
        device_id: "d".to_string(),
        fcm_token: None,
        user_agent: "ua".to_string(),
        ip_address: "127.0.0.1".to_string(),
        auth_exp: ts(100),
        revoked_at: None,
        created_at: ts(3),
        updated_at: ts(4),
    });
    assert_eq!((s.id, s.user_id, s.auth_exp), (1, 2, ts(100)));
}

#[test]
fn synced_record_takes_verified_phone() {
    let row = FullUserRecordRow {
        id: 3,
        firebase_uid: "f".to_string(),
        username: Some("u".to_string()),
        display_name: None,
        bio: None,
        avatar_url: None,
        phone_number: None,
        gender: None,
        dob: None,
        embedding_dirty: false,
        created_at: ts(1),
        updated_at: ts(1),
        deleted_at: None,
    };
    let r = synced_user_record(row, Some("+44".to_string()));
    assert_eq!(r.phone_number, Some("+44".to_string()));
    assert_eq!(r.username, Some("u".to_string()));
    assert_eq!(r.id, 3);
}

#[test]
fn profile_update_overrides_present_fields() {
    let mut req = empty_request();
    req.display_name = Some("Ada L.".to_string());
    req.gender = Some(Gender::Other);
    let u = apply_profile_update(user(), req.clone());
    assert_eq!(u.display_name, Some("Ada L.".to_string()));
    assert_eq!(u.gender, Some(Gender::Other));
    assert_eq!(u.username, Some("ada".to_string()));
    assert_eq!(u.phone_number, Some("+1".to_string()));
    assert_eq!(u.id, 42);
    let twice = apply_profile_update(u.clone(), req);
    assert_eq!(twice.display_name, u.display_name);
    assert_eq!(twice.gender, u.gender);
    let same = apply_profile_update(user(), empty_request());
    assert_eq!(same.display_name, Some("Ada".to_string()));
    assert_eq!(same.dob, Some(Date { days_from_ce: 700_000 }));
}

#[test]
fn profile_response_always_has_gender_field() {
    let mut u = user();
    u.gender = None;
    let p = UserProfileResponse::from(u);
    assert_eq!(p.gender, Some(None));
    assert_eq!(p.id, 42);
    let p = UserProfileResponse::from(user());
    assert_eq!(p.gender, Some(Some(Gender::Female)));
}

#[test]
fn profile_update_steps() {
    let r = profile_update_target(Ok(None), empty_request());
    assert!(matches!(r, Err(AppError::NotFound(m)) if m == "User not found"));
    let r = profile_update_target(Err(AppError::internal("db")), empty_request());
    assert!(matches!(r, Err(AppError::Internal(m)) if m == "db"));
    let mut req = empty_request();
    req.bio = Some("new bio".to_string());
    let target = profile_update_target(Ok(Some(user())), req).unwrap();
    assert_eq!(target.bio, Some("new bio".to_string()));
    let resp = profile_update_result(Ok(target)).unwrap();
    assert_eq!(resp.bio, Some("new bio".to_string()));
    assert!(profile_update_result(Err(AppError::conflict("c"))).is_err());
    assert!(profile_lookup_result(Ok(None)).unwrap().is_none());
    assert_eq!(profile_lookup_result(Ok(Some(user()))).unwrap().unwrap().id, 42);
    assert!(profile_lookup_result(Err(AppError::internal("x"))).is_err());
}

fn external(expiration: Timestamp) -> ExternalAuthUser {
    ExternalAuthUser {
        uid: "fb-1".to_string(),
        email: Some("a@b.c".to_string()),
        email_verified: true,
        display_name: Some("Ada".to_string()),
        photo_url: None,
        phone_number: Some("+1".to_string()),
        expiration,
        identities: vec![ExternalIdentity {
            provider_slug: "password".to_string(),
            provider_uid: "a@b.c".to_string(),
            identifier: Some("a@b.c".to_string()),
        }],
        provider_id: "password".to_string(),
    }
}

fn full_user() -> FullUserRecord {
    FullUserRecord {
        id: 0x1234,
        firebase_uid: "fb-1".to_string(),
        username: None,
        display_name: Some("Ada".to_string()),
        bio: None,
        avatar_url: None,
        phone_number: Some("+1".to_string()),
        gender: None,
        dob: None,
        embedding_dirty: false,
        created_at: ts(1),
        updated_at: ts(1),
        deleted_at: None,
    }
}

#[test]
fn sign_in_steps_link_user_session_and_token() {
    let exp = Timestamp { secs: utc_now().secs + 3600, nanos: 0 };
    let ext = external(exp);
    let sync = begin_user_sync(&ext);
    assert_eq!(sync.firebase_uid, "fb-1");
    assert_eq!(sync.phone_number, Some("+1".to_string()));
    assert_eq!(sync.identities.len(), 1);
    assert_eq!(sync.identities[0].provider_slug, "password");
    assert!(sync.identities[0].verified_at.is_some());
    let user = full_user();
    let input = session_input_for(&user, &ext, "dev".to_string(), None, "ua".to_string(), "10.0.0.1".to_string());
    assert_eq!(input.user_id, 0x1234);
    assert_eq!(input.auth_exp, exp);
    let session = Session {
        id: 77,
        user_id: input.user_id,
        device_id: input.device_id.clone(),
        fcm_token: None,
        user_agent: input.user_agent.clone(),
        ip_address: input.ip_address.clone(),
        auth_exp: input.auth_exp,
        revoked_at: None,
        created_at: ts(1),
        updated_at: ts(1),
    };
    let config = JwtConfig { secret: "k".to_string(), expiry: 60 };
    let result: AuthenticationResult = finish_authentication(&config, ext, user, session).unwrap();
    assert_eq!(result.exp, exp);
    assert_eq!(result.current_provider_internal_uid, Some("fb-1".to_string()));
    assert!(result.is_verified);
    let claims = get_token_claims(&result.jwt_token, "k").unwrap();
    assert_eq!(claims.uid, uuid_to_string(0x1234));
    assert_eq!(claims.sid, 77);
    assert_eq!(claims.exp, exp);
    let response = FirebaseLoginResponse::from(result);
    assert_eq!(response.session_id, 77);
    assert_eq!(response.current_auth_provider_slug, "password");
}

#[test]
fn normalised_identities_keep_order() {
    let ids = vec![
        ExternalIdentity { provider_slug: "a".to_string(), provider_uid: "1".to_string(), identifier: None },
        ExternalIdentity { provider_slug: "b".to_string(), provider_uid: "2".to_string(), identifier: Some("x".to_string()) },
    ];
    let r = normalize_identities(&ids);
    assert_eq!(r.len(), 2);
    assert_eq!((r[1].provider_slug.as_str(), r[1].provider_uid.as_str()), ("b", "2"));
    assert_eq!(r[1].identifier, Some("x".to_string()));
}

#[test]
fn sign_in_decisions_end_on_errors() {
    let refused = sign_in_after_verification(Err(AppError::unauthorized("Firebase verification failed: bad")));
    assert!(matches!(refused, Err(AppError::Unauthorized(m)) if m == "Firebase verification failed: bad"));

    let bad_exp = sign_in_after_verification(Ok(external(Timestamp { secs: i64::MAX, nanos: 0 })));
    assert!(matches!(bad_exp, Err(AppError::Internal(m)) if m == "Invalid expiration timestamp from Firebase"));
    let bad_nanos = sign_in_after_verification(Ok(external(Timestamp { secs: 10, nanos: 1_000_000_000 })));
    assert!(matches!(bad_nanos, Err(AppError::Internal(_))));

    let exp = Timestamp { secs: utc_now().secs + 3600, nanos: 0 };
    let (ext, sync) = sign_in_after_verification(Ok(external(exp))).unwrap();
    assert_eq!(sync.firebase_uid, "fb-1");
    assert_eq!(sync.display_name, Some("Ada".to_string()));
    assert_eq!(ext.expiration, exp);

    let failed_user = sign_in_after_user(
        Err(AppError::conflict("taken")),
        &ext,
        "dev".to_string(),
        None,
        "ua".to_string(),
        "ip".to_string(),
    );
    assert!(matches!(failed_user, Err(AppError::Conflict(m)) if m == "taken"));
    let (user, input) = sign_in_after_user(
        Ok(full_user()),
        &ext,
        "dev".to_string(),
        Some("fcm".to_string()),
        "ua".to_string(),
        "ip".to_string(),
    )
    .unwrap();
    assert_eq!(user.id, 0x1234);
    assert_eq!((input.user_id, input.device_id.as_str(), input.auth_exp), (0x1234, "dev", exp));
    assert_eq!(input.fcm_token, Some("fcm".to_string()));

    let config = JwtConfig { secret: "k".to_string(), expiry: 60 };
    let failed_session = sign_in_after_session(Err("connection reset".to_string()), &config, ext.clone(), user.clone());
    assert!(matches!(failed_session, Err(AppError::Internal(m)) if m == "Database error: connection reset"));
    let session = Session {
        id: 5,
        user_id: input.user_id,
        device_id: input.device_id.clone(),
        fcm_token: input.fcm_token.clone(),
        user_agent: input.user_agent.clone(),
        ip_address: input.ip_address.clone(),
        auth_exp: input.auth_exp,
        revoked_at: None,
        created_at: ts(1),
        updated_at: ts(1),
    };
    let result = sign_in_after_session(Ok(session), &config, ext, user).unwrap();
    assert_eq!(result.session.id, 5);
    assert_eq!(result.exp, exp);
    assert_eq!(get_token_claims(&result.jwt_token, "k").unwrap().sid, 5);
}
