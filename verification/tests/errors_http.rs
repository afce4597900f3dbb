use backend::dtos::UserProfileResponse;
use backend::errors::AppError;
use backend::http::{
    error_response, get_current_user_id, is_secure_context, profile_or_not_found, request_language,
    resolve_user_agent, rls_gate, sign_in_failure, text_before, unanswered_response, unauthorized_response,
    RlsDecision,
};
use backend::i18n::TranslationService;
use backend::jwt::JwtClaims;
use backend::json::JsonValue;
use backend::time::Timestamp;

fn text(s: &str) -> JsonValue {
    JsonValue::String(s.to_string())
}

fn object(members: Vec<(&str, JsonValue)>) -> JsonValue {
    JsonValue::Object(members.into_iter().map(|(k, v)| (k.to_string(), v)).collect())
}

fn translations() -> TranslationService {
    let en = object(vec![(
        "errors",
        object(vec![
            ("not_found", text("Not found")),
            ("unauthorized", text("Unauthorized")),
            ("internal_error", text("Something went wrong")),
        ]),
    )]);
    let fr = object(vec![("errors", object(vec![("not_found", text("Introuvable"))]))]);
    TranslationService::new("en".to_string(), "en".to_string(), vec![("en".to_string(), en), ("fr".to_string(), fr)])
}

#[test]
fn constructors_build_their_variant() {
    assert!(matches!(AppError::not_found("a"), AppError::NotFound(m) if m == "a"));
    assert!(matches!(AppError::unauthorized("b"), AppError::Unauthorized(m) if m == "b"));
    assert!(matches!(AppError::forbidden("c"), AppError::Forbidden(m) if m == "c"));
    assert!(matches!(AppError::bad_request("d"), AppError::BadRequest(m) if m == "d"));
    assert!(matches!(AppError::conflict("e"), AppError::Conflict(m) if m == "e"));
    assert!(matches!(AppError::validation("f"), AppError::Validation(m) if m == "f"));
    assert!(matches!(AppError::internal("g"), AppError::Internal(m) if m == "g"));
}

#[test]
fn display_message_follows_error_format() {
    assert_eq!(AppError::not_found("user").display_message(), "not found: `user`");
    assert_eq!(AppError::unauthorized("x").display_message(), "unauthorized: `x`");
    assert_eq!(AppError::validation("bad").display_message(), "validation error: `bad`");
    assert_eq!(AppError::internal("db").display_message(), "internal error: `db`");
}

#[test]
fn status_codes_per_variant() {
    assert_eq!(AppError::not_found("").status_code(), 404);
    assert_eq!(AppError::unauthorized("").status_code(), 401);
    assert_eq!(AppError::forbidden("").status_code(), 403);
    assert_eq!(AppError::bad_request("").status_code(), 400);
    assert_eq!(AppError::conflict("").status_code(), 409);
    assert_eq!(AppError::validation("").status_code(), 400);
    assert_eq!(AppError::internal("").status_code(), 500);
    assert_eq!(AppError::validation("").message_key(), "errors.validation_error");
    assert_eq!(AppError::internal("").message_key(), "errors.internal_error");
}

#[test]
fn language_is_first_entry_without_region() {
    assert_eq!(request_language(Some("fr-CA,fr;q=0.9,en;q=0.8"), "en"), "fr");
    assert_eq!(request_language(Some("es"), "en"), "es");
    assert_eq!(request_language(None, "hi-IN"), "hi");
    assert_eq!(request_language(Some(""), "en"), "");
    assert_eq!(text_before("abc", 'x'), "abc");
    assert_eq!(text_before("a-b-c", '-'), "a");
}

#[test]
fn error_response_without_translations_uses_keys() {
    let r = error_response(&AppError::bad_request("missing field"), None, None);
    assert_eq!(r.code, 400);
    assert_eq!(r.message, "errors.bad_request: missing field");
    let r = error_response(&AppError::validation(""), None, None);
    assert_eq!(r.message, "errors.validation_error");
    let r = error_response(&AppError::conflict("taken"), None, None);
    assert_eq!(r.code, 409);
    assert_eq!(r.message, "errors.conflict");
}

#[test]
fn internal_error_detail_is_hidden() {
    let t = translations();
    let a = error_response(&AppError::internal("connection refused by db-1"), Some("en"), Some(&t));
    let b = error_response(&AppError::internal("other"), Some("en"), Some(&t));
    assert_eq!(a.code, 500);
    assert_eq!(a.message, "Something went wrong");
    assert_eq!(a.message, b.message);
}

#[test]
fn error_response_is_translated() {
    let t = translations();
    let r = error_response(&AppError::not_found("user 7"), Some("fr-FR,fr"), Some(&t));
    assert_eq!(r.code, 404);
    assert_eq!(r.message, "Introuvable: user 7");
    let r = error_response(&AppError::unauthorized("bad token"), Some("fr"), Some(&t));
    assert_eq!(r.message, "Unauthorized");
    let r = error_response(&AppError::not_found("x"), None, Some(&t));
    assert_eq!(r.message, "Not found: x");
}

#[test]
fn unauthorized_answer_defaults_to_english() {
    let t = translations();
    let r = unauthorized_response(None, &t);
    assert_eq!(r.code, 401);
    assert_eq!(r.message, "Unauthorized");
}

#[test]
fn rls_gate_decisions() {
    let t = translations();
    assert!(matches!(rls_gate(None, true, Some("u".to_string()), None), RlsDecision::ContainerMissing));
    match rls_gate(Some(&t), false, Some("u".to_string()), Some("fr")) {
        RlsDecision::Unauthorized(r) => {
            assert_eq!(r.code, 401);
            assert_eq!(r.message, "Unauthorized");
        },
        _ => panic!("expected a refusal"),
    }
    assert!(matches!(rls_gate(Some(&t), true, None, None), RlsDecision::ClaimsMissing));
    assert!(matches!(rls_gate(Some(&t), true, Some("u-1".to_string()), None), RlsDecision::SetUser(u) if u == "u-1"));
}

#[test]
fn current_user_id_from_claims() {
    let claims = JwtClaims {
        uid: "67e55044-10b1-426f-9247-bb680e5fe0c8".to_string(),
        sid: 5,
        exp: Timestamp { secs: 0, nanos: 0 },
        iat: Timestamp { secs: 0, nanos: 0 },
    };
    assert_eq!(get_current_user_id(Some(&claims)).unwrap(), 0x67e5504410b1426f9247bb680e5fe0c8);
    let bad = JwtClaims { uid: "not-a-uuid".to_string(), ..claims.clone() };
    assert!(matches!(get_current_user_id(Some(&bad)), Err(AppError::Unauthorized(m)) if m == "Invalid user ID in token"));
    assert!(matches!(get_current_user_id(None), Err(AppError::Unauthorized(m)) if m == "Unauthorized: No JWT data found"));
}

#[test]
fn profile_missing_is_not_found() {
    assert!(matches!(profile_or_not_found(None), Err(AppError::NotFound(m)) if m == "Profile not found"));
    let p = UserProfileResponse {
        id: 1,
        username: None,
        display_name: Some("A".to_string()),
        bio: None,
        avatar_url: None,
        phone_number: None,
        gender: Some(None),
        dob: None,
    };
    assert_eq!(profile_or_not_found(Some(p)).unwrap().display_name, Some("A".to_string()));
}

#[test]
fn user_agent_resolution() {
    assert_eq!(resolve_user_agent(Some("app/1".to_string()), Some("curl".to_string())), "app/1");
    assert_eq!(resolve_user_agent(None, Some("curl".to_string())), "curl");
    assert_eq!(resolve_user_agent(None, None), "unknown");
}

#[test]
fn cookies_are_not_secure_in_development() {
    assert!(!is_secure_context());
}

#[test]
fn failed_sign_in_answers_401_with_description() {
    assert_eq!(
        sign_in_failure(&AppError::internal("Firebase is not configured")),
        (401, "internal error: `Firebase is not configured`".to_string())
    );
    assert_eq!(sign_in_failure(&AppError::not_found("x")), (401, "not found: `x`".to_string()));
}

#[test]
fn catcher_answers_only_unset_status() {
    assert_eq!(unanswered_response(false), Some((404, "404: Not Found")));
    assert_eq!(unanswered_response(true), None);
}
