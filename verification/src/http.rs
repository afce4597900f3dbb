use vstd::prelude::*;
use crate::dtos::UserProfileResponse;
use crate::errors::{AppError, AppResult};
use crate::i18n::{translate, TranslationService};
use crate::ids::{uuid_parse, uuid_parsed};
use crate::jwt::JwtClaims;

verus! {

/// Whether the service runs behind HTTPS; cookies are marked secure only
/// then. Local development runs over plain HTTP.
pub fn is_secure_context() -> (r: bool)
    ensures
        !r,
{
    false
}

impl AppError {
    pub open spec fn status(self) -> u16 {
        match self {
            AppError::NotFound(_) => 404,
            AppError::Unauthorized(_) => 401,
            AppError::Forbidden(_) => 403,
            AppError::BadRequest(_) => 400,
            AppError::Conflict(_) => 409,
            AppError::Validation(_) => 400,
            AppError::Internal(_) => 500,
        }
    }

    /// The HTTP status code that answers this error.
    pub fn status_code(&self) -> (r: u16)
        ensures
            r == self.status(),
    {
        match self {
            AppError::NotFound(_) => 404,
            AppError::Unauthorized(_) => 401,
            AppError::Forbidden(_) => 403,
            AppError::BadRequest(_) => 400,
            AppError::Conflict(_) => 409,
            AppError::Validation(_) => 400,
            AppError::Internal(_) => 500,
        }
    }

    pub open spec fn key(self) -> Seq<char> {
        match self {
            AppError::NotFound(_) => "errors.not_found"@,
            AppError::Unauthorized(_) => "errors.unauthorized"@,
            AppError::Forbidden(_) => "errors.forbidden"@,
            AppError::BadRequest(_) => "errors.bad_request"@,
            AppError::Conflict(_) => "errors.conflict"@,
            AppError::Validation(_) => "errors.validation_error"@,
            AppError::Internal(_) => "errors.internal_error"@,
        }
    }

    /// The translation key of this error's message.
    pub fn message_key(&self) -> (r: &'static str)
        ensures
            r@ == self.key(),
    {
        match self {
            AppError::NotFound(_) => "errors.not_found",
            AppError::Unauthorized(_) => "errors.unauthorized",
            AppError::Forbidden(_) => "errors.forbidden",
            AppError::BadRequest(_) => "errors.bad_request",
            AppError::Conflict(_) => "errors.conflict",
            AppError::Validation(_) => "errors.validation_error",
            AppError::Internal(_) => "errors.internal_error",
        }
    }

    /// Errors whose detail is shown to the client after the message.
    pub open spec fn shows_detail(self) -> bool {
        self is NotFound || self is BadRequest || self is Validation
    }
}

/// The index of the first `c` in `s`, or the length of `s` when there is none.
pub open spec fn is_first_index(s: Seq<char>, c: char, i: int) -> bool {
    &&& 0 <= i <= s.len()
    &&& (i == s.len() || s[i] == c)
    &&& forall|j: int| 0 <= j < i ==> s[j] != c
}

pub open spec fn first_index_of(s: Seq<char>, c: char) -> int {
    choose|i: int| is_first_index(s, c, i)
}

/// The part of `s` before its first `c` (all of `s` when there is none).
pub open spec fn before_first(s: Seq<char>, c: char) -> Seq<char> {
    s.take(first_index_of(s, c))
}

/// The primary language of an `Accept-Language` value: its first entry,
/// without region, such as "fr" for "fr-CA,fr;q=0.9".
pub open spec fn primary_language(header: Seq<char>) -> Seq<char> {
    before_first(before_first(header, ','), '-')
}

proof fn lemma_first_index(s: Seq<char>, c: char, i: int)
    requires
        is_first_index(s, c, i),
    ensures
        first_index_of(s, c) == i,
{
    let k = choose|k: int| is_first_index(s, c, k);
    assert(is_first_index(s, c, k));
    if k < i {
        assert(s[k] != c);
    } else if k > i {
        assert(s[i] != c);
    }
}

/// The part of `s` before its first `c`.
pub fn text_before(s: &str, c: char) -> (r: String)
    ensures
        r@ == before_first(s@, c),
{
    let n = s.unicode_len();
    let mut i: usize = 0;
    while i < n && s.get_char(i) != c
        invariant
            n == s@.len(),
            i <= n,
            forall|j: int| 0 <= j < i ==> s@[j] != c,
        decreases n - i,
    {
        i = i + 1;
    }
    proof {
        lemma_first_index(s@, c, i as int);
    }
    String::from_str(s.substring_char(0, i))
}

/// The language a response is written in: the primary language of the
/// request's `Accept-Language` header, else of `default`.
pub fn request_language(accept_language: Option<&str>, default: &str) -> (r: String)
    ensures
        r@ == primary_language(
            match accept_language {
                Some(h) => h@,
                None => default@,
            },
        ),
{
    let raw = match accept_language {
        Some(h) => h,
        None => default,
    };
    let first = text_before(raw, ',');
    text_before(first.as_str(), '-')
}

/// An error answer: status code and message.
#[derive(Debug, Clone)]
pub struct ErrorResponse {
    pub code: u16,
    pub message: String,
}

/// The message of an error answer, given the translated (or raw) key: the
/// detail is appended for not-found, bad-request and validation errors when
/// it is not empty, and never for the others.
pub open spec fn error_text(e: AppError, base: Seq<char>) -> Seq<char> {
    if e.shows_detail() && e.detail().len() > 0 {
        base + ": "@ + e.detail()
    } else {
        base
    }
}

/// The message before any detail: the key translated into `lang` when the
/// translations are at hand, else the key itself.
pub open spec fn error_base(e: AppError, lang: Seq<char>, i18n: Option<&TranslationService>) -> Seq<char> {
    match i18n {
        Some(t) => translate(t.messages(), t.default_locale(), t.fallback_locale(), e.key(), lang),
        None => e.key(),
    }
}

/// The language an error answer is written in: from the request's
/// `Accept-Language`, else the default locale, else English.
pub open spec fn error_language(accept_language: Option<Seq<char>>, i18n: Option<&TranslationService>) -> Seq<char> {
    primary_language(
        match accept_language {
            Some(h) => h,
            None => match i18n {
                Some(t) => t.default_locale(),
                None => "en"@,
            },
        },
    )
}

/// The answer to an error: its status code, and its message translated into
/// the request's language (see `error_text`).
pub fn error_response(
    err: &AppError,
    accept_language: Option<&str>,
    i18n: Option<&TranslationService>,
) -> (r: ErrorResponse)
    ensures
        r.code == err.status(),
        r.message@ == error_text(
            *err,
            error_base(
                *err,
                error_language(
                    match accept_language {
                        Some(h) => Some(h@),
                        None => None,
                    },
                    i18n,
                ),
                i18n,
            ),
        ),
        accept_language matches Some(h) ==> (i18n matches Some(t) ==> r.message@ == error_text(
            *err,
            translate(t.messages(), t.default_locale(), t.fallback_locale(), err.key(), primary_language(h@)),
        )),
        i18n matches Some(t) ==> (accept_language is None ==> r.message@ == error_text(
            *err,
            translate(
                t.messages(),
                t.default_locale(),
                t.fallback_locale(),
                err.key(),
                primary_language(t.default_locale()),
            ),
        )),
        i18n is None ==> r.message@ == error_text(*err, err.key()),
{
    let code = err.status_code();
    let lang = match i18n {
        Some(t) => request_language(accept_language, t.default_locale_code().as_str()),
        None => request_language(accept_language, "en"),
    };
    let key = err.message_key();
    let mut message = match i18n {
        Some(t) => t.get(key, lang.as_str()),
        None => String::from_str(key),
    };
    let detail = match err {
        AppError::NotFound(m) => Some(m),
        AppError::BadRequest(m) => Some(m),
        AppError::Validation(m) => Some(m),
        _ => None,
    };
    if let Some(d) = detail {
        if !d.as_str().is_empty() {
            message = message.concat(": ").concat(d.as_str());
        }
    }
    ErrorResponse { code, message }
}

/// An internal error's answer never shows its detail: two internal errors
/// are answered alike, whatever they carry.
pub proof fn lemma_internal_detail_hidden(a: String, b: String, base: Seq<char>)
    ensures
        error_text(AppError::Internal(a), base) == error_text(AppError::Internal(b), base),
        error_text(AppError::Internal(a), base) == base,
{
}

/// Every error is answered with a client or server error status.
pub proof fn lemma_error_status_range(e: AppError)
    ensures
        400 <= e.status() < 600,
        e.status() >= 500 <==> e is Internal,
{
}

/// The answer to a request whose token the authentication layer refused: 401
/// with the "unauthorized" message in the request's language (English when
/// the request names none).
pub fn unauthorized_response(accept_language: Option<&str>, i18n: &TranslationService) -> (r: ErrorResponse)
    ensures
        r.code == 401,
        r.message@ == translate(
            i18n.messages(),
            i18n.default_locale(),
            i18n.fallback_locale(),
            "errors.unauthorized"@,
            primary_language(
                match accept_language {
                    Some(h) => h@,
                    None => "en"@,
                },
            ),
        ),
{
    let lang = request_language(accept_language, "en");
    ErrorResponse { code: 401, message: i18n.get("errors.unauthorized", lang.as_str()) }
}

/// What the row-level-security gate does with a request.
#[derive(Debug, Clone)]
pub enum RlsDecision {
    /// The service container is missing: answer 500.
    ContainerMissing,
    /// The token was refused: answer with this body.
    Unauthorized(ErrorResponse),
    /// The token was accepted but carried no claims: answer 401 without body.
    ClaimsMissing,
    /// Open a transaction scoped to this user and go on.
    SetUser(String),
}

/// The decision of the row-level-security gate, from what the request brought:
/// the translations (present with the service container), whether the token
/// was accepted, the user claim it carried, and the request's language.
pub fn rls_gate(
    i18n: Option<&TranslationService>,
    authorized: bool,
    claims_uid: Option<String>,
    accept_language: Option<&str>,
) -> (r: RlsDecision)
    ensures
        match r {
            RlsDecision::ContainerMissing => i18n is None,
            RlsDecision::Unauthorized(resp) => i18n matches Some(t) && !authorized && resp.code == 401
                && resp.message@ == translate(
                t.messages(),
                t.default_locale(),
                t.fallback_locale(),
                "errors.unauthorized"@,
                primary_language(
                    match accept_language {
                        Some(h) => h@,
                        None => "en"@,
                    },
                ),
            ),
            RlsDecision::ClaimsMissing => i18n is Some && authorized && claims_uid is None,
            RlsDecision::SetUser(uid) => i18n is Some && authorized && claims_uid == Some(uid),
        },
{
    match i18n {
        None => RlsDecision::ContainerMissing,
        Some(t) => {
            if !authorized {
                RlsDecision::Unauthorized(unauthorized_response(accept_language, t))
            } else {
                match claims_uid {
                    Some(uid) => RlsDecision::SetUser(uid),
                    None => RlsDecision::ClaimsMissing,
                }
            }
        },
    }
}

/// The identifier of the signed-in user, from the claims the authentication
/// layer accepted.
pub fn get_current_user_id(claims: Option<&JwtClaims>) -> (r: AppResult<u128>)
    ensures
        match claims {
            None => r matches Err(e) && e is Unauthorized && e.detail() == "Unauthorized: No JWT data found"@,
            Some(c) => match uuid_parsed(c.uid@) {
                Some(id) => r == Ok::<u128, AppError>(id),
                None => r matches Err(e) && e is Unauthorized && e.detail() == "Invalid user ID in token"@,
            },
        },
{
    match claims {
        None => Err(AppError::unauthorized("Unauthorized: No JWT data found")),
        Some(c) => match uuid_parse(c.uid.as_str()) {
            Some(id) => Ok(id),
            None => Err(AppError::unauthorized("Invalid user ID in token")),
        },
    }
}

/// The profile of the signed-in user, or "Profile not found" when there is none.
pub fn profile_or_not_found(profile: Option<UserProfileResponse>) -> (r: AppResult<UserProfileResponse>)
    ensures
        match profile {
            Some(p) => r == Ok::<UserProfileResponse, AppError>(p),
            None => r matches Err(e) && e is NotFound && e.detail() == "Profile not found"@,
        },
{
    match profile {
        Some(p) => Ok(p),
        None => Err(AppError::not_found("Profile not found")),
    }
}

/// The user agent a session records: the one the client sent in the body,
/// else the request's `User-Agent` header, else "unknown".
pub fn resolve_user_agent(from_body: Option<String>, from_header: Option<String>) -> (r: String)
    ensures
        match (from_body, from_header) {
            (Some(b), _) => r == b,
            (None, Some(h)) => r == h,
            (None, None) => r@ == "unknown"@,
        },
{
    match from_body {
        Some(b) => b,
        None => match from_header {
            Some(h) => h,
            None => String::from_str("unknown"),
        },
    }
}

/// The answer to a sign-in that failed: 401 whatever the error, with the
/// error's one-line description (see `AppError::display_message`).
pub fn sign_in_failure(e: &AppError) -> (r: (u16, String))
    ensures
        r.0 == 401,
        r.1@ == e.label() + ": `"@ + e.detail() + "`"@,
{
    (401, e.display_message())
}

/// What the not-found catcher does with a response: when no handler set a
/// status, it answers 404 with the text "404: Not Found"; otherwise it leaves
/// the response as it is.
pub fn unanswered_response(status_set: bool) -> (r: Option<(u16, &'static str)>)
    ensures
        status_set ==> r is None,
        !status_set ==> (r matches Some((code, text)) && code == 404 && text@ == "404: Not Found"@),
{
    if status_set {
        None
    } else {
        Some((404, "404: Not Found"))
    }
}

/// The language of an error answer is the primary language of the request's
/// `Accept-Language` header; without one, that of the configured default
/// locale; without translations at hand, English.
pub proof fn lemma_error_language_choice(accept_language: Option<Seq<char>>, i18n: Option<&TranslationService>)
    ensures
        accept_language matches Some(h) ==> error_language(accept_language, i18n) == primary_language(h),
        i18n matches Some(t) ==> (accept_language is None ==> error_language(accept_language, i18n)
            == primary_language(t.default_locale())),
        accept_language is None && i18n is None ==> error_language(accept_language, i18n)
            == primary_language("en"@),
{
}

/// Each error kind is answered with its own status and message key:
/// not found 404, unauthorized 401, forbidden 403, bad request and
/// validation 400, conflict 409, internal 500.
pub proof fn lemma_error_status_and_key(m: String)
    ensures
        AppError::NotFound(m).status() == 404 && AppError::NotFound(m).key() == "errors.not_found"@,
        AppError::Unauthorized(m).status() == 401 && AppError::Unauthorized(m).key() == "errors.unauthorized"@,
        AppError::Forbidden(m).status() == 403 && AppError::Forbidden(m).key() == "errors.forbidden"@,
        AppError::BadRequest(m).status() == 400 && AppError::BadRequest(m).key() == "errors.bad_request"@,
        AppError::Conflict(m).status() == 409 && AppError::Conflict(m).key() == "errors.conflict"@,
        AppError::Validation(m).status() == 400 && AppError::Validation(m).key() == "errors.validation_error"@,
        AppError::Internal(m).status() == 500 && AppError::Internal(m).key() == "errors.internal_error"@,
        AppError::NotFound(m).shows_detail() && AppError::BadRequest(m).shows_detail()
            && AppError::Validation(m).shows_detail(),
        !AppError::Unauthorized(m).shows_detail() && !AppError::Forbidden(m).shows_detail()
            && !AppError::Conflict(m).shows_detail() && !AppError::Internal(m).shows_detail(),
{
}

} // verus!
