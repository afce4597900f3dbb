use vstd::prelude::*;
use crate::dtos::{apply_profile_update, profile_of, updated_user, AuthenticationResult, UpdateProfileRequest, UserProfileResponse};
use crate::entities::{AuthIdentity, FullUserRecord, Session, SessionInput, User};
use crate::errors::{AppError, AppResult};
use crate::firebase::{opt_text, ExternalAuthUser, ExternalIdentity};
use crate::ids::uuid_hyphenated;
use crate::jwt::{generate_jwt_token, token_carries, token_issued_for, ClaimsModel, JwtConfig};
use crate::time::{utc_now, Timestamp, MAX_TIMESTAMP, MIN_TIMESTAMP};

verus! {

// The use cases run as a series of steps: the driver performs the outside
// work (verifying the ID token, writing the user, writing the session, reading
// and writing profiles) and hands each outcome to the next step here.

/// What synchronising a signed-in user with the store is given.
#[derive(Debug, Clone)]
pub struct UserSync {
    pub firebase_uid: String,
    pub display_name: Option<String>,
    pub avatar_url: Option<String>,
    pub phone_number: Option<String>,
    pub identities: Vec<AuthIdentity>,
}

/// A stored identity made from a reported one, verified at `at`.
pub open spec fn identity_record_matches(r: AuthIdentity, e: ExternalIdentity) -> bool {
    &&& r.provider_slug@ == e.provider_slug@
    &&& r.provider_uid@ == e.provider_uid@
    &&& opt_text(r.identifier) == opt_text(e.identifier)
    &&& r.verified_at matches Some(t) && t.wf()
}

/// The identities to store for the reported ones: the same provider, uid and
/// identifier, each marked verified at the time it was normalised.
pub fn normalize_identities(identities: &Vec<ExternalIdentity>) -> (r: Vec<AuthIdentity>)
    ensures
        r@.len() == identities@.len(),
        forall|i: int| 0 <= i < r@.len() ==> #[trigger] identity_record_matches(r@[i], identities@[i]),
{
    let mut r: Vec<AuthIdentity> = Vec::new();
    let mut i: usize = 0;
    while i < identities.len()
        invariant
            i <= identities.len(),
            r@.len() == i,
            forall|j: int| 0 <= j < i ==> #[trigger] identity_record_matches(r@[j], identities@[j]),
        decreases identities.len() - i,
    {
        let e = &identities[i];
        let identifier = match &e.identifier {
            Some(s) => Some(s.clone()),
            None => None,
        };
        r.push(AuthIdentity {
            provider_slug: e.provider_slug.clone(),
            provider_uid: e.provider_uid.clone(),
            identifier,
            verified_at: Some(utc_now()),
        });
        i = i + 1;
    }
    r
}

/// The user record written for a signed-in user: named by the Firebase uid,
/// with the reported name, picture, phone number and identities.
pub open spec fn user_sync_for(r: UserSync, external: ExternalAuthUser) -> bool {
    &&& r.firebase_uid@ == external.uid@
    &&& opt_text(r.display_name) == opt_text(external.display_name)
    &&& opt_text(r.avatar_url) == opt_text(external.photo_url)
    &&& opt_text(r.phone_number) == opt_text(external.phone_number)
    &&& r.identities@.len() == external.identities@.len()
    &&& forall|i: int| 0 <= i < r.identities@.len() ==> #[trigger] identity_record_matches(
        r.identities@[i],
        external.identities@[i],
    )
}

/// The first step after the ID token was verified: the user record to write
/// (see `user_sync_for`).
pub fn begin_user_sync(external: &ExternalAuthUser) -> (r: UserSync)
    ensures
        user_sync_for(r, *external),
{
    let identities = normalize_identities(&external.identities);
    UserSync {
        firebase_uid: external.uid.clone(),
        display_name: match &external.display_name {
            Some(s) => Some(s.clone()),
            None => None,
        },
        avatar_url: match &external.photo_url {
            Some(s) => Some(s.clone()),
            None => None,
        },
        phone_number: match &external.phone_number {
            Some(s) => Some(s.clone()),
            None => None,
        },
        identities,
    }
}

/// The second step, once the user is stored: the session to write, for that
/// user and this device, valid as long as the outside sign-in is.
pub fn session_input_for(
    user: &FullUserRecord,
    external: &ExternalAuthUser,
    device_id: String,
    fcm_token: Option<String>,
    user_agent: String,
    ip_address: String,
) -> (r: SessionInput)
    ensures
        r == (SessionInput {
            user_id: user.id,
            device_id,
            fcm_token,
            user_agent,
            ip_address,
            auth_exp: external.expiration,
        }),
{
    SessionInput { user_id: user.id, device_id, fcm_token, user_agent, ip_address, auth_exp: external.expiration }
}

/// The result of a sign-in: the stored user and session, a token for them
/// that expires with the outside sign-in, and how the user signed in.
pub open spec fn signed_in(
    res: AuthenticationResult,
    config: JwtConfig,
    external: ExternalAuthUser,
    user: FullUserRecord,
    session: Session,
) -> bool {
    &&& res.user == user
    &&& res.session == session
    &&& res.exp == external.expiration
    &&& res.current_provider_name == external.provider_id
    &&& res.current_provider_internal_uid == Some(external.uid)
    &&& res.is_verified == external.email_verified
    &&& token_issued_for(res.jwt_token@, config.secret@, user.id, session.id, external.expiration.secs)
}

/// The last step, once the session is stored: a token for that user and
/// session, expiring with the outside sign-in, and the sign-in's result.
pub fn finish_authentication(
    config: &JwtConfig,
    external: ExternalAuthUser,
    user: FullUserRecord,
    session: Session,
) -> (r: AppResult<AuthenticationResult>)
    requires
        external.expiration.wf(),
    ensures
        r matches Ok(res) && signed_in(res, *config, external, user, session),
{
    let generated = generate_jwt_token(
        user.id,
        session.id,
        config.secret.as_str(),
        config.expiry,
        Some(external.expiration),
    );
    match generated {
        Ok((token, exp)) => {
            proof {
                let now = choose|now: Timestamp| {
                    &&& now.wf()
                    &&& #[trigger] crate::jwt::token_expiry(now, config.expiry, Some(external.expiration)) == exp
                    &&& token_carries(
                        token@,
                        config.secret@,
                        ClaimsModel { uid: uuid_hyphenated(user.id), sid: session.id, exp: exp.secs, iat: now.secs },
                    )
                };
                assert(exp == external.expiration);
                assert(token_carries(
                    token@,
                    config.secret@,
                    ClaimsModel { uid: uuid_hyphenated(user.id), sid: session.id, exp: external.expiration.secs, iat: now.secs },
                ));
                assert(token_issued_for(token@, config.secret@, user.id, session.id, external.expiration.secs));
            }
            Ok(AuthenticationResult {
            user,
            session,
            jwt_token: token,
            exp,
            current_provider_name: external.provider_id,
            current_provider_internal_uid: Some(external.uid),
            is_verified: external.email_verified,
        })
        },
        Err(e) => Err(e),
    }
}

/// The first decision of a sign-in, once the ID token was checked: a refusal
/// ends the sign-in with its error, a user whose sign-in expiry is not a
/// representable time ends it with an internal error, and any other user
/// goes on to be stored (see `user_sync_for`).
pub fn sign_in_after_verification(verified: AppResult<ExternalAuthUser>) -> (r: AppResult<(ExternalAuthUser, UserSync)>)
    ensures
        match verified {
            Err(e) => r == Err::<(ExternalAuthUser, UserSync), AppError>(e),
            Ok(u) => if u.expiration.wf() {
                r matches Ok((x, sync)) && x == u && user_sync_for(sync, u)
            } else {
                r matches Err(e) && e is Internal && e.detail() == "Invalid expiration timestamp from Firebase"@
            },
        },
{
    match verified {
        Err(e) => Err(e),
        Ok(u) => {
            if u.expiration.nanos < 1_000_000_000 && MIN_TIMESTAMP <= u.expiration.secs
                && u.expiration.secs <= MAX_TIMESTAMP {
                let sync = begin_user_sync(&u);
                Ok((u, sync))
            } else {
                Err(AppError::internal("Invalid expiration timestamp from Firebase"))
            }
        },
    }
}

/// The second decision: a failure to store the user ends the sign-in with its
/// error; the stored user goes on to get a session for this device (see
/// `session_input_for`).
pub fn sign_in_after_user(
    stored: AppResult<FullUserRecord>,
    external: &ExternalAuthUser,
    device_id: String,
    fcm_token: Option<String>,
    user_agent: String,
    ip_address: String,
) -> (r: AppResult<(FullUserRecord, SessionInput)>)
    ensures
        match stored {
            Err(e) => r == Err::<(FullUserRecord, SessionInput), AppError>(e),
            Ok(u) => r == Ok::<(FullUserRecord, SessionInput), AppError>(
                (
                    u,
                    SessionInput {
                        user_id: u.id,
                        device_id,
                        fcm_token,
                        user_agent,
                        ip_address,
                        auth_exp: external.expiration,
                    },
                ),
            ),
        },
{
    match stored {
        Err(e) => Err(e),
        Ok(u) => {
            let input = session_input_for(&u, external, device_id, fcm_token, user_agent, ip_address);
            Ok((u, input))
        },
    }
}

/// The last decision: a failure to store the session ends the sign-in with an
/// internal "Database error: ..." error; a stored session gets its token and
/// the sign-in's result (see `signed_in`).
pub fn sign_in_after_session(
    stored: Result<Session, String>,
    config: &JwtConfig,
    external: ExternalAuthUser,
    user: FullUserRecord,
) -> (r: AppResult<AuthenticationResult>)
    requires
        external.expiration.wf(),
    ensures
        match stored {
            Err(msg) => r matches Err(e) && e is Internal && e.detail() == "Database error: "@ + msg@,
            Ok(session) => r matches Ok(res) && signed_in(res, *config, external, user, session),
        },
{
    match stored {
        Err(msg) => {
            let text = String::from_str("Database error: ").concat(msg.as_str());
            Err(AppError::internal(text.as_str()))
        },
        Ok(session) => finish_authentication(config, external, user, session),
    }
}

/// The profile read for the signed-in user, when there is one.
pub fn profile_lookup_result(found: AppResult<Option<User>>) -> (r: AppResult<Option<UserProfileResponse>>)
    ensures
        match found {
            Err(e) => r == Err::<Option<UserProfileResponse>, AppError>(e),
            Ok(None) => r == Ok::<Option<UserProfileResponse>, AppError>(None),
            Ok(Some(u)) => r == Ok::<Option<UserProfileResponse>, AppError>(Some(profile_of(u))),
        },
{
    match found {
        Err(e) => Err(e),
        Ok(None) => Ok(None),
        Ok(Some(u)) => Ok(Some(UserProfileResponse::from(u))),
    }
}

/// The first step of a profile change, once the user was looked up: the user
/// to write back with the change applied, or "User not found".
pub fn profile_update_target(found: AppResult<Option<User>>, req: UpdateProfileRequest) -> (r: AppResult<User>)
    ensures
        match found {
            Err(e) => r == Err::<User, AppError>(e),
            Ok(None) => r matches Err(e) && e is NotFound && e.detail() == "User not found"@,
            Ok(Some(u)) => r == Ok::<User, AppError>(updated_user(u, req)),
        },
{
    match found {
        Err(e) => Err(e),
        Ok(None) => Err(AppError::not_found("User not found")),
        Ok(Some(u)) => Ok(apply_profile_update(u, req)),
    }
}

/// The last step of a profile change, once the user was written: the
/// profile of the stored user.
pub fn profile_update_result(saved: AppResult<User>) -> (r: AppResult<UserProfileResponse>)
    ensures
        match saved {
            Err(e) => r == Err::<UserProfileResponse, AppError>(e),
            Ok(u) => r == Ok::<UserProfileResponse, AppError>(profile_of(u)),
        },
{
    match saved {
        Err(e) => Err(e),
        Ok(u) => Ok(UserProfileResponse::from(u)),
    }
}

} // verus!
