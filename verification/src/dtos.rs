use vstd::prelude::*;
use crate::entities::{FullUserRecord, Gender, Session, User};
use crate::time::{Date, Timestamp};

verus! {

/// Body of a Firebase sign-in request.
#[derive(Debug, Clone)]
pub struct FirebaseLoginRequest {
    pub id_token: String,
    pub fcm_token: Option<String>,
    pub device_id: String,
    pub user_agent: Option<String>,
}

/// Body of the answer to a successful Firebase sign-in.
#[derive(Debug, Clone)]
pub struct FirebaseLoginResponse {
    pub id: u128,
    pub firebase_uid: String,
    pub session_id: u128,
    pub username: Option<String>,
    pub display_name: Option<String>,
    pub bio: Option<String>,
    pub avatar_url: Option<String>,
    pub gender: Option<Gender>,
    pub dob: Option<Date>,
    pub current_auth_provider_slug: String,
    pub current_provider_internal_uid: Option<String>,
    pub is_verified: bool,
    pub token: String,
    pub exp: Timestamp,
}

/// Everything a successful sign-in produced.
#[derive(Debug, Clone)]
pub struct AuthenticationResult {
    pub user: FullUserRecord,
    pub session: Session,
    pub jwt_token: String,
    pub exp: Timestamp,
    pub current_provider_name: String,
    pub current_provider_internal_uid: Option<String>,
    pub is_verified: bool,
}

/// The answer to a sign-in, built from its result.
pub open spec fn login_response_of(r: AuthenticationResult) -> FirebaseLoginResponse {
    FirebaseLoginResponse {
        id: r.user.id,
        firebase_uid: r.user.firebase_uid,
        session_id: r.session.id,
        username: r.user.username,
        display_name: r.user.display_name,
        bio: r.user.bio,
        avatar_url: r.user.avatar_url,
        gender: r.user.gender,
        dob: r.user.dob,
        current_auth_provider_slug: r.current_provider_name,
        current_provider_internal_uid: r.current_provider_internal_uid,
        is_verified: r.is_verified,
        token: r.jwt_token,
        exp: r.exp,
    }
}

impl From<AuthenticationResult> for FirebaseLoginResponse {
    fn from(r: AuthenticationResult) -> (resp: Self)
        ensures
            resp == login_response_of(r),
            resp.id == r.user.id,
            resp.firebase_uid == r.user.firebase_uid,
            resp.session_id == r.session.id,
            resp.username == r.user.username,
            resp.display_name == r.user.display_name,
            resp.bio == r.user.bio,
            resp.avatar_url == r.user.avatar_url,
            resp.gender == r.user.gender,
            resp.dob == r.user.dob,
            resp.current_auth_provider_slug == r.current_provider_name,
            resp.current_provider_internal_uid == r.current_provider_internal_uid,
            resp.is_verified == r.is_verified,
            resp.token == r.jwt_token,
            resp.exp == r.exp,
    {
        FirebaseLoginResponse {
            id: r.user.id,
            firebase_uid: r.user.firebase_uid,
            session_id: r.session.id,
            username: r.user.username,
            display_name: r.user.display_name,
            bio: r.user.bio,
            avatar_url: r.user.avatar_url,
            gender: r.user.gender,
            dob: r.user.dob,
            current_auth_provider_slug: r.current_provider_name,
            current_provider_internal_uid: r.current_provider_internal_uid,
            is_verified: r.is_verified,
            token: r.jwt_token,
            exp: r.exp,
        }
    }
}

impl vstd::std_specs::convert::FromSpecImpl<AuthenticationResult> for FirebaseLoginResponse {
    open spec fn obeys_from_spec() -> bool {
        true
    }

    open spec fn from_spec(v: AuthenticationResult) -> Self {
        login_response_of(v)
    }
}

/// A profile change: each field that is present replaces the stored one.
#[derive(Debug, Clone)]
pub struct UpdateProfileRequest {
    pub username: Option<String>,
    pub display_name: Option<String>,
    pub bio: Option<String>,
    pub avatar_url: Option<String>,
    pub phone_number: Option<String>,
    pub gender: Option<Gender>,
    pub dob: Option<Date>,
}

/// The profile shown to its owner.
#[derive(Debug, Clone)]
pub struct UserProfileResponse {
    pub id: u128,
    pub username: Option<String>,
    pub display_name: Option<String>,
    pub bio: Option<String>,
    pub avatar_url: Option<String>,
    pub phone_number: Option<String>,
    pub gender: Option<Option<Gender>>,
    pub dob: Option<Date>,
}

/// The profile of a user; the gender is always present, as the user's
/// optional gender.
pub open spec fn profile_of(user: User) -> UserProfileResponse {
    UserProfileResponse {
        id: user.id,
        username: user.username,
        display_name: user.display_name,
        bio: user.bio,
        avatar_url: user.avatar_url,
        phone_number: user.phone_number,
        gender: Some(user.gender),
        dob: user.dob,
    }
}

impl From<User> for UserProfileResponse {
    fn from(user: User) -> (r: Self)
        ensures
            r == profile_of(user),
            r.id == user.id,
            r.username == user.username,
            r.display_name == user.display_name,
            r.bio == user.bio,
            r.avatar_url == user.avatar_url,
            r.phone_number == user.phone_number,
            r.gender == Some(user.gender),
            r.dob == user.dob,
    {
        UserProfileResponse {
            id: user.id,
            username: user.username,
            display_name: user.display_name,
            bio: user.bio,
            avatar_url: user.avatar_url,
            phone_number: user.phone_number,
            gender: Some(user.gender),
            dob: user.dob,
        }
    }
}

impl vstd::std_specs::convert::FromSpecImpl<User> for UserProfileResponse {
    open spec fn obeys_from_spec() -> bool {
        true
    }

    open spec fn from_spec(v: User) -> Self {
        profile_of(v)
    }
}

/// `new` when it is present, else `old`.
pub open spec fn overridden<T>(old: Option<T>, new: Option<T>) -> Option<T> {
    match new {
        Some(v) => Some(v),
        None => old,
    }
}

/// The user after a profile change: present fields replace the stored ones,
/// absent fields and everything else are kept.
pub open spec fn updated_user(user: User, req: UpdateProfileRequest) -> User {
    User {
        username: overridden(user.username, req.username),
        display_name: overridden(user.display_name, req.display_name),
        bio: overridden(user.bio, req.bio),
        avatar_url: overridden(user.avatar_url, req.avatar_url),
        phone_number: overridden(user.phone_number, req.phone_number),
        gender: overridden(user.gender, req.gender),
        dob: overridden(user.dob, req.dob),
        ..user
    }
}

/// Applies a profile change to a user (see `updated_user`).
pub fn apply_profile_update(user: User, req: UpdateProfileRequest) -> (r: User)
    ensures
        r == updated_user(user, req),
        r.username == (if req.username is Some { req.username } else { user.username }),
        r.display_name == (if req.display_name is Some { req.display_name } else { user.display_name }),
        r.bio == (if req.bio is Some { req.bio } else { user.bio }),
        r.avatar_url == (if req.avatar_url is Some { req.avatar_url } else { user.avatar_url }),
        r.phone_number == (if req.phone_number is Some { req.phone_number } else { user.phone_number }),
        r.gender == (if req.gender is Some { req.gender } else { user.gender }),
        r.dob == (if req.dob is Some { req.dob } else { user.dob }),
        r.id == user.id,
        r.firebase_uid == user.firebase_uid,
        r.embedding_dirty == user.embedding_dirty,
        r.created_at == user.created_at,
        r.updated_at == user.updated_at,
        r.deleted_at == user.deleted_at,
{
    let mut user = user;
    if let Some(username) = req.username {
        user.username = Some(username);
    }
    if let Some(display_name) = req.display_name {
        user.display_name = Some(display_name);
    }
    if let Some(bio) = req.bio {
        user.bio = Some(bio);
    }
    if let Some(avatar_url) = req.avatar_url {
        user.avatar_url = Some(avatar_url);
    }
    if let Some(phone_number) = req.phone_number {
        user.phone_number = Some(phone_number);
    }
    if let Some(gender) = req.gender {
        user.gender = Some(gender);
    }
    if let Some(dob) = req.dob {
        user.dob = Some(dob);
    }
    user
}

/// Applying the same profile change twice gives what applying it once gave.
pub proof fn lemma_profile_update_idempotent(user: User, req: UpdateProfileRequest)
    ensures
        updated_user(updated_user(user, req), req) == updated_user(user, req),
{
}

/// A change with no field present leaves the user as it was.
pub proof fn lemma_empty_profile_update(user: User, req: UpdateProfileRequest)
    requires
        req.username is None,
        req.display_name is None,
        req.bio is None,
        req.avatar_url is None,
        req.phone_number is None,
        req.gender is None,
        req.dob is None,
    ensures
        updated_user(user, req) == user,
{
}

/// A profile change never alters who the user is or when the record was made.
pub proof fn lemma_profile_update_keeps_identity(user: User, req: UpdateProfileRequest)
    ensures
        updated_user(user, req).id == user.id,
        updated_user(user, req).firebase_uid == user.firebase_uid,
        updated_user(user, req).created_at == user.created_at,
        updated_user(user, req).deleted_at == user.deleted_at,
{
}

/// The sign-in answer shows the stored user's own profile fields, the stored
/// session's identifier, and the token, expiry and provider of the sign-in.
pub proof fn lemma_login_response_fields(r: AuthenticationResult)
    ensures
        ({
            let resp = login_response_of(r);
            &&& resp.id == r.user.id
            &&& resp.firebase_uid == r.user.firebase_uid
            &&& resp.session_id == r.session.id
            &&& resp.username == r.user.username
            &&& resp.display_name == r.user.display_name
            &&& resp.bio == r.user.bio
            &&& resp.avatar_url == r.user.avatar_url
            &&& resp.gender == r.user.gender
            &&& resp.dob == r.user.dob
            &&& resp.current_auth_provider_slug == r.current_provider_name
            &&& resp.current_provider_internal_uid == r.current_provider_internal_uid
            &&& resp.is_verified == r.is_verified
            &&& resp.token == r.jwt_token
            &&& resp.exp == r.exp
        }),
{
}

/// A user's profile shows that user's own fields, each in its own place.
pub proof fn lemma_profile_fields(user: User)
    ensures
        ({
            let p = profile_of(user);
            &&& p.id == user.id
            &&& p.username == user.username
            &&& p.display_name == user.display_name
            &&& p.bio == user.bio
            &&& p.avatar_url == user.avatar_url
            &&& p.phone_number == user.phone_number
            &&& p.gender == Some(user.gender)
            &&& p.dob == user.dob
        }),
{
}

/// Every field present in a profile change is the updated user's field, and
/// every absent one keeps the stored value.
pub proof fn lemma_profile_update_fields(user: User, req: UpdateProfileRequest)
    ensures
        ({
            let u = updated_user(user, req);
            &&& req.username matches Some(v) ==> u.username == Some(v)
            &&& req.display_name matches Some(v) ==> u.display_name == Some(v)
            &&& req.bio matches Some(v) ==> u.bio == Some(v)
            &&& req.avatar_url matches Some(v) ==> u.avatar_url == Some(v)
            &&& req.phone_number matches Some(v) ==> u.phone_number == Some(v)
            &&& req.gender matches Some(v) ==> u.gender == Some(v)
            &&& req.dob matches Some(v) ==> u.dob == Some(v)
            &&& req.username is None ==> u.username == user.username
            &&& req.display_name is None ==> u.display_name == user.display_name
            &&& req.bio is None ==> u.bio == user.bio
            &&& req.avatar_url is None ==> u.avatar_url == user.avatar_url
            &&& req.phone_number is None ==> u.phone_number == user.phone_number
            &&& req.gender is None ==> u.gender == user.gender
            &&& req.dob is None ==> u.dob == user.dob
        }),
{
}

} // verus!
