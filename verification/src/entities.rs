use vstd::prelude::*;
use crate::time::{Date, Timestamp};

verus! {

/// A user's gender as the profile records it.
#[derive(Debug, Clone, Copy, PartialEq, Eq, Structural)]
pub enum Gender {
    Male,
    Female,
    NonBinary,
    Transgender,
    Intersex,
    PreferNotToSay,
    Other,
}

/// A user of the service.
#[derive(Debug, Clone)]
pub struct User {
    pub id: u128,
    pub firebase_uid: String,
    pub username: Option<String>,
    pub display_name: Option<String>,
    pub bio: Option<String>,
    pub avatar_url: Option<String>,
    pub phone_number: Option<String>,
    pub gender: Option<Gender>,
    pub dob: Option<Date>,
    pub embedding_dirty: bool,
    pub created_at: Timestamp,
    pub updated_at: Timestamp,
    pub deleted_at: Option<Timestamp>,
}

/// A user together with the username joined from its own table.
#[derive(Debug, Clone)]
pub struct FullUserRecord {
    pub id: u128,
    pub firebase_uid: String,
    pub username: Option<String>,
    pub display_name: Option<String>,
    pub bio: Option<String>,
    pub avatar_url: Option<String>,
    pub phone_number: Option<String>,
    pub gender: Option<Gender>,
    pub dob: Option<Date>,
    pub embedding_dirty: bool,
    pub created_at: Timestamp,
    pub updated_at: Timestamp,
    pub deleted_at: Option<Timestamp>,
}

/// A sign-in identity of a user with one provider.
#[derive(Debug, Clone)]
pub struct AuthIdentity {
    pub provider_slug: String,
    pub provider_uid: String,
    pub identifier: Option<String>,
    pub verified_at: Option<Timestamp>,
}

/// A device session of a user.
#[derive(Debug, Clone)]
pub struct Session {
    pub id: u128,
    pub user_id: u128,
    pub device_id: String,
    pub fcm_token: Option<String>,
    pub user_agent: String,
    pub ip_address: String,
    pub auth_exp: Timestamp,
    pub revoked_at: Option<Timestamp>,
    pub created_at: Timestamp,
    pub updated_at: Timestamp,
}

/// What creating or refreshing a session is given.
#[derive(Debug, Clone)]
pub struct SessionInput {
    pub user_id: u128,
    pub device_id: String,
    pub fcm_token: Option<String>,
    pub user_agent: String,
    pub ip_address: String,
    pub auth_exp: Timestamp,
}

} // verus!
