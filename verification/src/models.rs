use vstd::prelude::*;
use crate::entities::{FullUserRecord, Gender, Session, User};
use crate::time::{Date, Timestamp};

verus! {

/// Gender as the database's `gender_enum` stores it.
#[derive(Debug, Clone, Copy, PartialEq, Eq, Structural)]
pub enum GenderDb {
    Male,
    Female,
    NonBinary,
    Transgender,
    Intersex,
    PreferNotToSay,
    Other,
}

pub open spec fn gender_to_db(g: Gender) -> GenderDb {
    match g {
        Gender::Male => GenderDb::Male,
        Gender::Female => GenderDb::Female,
        Gender::NonBinary => GenderDb::NonBinary,
        Gender::Transgender => GenderDb::Transgender,
        Gender::Intersex => GenderDb::Intersex,
        Gender::PreferNotToSay => GenderDb::PreferNotToSay,
        Gender::Other => GenderDb::Other,
    }
}

pub open spec fn gender_from_db(g: GenderDb) -> Gender {
    match g {
        GenderDb::Male => Gender::Male,
        GenderDb::Female => Gender::Female,
        GenderDb::NonBinary => Gender::NonBinary,
        GenderDb::Transgender => Gender::Transgender,
        GenderDb::Intersex => Gender::Intersex,
        GenderDb::PreferNotToSay => Gender::PreferNotToSay,
        GenderDb::Other => Gender::Other,
    }
}

pub open spec fn option_gender_from_db(g: Option<GenderDb>) -> Option<Gender> {
    match g {
        Some(g) => Some(gender_from_db(g)),
        None => None,
    }
}

impl From<Gender> for GenderDb {
    fn from(g: Gender) -> (r: Self)
        ensures
            r == gender_to_db(g),
            g == Gender::Male ==> r == GenderDb::Male,
            g == Gender::Female ==> r == GenderDb::Female,
            g == Gender::NonBinary ==> r == GenderDb::NonBinary,
            g == Gender::Transgender ==> r == GenderDb::Transgender,
            g == Gender::Intersex ==> r == GenderDb::Intersex,
            g == Gender::PreferNotToSay ==> r == GenderDb::PreferNotToSay,
            g == Gender::Other ==> r == GenderDb::Other,
    {
        match g {
            Gender::Male => GenderDb::Male,
            Gender::Female => GenderDb::Female,
            Gender::NonBinary => GenderDb::NonBinary,
            Gender::Transgender => GenderDb::Transgender,
            Gender::Intersex => GenderDb::Intersex,
            Gender::PreferNotToSay => GenderDb::PreferNotToSay,
            Gender::Other => GenderDb::Other,
        }
    }
}

impl vstd::std_specs::convert::FromSpecImpl<Gender> for GenderDb {
    open spec fn obeys_from_spec() -> bool {
        true
    }

    open spec fn from_spec(v: Gender) -> Self {
        gender_to_db(v)
    }
}

impl From<GenderDb> for Gender {
    fn from(g: GenderDb) -> (r: Self)
        ensures
            r == gender_from_db(g),
            g == GenderDb::Male ==> r == Gender::Male,
            g == GenderDb::Female ==> r == Gender::Female,
            g == GenderDb::NonBinary ==> r == Gender::NonBinary,
            g == GenderDb::Transgender ==> r == Gender::Transgender,
            g == GenderDb::Intersex ==> r == Gender::Intersex,
            g == GenderDb::PreferNotToSay ==> r == Gender::PreferNotToSay,
            g == GenderDb::Other ==> r == Gender::Other,
    {
        match g {
            GenderDb::Male => Gender::Male,
            GenderDb::Female => Gender::Female,
            GenderDb::NonBinary => Gender::NonBinary,
            GenderDb::Transgender => Gender::Transgender,
            GenderDb::Intersex => Gender::Intersex,
            GenderDb::PreferNotToSay => Gender::PreferNotToSay,
            GenderDb::Other => Gender::Other,
        }
    }
}

impl vstd::std_specs::convert::FromSpecImpl<GenderDb> for Gender {
    open spec fn obeys_from_spec() -> bool {
        true
    }

    open spec fn from_spec(v: GenderDb) -> Self {
        gender_from_db(v)
    }
}

/// Converting a gender to its database form and back gives the same gender.
pub proof fn lemma_gender_round_trip(g: Gender)
    ensures
        gender_from_db(gender_to_db(g)) == g,
{
}

/// Converting a stored gender to the domain form and back gives the same value.
pub proof fn lemma_gender_db_round_trip(g: GenderDb)
    ensures
        gender_to_db(gender_from_db(g)) == g,
{
}

fn gender_option_from_db(g: Option<GenderDb>) -> (r: Option<Gender>)
    ensures
        r == option_gender_from_db(g),
{
    match g {
        Some(g) => Some(Gender::from(g)),
        None => None,
    }
}

/// A row of the user query.
#[derive(Debug, Clone)]
pub struct UserRow {
    pub id: u128,
    pub firebase_uid: String,
    pub username: Option<String>,
    pub display_name: Option<String>,
    pub bio: Option<String>,
    pub avatar_url: Option<String>,
    pub phone_number: Option<String>,
    pub gender: Option<GenderDb>,
    pub dob: Option<Date>,
    pub embedding_dirty: bool,
    pub created_at: Timestamp,
    pub updated_at: Timestamp,
    pub deleted_at: Option<Timestamp>,
}

pub open spec fn user_of_row(row: UserRow) -> User {
    User {
        id: row.id,
        firebase_uid: row.firebase_uid,
        username: row.username,
        display_name: row.display_name,
        bio: row.bio,
        avatar_url: row.avatar_url,
        phone_number: row.phone_number,
        gender: option_gender_from_db(row.gender),
        dob: row.dob,
        embedding_dirty: row.embedding_dirty,
        created_at: row.created_at,
        updated_at: row.updated_at,
        deleted_at: row.deleted_at,
    }
}

impl From<UserRow> for User {
    fn from(row: UserRow) -> (r: Self)
        ensures
            r == user_of_row(row),
            r.id == row.id,
            r.firebase_uid == row.firebase_uid,
            r.username == row.username,
            r.display_name == row.display_name,
            r.bio == row.bio,
            r.avatar_url == row.avatar_url,
            r.phone_number == row.phone_number,
            r.dob == row.dob,
            r.embedding_dirty == row.embedding_dirty,
            r.created_at == row.created_at,
            r.updated_at == row.updated_at,
            r.deleted_at == row.deleted_at,
            r.gender == option_gender_from_db(row.gender),
            row.gender is None ==> r.gender is None,
    {
        User {
            id: row.id,
            firebase_uid: row.firebase_uid,
            username: row.username,
            display_name: row.display_name,
            bio: row.bio,
            avatar_url: row.avatar_url,
            phone_number: row.phone_number,
            gender: gender_option_from_db(row.gender),
            dob: row.dob,
            embedding_dirty: row.embedding_dirty,
            created_at: row.created_at,
            updated_at: row.updated_at,
            deleted_at: row.deleted_at,
        }
    }
}

impl vstd::std_specs::convert::FromSpecImpl<UserRow> for User {
    open spec fn obeys_from_spec() -> bool {
        true
    }

    open spec fn from_spec(v: UserRow) -> Self {
        user_of_row(v)
    }
}

/// A row of the user-with-username query.
#[derive(Debug, Clone)]
pub struct FullUserRecordRow {
    pub id: u128,
    pub firebase_uid: String,
    pub username: Option<String>,
    pub display_name: Option<String>,
    pub bio: Option<String>,
    pub avatar_url: Option<String>,
    pub phone_number: Option<String>,
    pub gender: Option<GenderDb>,
    pub dob: Option<Date>,
    pub embedding_dirty: bool,
    pub created_at: Timestamp,
    pub updated_at: Timestamp,
    pub deleted_at: Option<Timestamp>,
}

pub open spec fn full_user_of_row(row: FullUserRecordRow) -> FullUserRecord {
    FullUserRecord {
        id: row.id,
        firebase_uid: row.firebase_uid,
        username: row.username,
        display_name: row.display_name,
        bio: row.bio,
        avatar_url: row.avatar_url,
        phone_number: row.phone_number,
        gender: option_gender_from_db(row.gender),
        dob: row.dob,
        embedding_dirty: row.embedding_dirty,
        created_at: row.created_at,
        updated_at: row.updated_at,
        deleted_at: row.deleted_at,
    }
}

impl From<FullUserRecordRow> for FullUserRecord {
    fn from(row: FullUserRecordRow) -> (r: Self)
        ensures
            r == full_user_of_row(row),
            r.id == row.id,
            r.firebase_uid == row.firebase_uid,
            r.username == row.username,
            r.display_name == row.display_name,
            r.bio == row.bio,
            r.avatar_url == row.avatar_url,
            r.phone_number == row.phone_number,
            r.dob == row.dob,
            r.embedding_dirty == row.embedding_dirty,
            r.created_at == row.created_at,
            r.updated_at == row.updated_at,
            r.deleted_at == row.deleted_at,
            r.gender == option_gender_from_db(row.gender),
            row.gender is None ==> r.gender is None,
    {
        FullUserRecord {
            id: row.id,
            firebase_uid: row.firebase_uid,
            username: row.username,
            display_name: row.display_name,
            bio: row.bio,
            avatar_url: row.avatar_url,
            phone_number: row.phone_number,
            gender: gender_option_from_db(row.gender),
            dob: row.dob,
            embedding_dirty: row.embedding_dirty,
            created_at: row.created_at,
            updated_at: row.updated_at,
            deleted_at: row.deleted_at,
        }
    }
}

impl vstd::std_specs::convert::FromSpecImpl<FullUserRecordRow> for FullUserRecord {
    open spec fn obeys_from_spec() -> bool {
        true
    }

    open spec fn from_spec(v: FullUserRecordRow) -> Self {
        full_user_of_row(v)
    }
}

/// The record returned after a user and its identities were synchronised:
/// the stored row, with the phone number that was just verified in place of
/// the stored one.
pub fn synced_user_record(row: FullUserRecordRow, phone_number: Option<String>) -> (r: FullUserRecord)
    ensures
        r == (FullUserRecord { phone_number, ..full_user_of_row(row) }),
        r.phone_number == phone_number,
        r.id == row.id,
        r.firebase_uid == row.firebase_uid,
        r.username == row.username,
        r.display_name == row.display_name,
        r.bio == row.bio,
        r.avatar_url == row.avatar_url,
        r.dob == row.dob,
        r.embedding_dirty == row.embedding_dirty,
        r.created_at == row.created_at,
        r.updated_at == row.updated_at,
        r.deleted_at == row.deleted_at,
        r.gender == option_gender_from_db(row.gender),
{
    let mut record = FullUserRecord::from(row);
    record.phone_number = phone_number;
    record
}

/// A row of the session queries.
#[derive(Debug, Clone)]
pub struct SessionRow {
    pub id: u128,
    pub user_id: u128,
    pub device_id: String,
    pub fcm_token: Option<String>,
    pub user_agent: String,
    pub ip_address: String,
    pub auth_exp: Timestamp,
    pub revoked_at: Option<Timestamp>,
    pub created_at: Timestamp,
    pub updated_at: Timestamp,
}

pub open spec fn session_of_row(row: SessionRow) -> Session {
    Session {
        id: row.id,
        user_id: row.user_id,
        device_id: row.device_id,
        fcm_token: row.fcm_token,
        user_agent: row.user_agent,
        ip_address: row.ip_address,
        auth_exp: row.auth_exp,
        revoked_at: row.revoked_at,
        created_at: row.created_at,
        updated_at: row.updated_at,
    }
}

impl From<SessionRow> for Session {
    fn from(row: SessionRow) -> (r: Self)
        ensures
            r == session_of_row(row),
            r.id == row.id,
            r.user_id == row.user_id,
            r.device_id == row.device_id,
            r.fcm_token == row.fcm_token,
            r.user_agent == row.user_agent,
            r.ip_address == row.ip_address,
            r.auth_exp == row.auth_exp,
            r.revoked_at == row.revoked_at,
            r.created_at == row.created_at,
            r.updated_at == row.updated_at,
    {
        Session {
            id: row.id,
            user_id: row.user_id,
            device_id: row.device_id,
            fcm_token: row.fcm_token,
            user_agent: row.user_agent,
            ip_address: row.ip_address,
            auth_exp: row.auth_exp,
            revoked_at: row.revoked_at,
            created_at: row.created_at,
            updated_at: row.updated_at,
        }
    }
}

impl vstd::std_specs::convert::FromSpecImpl<SessionRow> for Session {
    open spec fn obeys_from_spec() -> bool {
        true
    }

    open spec fn from_spec(v: SessionRow) -> Self {
        session_of_row(v)
    }
}

/// Each gender is stored as the database value of the same name, and read
/// back from it.
pub proof fn lemma_gender_names(g: Gender, d: GenderDb)
    ensures
        g == Gender::Male <==> gender_to_db(g) == GenderDb::Male,
        g == Gender::Female <==> gender_to_db(g) == GenderDb::Female,
        g == Gender::NonBinary <==> gender_to_db(g) == GenderDb::NonBinary,
        g == Gender::Transgender <==> gender_to_db(g) == GenderDb::Transgender,
        g == Gender::Intersex <==> gender_to_db(g) == GenderDb::Intersex,
        g == Gender::PreferNotToSay <==> gender_to_db(g) == GenderDb::PreferNotToSay,
        g == Gender::Other <==> gender_to_db(g) == GenderDb::Other,
        d == GenderDb::Male <==> gender_from_db(d) == Gender::Male,
        d == GenderDb::Female <==> gender_from_db(d) == Gender::Female,
        d == GenderDb::NonBinary <==> gender_from_db(d) == Gender::NonBinary,
        d == GenderDb::Transgender <==> gender_from_db(d) == Gender::Transgender,
        d == GenderDb::Intersex <==> gender_from_db(d) == Gender::Intersex,
        d == GenderDb::PreferNotToSay <==> gender_from_db(d) == Gender::PreferNotToSay,
        d == GenderDb::Other <==> gender_from_db(d) == Gender::Other,
{
}

} // verus!
