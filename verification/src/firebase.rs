use vstd::prelude::*;
use crate::assoc::{assoc_lookup, lemma_assoc_lookup_absent, lemma_assoc_lookup_found};
use crate::errors::{AppError, AppResult};
use crate::json::JsonValue;
use crate::time::{secs_in_range, utc_from_timestamp, Timestamp};

verus! {

/// Service-account settings of the Firebase Admin SDK: a path to the key file,
/// the key file's JSON inline, or its fields one by one.
#[derive(Debug, Clone)]
pub struct FirebaseAdminConfig {
    pub service_account_path: Option<String>,
    pub service_account_json: Option<String>,
    pub project_id: Option<String>,
    pub private_key_id: Option<String>,
    pub private_key: Option<String>,
    pub client_email: Option<String>,
    pub client_id: Option<String>,
    pub auth_uri: Option<String>,
    pub token_uri: Option<String>,
    pub auth_provider_x509_cert_url: Option<String>,
    pub client_x509_cert_url: Option<String>,
}

/// Settings handed to the web client's Firebase SDK.
#[derive(Debug, Clone)]
pub struct FirebaseWebConfig {
    pub api_key: String,
    pub auth_domain: String,
    pub project_id: String,
    pub storage_bucket: Option<String>,
    pub messaging_sender_id: String,
    pub app_id: String,
    pub measurement_id: Option<String>,
    pub vapid_public_key: String,
}

/// Which Firebase services are switched on.
#[derive(Debug, Clone, Copy, PartialEq, Eq, Structural)]
pub struct FirebaseFeatures {
    pub auth: bool,
    pub messaging: bool,
    pub storage: bool,
}

impl Default for FirebaseFeatures {
    /// Authentication and messaging on, storage off.
    fn default() -> (r: Self)
        ensures
            r == (FirebaseFeatures { auth: true, messaging: true, storage: false }),
    {
        FirebaseFeatures { auth: true, messaging: true, storage: false }
    }
}

/// The claims of a verified Firebase ID token: the registered fields, and the
/// remaining claims as JSON members in key order.
#[derive(Debug)]
pub struct FirebaseTokenClaims {
    pub sub: String,
    pub exp: u64,
    pub name: Option<String>,
    pub picture: Option<String>,
    pub email: Option<String>,
    pub email_verified: Option<bool>,
    pub claims: Vec<(String, JsonValue)>,
}

/// A sign-in identity reported by the external provider.
#[derive(Debug, Clone)]
pub struct ExternalIdentity {
    pub provider_slug: String,
    pub provider_uid: String,
    pub identifier: Option<String>,
}

/// A user as the external authentication service reports it.
#[derive(Debug, Clone)]
pub struct ExternalAuthUser {
    pub uid: String,
    pub email: Option<String>,
    pub email_verified: bool,
    pub display_name: Option<String>,
    pub photo_url: Option<String>,
    pub phone_number: Option<String>,
    pub expiration: Timestamp,
    pub identities: Vec<ExternalIdentity>,
    /// How the user signed in, such as "google.com" or "password".
    pub provider_id: String,
}

pub open spec fn opt_text(o: Option<String>) -> Option<Seq<char>> {
    match o {
        Some(s) => Some(s@),
        None => None,
    }
}

pub struct IdentityModel {
    pub provider_slug: Seq<char>,
    pub provider_uid: Seq<char>,
    pub identifier: Option<Seq<char>>,
}

impl ExternalIdentity {
    pub open spec fn model(self) -> IdentityModel {
        IdentityModel {
            provider_slug: self.provider_slug@,
            provider_uid: self.provider_uid@,
            identifier: opt_text(self.identifier),
        }
    }
}

pub open spec fn identities_model(ids: Seq<ExternalIdentity>) -> Seq<IdentityModel> {
    ids.map_values(|i: ExternalIdentity| i.model())
}

pub open spec fn members_model(members: Seq<(String, JsonValue)>) -> Seq<(Seq<char>, JsonValue)> {
    members.map_values(|e: (String, JsonValue)| (e.0@, e.1))
}

/// A JSON member looked up by key.
pub open spec fn member(members: Seq<(String, JsonValue)>, key: Seq<char>) -> Option<JsonValue> {
    assoc_lookup(members_model(members), key)
}

/// The provider category of an identity slug: e-mail identities are password
/// sign-ins, phone stays phone, any other slug is its own category.
pub open spec fn provider_category(slug: Seq<char>) -> Seq<char> {
    if slug == "email"@ {
        "password"@
    } else if slug == "phone"@ {
        "phone"@
    } else {
        slug
    }
}

/// The identifier recorded for an identity: the e-mail for password sign-ins,
/// the phone number for phone sign-ins, nothing otherwise.
pub open spec fn identifier_for(
    category: Seq<char>,
    email: Option<Seq<char>>,
    phone: Option<Seq<char>>,
) -> Option<Seq<char>> {
    if category == "password"@ {
        email
    } else if category == "phone"@ {
        phone
    } else {
        None
    }
}

/// The identity a member of `firebase.identities` stands for: one whose value
/// is an array starting with a string, that string being the provider's uid.
pub open spec fn identity_of_member(
    slug: Seq<char>,
    v: JsonValue,
    email: Option<Seq<char>>,
    phone: Option<Seq<char>>,
) -> Option<IdentityModel> {
    match v {
        JsonValue::Array(items) => if items@.len() > 0 && items@[0] is String {
            Some(
                IdentityModel {
                    provider_slug: provider_category(slug),
                    provider_uid: items@[0]->String_0@,
                    identifier: identifier_for(provider_category(slug), email, phone),
                },
            )
        } else {
            None
        },
        _ => None,
    }
}

/// The identities of the first `n` members of `firebase.identities`, in order.
pub open spec fn identities_of(
    members: Seq<(String, JsonValue)>,
    n: int,
    email: Option<Seq<char>>,
    phone: Option<Seq<char>>,
) -> Seq<IdentityModel>
    decreases n,
{
    if n <= 0 || n > members.len() {
        seq![]
    } else {
        let prev = identities_of(members, n - 1, email, phone);
        match identity_of_member(members[n - 1].0@, members[n - 1].1, email, phone) {
            Some(id) => prev.push(id),
            None => prev,
        }
    }
}

/// `firebase.sign_in_provider` when it is a string, else "unknown".
pub open spec fn sign_in_provider(claims: Seq<(String, JsonValue)>) -> Seq<char> {
    match member(claims, "firebase"@) {
        Some(JsonValue::Object(f)) => match member(f@, "sign_in_provider"@) {
            Some(JsonValue::String(p)) => p@,
            _ => "unknown"@,
        },
        _ => "unknown"@,
    }
}

/// The `phone_number` claim when it is a string.
pub open spec fn phone_claim(claims: Seq<(String, JsonValue)>) -> Option<Seq<char>> {
    match member(claims, "phone_number"@) {
        Some(JsonValue::String(s)) => Some(s@),
        _ => None,
    }
}

/// The identities listed under `firebase.identities`, when both are objects.
pub open spec fn claimed_identities(
    claims: Seq<(String, JsonValue)>,
    email: Option<Seq<char>>,
) -> Seq<IdentityModel> {
    match member(claims, "firebase"@) {
        Some(JsonValue::Object(f)) => match member(f@, "identities"@) {
            Some(JsonValue::Object(ids)) => identities_of(ids@, ids@.len() as int, email, phone_claim(claims)),
            _ => seq![],
        },
        _ => seq![],
    }
}

/// The member of a JSON object with the given key.
fn find_member<'a>(members: &'a Vec<(String, JsonValue)>, key: &str) -> (r: Option<&'a JsonValue>)
    ensures
        match r {
            Some(v) => member(members@, key@) == Some(*v),
            None => member(members@, key@) is None,
        },
{
    let k = String::from_str(key);
    let ghost m = members_model(members@);
    let mut i: usize = 0;
    while i < members.len()
        invariant
            i <= members.len(),
            m == members_model(members@),
            k@ == key@,
            forall|j: int| 0 <= j < i ==> m[j].0 != key@,
        decreases members.len() - i,
    {
        if members[i].0 == k {
            proof {
                lemma_assoc_lookup_found(m, key@, i as int);
            }
            return Some(&members[i].1);
        }
        i = i + 1;
    }
    proof {
        lemma_assoc_lookup_absent(m, key@);
    }
    None
}

fn clone_text(o: &Option<String>) -> (r: Option<String>)
    ensures
        opt_text(r) == opt_text(*o),
{
    match o {
        Some(s) => Some(s.clone()),
        None => None,
    }
}

fn category_of(slug: &String) -> (r: String)
    ensures
        r@ == provider_category(slug@),
{
    let email = String::from_str("email");
    let phone = String::from_str("phone");
    if *slug == email {
        String::from_str("password")
    } else if *slug == phone {
        String::from_str("phone")
    } else {
        slug.clone()
    }
}

fn identifier_of(category: &String, email: &Option<String>, phone: &Option<String>) -> (r: Option<String>)
    ensures
        opt_text(r) == identifier_for(category@, opt_text(*email), opt_text(*phone)),
{
    let password = String::from_str("password");
    let phone_slug = String::from_str("phone");
    if *category == password {
        clone_text(email)
    } else if *category == phone_slug {
        clone_text(phone)
    } else {
        None
    }
}

/// The identities listed in a `firebase.identities` object (see `identities_of`).
fn collect_identities(
    ids: &Vec<(String, JsonValue)>,
    email: &Option<String>,
    phone: &Option<String>,
) -> (r: Vec<ExternalIdentity>)
    ensures
        identities_model(r@) == identities_of(ids@, ids@.len() as int, opt_text(*email), opt_text(*phone)),
{
    let mut identities: Vec<ExternalIdentity> = Vec::new();
    let mut i: usize = 0;
    while i < ids.len()
        invariant
            i <= ids.len(),
            identities_model(identities@) == identities_of(ids@, i as int, opt_text(*email), opt_text(*phone)),
        decreases ids.len() - i,
    {
        let ghost before = identities@;
        if let JsonValue::Array(items) = &ids[i].1 {
            if items.len() > 0 {
                if let JsonValue::String(provider_uid) = &items[0] {
                    let category = category_of(&ids[i].0);
                    let identifier = identifier_of(&category, email, phone);
                    identities.push(
                        ExternalIdentity { provider_slug: category, provider_uid: provider_uid.clone(), identifier },
                    );
                    proof {
                        assert(identities_model(identities@) =~= identities_model(before).push(
                            identities@.last().model(),
                        ));
                    }
                }
            }
        }
        i = i + 1;
    }
    identities
}

/// Normalises the claims of a verified Firebase ID token into the user the
/// service works with: the sign-in provider (or "unknown"), the phone number
/// claim, the identities under `firebase.identities`, and the expiry, which
/// must be a representable time.
pub fn external_user_from_claims(token: FirebaseTokenClaims) -> (r: AppResult<ExternalAuthUser>)
    ensures
        match r {
            Ok(u) => {
                &&& secs_in_range((token.exp as i64) as int)
                &&& u.expiration == Timestamp { secs: token.exp as i64, nanos: 0 }
                &&& u.uid == token.sub
                &&& opt_text(u.email) == opt_text(token.email)
                &&& u.email_verified == (token.email_verified == Some(true))
                &&& u.display_name == token.name
                &&& u.photo_url == token.picture
                &&& opt_text(u.phone_number) == phone_claim(token.claims@)
                &&& identities_model(u.identities@) == claimed_identities(token.claims@, opt_text(token.email))
                &&& u.provider_id@ == sign_in_provider(token.claims@)
            },
            Err(e) => {
                &&& !secs_in_range((token.exp as i64) as int)
                &&& e is Internal
                &&& e.detail() == "Invalid expiration timestamp from Firebase"@
            },
        },
{
    let provider_id = match find_member(&token.claims, "firebase") {
        Some(JsonValue::Object(f)) => match find_member(f, "sign_in_provider") {
            Some(JsonValue::String(p)) => p.clone(),
            _ => String::from_str("unknown"),
        },
        _ => String::from_str("unknown"),
    };
    let email = clone_text(&token.email);
    let phone_number = match find_member(&token.claims, "phone_number") {
        Some(JsonValue::String(s)) => Some(s.clone()),
        _ => None,
    };
    let identities = match find_member(&token.claims, "firebase") {
        Some(JsonValue::Object(f)) => match find_member(f, "identities") {
            Some(JsonValue::Object(ids)) => collect_identities(ids, &email, &phone_number),
            _ => Vec::new(),
        },
        _ => Vec::new(),
    };
    let expiration = match utc_from_timestamp(token.exp as i64) {
        Some(t) => t,
        None => return Err(AppError::internal("Invalid expiration timestamp from Firebase")),
    };
    Ok(ExternalAuthUser {
        uid: token.sub,
        email,
        email_verified: match token.email_verified {
            Some(v) => v,
            None => false,
        },
        display_name: token.name,
        photo_url: token.picture,
        phone_number,
        expiration,
        identities,
        provider_id,
    })
}

/// The error for an ID token that Firebase refused, with the refusal's text.
pub fn firebase_verification_error(detail: &str) -> (e: AppError)
    ensures
        e is Unauthorized,
        e.detail() == "Firebase verification failed: "@ + detail@,
{
    let message = String::from_str("Firebase verification failed: ").concat(detail);
    AppError::unauthorized(message.as_str())
}

} // verus!
