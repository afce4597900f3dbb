//! Verified core of the authentication and profile backend: error model,
//! token issuance and checking, translations, Firebase claim normalisation,
//! profile updates and the request decisions of the HTTP layer.

pub mod assoc;
pub mod dtos;
pub mod entities;
pub mod errors;
pub mod time;
pub mod firebase;
pub mod flows;
pub mod http;
pub mod i18n;
pub mod ids;
pub mod json;
pub mod jwt;
pub mod keyed;
pub mod models;
