//! Data model of the service core: user records, session claims, request
//! schemas and process configuration. Timestamps are held as seconds since
//! the epoch so that the gates can reason about them as plain integers.

use vstd::prelude::*;

verus! {

/// A user record as the primary store holds it. The tenant (customer) name
/// is optional: a principal without one sees unscoped listings, an explicit
/// policy of the gateway.
#[derive(Clone)]
pub struct User {
    pub id: i64,
    pub name: String,
    pub email: String,
    pub password: String,
    pub is_admin: bool,
    pub customer_name: Option<String>,
    pub role: String,
    pub photo: String,
    pub verified: bool,
    pub created_at: Option<i64>,
    pub updated_at: Option<i64>,
}

/// Signed session claims: subject (user id in decimal), issued-at and
/// expiry, both in seconds since the epoch.
#[derive(Clone)]
pub struct TokenClaims {
    pub sub: String,
    pub iat: u64,
    pub exp: u64,
}

/// Body of a registration request.
#[derive(Clone)]
pub struct RegisterUserSchema {
    pub name: String,
    pub email: String,
    pub password: String,
    pub is_admin: bool,
    pub customer_name: Option<String>,
}

/// Body of a login request.
#[derive(Clone)]
pub struct LoginUserSchema {
    pub email: String,
    pub password: String,
}

/// The user record with the password digest removed, as returned to clients.
#[derive(Clone)]
pub struct FilteredUser {
    pub id: i64,
    pub name: String,
    pub email: String,
    pub customer_name: Option<String>,
    pub role: String,
    pub photo: String,
    pub verified: bool,
    pub created_at: i64,
    pub updated_at: i64,
}

/// Process-wide configuration, loaded once at startup by the embedding
/// program and immutable afterwards.
#[derive(Clone)]
pub struct Config {
    pub database_url: String,
    pub jwt_secret: String,
    pub jwt_expires_in: String,
    pub jwt_maxage: i32,
    pub sqlserver_hostname: String,
    pub sqlserver_username: String,
    pub sqlserver_password: String,
    pub cors_origin_value: String,
}

/// Client-supplied paging and sorting parameters of the listing endpoint.
/// All fields are optional; the gateway normalizes and validates each one.
#[derive(Clone)]
pub struct Params {
    pub page: Option<u32>,
    pub size: Option<u32>,
    pub sorting_dir: Option<String>,
    pub sorting_field: Option<String>,
}

/// Drops the password digest and flattens the timestamps of a user record.
///
/// The embedding program must only call this for records whose timestamps
/// are both set; the store fills them on insertion.
pub fn filter_user_record(user: &User) -> (filtered: FilteredUser)
    requires
        user.created_at is Some,
        user.updated_at is Some,
    ensures
        filtered.id == user.id,
        filtered.name@ == user.name@,
        filtered.email@ == user.email@,
        filtered.customer_name == user.customer_name,
        filtered.role@ == user.role@,
        filtered.photo@ == user.photo@,
        filtered.verified == user.verified,
        user.created_at == Some(filtered.created_at),
        user.updated_at == Some(filtered.updated_at),
{
    let customer_name: Option<String> = match &user.customer_name {
        Some(c) => Some(c.clone()),
        None => None,
    };
    FilteredUser {
        id: user.id,
        name: user.name.clone(),
        email: user.email.clone(),
        customer_name,
        role: user.role.clone(),
        photo: user.photo.clone(),
        verified: user.verified,
        created_at: match user.created_at {
            Some(t) => t,
            None => 0,
        },
        updated_at: match user.updated_at {
            Some(t) => t,
            None => 0,
        },
    }
}

} // verus!
