//! Decision cores of the account endpoints: login, registration, logout
//! and the uniform response messages. The embedding program does the
//! store lookups and the HTTP framing; every decision about credentials,
//! duplicates, claims and cookies is made — and verified — here.

use vstd::prelude::*;
use vstd::string::StringExecFns;

use crate::model::LoginUserSchema;
use crate::model::RegisterUserSchema;
use crate::model::User;
use crate::password::argon2_matches;
use crate::password::hash_password;
use crate::password::verify_password;
use crate::text::ascii_lower;
use crate::text::digits_value;
use crate::text::is_digit_seq;
use crate::text::to_ascii_lower;
use crate::text::u64_to_dec;
use crate::token::issue;
use crate::token::jwt_claims_of;

verus! {

/// Session tokens live for one hour.
pub const SESSION_TTL_SECS: u64 = 3600;

/// A machine-readable status/message response body.
pub struct ApiMessage {
    pub status: String,
    pub message: String,
}

/// The attributes of a cookie the service sets; the embedding program
/// renders them onto the transport.
pub struct CookieSpec {
    pub name: String,
    pub value: String,
    pub path: String,
    pub max_age_secs: i64,
    pub http_only: bool,
    pub same_site_lax: bool,
}

/// The session cookie carrying a freshly issued token: HTTP-only,
/// SameSite=Lax, one hour of life, whole-site path.
pub fn session_cookie(token: String) -> (c: CookieSpec)
    ensures
        c.name@ == "token"@,
        c.value@ == token@,
        c.path@ == "/"@,
        c.max_age_secs == SESSION_TTL_SECS as i64,
        c.http_only,
        c.same_site_lax,
{
    CookieSpec {
        name: String::from_str("token"),
        value: token,
        path: String::from_str("/"),
        max_age_secs: 3600,
        http_only: true,
        same_site_lax: true,
    }
}

/// The clearing cookie that logout sets: same name and attributes, empty
/// value, negative age so the client discards it at once.
pub fn logout_cookie() -> (c: CookieSpec)
    ensures
        c.name@ == "token"@,
        c.value@.len() == 0,
        c.path@ == "/"@,
        c.max_age_secs < 0,
        c.http_only,
        c.same_site_lax,
{
    CookieSpec {
        name: String::from_str("token"),
        value: String::new(),
        path: String::from_str("/"),
        max_age_secs: -3600,
        http_only: true,
        same_site_lax: true,
    }
}

/// The outcome of a login attempt.
pub enum LoginOutcome {
    /// Credentials matched: the signed session token and its cookie.
    Success { token: String, cookie: CookieSpec },
    /// Unknown email or wrong password — deliberately one outcome, so
    /// the response cannot be used to enumerate accounts.
    InvalidCredentials,
    /// The stored record is unusable (a negative id cannot be a token
    /// subject); nothing about the credentials leaks.
    ServerError,
}

/// Decides a login attempt from the looked-up user record (if any) and
/// the presented credentials. Matching credentials are owed a success:
/// the issued token carries the user's id in canonical decimal as its
/// subject, is issued at `now` and expires one hour later; the cookie
/// carries the same token with the session attributes.
pub fn login_user(found: Option<User>, body: &LoginUserSchema, secret: &str, now: u64) -> (r:
    LoginOutcome)
    requires
        now + SESSION_TTL_SECS <= u64::MAX,
    ensures
        r is InvalidCredentials <==> (found is None || (found matches Some(u) && !argon2_matches(
            body.password@,
            u.password@,
        ))),
        r is ServerError <==> (found matches Some(u) && argon2_matches(
            body.password@,
            u.password@,
        ) && u.id < 0),
        r is Success <==> (found matches Some(u) && argon2_matches(body.password@, u.password@)
            && u.id >= 0),
        r matches LoginOutcome::Success { token, cookie } ==> (found matches Some(u)
            && argon2_matches(body.password@, u.password@) && u.id >= 0 && (jwt_claims_of(
            secret@,
            token@,
        ) matches Some((sub, iat, exp)) && sub.len() > 0 && is_digit_seq(sub) && digits_value(sub)
            == u.id && (sub.len() > 1 ==> sub[0] != '0') && iat == now && exp == now
            + SESSION_TTL_SECS) && cookie.name@ == "token"@ && cookie.value@ == token@
            && cookie.path@ == "/"@ && cookie.http_only && cookie.same_site_lax
            && cookie.max_age_secs == SESSION_TTL_SECS as i64),
{
    let user = match found {
        Some(u) => u,
        None => {
            return LoginOutcome::InvalidCredentials;
        },
    };
    if !verify_password(body.password.as_str(), user.password.as_str()) {
        return LoginOutcome::InvalidCredentials;
    }
    if user.id < 0 {
        return LoginOutcome::ServerError;
    }
    let subject = u64_to_dec(user.id as u64);
    let token = issue(secret, subject.as_str(), now, SESSION_TTL_SECS);
    let cookie = session_cookie(token.clone());
    LoginOutcome::Success { token, cookie }
}

/// A user row ready for insertion: email folded to lower case, the
/// password replaced by its digest — the raw secret is never stored.
pub struct NewUser {
    pub name: String,
    pub email: String,
    pub password_digest: String,
    pub role: String,
    pub is_admin: bool,
    pub customer_name: Option<String>,
}

/// The outcome of a registration attempt.
pub enum RegisterOutcome {
    /// The record to insert.
    Created { record: NewUser },
    /// The email is already taken (compared without regard to case).
    DuplicateEmail,
    /// The hashing step failed; nothing was created.
    ServerError,
}

/// Decides a registration attempt from the duplicate-email probe the
/// store answered and the request body. A created record carries the
/// lower-cased email and a digest that matches the presented password;
/// a free email is owed a record whenever the password is short enough
/// for the hashing step to accept (under 2^30 characters).
pub fn register_user(body: &RegisterUserSchema, role: &String, email_taken: Option<bool>) -> (r:
    RegisterOutcome)
    ensures
        r is DuplicateEmail <==> email_taken == Some(true),
        (!(email_taken == Some(true)) && body.password@.len() < 0x4000_0000) ==> r is Created,
        r matches RegisterOutcome::Created { record } ==> (record.name@ == body.name@
            && record.email@ == ascii_lower(body.email@) && argon2_matches(
            body.password@,
            record.password_digest@,
        ) && record.role@ == role@ && record.is_admin == body.is_admin
            && record.customer_name.deep_view() == body.customer_name.deep_view()),
{
    match email_taken {
        Some(true) => {
            return RegisterOutcome::DuplicateEmail;
        },
        _ => {},
    }
    let digest = match hash_password(body.password.as_str()) {
        Some(d) => d,
        None => {
            return RegisterOutcome::ServerError;
        },
    };
    let customer_name: Option<String> = match &body.customer_name {
        Some(c) => Some(c.clone()),
        None => None,
    };
    RegisterOutcome::Created {
        record: NewUser {
            name: body.name.clone(),
            email: to_ascii_lower(body.email.as_str()),
            password_digest: digest,
            role: role.clone(),
            is_admin: body.is_admin,
            customer_name,
        },
    }
}

/// The health check's constant body.
pub fn health_message() -> (m: ApiMessage)
    ensures
        m.status@ == "success"@,
        m.message@ == "The application is healthy"@,
{
    ApiMessage {
        status: String::from_str("success"),
        message: String::from_str("The application is healthy"),
    }
}

/// The uniform 401 body: one message for missing, malformed, forged and
/// expired tokens alike.
pub fn unauthorized_message() -> (m: ApiMessage)
    ensures
        m.status@ == "fail"@,
        m.message@ == "Invalid or missing authentication token"@,
{
    ApiMessage {
        status: String::from_str("fail"),
        message: String::from_str("Invalid or missing authentication token"),
    }
}

/// The 403 body for authenticated principals without the administrative
/// role.
pub fn forbidden_message() -> (m: ApiMessage)
    ensures
        m.status@ == "fail"@,
        m.message@ == "Permission denied"@,
{
    ApiMessage {
        status: String::from_str("fail"),
        message: String::from_str("Permission denied"),
    }
}

/// The uniform 400 body of a failed login: the same text whether the
/// email was unknown or the password wrong, to resist enumeration.
pub fn invalid_credentials_message() -> (m: ApiMessage)
    ensures
        m.status@ == "fail"@,
        m.message@ == "Invalid email or password"@,
{
    ApiMessage {
        status: String::from_str("fail"),
        message: String::from_str("Invalid email or password"),
    }
}

/// The 409 body of a duplicate registration.
pub fn duplicate_email_message() -> (m: ApiMessage)
    ensures
        m.status@ == "fail"@,
        m.message@ == "User with that email already exists"@,
{
    ApiMessage {
        status: String::from_str("fail"),
        message: String::from_str("User with that email already exists"),
    }
}

/// The generic 500 body: store failures are reported without the
/// driver's error text, which must never reach a client.
pub fn database_error_message() -> (m: ApiMessage)
    ensures
        m.status@ == "error"@,
        m.message@ == "Database error"@,
{
    ApiMessage {
        status: String::from_str("error"),
        message: String::from_str("Database error"),
    }
}

} // verus!
