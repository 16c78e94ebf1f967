//! The credential gate and the role gate.
//!
//! The credential gate authenticates a request from the plain values the
//! transport layer hands it: the `token` cookie, the `Authorization`
//! header, the signing secret and the clock. It either names the user id
//! to load, or denies with the reason; the embedding program answers 401
//! for every denial and runs no handler. A loaded user becomes an
//! `AuthenticatedPrincipal`, the only value the role gate accepts — so
//! running the role gate before the credential gate is not expressible.

use vstd::prelude::*;
use vstd::string::StrSliceExecFns;
use vstd::string::StringExecFns;

use crate::model::User;
use crate::text::digits_value;
use crate::text::is_digit_seq;
use crate::text::parse_u64;
use crate::token::spec_verify;
use crate::token::verify;

verus! {

/// Why the credential gate denied a request. Every variant is answered
/// with 401 and one uniform message; the variants exist so that the
/// embedding program can log the precise cause.
#[derive(Debug)]
pub enum GateDenial {
    /// Neither a `token` cookie nor a bearer header was present.
    MissingToken,
    /// The token was malformed, forged or expired — one outcome, to
    /// avoid an oracle.
    InvalidToken,
    /// The claims' subject is not a user id.
    BadSubject,
    /// The subject's user record no longer exists.
    UnknownUser,
}

/// The token carried by an `Authorization` header: the text after the
/// `Bearer ` prefix, if the header starts with that prefix.
pub open spec fn spec_bearer_token(header: Seq<char>) -> Option<Seq<char>> {
    if header.len() >= 7 && header[0] == 'B' && header[1] == 'e' && header[2] == 'a' && header[3]
        == 'r' && header[4] == 'e' && header[5] == 'r' && header[6] == ' ' {
        Some(header.subrange(7, header.len() as int))
    } else {
        None
    }
}

/// The presented credential of a request. The cookie wins when both
/// carriers are present; the bearer header is second.
pub open spec fn spec_extract_token(cookie: Option<Seq<char>>, header: Option<Seq<char>>) -> Option<
    Seq<char>,
> {
    match cookie {
        Some(c) => Some(c),
        None => match header {
            Some(h) => spec_bearer_token(h),
            None => None,
        },
    }
}

/// The user id named by a claims subject: the subject must be a plain
/// decimal number that fits a signed 64-bit id.
pub open spec fn spec_subject_id(sub: Seq<char>) -> Option<int> {
    if sub.len() > 0 && is_digit_seq(sub) && digits_value(sub) <= i64::MAX {
        Some(digits_value(sub))
    } else {
        None
    }
}

/// The complete decision of the credential gate: the id of the user to
/// load, or nothing when the request carries no valid, unexpired token.
pub open spec fn spec_authenticate(
    cookie: Option<Seq<char>>,
    header: Option<Seq<char>>,
    secret: Seq<char>,
    now: u64,
) -> Option<int> {
    match spec_extract_token(cookie, header) {
        None => None,
        Some(token) => match spec_verify(secret, token, now) {
            None => None,
            Some((sub, iat, exp)) => spec_subject_id(sub),
        },
    }
}

/// Reads the token off the `Authorization` header, accepting only the
/// `Bearer ` scheme.
fn bearer_token(header: String) -> (r: Option<String>)
    ensures
        r.deep_view() == spec_bearer_token(header@),
{
    let n = header.as_str().unicode_len();
    if n < 7 {
        return None;
    }
    let h = header.as_str();
    if h.get_char(0) == 'B' && h.get_char(1) == 'e' && h.get_char(2) == 'a' && h.get_char(3) == 'r'
        && h.get_char(4) == 'e' && h.get_char(5) == 'r' && h.get_char(6) == ' ' {
        Some(h.substring_char(7, n).to_owned())
    } else {
        None
    }
}

/// Extracts the presented token: the `token` cookie if one is present,
/// else the bearer header's payload.
pub fn extract_token(cookie: Option<String>, header: Option<String>) -> (r: Option<String>)
    ensures
        r.deep_view() == spec_extract_token(cookie.deep_view(), header.deep_view()),
{
    match cookie {
        Some(c) => Some(c),
        None => match header {
            Some(h) => bearer_token(h),
            None => None,
        },
    }
}

/// The credential gate's verified half: from the presented credentials
/// and the clock to the id of the user to load. Denies exactly when no
/// token is presented, the token fails verification, or the subject is
/// not an id — with the matching reason.
pub fn authenticate(cookie: Option<String>, header: Option<String>, secret: &str, now: u64) -> (r:
    Result<i64, GateDenial>)
    ensures
        match r {
            Ok(id) => 0 <= id && spec_authenticate(
                cookie.deep_view(),
                header.deep_view(),
                secret@,
                now,
            ) == Some(id as int),
            Err(denial) => spec_authenticate(cookie.deep_view(), header.deep_view(), secret@, now)
                is None && !(denial is UnknownUser) && (denial is MissingToken
                <==> spec_extract_token(cookie.deep_view(), header.deep_view()) is None) && (denial
                is InvalidToken <==> (spec_extract_token(cookie.deep_view(), header.deep_view())
                matches Some(token) && spec_verify(secret@, token, now) is None)) && (denial
                is BadSubject <==> (spec_extract_token(cookie.deep_view(), header.deep_view())
                matches Some(token) && spec_verify(secret@, token, now) matches Some((sub, iat, exp))
                && spec_subject_id(sub) is None)),
        },
{
    let token = match extract_token(cookie, header) {
        Some(t) => t,
        None => {
            return Err(GateDenial::MissingToken);
        },
    };
    let claims = match verify(secret, token.as_str(), now) {
        Some(c) => c,
        None => {
            return Err(GateDenial::InvalidToken);
        },
    };
    let id = match parse_u64(claims.sub.as_str()) {
        Some(v) => v,
        None => {
            return Err(GateDenial::BadSubject);
        },
    };
    if id > 0x7fff_ffff_ffff_ffffu64 {
        return Err(GateDenial::BadSubject);
    }
    Ok(id as i64)
}

/// The authenticated identity of one request. Only `admit_user`
/// constructs one, which keeps any stage that needs a principal from
/// running ahead of authentication.
pub struct AuthenticatedPrincipal {
    user: User,
}

impl AuthenticatedPrincipal {
    /// The admitted user record.
    pub closed spec fn spec_user(self) -> User {
        self.user
    }

    /// Read-only access to the admitted user record.
    pub fn user(&self) -> (user: &User)
        ensures
            *user == self.spec_user(),
    {
        &self.user
    }
}

/// The credential gate's final step: the looked-up user becomes the
/// request's principal; a vanished record (deleted since the token was
/// issued) is denied like any other failed authentication.
pub fn admit_user(found: Option<User>) -> (r: Result<AuthenticatedPrincipal, GateDenial>)
    ensures
        match r {
            Ok(principal) => found == Some(principal.spec_user()),
            Err(denial) => found is None && denial is UnknownUser,
        },
{
    match found {
        Some(user) => Ok(AuthenticatedPrincipal { user }),
        None => Err(GateDenial::UnknownUser),
    }
}

/// The administrative role string.
pub open spec fn spec_is_admin(user: User) -> bool {
    user.role@ == "admin"@
}

/// The role gate: passes exactly the principals whose role is the
/// administrative one; the embedding program answers 403 for the rest.
pub fn admin_gate(principal: &AuthenticatedPrincipal) -> (allowed: bool)
    ensures
        allowed <==> spec_is_admin(principal.spec_user()),
{
    let admin_role = String::from_str("admin");
    principal.user().role == admin_role
}

/// Law: a request without a valid, unexpired token never names a user to
/// load — whether the token is missing altogether, or fails signature or
/// expiry checking.
pub proof fn lemma_unauthenticated_rejected(
    cookie: Option<Seq<char>>,
    header: Option<Seq<char>>,
    secret: Seq<char>,
    now: u64,
)
    ensures
        spec_extract_token(cookie, header) is None ==> spec_authenticate(
            cookie,
            header,
            secret,
            now,
        ) is None,
        forall|token: Seq<char>|
            spec_extract_token(cookie, header) == Some(token) && #[trigger] spec_verify(
                secret,
                token,
                now,
            ) is None ==> spec_authenticate(cookie, header, secret, now) is None,
{
}

/// Law: a token that carries a decimal user id as its subject — as every
/// token the login decision issues does — authenticates, presented as
/// the session cookie, to exactly that user id while its expiry lies in
/// the future.
pub proof fn lemma_login_token_authenticates(
    secret: Seq<char>,
    token: Seq<char>,
    sub: Seq<char>,
    id: int,
    iat: u64,
    exp: u64,
    now: u64,
)
    requires
        crate::token::jwt_claims_of(secret, token) == Some((sub, iat, exp)),
        sub.len() > 0,
        is_digit_seq(sub),
        digits_value(sub) == id,
        0 <= id <= i64::MAX,
        now < exp,
    ensures
        spec_authenticate(Some(token), None, secret, now) == Some(id),
{
}

} // verus!
