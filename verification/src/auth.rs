//! Users and their access: password hashes, one-hour access tokens, the
//! bearer header that carries them, and who may use what.
use vstd::prelude::*;
use vstd::string::StringSliceAdditionalSpecFns;

use crate::error::{opt_view, ShaideError};
use crate::text::{chars_of, decimal_int, eq_ignore_ascii_case, i64_to_string, owned, parse_i64, parse_i64_spec,
    split_once, split_once_chars, string_from_chars};

verus! {

/// Who issues access tokens.
pub const JWT_ISSUER: &'static str = "shaide";

/// Whom access tokens are for.
pub const JWT_AUDIENCE: &'static str = "shaide-api";

/// How long an access token lives, in seconds.
pub const TOKEN_LIFETIME_SECONDS: u64 = 3600;

/// The seconds of clock skew a token's expiry is allowed.
pub const TOKEN_LEEWAY_SECONDS: u64 = 5;

/// A moment in UTC: whole seconds since the epoch and the nanoseconds past
/// them.
#[derive(Clone, Copy, Debug, PartialEq, Eq)]
pub struct UtcTime {
    pub secs: i64,
    pub nanos: u32,
}

/// `a` is not later than `b`.
pub open spec fn time_le(a: UtcTime, b: UtcTime) -> bool {
    a.secs < b.secs || (a.secs == b.secs && a.nanos <= b.nanos)
}

/// The present moment, read with `chrono::Utc::now`; nothing is claimed of
/// it.
#[verifier::external_body]
fn utc_now() -> UtcTime {
    let now = chrono::Utc::now();
    UtcTime { secs: now.timestamp(), nanos: now.timestamp_subsec_nanos() }
}

/// The present Unix time in seconds, read with
/// `jsonwebtoken::get_current_timestamp`; nothing is claimed of it.
#[verifier::external_body]
fn current_timestamp() -> u64 {
    jsonwebtoken::get_current_timestamp()
}

/// A user's role.
#[derive(Clone, Copy, Debug, PartialEq, Eq, Structural)]
pub enum UserRole {
    Admin,
    User,
}

/// A stored user.
#[derive(Debug)]
pub struct UserRecord {
    pub id: i64,
    pub username: String,
    pub password_hash: String,
    pub role: UserRole,
    pub expiry: UtcTime,
}

/// Who may use a route.
#[derive(Clone, Copy, Debug, PartialEq, Eq, Structural)]
pub enum AccessRequirement {
    User,
    Admin,
    Any,
}

/// Why access is refused at `now`, if it is: the role must fit (a user on
/// an admin route is told it is not an admin), and a user's account must
/// not have expired (an admin's never does).
pub open spec fn access_refusal(user: UserRecord, requirement: AccessRequirement, now: UtcTime) -> Option<Seq<char>> {
    let role_allowed = match requirement {
        AccessRequirement::User => user.role == UserRole::User,
        AccessRequirement::Admin => user.role == UserRole::Admin,
        AccessRequirement::Any => true,
    };
    if requirement == AccessRequirement::Admin && user.role == UserRole::User {
        Some("Authenticated user is not an admin"@)
    } else if !role_allowed {
        Some("Authenticated user does not have the required role"@)
    } else if user.role == UserRole::User && time_le(user.expiry, now) {
        Some("Account has expired"@)
    } else {
        None
    }
}

/// Whatever the route, once the role check passes a user whose account
/// expiry is not later than `now` is refused with "Account has expired",
/// and one whose expiry is later is let in; an admin is never refused for
/// expiry; a user on an admin route is told it is not an admin.
pub proof fn law_expired_users_are_refused_on_every_route(user: UserRecord, requirement: AccessRequirement, now: UtcTime)
    ensures
        user.role == UserRole::User && requirement != AccessRequirement::Admin && (user.expiry.secs < now.secs || (
        user.expiry.secs == now.secs && user.expiry.nanos <= now.nanos)) ==> access_refusal(user, requirement, now)
            == Some("Account has expired"@),
        user.role == UserRole::User && requirement != AccessRequirement::Admin && (now.secs < user.expiry.secs || (
        now.secs == user.expiry.secs && now.nanos < user.expiry.nanos)) ==> access_refusal(user, requirement, now) is None,
        user.role == UserRole::Admin && requirement != AccessRequirement::User ==> access_refusal(user, requirement, now)
            is None,
        user.role == UserRole::User && requirement == AccessRequirement::Admin ==> access_refusal(user, requirement, now)
            == Some("Authenticated user is not an admin"@),
{
}

/// Checks a user's access at the moment `now`.
pub fn ensure_access_at(user: &UserRecord, requirement: AccessRequirement, now: UtcTime) -> (r: Result<(), ShaideError>)
    ensures
        match access_refusal(*user, requirement, now) {
            None => r is Ok,
            Some(m) => r matches Err(ShaideError::Unauthorized(u)) && u@ == m,
        },
        user.role == UserRole::User && requirement != AccessRequirement::Admin && time_le(user.expiry, now) ==> (r matches Err(
            ShaideError::Unauthorized(u),
        ) && u@ == "Account has expired"@),
{
    proof {
        law_expired_users_are_refused_on_every_route(*user, requirement, now);
    }
    let role_allowed = match requirement {
        AccessRequirement::User => user.role == UserRole::User,
        AccessRequirement::Admin => user.role == UserRole::Admin,
        AccessRequirement::Any => true,
    };
    if requirement == AccessRequirement::Admin && user.role == UserRole::User {
        return Err(ShaideError::Unauthorized(owned("Authenticated user is not an admin")));
    }
    if !role_allowed {
        return Err(ShaideError::Unauthorized(owned("Authenticated user does not have the required role")));
    }
    let expired = user.expiry.secs < now.secs || (user.expiry.secs == now.secs && user.expiry.nanos <= now.nanos);
    if user.role == UserRole::User && expired {
        return Err(ShaideError::Unauthorized(owned("Account has expired")));
    }
    Ok(())
}

/// Checks a user's access now. The answer is that of [`ensure_access_at`]
/// at the moment the clock was read.
pub fn ensure_access(user: &UserRecord, requirement: AccessRequirement) -> (r: Result<(), ShaideError>)
    ensures
        exists|now: UtcTime|
            match #[trigger] access_refusal(*user, requirement, now) {
                None => r is Ok,
                Some(m) => r matches Err(ShaideError::Unauthorized(u)) && u@ == m,
            },
{
    let now = utc_now();
    ensure_access_at(user, requirement, now)
}

/// How an authenticated caller is known: as an admin or as a user.
#[derive(Clone, Copy, Debug, PartialEq, Eq)]
pub enum Authenticated {
    Admin,
    User,
}

/// The kind of an authenticated caller, by role.
pub fn authenticated_as(role: UserRole) -> (r: Authenticated)
    ensures
        r == (match role {
            UserRole::Admin => Authenticated::Admin,
            UserRole::User => Authenticated::User,
        }),
{
    match role {
        UserRole::Admin => Authenticated::Admin,
        UserRole::User => Authenticated::User,
    }
}

/// A caller that passed the admin check.
#[derive(Clone, Copy, Debug)]
pub struct Admin;

/// The token of an `Authorization` header of the form
/// "<scheme> <token>" whose scheme is "bearer" in any case.
pub open spec fn bearer_spec(header: Option<Seq<char>>) -> Option<Seq<char>> {
    match header {
        None => None,
        Some(h) => match split_once(h, ' ') {
            None => None,
            Some((scheme, token)) => if eq_ignore_ascii_case(scheme, "bearer"@) {
                Some(token)
            } else {
                None
            },
        },
    }
}

/// The bearer token of an `Authorization` header, given as text when it is
/// readable as such.
pub fn get_bearer_value(authorization: Option<&str>) -> (r: Option<String>)
    ensures
        match r {
            Some(t) => bearer_spec(
                match authorization {
                    Some(h) => Some(h@),
                    None => None,
                },
            ) == Some(t@),
            None => bearer_spec(
                match authorization {
                    Some(h) => Some(h@),
                    None => None,
                },
            ) is None,
        },
{
    let header = match authorization {
        Some(h) => h,
        None => return None,
    };
    let chars = chars_of(header);
    match split_once_chars(&chars, ' ') {
        None => None,
        Some((scheme, token)) => {
            proof {
                reveal_strlit("bearer");
            }
            if crate::text::eq_ignore_ascii_case_str(&scheme, "bearer") {
                Some(string_from_chars(&token))
            } else {
                None
            }
        },
    }
}

/// The bearer token of a request, or a refusal when there is none.
pub fn get_bearer_value_or_error(authorization: Option<&str>) -> (r: Result<String, ShaideError>)
    ensures
        match bearer_spec(
            match authorization {
                Some(h) => Some(h@),
                None => None,
            },
        ) {
            Some(t) => r matches Ok(s) && s@ == t,
            None => r matches Err(ShaideError::Unauthorized(m)) && m@ == "Bearer token not set"@,
        },
{
    match get_bearer_value(authorization) {
        Some(t) => Ok(t),
        None => Err(ShaideError::Unauthorized(owned("Bearer token not set"))),
    }
}

/// What checking a password against a stored Argon2 hash gives: `Ok` when
/// it matches, `Err(None)` when it does not, `Err(Some(reason))` when the
/// hash cannot be used.
pub uninterp spec fn argon2_check(password: Seq<char>, password_hash: Seq<char>) -> Result<(), Option<Seq<char>>>;

/// Checks a password with `argon2::Argon2::default().verify_password`
/// after `PasswordHash::new` read the stored hash; a wrong password is
/// `password_hash::Error::Password`. The contract claims only that the
/// outcome is a function of the two texts.
#[verifier::external_body]
fn argon2_verify(password: &str, password_hash: &str) -> (r: Result<(), Option<String>>)
    ensures
        match r {
            Ok(()) => argon2_check(password@, password_hash@) == Ok::<(), Option<Seq<char>>>(()),
            Err(None) => argon2_check(password@, password_hash@) == Err::<(), Option<Seq<char>>>(None),
            Err(Some(m)) => argon2_check(password@, password_hash@) == Err::<(), Option<Seq<char>>>(Some(m@)),
        },
{
    let checked = argon2::PasswordHash::new(password_hash).and_then(|hash| {
        argon2::PasswordVerifier::verify_password(&argon2::Argon2::default(), password.as_bytes(), &hash)
    });
    match checked {
        Ok(()) => Ok(()),
        Err(argon2::password_hash::Error::Password) => Err(None),
        Err(error) => Err(Some(error.to_string())),
    }
}

/// Hashes a password with `argon2::Argon2::default().hash_password` under
/// a salt that `SaltString::generate` draws from the operating system. The
/// salt is chance, so the hash is not named; what the contract claims is
/// what argon2 documents of its PHC strings: checking the same password
/// against the hash succeeds.
#[verifier::external_body]
fn argon2_hash(password: &str) -> (r: Result<String, String>)
    ensures
        match r {
            Ok(h) => argon2_check(password@, h@) is Ok,
            Err(_) => true,
        },
{
    let salt = argon2::password_hash::SaltString::generate(&mut rand_core::OsRng);
    argon2::PasswordHasher::hash_password(&argon2::Argon2::default(), password.as_bytes(), &salt)
        .map(|hash| hash.to_string())
        .map_err(|error| error.to_string())
}

/// The signed token `jsonwebtoken::encode` makes with HS256 for the claims
/// `sub`, `iss`, `aud`, `iat`, `exp` under `secret`, or its complaint.
pub uninterp spec fn jwt_hs256(sub: Seq<char>, iss: Seq<char>, aud: Seq<char>, iat: u64, exp: u64, secret: Seq<u8>) -> Result<
    Seq<char>,
    Seq<char>,
>;

/// Signs the claims of an access token with `jsonwebtoken::encode` (an
/// HS256 header, an `EncodingKey::from_secret` key). The claims are written
/// in the order sub, iss, aud, iat, exp (serde_json's maps keep insertion
/// order under its `preserve_order` feature). Signing is a function of the
/// claims and the secret.
#[verifier::external_body]
fn jwt_encode(sub: &str, iss: &str, aud: &str, iat: u64, exp: u64, secret: &[u8]) -> (r: Result<String, String>)
    ensures
        match r {
            Ok(t) => jwt_hs256(sub@, iss@, aud@, iat, exp, secret@) == Ok::<Seq<char>, Seq<char>>(t@),
            Err(e) => jwt_hs256(sub@, iss@, aud@, iat, exp, secret@) == Err::<Seq<char>, Seq<char>>(e@),
        },
{
    let mut claims = serde_json::Map::new();
    claims.insert("sub".to_owned(), serde_json::Value::from(sub));
    claims.insert("iss".to_owned(), serde_json::Value::from(iss));
    claims.insert("aud".to_owned(), serde_json::Value::from(aud));
    claims.insert("iat".to_owned(), serde_json::Value::from(iat));
    claims.insert("exp".to_owned(), serde_json::Value::from(exp));
    let header = jsonwebtoken::Header::new(jsonwebtoken::Algorithm::HS256);
    jsonwebtoken::encode(&header, &claims, &jsonwebtoken::EncodingKey::from_secret(secret)).map_err(|e| e.to_string())
}

/// The number of '.' characters in a text.
pub open spec fn dot_count(s: Seq<char>) -> nat
    decreases s.len(),
{
    if s.len() == 0 {
        0
    } else {
        dot_count(s.drop_last()) + if s.last() == '.' {
            1nat
        } else {
            0nat
        }
    }
}

/// The subject and expiry of `token` as `jsonwebtoken::decode` reads it
/// when it checks the HS256 signature under `secret`, the audience and the
/// issuer, and that the claims `required` are present, but not the expiry:
/// `None` when it refuses the token or the `sub` claim is not a string or
/// the `exp` claim not a whole number.
pub uninterp spec fn jwt_claims(
    token: Seq<char>,
    secret: Seq<u8>,
    audience: Seq<char>,
    issuer: Seq<char>,
    required: Seq<Seq<char>>,
) -> Option<(Seq<char>, u64)>;

/// The texts of decoded claims.
pub open spec fn claims_view(c: Option<(String, u64)>) -> Option<(Seq<char>, u64)> {
    match c {
        Some((sub, exp)) => Some((sub@, exp)),
        None => None,
    }
}

/// What is known of the claims decoded from `token`: a text with fewer
/// than two dots gives none; and a token signed with HS256 under `secret`
/// for this audience and issuer gives the subject and expiry it was signed
/// over, unless "nbf" is among the claims required.
pub open spec fn decoded_claims_facts(
    token: Seq<char>,
    secret: Seq<u8>,
    audience: Seq<char>,
    issuer: Seq<char>,
    required: Seq<Seq<char>>,
    claims: Option<(Seq<char>, u64)>,
) -> bool {
    &&& dot_count(token) < 2 ==> claims is None
    &&& !required.contains("nbf"@) ==> forall|sub: Seq<char>, iat: u64, exp: u64|
        #![trigger jwt_hs256(sub, issuer, audience, iat, exp, secret)]
        jwt_hs256(sub, issuer, audience, iat, exp, secret) == Ok::<Seq<char>, Seq<char>>(token) ==> claims == Some(
            (sub, exp),
        )
}

/// Decodes a token with `jsonwebtoken::decode` (HS256, a
/// `DecodingKey::from_secret` key, the given audience, issuer and required
/// claims, `validate_exp` off, so that no clock is read) and takes its `sub`
/// and `exp` claims. Besides naming the result, the contract states two
/// things the source shows: `decode` splits the token at its last two dots
/// before anything else and refuses a text with fewer (`verify_signature`,
/// `expect_two!`); and a token `jsonwebtoken::encode` signed under the same
/// secret for this audience and issuer passes every check (a required
/// "nbf" aside, which such a token lacks) and gives back its subject and
/// expiry.
#[verifier::external_body]
fn jwt_decode_claims(
    token: &str,
    secret: &[u8],
    audience: &str,
    issuer: &str,
    required_claims: &[&str],
) -> (r: Option<(String, u64)>)
    ensures
        claims_view(r) == jwt_claims(token@, secret@, audience@, issuer@, required_claims@.map_values(|c: &str| c@)),
        decoded_claims_facts(
            token@,
            secret@,
            audience@,
            issuer@,
            required_claims@.map_values(|c: &str| c@),
            claims_view(r),
        ),
{
    let mut validation = jsonwebtoken::Validation::new(jsonwebtoken::Algorithm::HS256);
    validation.validate_exp = false;
    validation.set_audience(&[audience]);
    validation.set_issuer(&[issuer]);
    validation.set_required_spec_claims(required_claims);
    let key = jsonwebtoken::DecodingKey::from_secret(secret);
    let data = jsonwebtoken::decode::<serde_json::Value>(token, &key, &validation).ok()?;
    let sub = data.claims.get("sub")?.as_str()?.to_owned();
    let exp = data.claims.get("exp")?.as_u64()?;
    Some((sub, exp))
}

/// The claims an access token must carry.
pub open spec fn required_claims_spec() -> Seq<Seq<char>> {
    seq!["sub"@, "iss"@, "aud"@, "iat"@, "exp"@]
}

/// A token that expires at `exp` has expired at the Unix time `now`, with
/// `leeway` seconds of clock skew allowed: `exp < now - leeway`.
pub open spec fn expired_at(exp: u64, now: u64, leeway: u64) -> bool {
    now >= leeway && exp < now - leeway
}

/// The subject of decoded claims that have not expired at `now`, allowing
/// the token leeway.
pub open spec fn unexpired_subject_spec(claims: Option<(Seq<char>, u64)>, now: u64) -> Option<Seq<char>> {
    match claims {
        None => None,
        Some((sub, exp)) => if expired_at(exp, now, TOKEN_LEEWAY_SECONDS) {
            None
        } else {
            Some(sub)
        },
    }
}

/// The subject of decoded claims, unless their expiry has passed at the
/// Unix time `now` by more than the leeway of 5 seconds.
pub fn unexpired_subject(claims: Option<(String, u64)>, now: u64) -> (r: Option<String>)
    ensures
        opt_view(r) == unexpired_subject_spec(claims_view(claims), now),
{
    match claims {
        None => None,
        Some((sub, exp)) => {
            if now >= TOKEN_LEEWAY_SECONDS && exp < now - TOKEN_LEEWAY_SECONDS {
                None
            } else {
                Some(sub)
            }
        },
    }
}

/// The answer to an access token whose decoding gave `decoded`: no subject
/// is an invalid or expired token, a subject that is not a user id is an
/// invalid subject, and otherwise the user id.
pub open spec fn access_token_answer_spec(decoded: Option<Seq<char>>) -> Result<i64, Seq<char>> {
    match decoded {
        None => Err("Invalid or expired access token"@),
        Some(s) => match parse_i64_spec(s) {
            Some(id) => Ok(id),
            None => Err("Invalid access token subject"@),
        },
    }
}

/// Whether a result is the given answer, refusals being unauthorized.
pub open spec fn is_answer(r: Result<i64, ShaideError>, a: Result<i64, Seq<char>>) -> bool {
    match a {
        Ok(id) => r == Ok::<i64, ShaideError>(id),
        Err(m) => r matches Err(ShaideError::Unauthorized(u)) && u@ == m,
    }
}

/// The answer to `token` at the Unix time `now` under `secret`: its claims
/// as decoded for audience "shaide-api" and issuer "shaide" with sub, iss,
/// aud, iat and exp required, the subject kept while the expiry (plus the
/// leeway) has not passed, and that subject read as a user id.
pub open spec fn validation_at_spec(secret: Seq<u8>, token: Seq<char>, now: u64) -> Result<i64, Seq<char>> {
    access_token_answer_spec(
        unexpired_subject_spec(jwt_claims(token, secret, "shaide-api"@, "shaide"@, required_claims_spec()), now),
    )
}

/// What validating `token` at `now` answers: the answer of
/// [`validation_at_spec`]; for a text with fewer than two dots, a refusal
/// as an invalid or expired token; and for a token this service signed,
/// the answer read from the subject and expiry it was signed over.
pub open spec fn validated_at(secret: Seq<u8>, token: Seq<char>, now: u64, r: Result<i64, ShaideError>) -> bool {
    &&& is_answer(r, validation_at_spec(secret, token, now))
    &&& dot_count(token) < 2 ==> is_answer(r, Err("Invalid or expired access token"@))
    &&& forall|sub: Seq<char>, iat: u64, exp: u64|
        #![trigger jwt_hs256(sub, "shaide"@, "shaide-api"@, iat, exp, secret)]
        jwt_hs256(sub, "shaide"@, "shaide-api"@, iat, exp, secret) == Ok::<Seq<char>, Seq<char>>(token) ==> is_answer(
            r,
            access_token_answer_spec(unexpired_subject_spec(Some((sub, exp)), now)),
        )
}

/// The answer to an access token, from what decoding it gave: the subject
/// read as a user id.
pub fn access_token_answer(decoded: Option<String>) -> (r: Result<i64, ShaideError>)
    ensures
        is_answer(r, access_token_answer_spec(opt_view(decoded))),
{
    match decoded {
        None => Err(ShaideError::Unauthorized(owned("Invalid or expired access token"))),
        Some(sub) => {
            let chars = chars_of(sub.as_str());
            match parse_i64(&chars) {
                Some(id) => Ok(id),
                None => Err(ShaideError::Unauthorized(owned("Invalid access token subject"))),
            }
        },
    }
}

/// A token lives at most an hour: exactly an hour without an account
/// expiry, and until the account expires when that comes sooner.
pub proof fn law_token_lifetime(user_id: i64, account_expiry: Option<i64>, issued_at: u64, secret: Seq<u8>)
    requires
        issued_at <= u64::MAX - TOKEN_LIFETIME_SECONDS,
        issued_spec(user_id, account_expiry, issued_at, secret) is Ok,
    ensures
        ({
            let expires_in = issued_spec(user_id, account_expiry, issued_at, secret)->Ok_0.1;
            &&& expires_in <= TOKEN_LIFETIME_SECONDS
            &&& account_expiry is None ==> expires_in == TOKEN_LIFETIME_SECONDS
            &&& account_expiry matches Some(e) ==> (issued_at <= e ==> expires_in == (if e - issued_at
                < TOKEN_LIFETIME_SECONDS {
                e - issued_at
            } else {
                TOKEN_LIFETIME_SECONDS as int
            }))
            &&& account_expiry matches Some(e) ==> (0 <= e < issued_at ==> expires_in == 0)
        }),
{
}

/// An issued token is signed over the user's id in decimal, and that
/// subject reads back as the id: a token the service issued and accepts
/// names the user it was issued to.
pub proof fn law_issued_token_names_its_user(user_id: i64, account_expiry: Option<i64>, issued_at: u64, secret: Seq<u8>)
    requires
        issued_spec(user_id, account_expiry, issued_at, secret) is Ok,
    ensures
        exists|iat: u64, exp: u64|
            #[trigger] jwt_hs256(decimal_int(user_id as int), "shaide"@, "shaide-api"@, iat, exp, secret) is Ok
                && jwt_hs256(decimal_int(user_id as int), "shaide"@, "shaide-api"@, iat, exp, secret)->Ok_0
                == issued_spec(user_id, account_expiry, issued_at, secret)->Ok_0.0,
        parse_i64_spec(decimal_int(user_id as int)) == Some(user_id),
{
    crate::text::lemma_parse_decimal_int(user_id);
    let expiry = match account_expiry {
        Some(e) => Some(e as u64),
        None => None,
    };
    let exp = token_expiry(issued_at, expiry);
    assert(jwt_hs256(decimal_int(user_id as int), "shaide"@, "shaide-api"@, issued_at, exp as u64, secret) is Ok);
}

/// The answer to a successful login.
#[derive(Debug)]
pub struct AccessTokenResponse {
    pub access_token: String,
    pub token_type: String,
    pub expires_in: u64,
    pub expiry: UtcTime,
}

/// The account expiry a user's tokens are bounded by: a user's own, none
/// for an admin.
pub open spec fn account_expiry_of(user: UserRecord) -> Option<i64> {
    if user.role == UserRole::User {
        Some(user.expiry.secs)
    } else {
        None
    }
}

/// The answer to a login at the moment `now` (Unix time `issued_at`): the
/// password is checked, then the account, then a token is issued.
pub open spec fn login_answer(
    secret: Seq<u8>,
    user: UserRecord,
    password: Seq<char>,
    now: UtcTime,
    issued_at: u64,
    r: Result<AccessTokenResponse, ShaideError>,
) -> bool {
    match argon2_check(password, user.password_hash@) {
        Err(None) => r matches Err(ShaideError::Unauthorized(m)) && m@ == "Invalid credentials"@,
        Err(Some(reason)) => r matches Err(ShaideError::InternalServerError(m)) && m@ == reason,
        Ok(()) => match access_refusal(user, AccessRequirement::Any, now) {
            Some(refusal) => r matches Err(ShaideError::Unauthorized(m)) && m@ == refusal,
            None => match issued_spec(user.id, account_expiry_of(user), issued_at, secret) {
                Ok((t, n)) => r matches Ok(resp) && resp.access_token@ == t && resp.token_type@ == "Bearer"@
                    && resp.expires_in == n && resp.expiry == user.expiry,
                Err(m) => r matches Err(ShaideError::InternalServerError(e)) && e@ == m,
            },
        },
    }
}

/// Issues and checks access tokens, and hashes and checks passwords.
pub struct AuthService {
    secret: Vec<u8>,
}

/// A successful login answers a "Bearer" token, with the account's expiry,
/// signed over the user's id in decimal, and that subject reads back as the
/// id: when the service later accepts the token, it names the user who
/// logged in. A wrong password is refused as invalid credentials.
pub proof fn law_login_token_names_the_user(
    secret: Seq<u8>,
    user: UserRecord,
    password: Seq<char>,
    now: UtcTime,
    issued_at: u64,
    r: Result<AccessTokenResponse, ShaideError>,
)
    requires
        login_answer(secret, user, password, now, issued_at, r),
    ensures
        argon2_check(password, user.password_hash@) matches Err(None) ==> (r matches Err(ShaideError::Unauthorized(m))
            && m@ == "Invalid credentials"@),
        r matches Ok(resp) ==> {
            &&& resp.token_type@ == "Bearer"@
            &&& resp.expiry == user.expiry
            &&& exists|iat: u64, exp: u64|
                #[trigger] jwt_hs256(decimal_int(user.id as int), "shaide"@, "shaide-api"@, iat, exp, secret)
                    == Ok::<Seq<char>, Seq<char>>(resp.access_token@)
            &&& parse_i64_spec(decimal_int(user.id as int)) == Some(user.id)
        },
{
    if r is Ok {
        law_issued_token_names_its_user(user.id, account_expiry_of(user), issued_at, secret);
        let t = issued_spec(user.id, account_expiry_of(user), issued_at, secret)->Ok_0.0;
        let (iat, exp) = choose|iat: u64, exp: u64|
            #[trigger] jwt_hs256(decimal_int(user.id as int), "shaide"@, "shaide-api"@, iat, exp, secret) is Ok
                && jwt_hs256(decimal_int(user.id as int), "shaide"@, "shaide-api"@, iat, exp, secret)->Ok_0 == t;
        assert(jwt_hs256(decimal_int(user.id as int), "shaide"@, "shaide-api"@, iat, exp, secret)
            == Ok::<Seq<char>, Seq<char>>(r->Ok_0.access_token@));
    }
}

/// The expiry written into the token a login issues at `issued_at`.
pub open spec fn login_token_expiry(user: UserRecord, issued_at: u64) -> int {
    token_expiry(
        issued_at,
        match account_expiry_of(user) {
            Some(e) => Some(e as u64),
            None => None,
        },
    )
}

/// A token answered to a successful login, when it is validated under the
/// same secret at the Unix time `checked_at`, names the user who logged in
/// until its expiry (plus the leeway of 5 seconds) has passed, and is
/// refused as invalid or expired after that.
pub proof fn law_login_token_validates_to_the_user(
    secret: Seq<u8>,
    user: UserRecord,
    password: Seq<char>,
    now: UtcTime,
    issued_at: u64,
    r: Result<AccessTokenResponse, ShaideError>,
    checked_at: u64,
    validated: Result<i64, ShaideError>,
)
    requires
        login_answer(secret, user, password, now, issued_at, r),
        r is Ok,
        validated_at(secret, r->Ok_0.access_token@, checked_at, validated),
    ensures
        checked_at <= login_token_expiry(user, issued_at) + TOKEN_LEEWAY_SECONDS ==> validated == Ok::<
            i64,
            ShaideError,
        >(user.id),
        checked_at > login_token_expiry(user, issued_at) + TOKEN_LEEWAY_SECONDS ==> (validated matches Err(
            ShaideError::Unauthorized(m),
        ) && m@ == "Invalid or expired access token"@),
{
    crate::text::lemma_parse_decimal_int(user.id);
    let exp = login_token_expiry(user, issued_at);
    assert(jwt_hs256(decimal_int(user.id as int), "shaide"@, "shaide-api"@, issued_at, exp as u64, secret)
        == Ok::<Seq<char>, Seq<char>>(r->Ok_0.access_token@));
}

/// The end of a token's hour from `issued_at`, held at the largest time a
/// `u64` counts.
pub open spec fn lifetime_end(issued_at: u64) -> int {
    if issued_at + 3600 <= u64::MAX {
        issued_at + 3600
    } else {
        u64::MAX as int
    }
}

/// The expiry of a token issued at `issued_at`: an hour later, or the
/// account's expiry when that comes first.
pub open spec fn token_expiry(issued_at: u64, account_expiry: Option<u64>) -> int {
    match account_expiry {
        None => lifetime_end(issued_at),
        Some(e) => if e < lifetime_end(issued_at) {
            e as int
        } else {
            lifetime_end(issued_at)
        },
    }
}

/// What issuing a token at `issued_at` gives: the token and the seconds
/// until it expires, or the failure.
pub open spec fn issued_spec(user_id: i64, account_expiry: Option<i64>, issued_at: u64, secret: Seq<u8>) -> Result<
    (Seq<char>, u64),
    Seq<char>,
> {
    match account_expiry {
        Some(e) if e < 0 => Err("Invalid account expiry"@),
        _ => {
            let expiry = match account_expiry {
                Some(e) => Some(e as u64),
                None => None,
            };
            let exp = token_expiry(issued_at, expiry);
            match jwt_hs256(decimal_int(user_id as int), "shaide"@, "shaide-api"@, issued_at, exp as u64, secret) {
                Ok(t) => Ok((t, if exp >= issued_at { (exp - issued_at) as u64 } else { 0 })),
                Err(m) => Err(m),
            }
        },
    }
}

impl AuthService {
    /// The secret tokens are signed with.
    pub closed spec fn secret(&self) -> Seq<u8> {
        self.secret@
    }

    /// A service signing with the bytes of `jwt_secret`.
    pub fn new(jwt_secret: &str) -> (r: Self)
        ensures
            r.secret() == jwt_secret.spec_bytes(),
    {
        let bytes = jwt_secret.as_bytes();
        let mut secret: Vec<u8> = Vec::new();
        let mut i: usize = 0;
        while i < bytes.len()
            invariant
                i <= bytes@.len(),
                secret@ == bytes@.take(i as int),
            decreases bytes@.len() - i,
        {
            secret.push(bytes[i]);
            proof {
                assert(bytes@.take(i + 1) =~= bytes@.take(i as int).push(bytes@[i as int]));
            }
            i = i + 1;
        }
        proof {
            assert(bytes@.take(bytes@.len() as int) =~= bytes@);
        }
        AuthService { secret }
    }

    /// Hashes a new password under a fresh random salt.
    pub fn hash_password(&self, password: &str) -> (r: Result<String, ShaideError>)
        ensures
            match r {
                Ok(h) => argon2_check(password@, h@) is Ok,
                Err(e) => e is InternalServerError,
            },
    {
        match argon2_hash(password) {
            Ok(h) => Ok(h),
            Err(e) => Err(ShaideError::InternalServerError(e)),
        }
    }

    /// Checks a password against a stored hash: a wrong password is
    /// refused as invalid credentials, an unusable hash is an internal
    /// error.
    pub fn verify_password(&self, password: &str, password_hash: &str) -> (r: Result<(), ShaideError>)
        ensures
            match argon2_check(password@, password_hash@) {
                Ok(()) => r is Ok,
                Err(None) => r matches Err(ShaideError::Unauthorized(m)) && m@ == "Invalid credentials"@,
                Err(Some(reason)) => r matches Err(ShaideError::InternalServerError(m)) && m@ == reason,
            },
    {
        match argon2_verify(password, password_hash) {
            Ok(()) => Ok(()),
            Err(None) => Err(ShaideError::Unauthorized(owned("Invalid credentials"))),
            Err(Some(reason)) => Err(ShaideError::InternalServerError(reason)),
        }
    }

    /// Issues an access token for a user at the Unix time `issued_at`: it
    /// expires an hour later (at the latest the largest `u64` time) or at the
    /// account's expiry, whichever comes first; with the token comes the
    /// number of seconds it is valid.
    pub fn issue_access_token_at(&self, user_id: i64, account_expiry: Option<i64>, issued_at: u64) -> (r: Result<
        (String, u64),
        ShaideError,
    >)
        ensures
            match issued_spec(user_id, account_expiry, issued_at, self.secret()) {
                Ok((t, expires_in)) => r matches Ok((token, n)) && token@ == t && n == expires_in,
                Err(m) => r matches Err(ShaideError::InternalServerError(e)) && e@ == m,
            },
    {
        let lifetime_end = issued_at.saturating_add(TOKEN_LIFETIME_SECONDS);
        let expires_at = match account_expiry {
            Some(e) => {
                if e < 0 {
                    return Err(ShaideError::InternalServerError(owned("Invalid account expiry")));
                }
                let e = e as u64;
                if e < lifetime_end {
                    e
                } else {
                    lifetime_end
                }
            },
            None => lifetime_end,
        };
        let sub = i64_to_string(user_id);
        match jwt_encode(sub.as_str(), JWT_ISSUER, JWT_AUDIENCE, issued_at, expires_at, self.secret.as_slice()) {
            Ok(token) => Ok((token, expires_at.saturating_sub(issued_at))),
            Err(e) => Err(ShaideError::InternalServerError(e)),
        }
    }

    /// Issues an access token for a user now: the answer is that of
    /// [`AuthService::issue_access_token_at`] at the time the clock read. A
    /// negative account expiry is refused whatever the clock says.
    pub fn issue_access_token(&self, user_id: i64, account_expiry: Option<i64>) -> (r: Result<(String, u64), ShaideError>)
        ensures
            exists|issued_at: u64|
                match #[trigger] issued_spec(user_id, account_expiry, issued_at, self.secret()) {
                    Ok((t, expires_in)) => r matches Ok((token, n)) && token@ == t && n == expires_in,
                    Err(m) => r matches Err(ShaideError::InternalServerError(e)) && e@ == m,
                },
            account_expiry matches Some(e) && e < 0 ==> (r matches Err(ShaideError::InternalServerError(m)) && m@
                == "Invalid account expiry"@),
    {
        let issued_at = current_timestamp();
        self.issue_access_token_at(user_id, account_expiry, issued_at)
    }

    /// Logs a user in with a password at the moment `now` (Unix time
    /// `issued_at`): the password must match, the account must not have
    /// expired, and the token issued is bounded by the account's expiry.
    pub fn login_at(&self, user: &UserRecord, password: &str, now: UtcTime, issued_at: u64) -> (r: Result<
        AccessTokenResponse,
        ShaideError,
    >)
        ensures
            login_answer(self.secret(), *user, password@, now, issued_at, r),
    {
        match self.verify_password(password, user.password_hash.as_str()) {
            Ok(()) => {},
            Err(e) => return Err(e),
        }
        match ensure_access_at(user, AccessRequirement::Any, now) {
            Ok(()) => {},
            Err(e) => return Err(e),
        }
        let account_expiry = if user.role == UserRole::User {
            Some(user.expiry.secs)
        } else {
            None
        };
        match self.issue_access_token_at(user.id, account_expiry, issued_at) {
            Ok((access_token, expires_in)) => Ok(
                AccessTokenResponse { access_token, token_type: owned("Bearer"), expires_in, expiry: user.expiry },
            ),
            Err(e) => Err(e),
        }
    }

    /// Logs a user in with a password now; the answer is that of
    /// [`AuthService::login_at`] at the moment the clocks were read.
    pub fn login(&self, user: &UserRecord, password: &str) -> (r: Result<AccessTokenResponse, ShaideError>)
        ensures
            exists|now: UtcTime, issued_at: u64| #[trigger] login_answer(self.secret(), *user, password@, now, issued_at, r),
    {
        let now = utc_now();
        let issued_at = current_timestamp();
        self.login_at(user, password, now, issued_at)
    }

    /// The user id an access token names at the Unix time `now`. The token
    /// is decoded under the service's secret for audience "shaide-api" and
    /// issuer "shaide", with the claims sub, iss, aud, iat and exp required;
    /// a token whose expiry has passed by more than 5 seconds, or that is
    /// refused, is answered as invalid or expired; then the subject is read
    /// as the user id.
    pub fn validate_access_token_at(&self, token: &str, now: u64) -> (r: Result<i64, ShaideError>)
        ensures
            validated_at(self.secret(), token@, now, r),
    {
        let required_claims: [&str; 5] = ["sub", "iss", "aud", "iat", "exp"];
        proof {
            reveal_strlit("sub");
            reveal_strlit("iss");
            reveal_strlit("aud");
            reveal_strlit("iat");
            reveal_strlit("exp");
            reveal_strlit("nbf");
            assert(required_claims@.map_values(|c: &str| c@) =~= required_claims_spec());
            assert(!required_claims_spec().contains("nbf"@)) by {
                if required_claims_spec().contains("nbf"@) {
                    let i = choose|i: int| 0 <= i < 5 && required_claims_spec()[i] == "nbf"@;
                    assert(required_claims_spec()[i][0] == 'n');
                }
            }
        }
        let claims = jwt_decode_claims(token, self.secret.as_slice(), JWT_AUDIENCE, JWT_ISSUER, required_claims.as_slice());
        let subject = unexpired_subject(claims, now);
        access_token_answer(subject)
    }

    /// The user id an access token names now: the answer of
    /// [`AuthService::validate_access_token_at`] at the time the clock
    /// read. A text with fewer than two dots is refused as an invalid or
    /// expired token whatever the clock says.
    pub fn validate_access_token(&self, token: &str) -> (r: Result<i64, ShaideError>)
        ensures
            exists|now: u64| #[trigger] validated_at(self.secret(), token@, now, r),
            dot_count(token@) < 2 ==> (r matches Err(ShaideError::Unauthorized(m)) && m@
                == "Invalid or expired access token"@),
    {
        let now = current_timestamp();
        self.validate_access_token_at(token, now)
    }
}

} // verus!
