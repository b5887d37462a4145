//! Accounts and sessions: password hashing, session tokens, and the rules of
//! registration and login.

use vstd::prelude::*;
use crate::db::UserRow;
use crate::text::{trim, trimmed, utf8_len};
use vstd::utf8::encode_utf8;
use argon2::password_hash::rand_core::OsRng;
use argon2::password_hash::{PasswordHash, PasswordHasher, PasswordVerifier, SaltString};
use argon2::Argon2;
use jsonwebtoken::{DecodingKey, EncodingKey, Header, Validation};

verus! {

/// The key that signs session tokens (a development key).
const JWT_SECRET: &'static str = "tamichat-dev-secret-change-me";

/// How long a session token stays valid: seven days, in seconds.
pub const TOKEN_LIFETIME_SECS: i64 = 604800;

/// Clock skew tolerated when a token's expiry is checked, in seconds.
pub const EXPIRY_LEEWAY_SECS: u64 = 60;

/// Longest password, in bytes, that Argon2 hashes.
pub const MAX_PASSWORD_BYTES: u64 = 4294967295;

/// Bound on the Unix timestamps that the clock reports (far beyond year 262000).
pub const MAX_CLOCK_SECS: i64 = 10000000000000;

/// The claims that a session token carries.
#[derive(Debug)]
pub struct Claims {
    /// The username.
    pub sub: String,
    /// Expiry, in seconds since the Unix epoch.
    pub exp: usize,
}

/// Credentials submitted to register or log in.
#[derive(Debug)]
pub struct AuthBody {
    pub username: String,
    pub password: String,
}

/// The answer to a successful registration or login.
#[derive(Debug)]
pub struct AuthResponse {
    pub token: String,
    pub username: String,
}

// ==================== names for what the outside crates compute ====================

/// The PHC string that Argon2 (default parameters) produces for `password`
/// with the B64 salt `salt`, or the error text it reports.
pub uninterp spec fn argon2_phc(password: Seq<char>, salt: Seq<char>) -> Result<Seq<char>, Seq<char>>;

/// Whether `phc` parses as a PHC string and Argon2 accepts `password` for it.
pub uninterp spec fn argon2_accepts(password: Seq<char>, phc: Seq<char>) -> bool;

/// The HS256 token (with this library's key) whose claims are `sub` and `exp`.
pub uninterp spec fn jwt_encode_hs256(sub: Seq<char>, exp: usize) -> Seq<char>;

/// The subject and expiry that `token` carries, if its signature is valid
/// under this library's key and its claims hold both; expiry not checked.
pub uninterp spec fn jwt_claims(token: Seq<char>) -> Option<(Seq<char>, usize)>;

// ==================== trusted items ====================

/// `SaltString::generate` with the operating system's random source, as its
/// B64 text. Which salt comes out is random and not claimed. Claimed is what the
/// sources of `password-hash` and `argon2` show of every such salt: it encodes
/// 16 bytes (at least the 8 that Argon2 needs), so `SaltString::from_b64` reads it
/// back and `Argon2::hash_password` (default parameters) succeeds with it for
/// every password of at most `0xFFFF_FFFF` bytes.
#[verifier::external_body]
fn random_salt() -> (salt: String)
    ensures
        forall|p: Seq<char>|
            encode_utf8(p).len() <= MAX_PASSWORD_BYTES ==> (#[trigger] argon2_phc(p, salt@)) is Ok,
{
    SaltString::generate(&mut OsRng).as_str().to_owned()
}

/// `Argon2::hash_password` (default parameters) on the password's bytes and the
/// salt read by `SaltString::from_b64`, rendered as a PHC string. Claims that the
/// result is a function of the two arguments, and that Argon2 verification accepts
/// the password for a hash it produced.
#[verifier::external_body]
fn argon2_hash(password: &str, salt: &str) -> (r: Result<String, String>)
    ensures
        match r {
            Ok(h) => argon2_phc(password@, salt@) == Ok::<Seq<char>, Seq<char>>(h@)
                && argon2_accepts(password@, h@),
            Err(e) => argon2_phc(password@, salt@) == Err::<Seq<char>, Seq<char>>(e@),
        },
{
    let salt = SaltString::from_b64(salt).map_err(|e| e.to_string())?;
    Argon2::default()
        .hash_password(password.as_bytes(), &salt)
        .map(|h| h.to_string())
        .map_err(|e| e.to_string())
}

/// `PasswordHash::new` on `phc`, then `Argon2::verify_password` on the password's
/// bytes; a string that does not parse is refused. Claims that the answer is a
/// function of the two arguments.
#[verifier::external_body]
fn argon2_verify(password: &str, phc: &str) -> (r: bool)
    ensures
        r == argon2_accepts(password@, phc@),
{
    match PasswordHash::new(phc) {
        Ok(parsed) => Argon2::default().verify_password(password.as_bytes(), &parsed).is_ok(),
        Err(_) => false,
    }
}

/// `chrono::Utc::now().timestamp()`. The time is not claimed; only that it lies
/// between the epoch (`Utc::now` panics on an earlier clock) and the end of the
/// range of chrono's dates.
#[verifier::external_body]
fn utc_now_secs() -> (t: i64)
    ensures
        0 <= t < MAX_CLOCK_SECS,
{
    chrono::Utc::now().timestamp()
}

/// `jsonwebtoken::get_current_timestamp`, the clock that token validation uses.
/// The time is not claimed. It panics on a clock set before the Unix epoch.
#[verifier::external_body]
fn jwt_clock_secs() -> u64 {
    jsonwebtoken::get_current_timestamp()
}

/// `jsonwebtoken::encode` with the default header (HS256) and this library's key,
/// on the JSON object `{"sub": .., "exp": ..}`. Claims that it succeeds (its source
/// shows no failure for HS256 and a JSON object), that the token is a function of
/// the claims, and that decoding it gives the claims back.
#[verifier::external_body]
fn jwt_encode(claims: &Claims) -> (r: Result<String, String>)
    ensures
        r is Ok,
        r->Ok_0@ == jwt_encode_hs256(claims.sub@, claims.exp),
        jwt_claims(r->Ok_0@) == Some((claims.sub@, claims.exp)),
{
    let mut payload = serde_json::Map::new();
    payload.insert("sub".to_owned(), serde_json::Value::String(claims.sub.clone()));
    payload.insert("exp".to_owned(), serde_json::Value::from(claims.exp));
    let key = EncodingKey::from_secret(JWT_SECRET.as_bytes());
    jsonwebtoken::encode(&Header::default(), &serde_json::Value::Object(payload), &key)
        .map_err(|e| e.to_string())
}

/// `jsonwebtoken::decode` with the default validation (HS256, `exp` required)
/// except the expiry check, and this library's key; the claims `sub` (a string)
/// and `exp` (an unsigned integer) are read from the payload. Claims that the
/// answer is a function of the token.
#[verifier::external_body]
fn jwt_decode(token: &str) -> (r: Option<Claims>)
    ensures
        match r {
            Some(c) => jwt_claims(token@) == Some((c.sub@, c.exp)),
            None => jwt_claims(token@) is None,
        },
{
    let mut validation = Validation::default();
    validation.validate_exp = false;
    let key = DecodingKey::from_secret(JWT_SECRET.as_bytes());
    let data = jsonwebtoken::decode::<serde_json::Value>(token, &key, &validation).ok()?;
    let sub = data.claims.get("sub")?.as_str()?.to_owned();
    let exp = usize::try_from(data.claims.get("exp")?.as_u64()?).ok()?;
    Some(Claims { sub, exp })
}

// ==================== passwords ====================

/// Hashes `password` with the salt `salt` (B64).
pub fn hash_password_with_salt(password: &str, salt: &str) -> (r: Result<String, String>)
    ensures
        match r {
            Ok(h) => argon2_phc(password@, salt@) == Ok::<Seq<char>, Seq<char>>(h@),
            Err(e) => argon2_phc(password@, salt@) == Err::<Seq<char>, Seq<char>>(e@),
        },
        r matches Ok(h) ==> argon2_accepts(password@, h@),
{
    argon2_hash(password, salt)
}

/// Hashes `password` with a fresh random salt. A hash it returns is one that
/// [`verify_password`] accepts for the same password.
pub fn hash_password(password: &str) -> (r: Result<String, String>)
    ensures
        r matches Ok(h) ==> argon2_accepts(password@, h@),
        encode_utf8(password@).len() <= MAX_PASSWORD_BYTES ==> r is Ok,
{
    let salt = random_salt();
    hash_password_with_salt(password, salt.as_str())
}

/// Whether `password` matches the stored PHC string `hash`; a string that is not
/// a PHC hash matches nothing.
pub fn verify_password(password: &str, hash: &str) -> (ok: bool)
    ensures
        ok == argon2_accepts(password@, hash@),
{
    argon2_verify(password, hash)
}

// ==================== tokens ====================

/// A username, if any, by its view.
pub open spec fn subject_view(r: Option<String>) -> Option<Seq<char>> {
    match r {
        Some(s) => Some(s@),
        None => None,
    }
}

/// Expiry of a token issued at `issued_at`.
pub open spec fn token_expiry_spec(issued_at: i64) -> usize {
    (issued_at + TOKEN_LIFETIME_SECS) as usize
}

/// Whether a token expiring at `exp` is expired at `now`, tolerating the leeway.
pub open spec fn expired(exp: usize, now: u64) -> bool {
    now >= EXPIRY_LEEWAY_SECS && exp < now - EXPIRY_LEEWAY_SECS
}

/// The username that a token with these claims authenticates at `now`.
pub open spec fn accepted_subject(claims: Option<(Seq<char>, usize)>, now: u64) -> Option<Seq<char>> {
    match claims {
        Some((sub, exp)) => if expired(exp, now) {
            None
        } else {
            Some(sub)
        },
        None => None,
    }
}

/// Expiry of a token issued at `issued_at` (seconds since the epoch).
pub fn token_expiry(issued_at: i64) -> (exp: usize)
    requires
        issued_at <= i64::MAX - TOKEN_LIFETIME_SECS,
    ensures
        exp == token_expiry_spec(issued_at),
{
    #[verifier::truncate]
    ((issued_at + TOKEN_LIFETIME_SECS) as usize)
}

/// The session token for `username` issued at `issued_at`.
pub fn make_token_at(username: &str, issued_at: i64) -> (r: Result<String, String>)
    requires
        issued_at <= i64::MAX - TOKEN_LIFETIME_SECS,
    ensures
        r matches Ok(t) && t@ == jwt_encode_hs256(username@, token_expiry_spec(issued_at))
            && jwt_claims(t@) == Some((username@, token_expiry_spec(issued_at))),
{
    let claims = Claims { sub: username.to_owned(), exp: token_expiry(issued_at) };
    jwt_encode(&claims)
}

/// `token` is the session token for `username` issued at some clock reading:
/// its claims are `username` and that reading plus seven days.
pub open spec fn issued_token(token: Seq<char>, username: Seq<char>) -> bool {
    exists|issued_at: i64|
        0 <= issued_at < MAX_CLOCK_SECS && #[trigger] jwt_claims(token) == Some(
            (username, token_expiry_spec(issued_at)),
        ) && token == jwt_encode_hs256(username, token_expiry_spec(issued_at))
}

/// A session token for `username`, valid for seven days from now.
pub fn make_token(username: &str) -> (r: Result<String, String>)
    ensures
        r matches Ok(t) && issued_token(t@, username@),
{
    let now = utc_now_secs();
    make_token_at(username, now)
}

/// The username that a token with the claims `claims` authenticates at `now`:
/// none once the expiry lies more than the leeway in the past.
pub fn accept_claims(claims: Option<Claims>, now: u64) -> (r: Option<String>)
    ensures
        match (r, claims) {
            (Some(s), Some(c)) => !expired(c.exp, now) && s@ == c.sub@,
            (None, Some(c)) => expired(c.exp, now),
            (None, None) => true,
            (Some(_), None) => false,
        },
{
    match claims {
        Some(c) => {
            if now >= EXPIRY_LEEWAY_SECS && (c.exp as u64) < now - EXPIRY_LEEWAY_SECS {
                None
            } else {
                Some(c.sub)
            }
        },
        None => None,
    }
}

/// The username that `token` authenticates now, if its signature is valid and
/// it has not expired.
pub fn verify_token(token: &str) -> (r: Option<String>)
    ensures
        r matches Some(s) ==> exists|exp: usize| #[trigger] jwt_claims(token@) == Some((s@, exp)),
        jwt_claims(token@) is None ==> r is None,
        exists|now: u64| #[trigger] accepted_subject(jwt_claims(token@), now) == subject_view(r),
{
    let claims = jwt_decode(token);
    let now = jwt_clock_secs();
    let r = accept_claims(claims, now);
    assert(accepted_subject(jwt_claims(token@), now) == subject_view(r));
    r
}


/// A token issued at `issued_at` and checked at `now` authenticates its subject
/// exactly while `now` is at most seven days and the leeway past `issued_at`.
pub proof fn token_valid_for_its_lifetime(sub: Seq<char>, issued_at: i64, now: u64)
    requires
        0 <= issued_at,
        issued_at + TOKEN_LIFETIME_SECS <= usize::MAX,
    ensures
        accepted_subject(Some((sub, token_expiry_spec(issued_at))), now) == (if now
            <= issued_at + TOKEN_LIFETIME_SECS + EXPIRY_LEEWAY_SECS {
            Some(sub)
        } else {
            None::<Seq<char>>
        }),
{
}

/// Checking a token can only ever yield the username it was issued for.
pub proof fn checked_subject_is_issued_subject(
    token: Seq<char>,
    username: Seq<char>,
    exp: usize,
    now: u64,
)
    requires
        jwt_claims(token) == Some((username, exp)),
    ensures
        accepted_subject(jwt_claims(token), now) is Some ==> accepted_subject(jwt_claims(token), now)
            == Some(username),
{
}

// ==================== registration and login ====================

/// Error text for a username of the wrong length.
pub open spec fn username_length_msg() -> Seq<char> {
    "用户名长度需在 2-20 之间"@
}

/// Error text for a password that is too short.
pub open spec fn password_length_msg() -> Seq<char> {
    "密码至少 6 位"@
}

/// Error text for an unknown user or a wrong password.
pub open spec fn bad_credentials_msg() -> Seq<char> {
    "用户名或密码错误"@
}

/// A username (once trimmed) is 2 to 20 bytes long.
pub open spec fn username_length_ok(name: Seq<char>) -> bool {
    2 <= utf8_len(name) <= 20
}

/// A password is at least 6 bytes long.
pub open spec fn password_length_ok(password: Seq<char>) -> bool {
    utf8_len(password) >= 6
}

/// What the rules of registration make of the submitted credentials: the
/// trimmed username, or the refusal.
pub open spec fn registration_rules(username: Seq<char>, password: Seq<char>) -> Result<
    Seq<char>,
    (u16, Seq<char>),
> {
    if !username_length_ok(trimmed(username)) {
        Err((400u16, username_length_msg()))
    } else if !password_length_ok(password) {
        Err((400u16, password_length_msg()))
    } else {
        Ok(trimmed(username))
    }
}

/// Whether an error result carries the given code and text.
pub open spec fn is_error<T>(r: Result<T, (u16, String)>, code: u16, msg: Seq<char>) -> bool {
    r matches Err((c, m)) && c == code && m@ == msg
}

/// Checks submitted credentials against the rules of registration and returns
/// the trimmed username.
pub fn check_registration(body: &AuthBody) -> (r: Result<String, (u16, String)>)
    ensures
        match registration_rules(body.username@, body.password@) {
            Ok(name) => r matches Ok(n) && n@ == name,
            Err((code, msg)) => is_error(r, code, msg),
        },
{
    let username = trim(body.username.as_str());
    let ulen = username.as_str().len();
    if ulen < 2 || ulen > 20 {
        return Err((400, "用户名长度需在 2-20 之间".to_owned()));
    }
    if body.password.as_str().len() < 6 {
        return Err((400, "密码至少 6 位".to_owned()));
    }
    Ok(username)
}

/// The first step of registration with the salt `salt`: the rules, then the
/// password hash. Returns the trimmed username and the hash to store.
pub fn begin_registration_with_salt(body: &AuthBody, salt: &str) -> (r: Result<
    (String, String),
    (u16, String),
>)
    ensures
        match registration_rules(body.username@, body.password@) {
            Err((code, msg)) => is_error(r, code, msg),
            Ok(name) => match argon2_phc(body.password@, salt@) {
                Ok(h) => r matches Ok((n, hash)) && n@ == name && hash@ == h,
                Err(e) => is_error(r, 500, e),
            },
        },
        r matches Ok((_, hash)) ==> argon2_accepts(body.password@, hash@),
{
    let username = check_registration(body)?;
    match hash_password_with_salt(body.password.as_str(), salt) {
        Ok(hash) => Ok((username, hash)),
        Err(e) => Err((500, e)),
    }
}

/// The first step of registration: the rules, then the password hash with a
/// fresh salt. Returns the trimmed username and a hash that accepts the password.
pub fn begin_registration(body: &AuthBody) -> (r: Result<(String, String), (u16, String)>)
    ensures
        match registration_rules(body.username@, body.password@) {
            Err((code, msg)) => is_error(r, code, msg),
            Ok(name) => match r {
                Ok((n, hash)) => n@ == name && argon2_accepts(body.password@, hash@),
                Err((code, _)) => code == 500,
            },
        },
        registration_rules(body.username@, body.password@) is Ok && encode_utf8(body.password@).len()
            <= MAX_PASSWORD_BYTES ==> r is Ok,
{
    let salt = random_salt();
    begin_registration_with_salt(body, salt.as_str())
}

/// The last step of registration, once the user row was written (or refused
/// with the text `created` holds): a refusal is answered with code 400,
/// success with a fresh token.
pub fn finish_registration(username: String, created: Result<(), String>) -> (r: Result<
    AuthResponse,
    (u16, String),
>)
    ensures
        created matches Err(e) ==> is_error(r, 400, e@),
        created is Ok ==> (r matches Ok(resp) && resp.username@ == username@ && issued_token(
            resp.token@,
            username@,
        )),
{
    if let Err(e) = created {
        return Err((400, e));
    }
    let token = match make_token(username.as_str()) {
        Ok(t) => t,
        Err(e) => return Err((500, e)),
    };
    Ok(AuthResponse { token, username })
}

/// The username that a login looks up: the submitted one, trimmed.
pub fn login_name(body: &AuthBody) -> (name: String)
    ensures
        name@ == trimmed(body.username@),
{
    trim(body.username.as_str())
}

/// Why a login is refused, given the submitted password and what looking the
/// user up found (or the database's error text); `None` when it succeeds.
pub open spec fn login_refusal(password: Seq<char>, found: Result<Option<UserRow>, String>) -> Option<
    (u16, Seq<char>),
> {
    match found {
        Err(e) => Some((500u16, e@)),
        Ok(None) => Some((401u16, bad_credentials_msg())),
        Ok(Some(row)) => if argon2_accepts(password, row.password_hash@) {
            None
        } else {
            Some((401u16, bad_credentials_msg()))
        },
    }
}

/// The end of a login for `username`, given what looking it up found (or the
/// database's error text): code 500 for a database error, 401 for an unknown
/// user or a wrong password, otherwise a fresh token.
pub fn finish_login(username: String, password: &str, found: Result<Option<UserRow>, String>) -> (r:
    Result<AuthResponse, (u16, String)>)
    ensures
        match login_refusal(password@, found) {
            Some((code, msg)) => is_error(r, code, msg),
            None => r matches Ok(resp) && resp.username@ == username@ && issued_token(
                resp.token@,
                username@,
            ),
        },
{
    let row = match found {
        Err(e) => return Err((500, e)),
        Ok(None) => return Err((401, "用户名或密码错误".to_owned())),
        Ok(Some(row)) => row,
    };
    if !verify_password(password, row.password_hash.as_str()) {
        return Err((401, "用户名或密码错误".to_owned()));
    }
    let token = match make_token(username.as_str()) {
        Ok(t) => t,
        Err(e) => return Err((500, e)),
    };
    Ok(AuthResponse { token, username })
}

/// Registration stores the name that login looks up for the same submitted
/// username, and trimming again does not change it.
pub proof fn login_looks_up_registered_name(username: Seq<char>, password: Seq<char>)
    ensures
        registration_rules(username, password) matches Ok(name) ==> name == trimmed(username)
            && trimmed(name) == name,
{
    crate::text::trimmed_is_idempotent(username);
}

/// A password that registration hashed into a stored row passes login for
/// that row.
pub proof fn registered_password_passes_login(password: Seq<char>, row: UserRow)
    requires
        argon2_accepts(password, row.password_hash@),
    ensures
        login_refusal(password, Ok(Some(row))) is None,
{
}

} // verus!
