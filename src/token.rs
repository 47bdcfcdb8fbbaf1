//! Self-contained signed session tokens: minting at login or registration,
//! validation on every protected request.
use vstd::prelude::*;
use jsonwebtoken::errors::ErrorKind;
use jsonwebtoken::{decode, encode, Algorithm, DecodingKey, EncodingKey, Header, Validation};
use serde_json::Map as JsonObject;
use serde_json::Value;
use crate::error::{AppError, AppResult};
use crate::model::{now_millis, User};

verus! {

#[verifier::external_type_specification]
#[verifier::external_body]
pub struct ExJwtError(jsonwebtoken::errors::Error);

/// The lifetime of a session token, in seconds.
pub const TOKEN_LIFETIME_SECS: i64 = 86400;

/// The identity, role and expiry (in seconds since the Unix epoch) that a
/// session token carries.
#[derive(Clone, Debug)]
pub struct Claims {
    pub sub: String,
    pub email: String,
    pub role: String,
    pub exp: usize,
}

/// The token that signs the claims `sub`, `email`, `role`, `exp` with
/// HMAC-SHA256 under `secret`.
pub uninterp spec fn signed_token(
    sub: Seq<char>,
    email: Seq<char>,
    role: Seq<char>,
    exp: usize,
    secret: Seq<char>,
) -> Seq<char>;

/// Whether the HS256 signature that `token` carries checks, under an HMAC
/// key made of the bytes of `secret`, against the header and claims it
/// carries: the token is one that the holder of `secret` signed, unaltered.
pub uninterp spec fn hs256_signature_holds(token: Seq<char>, secret: Seq<char>) -> bool;

/// Relies on jsonwebtoken's `encode` with the default header (HS256) and an
/// HMAC key made of the secret's bytes; the claims travel as a JSON object
/// with the keys sub, email, role and exp. HMAC signing is deterministic, so
/// the token depends on the claims and the secret alone. With an HMAC key
/// and the HS256 header the algorithm families agree, a header and a map of
/// strings and numbers always serialize, and HMAC signing cannot fail, so
/// `encode` always succeeds; its result joins three parts with dots.
#[verifier::external_body]
fn sign_claims(c: &Claims, secret: &str) -> (r: Result<String, jsonwebtoken::errors::Error>)
    ensures
        r is Ok,
        r matches Ok(t) ==> t@ == signed_token(c.sub@, c.email@, c.role@, c.exp, secret@),
        r matches Ok(t) ==> t@.len() > 0,
{
    let mut m = JsonObject::new();
    m.insert("sub".to_string(), Value::from(c.sub.clone()));
    m.insert("email".to_string(), Value::from(c.email.clone()));
    m.insert("role".to_string(), Value::from(c.role.clone()));
    m.insert("exp".to_string(), Value::from(c.exp));
    encode(&Header::default(), &m, &EncodingKey::from_secret(secret.as_bytes()))
}

/// `r` holds the claims of `token` wherever `token` signs claims under
/// `secret`.
pub open spec fn gives_back_signed_claims(
    token: Seq<char>,
    secret: Seq<char>,
    r: Result<Claims, jsonwebtoken::errors::Error>,
) -> bool {
    forall|sub: Seq<char>, email: Seq<char>, role: Seq<char>, exp: usize|
        #[trigger] signed_token(sub, email, role, exp, secret) == token ==> (r matches Ok(c)
            && c.sub@ == sub && c.email@ == email && c.role@ == role && c.exp == exp)
}

/// Relies on jsonwebtoken's `decode` (HS256 only, HMAC key made of the
/// secret's bytes, the `exp` claim required but its time not checked there):
/// it refuses a token whose signature does not check, and reads the four
/// claims back, so a token that `sign_claims` made under the same secret
/// gives back its claims.
#[verifier::external_body]
fn open_token(token: &str, secret: &str) -> (r: Result<Claims, jsonwebtoken::errors::Error>)
    ensures
        r is Ok ==> hs256_signature_holds(token@, secret@),
        gives_back_signed_claims(token@, secret@, r),
{
    let mut v = Validation::new(Algorithm::HS256);
    v.validate_exp = false;
    let key = DecodingKey::from_secret(secret.as_bytes());
    let c = decode::<JsonObject<String, Value>>(token, &key, &v)?.claims;
    let text = |k: &str| c.get(k).and_then(Value::as_str).map(String::from);
    match (text("sub"), text("email"), text("role"), c.get("exp").and_then(Value::as_u64)) {
        (Some(sub), Some(email), Some(role), Some(exp)) => Ok(Claims { sub, email, role, exp: exp as usize }),
        _ => Err(ErrorKind::InvalidToken.into()),
    }
}

/// Whether a token minted at `now` (seconds) can carry its expiry.
pub open spec fn mintable_at(now: i64) -> bool {
    0 <= now && now + TOKEN_LIFETIME_SECS <= usize::MAX
}

/// The claims minted for `u` at `now`: its identity, email and role, expiring
/// a day later.
pub open spec fn claims_match(c: Claims, u: User, now: i64) -> bool {
    c.sub == u.id && c.email == u.email && c.role == u.role && c.exp == now
        + TOKEN_LIFETIME_SECS
}

pub fn claims_for(u: &User, now: i64) -> (r: Claims)
    requires
        mintable_at(now),
    ensures
        claims_match(r, *u, now),
{
    Claims {
        sub: u.id.clone(),
        email: u.email.clone(),
        role: u.role.clone(),
        exp: now as usize + TOKEN_LIFETIME_SECS as usize,
    }
}

/// What minting a token for `u` at `now` gives: the signed claims of `u`
/// expiring a day later, or an internal error exactly when that expiry is out
/// of range.
pub open spec fn mint_outcome(u: User, secret: Seq<char>, now: i64, r: AppResult<String>) -> bool {
    match r {
        Ok(t) => mintable_at(now) && t@.len() > 0 && t@ == signed_token(
            u.id@,
            u.email@,
            u.role@,
            (now + TOKEN_LIFETIME_SECS) as usize,
            secret,
        ),
        Err(e) => e is Internal && !mintable_at(now),
    }
}

/// A session token for `u`, minted at `now` seconds since the Unix epoch.
pub fn mint_token_at(u: &User, secret: &str, now: i64) -> (r: AppResult<String>)
    ensures
        mint_outcome(*u, secret@, now, r),
        mintable_at(now) ==> r is Ok,
        !mintable_at(now) ==> r is Err,
{
    if now < 0 || now as u64 > usize::MAX as u64 - TOKEN_LIFETIME_SECS as u64 {
        return Err(AppError::Internal("token expiry out of range".to_string()));
    }
    let c = claims_for(u, now);
    match sign_claims(&c, secret) {
        Ok(t) => Ok(t),
        Err(e) => Err(AppError::Internal(e.to_string())),
    }
}

/// What validating `token` at `now` gives: `Unauthorized` unless its
/// signature holds under `secret`; for a token signed under `secret`, its
/// claims while they have not expired, else `Unauthorized`.
pub open spec fn validation_outcome(token: Seq<char>, secret: Seq<char>, now: i64, r: AppResult<
    Claims,
>) -> bool {
    &&& r matches Err(e) ==> e is Unauthorized
    &&& r matches Ok(c) ==> c.exp > now && hs256_signature_holds(token, secret)
    &&& forall|sub: Seq<char>, email: Seq<char>, role: Seq<char>, exp: usize|
        #[trigger] signed_token(sub, email, role, exp, secret) == token ==> if exp > now {
            r matches Ok(c) && c.sub@ == sub && c.email@ == email && c.role@ == role && c.exp == exp
        } else {
            r == AppResult::<Claims>::Err(AppError::Unauthorized)
        }
}

/// The claims of `token` if its signature holds under `secret` and it
/// expires strictly after `now` seconds since the Unix epoch; any other
/// token is `Unauthorized`.
pub fn validate_token_at(token: &str, secret: &str, now: i64) -> (r: AppResult<Claims>)
    ensures
        validation_outcome(token@, secret@, now, r),
{
    match open_token(token, secret) {
        Ok(c) => {
            if now < 0 || c.exp as i128 > now as i128 {
                Ok(c)
            } else {
                Err(AppError::Unauthorized)
            }
        },
        Err(_) => Err(AppError::Unauthorized),
    }
}

/// The current time in whole seconds since the Unix epoch.
pub fn now_secs() -> (r: i64) {
    let ms = now_millis();
    ms / 1000
}

/// A session token for `u`, minted now.
pub fn mint_token(u: &User, secret: &str) -> (r: AppResult<String>)
    ensures
        exists|now: i64| mint_outcome(*u, secret@, now, r),
{
    let now = now_secs();
    mint_token_at(u, secret, now)
}

/// The claims of `token`, validated now.
pub fn validate_token(token: &str, secret: &str) -> (r: AppResult<Claims>)
    ensures
        exists|now: i64| validation_outcome(token@, secret@, now, r),
{
    let now = now_secs();
    validate_token_at(token, secret, now)
}

/// A token minted for an account validates, up to its expiry a day later, to
/// claims naming that account's identity, email and role; from its expiry on
/// it is refused.
pub proof fn lemma_minted_token_validates(
    u: User,
    secret: Seq<char>,
    minted_at: i64,
    t: AppResult<String>,
    now: i64,
    r: AppResult<Claims>,
)
    requires
        mint_outcome(u, secret, minted_at, t),
        t matches Ok(tok) && validation_outcome(tok@, secret, now, r),
    ensures
        now < minted_at + TOKEN_LIFETIME_SECS ==> (r matches Ok(c) && c.sub@ == u.id@ && c.email@
            == u.email@ && c.role@ == u.role@ && c.exp == minted_at + TOKEN_LIFETIME_SECS),
        now >= minted_at + TOKEN_LIFETIME_SECS ==> r == AppResult::<Claims>::Err(
            AppError::Unauthorized,
        ),
{
    let tok = t->Ok_0;
    let exp = (minted_at + TOKEN_LIFETIME_SECS) as usize;
    assert(signed_token(u.id@, u.email@, u.role@, exp, secret) == tok@);
}

/// A token whose signature does not hold under the secret (forged, altered
/// after signing, or signed under another key) is refused.
pub proof fn lemma_unsigned_token_refused(
    token: Seq<char>,
    secret: Seq<char>,
    now: i64,
    r: AppResult<Claims>,
)
    requires
        validation_outcome(token, secret, now, r),
        !hs256_signature_holds(token, secret),
    ensures
        r == AppResult::<Claims>::Err(AppError::Unauthorized),
{
}

} // verus!
