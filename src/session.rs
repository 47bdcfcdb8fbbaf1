//! Registration and login: the account a registration creates, the check of
//! a login's credentials, and the session handed back.
use vstd::prelude::*;
use crate::credential::{argon2_accepts, hash_outcome, hash_password, verify_password};
use crate::error::{AppError, AppResult};
use crate::model::{public_view, user_role, User, UserPublic};
use crate::patch::RegisterRequest;
use crate::token::{mint_outcome, mint_token_at, mintable_at, now_secs};

verus! {

/// Configuration loaded once at startup.
#[derive(Debug)]
pub struct AppConfig {
    /// The key that signs and checks session tokens.
    pub jwt_secret: String,
}

/// What registration and login hand back: a session token and the account,
/// without its password hash.
#[derive(Debug)]
pub struct AuthResponse {
    pub token: String,
    pub user: UserPublic,
}

/// The account a registration creates: the given email and username, the
/// ordinary role, and a hash that the given password verifies against.
pub fn new_account(req: RegisterRequest) -> (r: AppResult<User>)
    ensures
        match r {
            Ok(u) => u.email == req.email && u.username == req.username && u.role@ == user_role()
                && u.id@.len() == 36 && argon2_accepts(req.password@, u.password_hash@),
            Err(e) => hash_outcome(req.password@, Err(e)),
        },
{
    match hash_password(req.password.as_str()) {
        Ok(h) => Ok(User::new(req.email, req.username, h)),
        Err(e) => Err(e),
    }
}

/// What a session for `u` opened at `now` (seconds since the Unix epoch)
/// is: a token minted for `u` at `now` and its shown part, or an internal
/// error exactly when `now` puts the token's expiry out of range.
pub open spec fn session_outcome_at(
    u: User,
    secret: Seq<char>,
    now: i64,
    r: AppResult<AuthResponse>,
) -> bool {
    match r {
        Ok(a) => a.user == public_view(u) && mint_outcome(
            u,
            secret,
            now,
            AppResult::<String>::Ok(a.token),
        ),
        Err(e) => mint_outcome(u, secret, now, AppResult::<String>::Err(e)),
    }
}

/// What a session for `u` opened at the time the clock gave is.
pub open spec fn session_outcome(u: User, secret: Seq<char>, r: AppResult<AuthResponse>) -> bool {
    exists|now: i64| #[trigger] session_outcome_at(u, secret, now, r)
}

/// What a login at `now` with `password` for the account `found` gives: no
/// account and a wrong password are the same `Unauthorized`; the right
/// password opens a session.
pub open spec fn login_outcome_at(
    found: Option<User>,
    password: Seq<char>,
    secret: Seq<char>,
    now: i64,
    r: AppResult<AuthResponse>,
) -> bool {
    match found {
        None => r == AppResult::<AuthResponse>::Err(AppError::Unauthorized),
        Some(u) => if argon2_accepts(password, u.password_hash@) {
            session_outcome_at(u, secret, now, r)
        } else {
            r == AppResult::<AuthResponse>::Err(AppError::Unauthorized)
        },
    }
}

/// A new session for the account `u`, opened at `now` seconds since the Unix
/// epoch.
pub fn session_at(u: User, secret: &str, now: i64) -> (r: AppResult<AuthResponse>)
    ensures
        session_outcome_at(u, secret@, now, r),
        mintable_at(now) ==> r is Ok,
{
    match mint_token_at(&u, secret, now) {
        Ok(token) => Ok(AuthResponse { token, user: UserPublic::from(u) }),
        Err(e) => Err(e),
    }
}

/// A new session for the account `u`, opened now.
pub fn session_for(u: User, secret: &str) -> (r: AppResult<AuthResponse>)
    ensures
        session_outcome(u, secret@, r),
{
    let now = now_secs();
    let r = session_at(u, secret, now);
    assert(session_outcome_at(u, secret@, now, r));
    r
}

/// The answer to a login at `now` (seconds since the Unix epoch) with
/// `password` for the account `found` that its email led to, if any.
pub fn check_login_at(
    found: Option<User>,
    password: &str,
    secret: &str,
    now: i64,
) -> (r: AppResult<AuthResponse>)
    ensures
        login_outcome_at(found, password@, secret@, now, r),
{
    match found {
        None => Err(AppError::Unauthorized),
        Some(u) => {
            if verify_password(password, u.password_hash.as_str()) {
                session_at(u, secret, now)
            } else {
                Err(AppError::Unauthorized)
            }
        },
    }
}

/// The answer to a login, now, with `password` for the account `found` that
/// its email led to, if any.
pub fn check_login(found: Option<User>, password: &str, secret: &str) -> (r: AppResult<
    AuthResponse,
>)
    ensures
        exists|now: i64| #[trigger] login_outcome_at(found, password@, secret@, now, r),
{
    let now = now_secs();
    check_login_at(found, password, secret, now)
}

/// A login with the password an account's hash was made of opens a session
/// for that account whenever the time keeps the token's expiry in range; a
/// password the hash does not accept, or no account, is `Unauthorized`.
pub proof fn lemma_login(
    u: User,
    password: Seq<char>,
    secret: Seq<char>,
    now: i64,
    hashed: AppResult<String>,
    r: AppResult<AuthResponse>,
)
    requires
        hash_outcome(password, hashed),
        hashed matches Ok(h) && u.password_hash == h,
        login_outcome_at(Some(u), password, secret, now, r),
    ensures
        mintable_at(now) ==> (r matches Ok(a) && a.user.id == u.id && a.user.email == u.email
            && a.token@.len() > 0),
{
}

} // verus!
