//! The authorization chain: bearer token, authentication, role gate, and the
//! rules that keep an actor from changing their own role or deleting their
//! own account.
use vstd::prelude::*;
use crate::error::{AppError, AppResult};
use crate::model::admin_role;
use crate::text::{chars_of, equal_ignoring_ascii_case, same_ignoring_ascii_case, same_text, spells};
use crate::token::{signed_token, validate_token_at, validation_outcome, Claims};

verus! {

/// The token of an `Authorization` header of the form `Bearer <token>`.
pub open spec fn bearer_of(h: Seq<char>) -> Option<Seq<char>> {
    if h.len() >= 7 && h.take(7) == "Bearer "@ {
        Some(h.skip(7))
    } else {
        None
    }
}

pub fn bearer_token(header: &str) -> (r: Option<&str>)
    ensures
        match r {
            Some(t) => bearer_of(header@) == Some(t@),
            None => bearer_of(header@) is None,
        },
{
    let cs = chars_of(header);
    let n = cs.len();
    if n < 7 {
        return None;
    }
    if !spells(&cs, 0, 7, "Bearer ") {
        proof {
            assert(header@.take(7) =~= header@.subrange(0, 7));
        }
        return None;
    }
    proof {
        assert(header@.take(7) =~= header@.subrange(0, 7));
    }
    let t = header.substring_char(7, n);
    proof {
        assert(t@ =~= header@.skip(7));
    }
    Some(t)
}

/// What authenticating a request with `Authorization` header `header` (if
/// any) gives: `Unauthorized` without a bearer token, else the validation of
/// that token.
pub open spec fn authentication_outcome(
    header: Option<Seq<char>>,
    secret: Seq<char>,
    now: i64,
    r: AppResult<Claims>,
) -> bool {
    match header {
        None => r == AppResult::<Claims>::Err(AppError::Unauthorized),
        Some(h) => match bearer_of(h) {
            None => r == AppResult::<Claims>::Err(AppError::Unauthorized),
            Some(t) => validation_outcome(t, secret, now, r),
        },
    }
}

pub open spec fn opt_str_view(h: Option<&str>) -> Option<Seq<char>> {
    match h {
        None => None,
        Some(s) => Some(s@),
    }
}

/// The first gate: the claims of the request's bearer token, validated at
/// `now` seconds since the Unix epoch.
pub fn require_auth(header: Option<&str>, secret: &str, now: i64) -> (r: AppResult<Claims>)
    ensures
        authentication_outcome(opt_str_view(header), secret@, now, r),
{
    match header {
        None => Err(AppError::Unauthorized),
        Some(h) => match bearer_token(h) {
            None => Err(AppError::Unauthorized),
            Some(t) => validate_token_at(t, secret, now),
        },
    }
}

/// The second gate, on admin routes: the claims the first gate attached must
/// be there, and name the admin role.
pub fn require_admin(claims: Option<&Claims>) -> (r: AppResult<()>)
    ensures
        claims is None ==> r == AppResult::<()>::Err(AppError::Unauthorized),
        claims matches Some(c) && c.role@ != admin_role() ==> r == AppResult::<()>::Err(
            AppError::Forbidden,
        ),
        claims matches Some(c) && c.role@ == admin_role() ==> r == AppResult::<()>::Ok(()),
{
    match claims {
        None => Err(AppError::Unauthorized),
        Some(c) => {
            if same_text(c.role.as_str(), "admin") {
                Ok(())
            } else {
                Err(AppError::Forbidden)
            }
        },
    }
}

/// Which gates a route sits behind.
#[derive(Debug)]
pub enum Scope {
    /// Registration, login and health: no gate.
    Public,
    /// Any authenticated account.
    Member,
    /// Authenticated accounts with the admin role.
    Admin,
}

/// What passing a request with header `header` through the gates of `scope`
/// gives.
pub open spec fn admission_outcome(
    scope: Scope,
    header: Option<Seq<char>>,
    secret: Seq<char>,
    now: i64,
    r: AppResult<Option<Claims>>,
) -> bool {
    match scope {
        Scope::Public => r == AppResult::<Option<Claims>>::Ok(None),
        _ => exists|a: AppResult<Claims>|
            #[trigger] authentication_outcome(header, secret, now, a) && match a {
                Err(e) => r == AppResult::<Option<Claims>>::Err(e),
                Ok(c) => if scope is Admin && c.role@ != admin_role() {
                    r == AppResult::<Option<Claims>>::Err(AppError::Forbidden)
                } else {
                    r == AppResult::<Option<Claims>>::Ok(Some(c))
                },
            },
    }
}

/// Passes a request through the gates of `scope` in their fixed order:
/// authentication first, then, on admin routes, the role gate. The claims
/// come back for the handler.
pub fn pass_gates(scope: Scope, header: Option<&str>, secret: &str, now: i64) -> (r: AppResult<
    Option<Claims>,
>)
    ensures
        admission_outcome(scope, opt_str_view(header), secret@, now, r),
{
    match scope {
        Scope::Public => Ok(None),
        Scope::Member => match require_auth(header, secret, now) {
            Ok(c) => Ok(Some(c)),
            Err(e) => Err(e),
        },
        Scope::Admin => {
            let a = require_auth(header, secret, now);
            match a {
                Ok(c) => match require_admin(Some(&c)) {
                    Ok(()) => Ok(Some(c)),
                    Err(e) => Err(e),
                },
                Err(e) => Err(e),
            }
        },
    }
}

/// On a gated route, a request without a valid bearer token is refused as
/// `Unauthorized` whatever role it might claim; on an admin route, a valid
/// token of a non-admin account is refused as `Forbidden`.
pub proof fn lemma_gates_in_order(
    scope: Scope,
    header: Option<Seq<char>>,
    secret: Seq<char>,
    now: i64,
    r: AppResult<Option<Claims>>,
    sub: Seq<char>,
    email: Seq<char>,
    role: Seq<char>,
    exp: usize,
)
    requires
        admission_outcome(scope, header, secret, now, r),
        !(scope is Public),
    ensures
        (header is None || bearer_of(header->Some_0) is None) ==> r == AppResult::<
            Option<Claims>,
        >::Err(AppError::Unauthorized),
        (header matches Some(h) && bearer_of(h) == Some(signed_token(sub, email, role, exp, secret))
            && exp <= now) ==> r == AppResult::<Option<Claims>>::Err(AppError::Unauthorized),
        (header matches Some(h) && bearer_of(h) == Some(
            signed_token(sub, email, role, exp, secret),
        ) && exp > now && role != admin_role() && scope is Admin) ==> r == AppResult::<
            Option<Claims>,
        >::Err(AppError::Forbidden),
{
    let a = choose|a: AppResult<Claims>|
        #[trigger] authentication_outcome(header, secret, now, a) && match a {
            Err(e) => r == AppResult::<Option<Claims>>::Err(e),
            Ok(c) => if scope is Admin && c.role@ != admin_role() {
                r == AppResult::<Option<Claims>>::Err(AppError::Forbidden)
            } else {
                r == AppResult::<Option<Claims>>::Ok(Some(c))
            },
        };
    match header {
        Some(h) => match bearer_of(h) {
            Some(t) => {
                if t == signed_token(sub, email, role, exp, secret) {
                    assert(validation_outcome(t, secret, now, a));
                }
            },
            None => {},
        },
        None => {},
    }
}

/// Whether `actor` and `target` name the same account. Identifiers are
/// compared without regard to ASCII case, so that a differently written
/// identifier cannot slip past the self-protection rules.
pub open spec fn same_account(actor: Seq<char>, target: Seq<char>) -> bool {
    equal_ignoring_ascii_case(actor, target)
}

pub open spec fn own_role_message() -> Seq<char> {
    "Cannot change your own role"@
}

pub open spec fn role_message() -> Seq<char> {
    "Role must be 'user' or 'admin'"@
}

pub open spec fn own_account_message() -> Seq<char> {
    "Cannot delete your own account"@
}

pub open spec fn is_role(r: Seq<char>) -> bool {
    r == "user"@ || r == "admin"@
}

/// What asking, as `actor`, to give account `target` the role `role` gives:
/// refused when `target` is the actor's own account, then when `role` is no
/// role; allowed otherwise.
pub open spec fn role_change_outcome(
    actor: Seq<char>,
    target: Seq<char>,
    role: Seq<char>,
    r: AppResult<()>,
) -> bool {
    if same_account(actor, target) {
        r matches Err(AppError::BadRequest(m)) && m@ == own_role_message()
    } else if !is_role(role) {
        r matches Err(AppError::BadRequest(m)) && m@ == role_message()
    } else {
        r == AppResult::<()>::Ok(())
    }
}

/// What asking, as `actor`, to delete account `target` gives: refused when
/// it is the actor's own account, allowed otherwise.
pub open spec fn deletion_outcome(actor: Seq<char>, target: Seq<char>, r: AppResult<()>) -> bool {
    if same_account(actor, target) {
        r matches Err(AppError::BadRequest(m)) && m@ == own_account_message()
    } else {
        r == AppResult::<()>::Ok(())
    }
}

pub fn check_role_change(actor: &Claims, target_id: &str, role: &str) -> (r: AppResult<()>)
    ensures
        role_change_outcome(actor.sub@, target_id@, role@, r),
{
    if same_ignoring_ascii_case(actor.sub.as_str(), target_id) {
        return Err(AppError::BadRequest("Cannot change your own role".to_string()));
    }
    if !same_text(role, "user") && !same_text(role, "admin") {
        return Err(AppError::BadRequest("Role must be 'user' or 'admin'".to_string()));
    }
    Ok(())
}

pub fn check_account_deletion(actor: &Claims, target_id: &str) -> (r: AppResult<()>)
    ensures
        deletion_outcome(actor.sub@, target_id@, r),
{
    if same_ignoring_ascii_case(actor.sub.as_str(), target_id) {
        return Err(AppError::BadRequest("Cannot delete your own account".to_string()));
    }
    Ok(())
}

/// An actor, whatever their role, can neither change their own role nor
/// delete their own account; the same requests on another account (with a
/// valid role) go through.
pub proof fn lemma_self_protection(
    actor: Seq<char>,
    target: Seq<char>,
    role: Seq<char>,
    change: AppResult<()>,
    deletion: AppResult<()>,
)
    requires
        role_change_outcome(actor, target, role, change),
        deletion_outcome(actor, target, deletion),
    ensures
        actor == target ==> (change matches Err(AppError::BadRequest(_))) && (
        deletion matches Err(AppError::BadRequest(_))),
        !same_account(actor, target) && is_role(role) ==> change is Ok && deletion is Ok,
{
    if actor == target {
        assert(same_account(actor, target));
    }
}

} // verus!
