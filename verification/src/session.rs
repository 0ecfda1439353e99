//! Session resolution: from a bearer token and an optional required
//! permission to an authenticated session, or a precise failure. The user is
//! re-loaded from the store on every call, so a revoked permission takes
//! effect on the next request rather than at token expiry.

use vstd::prelude::*;

use crate::models::{spec_has_permission, User};
use crate::store::{lemma_unique_username, UserStore};
use crate::token::{decode_jwt_at, decode_outcome, jwt_claims_of, jwt_of, now_unix_seconds, Claims};

verus! {

/// Why resolution failed: the caller's identity did not check out, or it did
/// and the required capability is missing.
#[derive(Clone, Copy, PartialEq, Eq, Structural, Debug)]
pub enum ResolveError {
    /// The token is invalid, expired, of the refresh class, or names no
    /// known user; the cases are deliberately not distinguished.
    Unauthorized,
    /// Valid identity, insufficient capability.
    Forbidden,
}

/// The per-request result of resolving a token: the freshly loaded user and
/// the token's claims.
#[derive(Debug)]
pub struct Session {
    pub user: User,
    pub claims: Claims,
}

/// Decodes the access token and rejects refresh-class tokens: a refresh
/// token must never authorize a resource operation, only the refresh flow
/// itself. Every failure is `Unauthorized`.
pub fn resolve_token(key: &str, access_token: &str, now: u64) -> (r: Result<Claims, ResolveError>)
    ensures
        r matches Ok(c) ==> !c.refresh && c.exp > now,
        forall|exp: u64, sub: Seq<char>|
            access_token@ == #[trigger] jwt_of(key@, exp, sub, false) && exp > now ==> (r matches
                Ok(c) && c.exp == exp && c.sub@ == sub && !c.refresh),
        forall|exp: u64, sub: Seq<char>|
            access_token@ == #[trigger] jwt_of(key@, exp, sub, true) ==> r == Err::<
                Claims,
                ResolveError,
            >(ResolveError::Unauthorized),
        forall|exp: u64, sub: Seq<char>, refresh: bool|
            access_token@ == #[trigger] jwt_of(key@, exp, sub, refresh) && exp <= now ==> r
                == Err::<Claims, ResolveError>(ResolveError::Unauthorized),
        decode_outcome(key@, access_token@, now) is Err ==> r == Err::<Claims, ResolveError>(
            ResolveError::Unauthorized,
        ),
        decode_outcome(key@, access_token@, now) matches Ok(claims) ==> (if claims.2 {
            r == Err::<Claims, ResolveError>(ResolveError::Unauthorized)
        } else {
            r matches Ok(c) && c.exp == claims.0 && c.sub@ == claims.1 && !c.refresh
        }),
{
    match decode_jwt_at(key, access_token, now) {
        Err(_) => Err(ResolveError::Unauthorized),
        Ok(c) => {
            if c.refresh {
                Err(ResolveError::Unauthorized)
            } else {
                Ok(c)
            }
        },
    }
}

/// Judges the loaded user against the claims: no user is `Unauthorized`
/// (indistinguishable from a bad token, so account existence does not leak),
/// a missing required capability is `Forbidden`, anything else is a session.
pub fn resolve_with_user(
    claims: Claims,
    user: Option<User>,
    required_permission: Option<&str>,
) -> (r: Result<Session, ResolveError>)
    ensures
        user is None ==> r == Err::<Session, ResolveError>(ResolveError::Unauthorized),
        user matches Some(u) && required_permission matches Some(p) && !spec_has_permission(
            u@.permissions,
            p@,
        ) ==> r == Err::<Session, ResolveError>(ResolveError::Forbidden),
        user matches Some(u) ==> ((required_permission is None || (required_permission
            matches Some(p) && spec_has_permission(u@.permissions, p@))) ==> (r matches Ok(s)
            && s.user@ == u@ && s.claims == claims)),
{
    match user {
        None => Err(ResolveError::Unauthorized),
        Some(u) => {
            match required_permission {
                Some(p) => {
                    if u.has_permission(p) {
                        Ok(Session { user: u, claims })
                    } else {
                        Err(ResolveError::Forbidden)
                    }
                },
                None => Ok(Session { user: u, claims }),
            }
        },
    }
}

/// Resolves a bearer token against the store at the instant `now`, terminal
/// on the first failure: decode the token, reject the refresh class, re-load
/// the user by the token's subject, and check the required permission, which
/// is judged against the freshly loaded user alone — the token carries no
/// permission data.
pub fn resolve(
    store: &UserStore,
    key: &str,
    access_token: &str,
    required_permission: Option<&str>,
    now: u64,
) -> (r: Result<Session, ResolveError>)
    requires
        store.wf(),
    ensures
        r matches Ok(s) ==> {
            &&& !s.claims.refresh
            &&& s.claims.exp > now
            &&& store@.contains(s.user@)
            &&& s.user@.username == s.claims.sub@
            &&& (required_permission matches Some(p) ==> spec_has_permission(
                s.user@.permissions,
                p@,
            ))
        },
        forall|exp: u64, sub: Seq<char>|
            access_token@ == #[trigger] jwt_of(key@, exp, sub, true) ==> r == Err::<
                Session,
                ResolveError,
            >(ResolveError::Unauthorized),
        forall|exp: u64, sub: Seq<char>, refresh: bool|
            access_token@ == #[trigger] jwt_of(key@, exp, sub, refresh) && exp <= now ==> r
                == Err::<Session, ResolveError>(ResolveError::Unauthorized),
        forall|exp: u64, sub: Seq<char>|
            access_token@ == #[trigger] jwt_of(key@, exp, sub, false) && exp > now
                && !store.contains_username(sub) ==> r == Err::<Session, ResolveError>(
                ResolveError::Unauthorized,
            ),
        forall|exp: u64, sub: Seq<char>, i: int|
            access_token@ == #[trigger] jwt_of(key@, exp, sub, false) && exp > now && 0 <= i
                < store@.len() && store@[i].username == sub ==> (
            if (required_permission is None || (required_permission matches Some(p)
                && spec_has_permission(#[trigger] store@[i].permissions, p@))) {
                r matches Ok(s) && s.user@ == store@[i] && s.claims.exp == exp && s.claims.sub@
                    == sub && !s.claims.refresh
            } else {
                r == Err::<Session, ResolveError>(ResolveError::Forbidden)
            }),
        decode_outcome(key@, access_token@, now) is Err ==> r == Err::<Session, ResolveError>(
            ResolveError::Unauthorized,
        ),
        decode_outcome(key@, access_token@, now) matches Ok(claims) ==> (claims.2 ==> r == Err::<
            Session,
            ResolveError,
        >(ResolveError::Unauthorized)),
        decode_outcome(key@, access_token@, now) matches Ok(claims) ==> ((!claims.2
            && !store.contains_username(claims.1)) ==> r == Err::<Session, ResolveError>(
            ResolveError::Unauthorized,
        )),
        decode_outcome(key@, access_token@, now) matches Ok(claims) ==> (forall|i: int|
            (!claims.2 && 0 <= i < store@.len() && #[trigger] store@[i].username == claims.1) ==> (
            if (required_permission is None || (required_permission matches Some(p)
                && spec_has_permission(store@[i].permissions, p@))) {
                r matches Ok(s) && s.user@ == store@[i] && s.claims.exp == claims.0
                    && s.claims.sub@ == claims.1 && !s.claims.refresh
            } else {
                r == Err::<Session, ResolveError>(ResolveError::Forbidden)
            })),
{
    let claims = match resolve_token(key, access_token, now) {
        Ok(c) => c,
        Err(e) => {
            return Err(e);
        },
    };
    let user = store.find_by_username(claims.sub.as_str());
    proof {
        if user is Some {
            assert forall|i: int|
                0 <= i < store@.len() && store@[i].username == claims.sub@ implies store@[i] == (
            user->0)@ by {
                lemma_unique_username(store, (user->0)@, i);
            }
        }
    }
    resolve_with_user(claims, user, required_permission)
}

/// Resolves a bearer token against the store at the current clock.
pub fn get_session(
    store: &UserStore,
    key: &str,
    access_token: &str,
    required_permission: Option<&str>,
) -> (r: Result<Session, ResolveError>)
    requires
        store.wf(),
    ensures
        r matches Ok(s) ==> {
            &&& !s.claims.refresh
            &&& store@.contains(s.user@)
            &&& s.user@.username == s.claims.sub@
            &&& (required_permission matches Some(p) ==> spec_has_permission(
                s.user@.permissions,
                p@,
            ))
        },
        forall|exp: u64, sub: Seq<char>|
            access_token@ == #[trigger] jwt_of(key@, exp, sub, true) ==> r == Err::<
                Session,
                ResolveError,
            >(ResolveError::Unauthorized),
        jwt_claims_of(key@, access_token@) is Err ==> r == Err::<Session, ResolveError>(
            ResolveError::Unauthorized,
        ),
{
    let now = now_unix_seconds();
    resolve(store, key, access_token, required_permission, now)
}

} // verus!
