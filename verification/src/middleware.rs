//! The caller-context resolver, shared by every transport: extract the bearer
//! token from the authorization metadata, verify it, resolve the subject to a
//! stored user, and hand the caller identity to the handler. Any failure
//! short-circuits as `Unauthorized` before the service layer runs, so a
//! protected handler never sees an unauthenticated caller.

use vstd::prelude::*;

use crate::auth_service::AuthService;
use crate::error::DomainError;
use crate::security::{JwtKeys, claims_outcome, decode_of, token_of};
use crate::store::{UserRepository, find_user_by_id};

verus! {

/// The resolved caller identity attached to an authenticated request.
pub struct AuthenticatedUser {
    pub id: u64,
    pub username: String,
}

/// Authorizes a mutation of a resource: the caller must be its author.
pub fn ensure_owner(item_author_id: u64, user_id: u64) -> (r: Result<(), DomainError>)
    ensures
        r == (if item_author_id == user_id {
            Ok::<(), DomainError>(())
        } else {
            Err::<(), DomainError>(DomainError::Forbidden)
        }),
{
    if item_author_id != user_id {
        Err(DomainError::Forbidden)
    } else {
        Ok(())
    }
}

/// The token an authorization header value carries, if it is a bearer
/// header: everything after the `"Bearer "` prefix.
pub open spec fn bearer_of(h: Seq<char>) -> Option<Seq<char>> {
    if h.len() >= 7 && h.subrange(0, 7) == "Bearer "@ {
        Some(h.skip(7))
    } else {
        None
    }
}

/// Strips the `"Bearer "` prefix from an authorization header value.
pub fn extract_bearer(header: &str) -> (r: Option<&str>)
    ensures
        match r {
            Some(t) => bearer_of(header@) == Some(t@),
            None => bearer_of(header@) is None,
        },
{
    proof {
        reveal_strlit("Bearer ");
    }
    let n = header.unicode_len();
    if n < 7 {
        return None;
    }
    let mut i: usize = 0;
    let prefix = "Bearer ";
    while i < 7
        invariant
            n == header@.len(),
            7 <= n,
            0 <= i <= 7,
            prefix@ == "Bearer "@,
            prefix@.len() == 7,
            forall|k: int| 0 <= k < i ==> header@[k] == prefix@[k],
        decreases 7 - i,
    {
        if header.get_char(i) != prefix.get_char(i) {
            proof {
                if header@.subrange(0, 7) == "Bearer "@ {
                    assert(header@.subrange(0, 7)[i as int] == header@[i as int]);
                    assert(false);
                }
            }
            return None;
        }
        i = i + 1;
    }
    let token = header.substring_char(7, n);
    proof {
        assert(header@.subrange(0, 7) =~= "Bearer "@);
        assert(header@.subrange(7, n as int) =~= header@.skip(7));
    }
    Some(token)
}

/// Verifies a bearer token and resolves its subject to a stored user. Every
/// failure — a bad or expired token, a subject that resolves to no user, or
/// a store failure during resolution — surfaces as the same `Unauthorized`;
/// an accepted caller is a stored user, under exactly the subject of claims
/// the decoder accepted unexpired, whatever token came in.
pub fn extract_user_from_token<R: UserRepository>(
    token: &str,
    keys: &JwtKeys,
    auth_service: &AuthService<R>,
    now: u64,
) -> (r: Result<AuthenticatedUser, DomainError>)
    requires
        auth_service.inv(),
    ensures
        match r {
            Ok(a) => find_user_by_id(auth_service.users(), a.id) matches Some(u) && u.username
                == a.username@,
            Err(e) => e == DomainError::Unauthorized,
        },
        claims_outcome(decode_of(token@, keys.spec_secret()), now) is Err ==> r is Err,
        r matches Ok(a) ==> (claims_outcome(decode_of(token@, keys.spec_secret()), now)
            matches Ok(c) && a.id == c.sub),
        forall|s: u64, i: u64, e: u64|
            token@ == token_of(s, i, e, keys.spec_secret()) ==> ((now > e ==> r is Err) && (
            r matches Ok(a) ==> a.id == s && now <= e)),
{
    let claims = match keys.verify_token(token, now) {
        Ok(c) => c,
        Err(_) => {
            return Err(DomainError::Unauthorized);
        },
    };
    match auth_service.get_user(claims.sub) {
        Ok(u) => {
            proof {
                assert(u@.id == claims.sub);
            }
            Ok(AuthenticatedUser { id: u.id, username: u.username })
        },
        Err(_) => Err(DomainError::Unauthorized),
    }
}

/// The authentication middleware both transports mount ahead of protected
/// operations: it holds the token authority and resolves the caller from the
/// request's authorization header.
pub struct JwtAuthMiddleware {
    keys: JwtKeys,
}

impl JwtAuthMiddleware {
    /// The signing secret of the held token authority.
    pub closed spec fn spec_secret(&self) -> Seq<char> {
        self.keys.spec_secret()
    }

    pub fn new(keys: JwtKeys) -> (r: Self)
        ensures
            r.spec_secret() == keys.spec_secret(),
    {
        JwtAuthMiddleware { keys }
    }

    /// Resolves the caller from an authorization header, if one came with
    /// the request. An absent header, a header without the bearer prefix,
    /// and every token or resolution failure are all the same
    /// `Unauthorized`; acceptance happens only through a bearer token the
    /// decoder accepts unexpired, with the caller's identity equal to its
    /// subject.
    pub fn authorize<R: UserRepository>(
        &self,
        header: Option<&String>,
        auth_service: &AuthService<R>,
        now: u64,
    ) -> (r: Result<AuthenticatedUser, DomainError>)
        requires
            auth_service.inv(),
        ensures
            match r {
                Ok(a) => find_user_by_id(auth_service.users(), a.id) matches Some(u) && u.username
                    == a.username@,
                Err(e) => e == DomainError::Unauthorized,
            },
            match header {
                Some(h) => {
                    &&& bearer_of(h@) is None ==> r is Err
                    &&& bearer_of(h@) matches Some(tok) ==> (claims_outcome(
                        decode_of(tok, self.spec_secret()),
                        now,
                    ) is Err ==> r is Err)
                    &&& r matches Ok(a) ==> (bearer_of(h@) matches Some(tok) && claims_outcome(
                        decode_of(tok, self.spec_secret()),
                        now,
                    ) matches Ok(c) && a.id == c.sub)
                    &&& forall|s: u64, i: u64, e: u64|
                        bearer_of(h@) == Some(token_of(s, i, e, self.spec_secret())) ==> ((now > e
                            ==> r is Err) && (r matches Ok(a) ==> a.id == s && now <= e))
                },
                None => r is Err,
            },
    {
        let h = match header {
            Some(h) => h,
            None => {
                return Err(DomainError::Unauthorized);
            },
        };
        let token = match extract_bearer(h.as_str()) {
            Some(t) => t,
            None => {
                return Err(DomainError::Unauthorized);
            },
        };
        extract_user_from_token(token, &self.keys, auth_service, now)
    }
}

} // verus!
