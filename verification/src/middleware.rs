//! The auth guard: from the authorization header of a request to the claims
//! of its bearer token, or to the uniform refusal.

use crate::auth::{
    access_outcome, jwt_opened, refresh_outcome, AccessClaims, AccessClaimsView, Authenticator,
    RefreshClaims, RefreshClaimsView,
};
use crate::error::{unauthorized_view, APIErrorResponse, APIErrorView};
use vstd::prelude::*;
use vstd::string::StrSliceExecFns;

verus! {

/// The token that a header value carries: what follows the prefix
/// `"Bearer "`, and nothing where the value does not start with it.
pub open spec fn bearer_token(header: Seq<char>) -> Option<Seq<char>> {
    if header.len() >= 7 && header.take(7) == "Bearer "@ {
        Some(header.skip(7))
    } else {
        None
    }
}

/// The token of an optional header value.
pub open spec fn presented_token(header: Option<&str>) -> Option<Seq<char>> {
    match header {
        Some(value) => bearer_token(value@),
        None => None,
    }
}

/// What the guard of an access-protected route answers at `now`.
pub open spec fn access_guard(auth: Authenticator, header: Option<&str>, now: int) -> Result<
    AccessClaimsView,
    APIErrorView,
> {
    match presented_token(header) {
        Some(token) => match access_outcome(jwt_opened(token, auth.secret()), now) {
            Ok(claims) => Ok(claims),
            Err(_) => Err(unauthorized_view()),
        },
        None => Err(unauthorized_view()),
    }
}

/// What the guard of a refresh-protected route answers at `now`, before the
/// store is asked.
pub open spec fn refresh_guard(auth: Authenticator, header: Option<&str>, now: int) -> Result<
    RefreshClaimsView,
    APIErrorView,
> {
    match presented_token(header) {
        Some(token) => match refresh_outcome(jwt_opened(token, auth.secret()), now) {
            Ok(claims) => Ok(claims),
            Err(_) => Err(unauthorized_view()),
        },
        None => Err(unauthorized_view()),
    }
}

/// The bearer token of a request, given the value of its authorization
/// header if it has one.
pub fn extract_token(header: Option<&str>) -> (r: Option<String>)
    ensures
        r matches Some(token) ==> presented_token(header) == Some(token@),
        r is None ==> presented_token(header) is None,
{
    let value = match header {
        Some(value) => value,
        None => {
            return None;
        },
    };
    let prefix = "Bearer ";
    proof {
        reveal_strlit("Bearer ");
    }
    let n = value.unicode_len();
    if n < 7 {
        return None;
    }
    let mut i: usize = 0;
    while i < 7
        invariant
            header == Some(value),
            i <= 7,
            n == value@.len(),
            n >= 7,
            prefix@ == "Bearer "@,
            prefix@.len() == 7,
            forall|j: int| 0 <= j < i ==> value@[j] == prefix@[j],
        decreases 7 - i,
    {
        if value.get_char(i) != prefix.get_char(i) {
            assert(value@.take(7)[i as int] != "Bearer "@[i as int]);
            return None;
        }
        i += 1;
    }
    assert(value@.take(7) =~= prefix@);
    let rest = value.substring_char(7, n);
    assert(rest@ =~= value@.skip(7));
    Some(rest.to_owned())
}

/// The guard of an access-protected route: the claims of the bearer token
/// where the header carries one that the authenticator accepts at `now`,
/// else the uniform 401.
pub fn access_token_claims(authenticator: &Authenticator, header: Option<&str>, now: i64) -> (r:
    Result<AccessClaims, APIErrorResponse>)
    ensures
        r matches Ok(claims) ==> access_guard(*authenticator, header, now as int) == Ok::<
            AccessClaimsView,
            APIErrorView,
        >(claims@),
        r matches Err(e) ==> access_guard(*authenticator, header, now as int) == Err::<
            AccessClaimsView,
            APIErrorView,
        >(e@),
{
    let token = match extract_token(header) {
        Some(token) => token,
        None => {
            return Err(APIErrorResponse::unauthorized());
        },
    };
    match authenticator.verify_access_token_at(token.as_str(), now) {
        Ok(claims) => Ok(claims),
        Err(_) => Err(APIErrorResponse::unauthorized()),
    }
}

/// The guard of a refresh-protected route: the claims of the bearer token
/// where the header carries one that the authenticator accepts at `now`,
/// else the uniform 401. Whether the token is still on record is for the
/// session manager to say.
pub fn refresh_token_claims(authenticator: &Authenticator, header: Option<&str>, now: i64) -> (r:
    Result<RefreshClaims, APIErrorResponse>)
    ensures
        r matches Ok(claims) ==> refresh_guard(*authenticator, header, now as int) == Ok::<
            RefreshClaimsView,
            APIErrorView,
        >(claims@),
        r matches Err(e) ==> refresh_guard(*authenticator, header, now as int) == Err::<
            RefreshClaimsView,
            APIErrorView,
        >(e@),
{
    let token = match extract_token(header) {
        Some(token) => token,
        None => {
            return Err(APIErrorResponse::unauthorized());
        },
    };
    match authenticator.verify_refresh_token_at(token.as_str(), now) {
        Ok(claims) => Ok(claims),
        Err(_) => Err(APIErrorResponse::unauthorized()),
    }
}

} // verus!
