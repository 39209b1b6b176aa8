//! Bearer-token authentication: the token is the user id.

use vstd::prelude::*;
use crate::models::UserId;
use crate::storage::{PaymentStore, StorageError};

verus! {

/// Why a request was not authenticated.
#[derive(Debug)]
pub enum AuthError {
    MissingToken,
    InvalidTokenFormat,
    UserNotFound,
    StorageError(StorageError),
}

/// `s` without leading and trailing white space.
pub uninterp spec fn trimmed(s: Seq<char>) -> Seq<char>;

/// Relies on `str::trim`: the slice without leading and trailing white
/// space, as Unicode defines it.
#[verifier::external_body]
fn trim_white_space(s: &str) -> (r: &str)
    ensures
        r@ == trimmed(s@),
{
    s.trim()
}

/// The part of an authorization header value after the `Bearer ` scheme.
pub open spec fn bearer_credentials(value: Seq<char>) -> Option<Seq<char>> {
    if value.len() >= 7 && value.subrange(0, 7) == "Bearer "@ {
        Some(value.subrange(7, value.len() as int))
    } else {
        None
    }
}

/// The credentials of a `Bearer` header value, if it has that scheme.
fn strip_bearer(value: &str) -> (r: Option<&str>)
    ensures
        match bearer_credentials(value@) {
            Some(t) => r matches Some(x) && x@ == t,
            None => r is None,
        },
{
    let scheme = "Bearer ";
    proof {
        reveal_strlit("Bearer ");
    }
    let n = value.unicode_len();
    if n < 7 {
        return None;
    }
    let mut i: usize = 0;
    while i < 7
        invariant
            i <= 7,
            n == value@.len(),
            n >= 7,
            scheme@ == "Bearer "@,
            scheme@.len() == 7,
            forall|j: int| 0 <= j < i ==> value@[j] == scheme@[j],
        decreases 7 - i,
    {
        if value.get_char(i) != scheme.get_char(i) {
            assert(value@.subrange(0, 7)[i as int] != "Bearer "@[i as int]);
            return None;
        }
        i = i + 1;
    }
    assert(value@.subrange(0, 7) =~= "Bearer "@);
    Some(value.substring_char(7, n))
}

impl UserId {
    /// The user id in an `Authorization` header value: `Bearer ` followed by
    /// a token, with surrounding white space ignored.
    pub fn from_authorization(value: &str) -> (r: Result<UserId, AuthError>)
        ensures
            match bearer_credentials(value@) {
                None => r matches Err(e) && e is InvalidTokenFormat,
                Some(t) => if trimmed(t).len() == 0 {
                    r matches Err(e) && e is InvalidTokenFormat
                } else {
                    r matches Ok(u) && u.0@ == trimmed(t)
                },
            },
    {
        let rest = match strip_bearer(value) {
            Some(t) => t,
            None => {
                return Err(AuthError::InvalidTokenFormat);
            },
        };
        let token = trim_white_space(rest);
        if token.unicode_len() == 0 {
            return Err(AuthError::InvalidTokenFormat);
        }
        Ok(UserId(token.to_owned()))
    }
}

/// Admits a request whose `Authorization` header (`None` when absent) carries
/// the id of a stored user.
pub fn require_auth(storage: &PaymentStore, authorization: Option<&str>) -> (r: Result<UserId, AuthError>)
    requires
        storage.wf(),
    ensures
        match authorization {
            None => r matches Err(e) && e is MissingToken,
            Some(v) => match bearer_credentials(v@) {
                None => r matches Err(e) && e is InvalidTokenFormat,
                Some(t) => if t.len() == 0 {
                    r matches Err(e) && e is InvalidTokenFormat
                } else if !storage@.users.contains_key(t) {
                    r matches Err(e) && e is UserNotFound
                } else {
                    r matches Ok(u) && u.0@ == t
                },
            },
        },
{
    let value = match authorization {
        Some(v) => v,
        None => {
            return Err(AuthError::MissingToken);
        },
    };
    let token = match strip_bearer(value) {
        Some(t) => t,
        None => {
            return Err(AuthError::InvalidTokenFormat);
        },
    };
    if token.unicode_len() == 0 {
        return Err(AuthError::InvalidTokenFormat);
    }
    let id = token.to_owned();
    match storage.get_user(&id) {
        Ok(_) => Ok(UserId(id)),
        Err(_) => Err(AuthError::UserNotFound),
    }
}

} // verus!
