//! Choosing how to authenticate: an API key where one is given, a session
//! cookie otherwise.

use crate::api::errors::{ErrorView, RobloxApiError};
use crate::header::Secret;
use vstd::prelude::*;

verus! {

/// What a client proves its identity with.
#[derive(Debug)]
pub enum Credential {
    ApiKey(Secret),
    SessionCookie(Secret),
}

/// Tells whether the place where a session cookie may be found has to be
/// searched: only where neither a key nor a cookie was given.
pub fn needs_discovery(api_key: &Option<Secret>, cookie: &Option<Secret>) -> (needed: bool)
    ensures
        needed == (api_key is None && cookie is None),
{
    api_key.is_none() && cookie.is_none()
}

/// Chooses the credential. A key that was given wins, also over a cookie;
/// then a cookie that was given; then one that was discovered. With none of
/// them the result is `MissingCredential`.
pub fn resolve(api_key: Option<Secret>, cookie: Option<Secret>, discovered: Option<Secret>) -> (r: Result<
    Credential,
    RobloxApiError,
>)
    ensures
        api_key matches Some(key) ==> (r matches Ok(Credential::ApiKey(k)) && k == key),
        (api_key is None && cookie is Some) ==> (r matches Ok(Credential::SessionCookie(c)) && Some(c)
            == cookie),
        (api_key is None && cookie is None && discovered is Some) ==> (r matches Ok(
            Credential::SessionCookie(c),
        ) && Some(c) == discovered),
        (api_key is None && cookie is None && discovered is None) ==> (r matches Err(e) && e@
            == ErrorView::MissingCredential),
{
    match api_key {
        Some(key) => Ok(Credential::ApiKey(key)),
        None => match cookie {
            Some(given) => Ok(Credential::SessionCookie(given)),
            None => match discovered {
                Some(found) => Ok(Credential::SessionCookie(found)),
                None => Err(RobloxApiError::MissingCredential),
            },
        },
    }
}

} // verus!
