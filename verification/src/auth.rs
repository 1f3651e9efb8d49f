use vstd::prelude::*;
use axum::http::HeaderMap;
use crate::config::{paired, ConnectorConfig};
use crate::errors::ApiError;
use crate::headers::{claimed_origin, header_fields, presented_token, request_origin, request_token};
use crate::text::{starts_with, trim_end_char, trim_end_slashes};

verus! {

/// The first allowed origin, or none.
pub open spec fn allowed_origin_of(c: ConnectorConfig) -> Seq<char> {
    if c.allowed_origins@.len() > 0 {
        c.allowed_origins@[0]@
    } else {
        Seq::empty()
    }
}

/// Whether the allowed origin `allowed`, less its trailing slashes, starts `origin`.
pub open spec fn origin_admits(allowed: Seq<char>, origin: Seq<char>) -> bool {
    trim_end_char(allowed, '/').is_prefix_of(origin)
}

/// Whether a request claiming `origin` passes the origin check: no origin is
/// listed, or some listed origin, less its trailing slashes, starts `origin`.
pub open spec fn origin_accepted(c: ConnectorConfig, origin: Seq<char>) -> bool {
    c.allowed_origins@.len() == 0 || exists|i: int|
        0 <= i < c.allowed_origins@.len() && #[trigger] origin_admits(c.allowed_origins@[i]@, origin)
}

/// The verdict on a protected request: the origin first, then pairing, then the token.
pub open spec fn auth_verdict(c: ConnectorConfig, origin: Seq<char>, token: Seq<char>) -> Result<
    (),
    ApiError,
> {
    if !origin_accepted(c, origin) {
        Err(ApiError::OriginRejected)
    } else if !paired(c) {
        Err(ApiError::NotPaired)
    } else if token.len() == 0 {
        Err(ApiError::MissingToken)
    } else if token != c.pairing_token@ {
        Err(ApiError::InvalidToken)
    } else {
        Ok(())
    }
}

/// The first allowed origin, or "" when none is set.
pub fn allowed_origin(config: &ConnectorConfig) -> (r: &str)
    ensures
        r@ == allowed_origin_of(*config),
{
    if config.allowed_origins.len() > 0 {
        config.allowed_origins[0].as_str()
    } else {
        proof {
            reveal_strlit("");
        }
        ""
    }
}

/// Whether a request claiming `origin` passes the origin check.
pub fn origin_allowed(config: &ConnectorConfig, origin: &str) -> (b: bool)
    ensures
        b == origin_accepted(*config, origin@),
{
    let n = config.allowed_origins.len();
    if n == 0 {
        return true;
    }
    let mut i: usize = 0;
    while i < n
        invariant
            n == config.allowed_origins@.len(),
            i <= n,
            forall|j: int| 0 <= j < i ==> !origin_admits(config.allowed_origins@[j]@, origin@),
        decreases n - i,
    {
        if starts_with(origin, trim_end_slashes(config.allowed_origins[i].as_str())) {
            assert(origin_admits(config.allowed_origins@[i as int]@, origin@));
            return true;
        }
        i = i + 1;
    }
    false
}

/// Whether two strings hold the same characters.
fn same_text(a: &str, b: &str) -> (r: bool)
    ensures
        r == (a@ == b@),
{
    let n = a.unicode_len();
    if n != b.unicode_len() {
        return false;
    }
    let mut i: usize = 0;
    while i < n
        invariant
            n == a@.len(),
            n == b@.len(),
            i <= n,
            forall|j: int| 0 <= j < i ==> a@[j] == b@[j],
        decreases n - i,
    {
        if a.get_char(i) != b.get_char(i) {
            return false;
        }
        i = i + 1;
    }
    assert(a@ =~= b@);
    true
}

/// The verdict on a protected request that claims `origin` and presents `token`.
pub fn check_auth(origin: &str, token: &str, config: &ConnectorConfig) -> (r: Result<(), ApiError>)
    ensures
        r == auth_verdict(*config, origin@, token@),
        origin_accepted(*config, origin@) && paired(*config) && token@.len() > 0 ==> (r is Ok
            <==> token@ == config.pairing_token@),
        origin_accepted(*config, origin@) && paired(*config) && token@.len() > 0 && token@
            != config.pairing_token@ ==> r == Err::<(), ApiError>(ApiError::InvalidToken),
{
    if !origin_allowed(config, origin) {
        return Err(ApiError::OriginRejected);
    }
    if config.pairing_token.as_str().is_empty() {
        return Err(ApiError::NotPaired);
    }
    if token.is_empty() {
        return Err(ApiError::MissingToken);
    }
    if !same_text(token, config.pairing_token.as_str()) {
        return Err(ApiError::InvalidToken);
    }
    Ok(())
}

/// The verdict on a protected request, read from its headers.
pub fn validate_auth(headers: &HeaderMap, config: &ConnectorConfig) -> (r: Result<(), ApiError>)
    ensures
        r == auth_verdict(
            *config,
            claimed_origin(header_fields(*headers)),
            presented_token(header_fields(*headers)),
        ),
{
    let origin = request_origin(headers);
    let token = request_token(headers);
    check_auth(origin.as_str(), token.as_str(), config)
}

} // verus!
