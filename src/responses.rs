//! What the coordinator hands back to callers, independent of transport.
use vstd::prelude::*;

verus! {

/// Why an admission attempt was turned down.
#[derive(Clone, Copy, Debug, PartialEq, Eq, Structural)]
pub enum TryContributeError {
    /// The session is not waiting in the lobby.
    UnknownSessionId,
    /// The attempt came before the minimum check-in interval had passed.
    RateLimited,
    /// Another session holds the contribution slot.
    AnotherContributionInProgress,
}

impl TryContributeError {
    /// HTTP status of the reply: a client error for an unknown session or a
    /// call that came too early; success for an occupied slot, since the
    /// caller should simply retry later.
    pub fn status_code(&self) -> (r: u16)
        ensures
            r == (match self {
                TryContributeError::UnknownSessionId => 400u16,
                TryContributeError::RateLimited => 400u16,
                TryContributeError::AnotherContributionInProgress => 200u16,
            }),
    {
        match self {
            TryContributeError::UnknownSessionId => 400,
            TryContributeError::RateLimited => 400,
            TryContributeError::AnotherContributionInProgress => 200,
        }
    }

    /// Name of the single field of the JSON reply body.
    pub fn body_field(&self) -> (r: &'static str)
        ensures
            self is AnotherContributionInProgress ==> r@ == "message"@,
            !(self is AnotherContributionInProgress) ==> r@ == "error"@,
    {
        match self {
            TryContributeError::UnknownSessionId => "error",
            TryContributeError::RateLimited => "error",
            TryContributeError::AnotherContributionInProgress => "message",
        }
    }

    /// Text of the JSON reply body.
    pub fn body_text(&self) -> (r: &'static str)
        ensures
            self is UnknownSessionId ==> r@ == "unknown session id"@,
            self is RateLimited ==> r@ == "call came too early. rate limited"@,
            self is AnotherContributionInProgress ==> r@ == "another contribution in progress"@,
    {
        match self {
            TryContributeError::UnknownSessionId => "unknown session id",
            TryContributeError::RateLimited => "call came too early. rate limited",
            TryContributeError::AnotherContributionInProgress => "another contribution in progress",
        }
    }
}

/// Successful admission: the current contribution payload, which the
/// coordinator does not interpret.
#[derive(Debug)]
pub struct TryContributeResponse<C> {
    pub contribution: C,
}

impl<C> TryContributeResponse<C> {
    pub fn new(contribution: C) -> (r: TryContributeResponse<C>)
        ensures
            r.contribution == contribution,
    {
        TryContributeResponse { contribution }
    }
}

/// Snapshot of the coordinator for status queries.
#[derive(Debug, PartialEq, Eq, Structural)]
pub struct StatusResponse {
    pub lobby_size: usize,
    pub num_contributions: usize,
}

/// Public key information that clients need to check session tokens.
#[derive(Debug)]
pub struct JwtInfoResponse {
    pub alg: &'static str,
    pub rsa_pem_key: String,
}

impl JwtInfoResponse {
    pub fn new(alg: &'static str, rsa_pem_key: String) -> (r: JwtInfoResponse)
        ensures
            r.alg == alg,
            r.rsa_pem_key == rsa_pem_key,
    {
        JwtInfoResponse { alg, rsa_pem_key }
    }
}

} // verus!
