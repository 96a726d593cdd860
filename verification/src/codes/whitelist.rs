//! Namespaced error codes of ahjoor-token-whitelist (5000–5099).

use vstd::prelude::*;

verus! {

/// Number of codes declared in this module; the registry holds exactly this many
/// entries for the contract.
pub const COUNT: usize = 9;

pub const NOT_INITIALIZED: u32 = 5001;
pub const ALREADY_INITIALIZED: u32 = 5002;
pub const UNAUTHORIZED: u32 = 5003;
pub const TOKEN_ALREADY_WHITELISTED: u32 = 5004;
pub const TOKEN_NOT_WHITELISTED: u32 = 5005;
pub const QUOTA_EXCEEDED: u32 = 5006;
pub const TOKEN_ALREADY_HAS_QUOTA: u32 = 5007;
pub const TOKEN_HAS_NO_QUOTA: u32 = 5008;
pub const RISK_TIER_NOT_DEFINED: u32 = 5009;

/// Registered name of a code of this contract, as a sequence of characters.
pub open spec fn spec_name(code: u32) -> Option<Seq<char>> {
    match code {
        5001 => Some("NotInitialized"@),
        5002 => Some("AlreadyInitialized"@),
        5003 => Some("Unauthorized"@),
        5004 => Some("TokenAlreadyWhitelisted"@),
        5005 => Some("TokenNotWhitelisted"@),
        5006 => Some("QuotaExceeded"@),
        5007 => Some("TokenAlreadyHasQuota"@),
        5008 => Some("TokenHasNoQuota"@),
        5009 => Some("RiskTierNotDefined"@),
        _ => None,
    }
}

/// Looks up the registered name of a code of this contract.
pub fn name(code: u32) -> (r: Option<&'static str>)
    ensures
        r is Some <==> spec_name(code) is Some,
        r is Some ==> r->0@ == spec_name(code)->0,
{
    match code {
        5001 => Some("NotInitialized"),
        5002 => Some("AlreadyInitialized"),
        5003 => Some("Unauthorized"),
        5004 => Some("TokenAlreadyWhitelisted"),
        5005 => Some("TokenNotWhitelisted"),
        5006 => Some("QuotaExceeded"),
        5007 => Some("TokenAlreadyHasQuota"),
        5008 => Some("TokenHasNoQuota"),
        5009 => Some("RiskTierNotDefined"),
        _ => None,
    }
}

} // verus!
