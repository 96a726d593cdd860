//! Namespaced error codes of ahjoor-refund (4000–4099).

use vstd::prelude::*;

verus! {

/// Number of codes declared in this module; the registry holds exactly this many
/// entries for the contract.
pub const COUNT: usize = 8;

pub const ALREADY_INITIALIZED: u32 = 4001;
pub const FEE_EXCEEDS_MAXIMUM: u32 = 4002;
pub const AMOUNT_MUST_BE_POSITIVE: u32 = 4003;
pub const INVALID_REASON_CODE: u32 = 4004;
pub const REFUND_COOLDOWN_ACTIVE: u32 = 4005;
pub const PAYMENT_NOT_FOUND: u32 = 4006;
pub const PAYMENT_NOT_COMPLETED: u32 = 4007;
pub const EXCEEDS_REFUNDABLE_AMOUNT: u32 = 4008;

/// Registered name of a code of this contract, as a sequence of characters.
pub open spec fn spec_name(code: u32) -> Option<Seq<char>> {
    match code {
        4001 => Some("AlreadyInitialized"@),
        4002 => Some("FeeExceedsMaximum"@),
        4003 => Some("AmountMustBePositive"@),
        4004 => Some("InvalidReasonCode"@),
        4005 => Some("RefundCooldownActive"@),
        4006 => Some("PaymentNotFound"@),
        4007 => Some("PaymentNotCompleted"@),
        4008 => Some("ExceedsRefundableAmount"@),
        _ => None,
    }
}

/// Looks up the registered name of a code of this contract.
pub fn name(code: u32) -> (r: Option<&'static str>)
    ensures
        r is Some <==> spec_name(code) is Some,
        r is Some ==> r->0@ == spec_name(code)->0,
{
    match code {
        4001 => Some("AlreadyInitialized"),
        4002 => Some("FeeExceedsMaximum"),
        4003 => Some("AmountMustBePositive"),
        4004 => Some("InvalidReasonCode"),
        4005 => Some("RefundCooldownActive"),
        4006 => Some("PaymentNotFound"),
        4007 => Some("PaymentNotCompleted"),
        4008 => Some("ExceedsRefundableAmount"),
        _ => None,
    }
}

} // verus!
