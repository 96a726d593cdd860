//! Namespaced error codes of ahjoor-payments (2000–2299).

use vstd::prelude::*;

verus! {

/// Number of codes declared in this module; the registry holds exactly this many
/// entries for the contract.
pub const COUNT: usize = 47;

pub const RATE_LIMIT_EXCEEDED: u32 = 2001;
pub const SUBSCRIPTION_PAUSED: u32 = 2002;
pub const ORACLE_CONDITION_NOT_MET: u32 = 2003;
pub const SUBSCRIPTION_IN_TRIAL: u32 = 2004;
pub const TOKEN_NOT_ALLOWED: u32 = 2005;
pub const DUPLICATE_EXTERNAL_ID: u32 = 2006;
pub const MULTISIG_NOT_REQUIRED: u32 = 2007;
pub const ALREADY_APPROVED: u32 = 2008;
pub const NOT_A_SIGNER: u32 = 2009;
pub const VOUCHER_EXPIRED: u32 = 2010;
pub const VOUCHER_EXHAUSTED: u32 = 2011;
pub const VOUCHER_REVOKED: u32 = 2012;
pub const VOUCHER_NOT_FOUND: u32 = 2013;
pub const WITHDRAWAL_RATE_LIMIT_EXCEEDED: u32 = 2014;
pub const REFERRAL_ALREADY_EXISTS: u32 = 2015;
pub const NO_COMMISSION_TO_CLAIM: u32 = 2016;
pub const DYNAMIC_PAYMENT_EXPIRED: u32 = 2017;
pub const TIPPING_NOT_ENABLED: u32 = 2018;
pub const TIP_EXCEEDS_MAX_BPS: u32 = 2019;
pub const MERCHANT_VOLUME_CAPPED: u32 = 2020;
pub const SLIPPAGE_EXCEEDED: u32 = 2021;
pub const ORACLE_NOT_WHITELISTED: u32 = 2022;
pub const CUSTOMER_SPEND_LIMIT_EXCEEDED: u32 = 2023;
pub const CAPTURE_PAST_DEADLINE: u32 = 2024;
pub const EVIDENCE_WINDOW_CLOSED: u32 = 2025;
pub const EVIDENCE_LIMIT_REACHED: u32 = 2026;
pub const COOLING_OFF_EXPIRED: u32 = 2027;
pub const NOT_IN_COOLING_OFF: u32 = 2028;
pub const COOLING_OFF_EXCEEDS_MAX: u32 = 2029;
pub const PAUSE_COUNT_EXCEEDED: u32 = 2030;
pub const UNAUTHORIZED_PAUSE: u32 = 2031;
pub const INSUFFICIENT_MERCHANT_RESERVE: u32 = 2032;
pub const KYB_VERIFICATION_REQUIRED: u32 = 2033;
pub const RETRY_NOT_DUE: u32 = 2034;
pub const DEBIT_RECORD_NOT_FOUND: u32 = 2035;
pub const DEBIT_ALREADY_ABANDONED: u32 = 2036;
pub const DEBIT_ALREADY_SUCCEEDED: u32 = 2037;
pub const INVALID_PAYMENT_STATUS: u32 = 2038;
pub const MAX_EXTENSIONS_REACHED: u32 = 2039;
pub const MAX_EXTENSION_LEDGERS_EXCEEDED: u32 = 2040;
pub const CUSTOMER_BLOCKED: u32 = 2050;
pub const DAO_NOT_CONFIGURED: u32 = 2051;
pub const NOT_A_DAO_MEMBER: u32 = 2052;
pub const DAO_ALREADY_ESCALATED: u32 = 2053;
pub const DAO_VOTE_WINDOW_OPEN: u32 = 2054;
pub const DAO_VOTE_WINDOW_CLOSED: u32 = 2055;
pub const DAO_ALREADY_VOTED: u32 = 2056;

/// Registered name of a code of this contract, as a sequence of characters.
pub open spec fn spec_name(code: u32) -> Option<Seq<char>> {
    match code {
        2001 => Some("RateLimitExceeded"@),
        2002 => Some("SubscriptionPaused"@),
        2003 => Some("OracleConditionNotMet"@),
        2004 => Some("SubscriptionInTrial"@),
        2005 => Some("TokenNotAllowed"@),
        2006 => Some("DuplicateExternalId"@),
        2007 => Some("MultisigNotRequired"@),
        2008 => Some("AlreadyApproved"@),
        2009 => Some("NotASigner"@),
        2010 => Some("VoucherExpired"@),
        2011 => Some("VoucherExhausted"@),
        2012 => Some("VoucherRevoked"@),
        2013 => Some("VoucherNotFound"@),
        2014 => Some("WithdrawalRateLimitExceeded"@),
        2015 => Some("ReferralAlreadyExists"@),
        2016 => Some("NoCommissionToClaim"@),
        2017 => Some("DynamicPaymentExpired"@),
        2018 => Some("TippingNotEnabled"@),
        2019 => Some("TipExceedsMaxBps"@),
        2020 => Some("MerchantVolumeCapped"@),
        2021 => Some("SlippageExceeded"@),
        2022 => Some("OracleNotWhitelisted"@),
        2023 => Some("CustomerSpendLimitExceeded"@),
        2024 => Some("CapturePastDeadline"@),
        2025 => Some("EvidenceWindowClosed"@),
        2026 => Some("EvidenceLimitReached"@),
        2027 => Some("CoolingOffExpired"@),
        2028 => Some("NotInCoolingOff"@),
        2029 => Some("CoolingOffExceedsMax"@),
        2030 => Some("PauseCountExceeded"@),
        2031 => Some("UnauthorizedPause"@),
        2032 => Some("InsufficientMerchantReserve"@),
        2033 => Some("KYBVerificationRequired"@),
        2034 => Some("RetryNotDue"@),
        2035 => Some("DebitRecordNotFound"@),
        2036 => Some("DebitAlreadyAbandoned"@),
        2037 => Some("DebitAlreadySucceeded"@),
        2038 => Some("InvalidPaymentStatus"@),
        2039 => Some("MaxExtensionsReached"@),
        2040 => Some("MaxExtensionLedgersExceeded"@),
        2050 => Some("CustomerBlocked"@),
        2051 => Some("DaoNotConfigured"@),
        2052 => Some("NotADaoMember"@),
        2053 => Some("DaoAlreadyEscalated"@),
        2054 => Some("DaoVoteWindowOpen"@),
        2055 => Some("DaoVoteWindowClosed"@),
        2056 => Some("DaoAlreadyVoted"@),
        _ => None,
    }
}

/// Looks up the registered name of a code of this contract.
pub fn name(code: u32) -> (r: Option<&'static str>)
    ensures
        r is Some <==> spec_name(code) is Some,
        r is Some ==> r->0@ == spec_name(code)->0,
{
    match code {
        2001 => Some("RateLimitExceeded"),
        2002 => Some("SubscriptionPaused"),
        2003 => Some("OracleConditionNotMet"),
        2004 => Some("SubscriptionInTrial"),
        2005 => Some("TokenNotAllowed"),
        2006 => Some("DuplicateExternalId"),
        2007 => Some("MultisigNotRequired"),
        2008 => Some("AlreadyApproved"),
        2009 => Some("NotASigner"),
        2010 => Some("VoucherExpired"),
        2011 => Some("VoucherExhausted"),
        2012 => Some("VoucherRevoked"),
        2013 => Some("VoucherNotFound"),
        2014 => Some("WithdrawalRateLimitExceeded"),
        2015 => Some("ReferralAlreadyExists"),
        2016 => Some("NoCommissionToClaim"),
        2017 => Some("DynamicPaymentExpired"),
        2018 => Some("TippingNotEnabled"),
        2019 => Some("TipExceedsMaxBps"),
        2020 => Some("MerchantVolumeCapped"),
        2021 => Some("SlippageExceeded"),
        2022 => Some("OracleNotWhitelisted"),
        2023 => Some("CustomerSpendLimitExceeded"),
        2024 => Some("CapturePastDeadline"),
        2025 => Some("EvidenceWindowClosed"),
        2026 => Some("EvidenceLimitReached"),
        2027 => Some("CoolingOffExpired"),
        2028 => Some("NotInCoolingOff"),
        2029 => Some("CoolingOffExceedsMax"),
        2030 => Some("PauseCountExceeded"),
        2031 => Some("UnauthorizedPause"),
        2032 => Some("InsufficientMerchantReserve"),
        2033 => Some("KYBVerificationRequired"),
        2034 => Some("RetryNotDue"),
        2035 => Some("DebitRecordNotFound"),
        2036 => Some("DebitAlreadyAbandoned"),
        2037 => Some("DebitAlreadySucceeded"),
        2038 => Some("InvalidPaymentStatus"),
        2039 => Some("MaxExtensionsReached"),
        2040 => Some("MaxExtensionLedgersExceeded"),
        2050 => Some("CustomerBlocked"),
        2051 => Some("DaoNotConfigured"),
        2052 => Some("NotADaoMember"),
        2053 => Some("DaoAlreadyEscalated"),
        2054 => Some("DaoVoteWindowOpen"),
        2055 => Some("DaoVoteWindowClosed"),
        2056 => Some("DaoAlreadyVoted"),
        _ => None,
    }
}

} // verus!
