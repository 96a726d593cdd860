//! Namespaced error codes of ahjoor-escrow (3000–3299).

use vstd::prelude::*;

verus! {

/// Number of codes declared in this module; the registry holds exactly this many
/// entries for the contract.
pub const COUNT: usize = 249;

pub const INVALID_DEADLINE: u32 = 3001;
pub const INVALID_TRANCHE_INDEX: u32 = 3002;
pub const TRANCHE_ALREADY_CLAIMED: u32 = 3003;
pub const ALREADY_INITIALIZED: u32 = 3004;
pub const AT_LEAST_ONE_BUYER_IS_REQUIRED: u32 = 3005;
pub const DEADLINE_MUST_BE_FUTURE: u32 = 3006;
pub const BUYER_CONTRIBUTION_MUST_BE_POSITIVE: u32 = 3007;
pub const DUPLICATE_BUYER_IN_LIST: u32 = 3008;
pub const BATCH_MUST_CONTAIN_AT_LEAST_ONE_ESCROW_CONFIG: u32 = 3009;
pub const BATCH_SIZE_EXCEEDS_MAXIMUM_10_ESCROWS: u32 = 3010;
pub const ONLY_SELLER_CAN_MARK_COMPLETE: u32 = 3011;
pub const ESCROW_IS_NOT_ACTIVE: u32 = 3012;
pub const NO_INSPECTOR_SET_USE_RELEASE_ESCROW_DIRECTLY: u32 = 3013;
pub const ESCROW_IS_NOT_AWAITING_INSPECTION: u32 = 3014;
pub const ONLY_ASSIGNED_INSPECTOR_CAN_SUBMIT_REPORT: u32 = 3015;
pub const ONLY_BUYER_OR_SELLER_CAN_PROPOSE_INSPECTOR_REPLACEMENT: u32 = 3016;
pub const NO_INSPECTOR_SET_ESCROW: u32 = 3017;
pub const ONLY_ADMIN_CAN_SET_INSPECTOR_SCORE_THRESHOLD: u32 = 3018;
pub const MIN_SCORE_BPS_EXCEEDS_MAXIMUM: u32 = 3019;
pub const ONLY_ADMIN_CAN_APPEAL_INSPECTOR_RULING: u32 = 3020;
pub const INSPECTOR_RULING_ALREADY_APPEALED_ESCROW: u32 = 3021;
pub const INSPECTOR_SCORE_BELOW_MINIMUM_THRESHOLD_HIGH_VALUE_ESCROW: u32 = 3022;
pub const ESCROW_AMOUNT_MUST_BE_POSITIVE: u32 = 3023;
pub const DEADLINE_MUST_BE_AFTER_MIN_LOCK_UNTIL: u32 = 3024;
pub const ARBITER_FEE_EXCEEDS_MAXIMUM_1000_BPS: u32 = 3025;
pub const INCOMPLETE_RELEASE_CONDITION: u32 = 3026;
pub const RELEASE_CONDITION_THRESHOLD_MUST_BE_POSITIVE: u32 = 3027;
pub const INVALID_RELEASE_COMPARISON: u32 = 3028;
pub const MAXIMUM_5_SELLERS_ALLOWED: u32 = 3029;
pub const SELLER_ALLOCATIONS_MUST_SUM_TO_10000_BPS: u32 = 3030;
pub const DISPUTE_TIMEOUT_SECONDS_MUST_BE_POSITIVE: u32 = 3031;
pub const ONLY_CURRENT_HOLDER_CAN_TRANSFER_RECEIPT: u32 = 3032;
pub const ACTIVE_MILESTONE_IN_PROGRESS: u32 = 3033;
pub const INSPECTION_PENDING: u32 = 3034;
pub const ONLY_LISTED_BUYER_CAN_APPROVE_MULTI_BUYER_RELEASE: u32 = 3035;
pub const BUYER_HAS_ALREADY_APPROVED_RELEASE: u32 = 3036;
pub const ONLY_BUYER_OR_ARBITER_CAN_RELEASE_ESCROW: u32 = 3037;
pub const SELLER_VETO_ACTIVE: u32 = 3038;
pub const SELLER_VETO_ACTIVE_2: u32 = 3039;
pub const CONDITION_NOT_MET: u32 = 3040;
pub const ONLY_BUYER_OR_SELLER_CAN_WAIVE_CONDITION: u32 = 3041;
pub const NO_CONDITIONAL_RELEASE_SET_ESCROW: u32 = 3042;
pub const ONLY_BUYER_OR_SELLER_CAN_SUBMIT_EVIDENCE: u32 = 3043;
pub const MAXIMUM_EVIDENCE_ENTRIES_REACHED_PARTY: u32 = 3044;
pub const ONLY_BUYER_CAN_SET_RENEWAL_ALLOWANCE: u32 = 3045;
pub const AUTO_RENEW_IS_NOT_ENABLED_ESCROW: u32 = 3046;
pub const ONLY_BUYER_CAN_CANCEL_AUTO_RENEW: u32 = 3047;
pub const ONLY_BUYER_CAN_CANCEL_AUTO_RENEWAL: u32 = 3048;
pub const NO_AUTO_RENEW_CONFIG_SET_ESCROW: u32 = 3049;
pub const RELEASE_AMOUNT_MUST_BE_POSITIVE: u32 = 3050;
pub const RELEASE_AMOUNT_EXCEEDS_ESCROW_BALANCE: u32 = 3051;
pub const AT_LEAST_ONE_MILESTONE_REQUIRED: u32 = 3052;
pub const TOO_MANY_MILESTONES: u32 = 3053;
pub const MILESTONE_AMOUNT_MUST_BE_POSITIVE: u32 = 3054;
pub const NEW_MILESTONES_MUST_START_AS_PENDING: u32 = 3055;
pub const ESCROW_ALREADY_TERMINAL: u32 = 3056;
pub const ONLY_BUYER_OR_ARBITER_CAN_APPROVE_MILESTONES: u32 = 3057;
pub const MILESTONE_INDEX_OUT_RANGE: u32 = 3058;
pub const MILESTONE_NOT_PENDING: u32 = 3059;
pub const ONLY_BUYER_OR_SELLER_CAN_DISPUTE_ESCROW: u32 = 3060;
pub const DISPUTE_AMOUNT_OUT_OF_RANGE: u32 = 3061;
pub const BUYER_PERCENT_MUST_BE_BETWEEN_0_AND_100: u32 = 3062;
pub const ESCROW_IS_NOT_DISPUTED: u32 = 3063;
pub const ONLY_ARBITER_CAN_RESOLVE_DISPUTE: u32 = 3064;
pub const ESCROW_IS_NOT_COOLING_OFF_STATE: u32 = 3065;
pub const ONLY_BUYER_OR_SELLER_CAN_FLAG_RESOLUTION_ERROR: u32 = 3066;
pub const COOLING_OFF_WINDOW_HAS_EXPIRED: u32 = 3067;
pub const RESOLUTION_ALREADY_FLAGGED: u32 = 3068;
pub const COOLING_OFF_WINDOW_HAS_NOT_ELAPSED: u32 = 3069;
pub const RESOLUTION_IS_FLAGGED_ADMIN_MUST_REVIEW_BEFORE_FINALIZATION: u32 = 3070;
pub const ONLY_ADMIN_CAN_CLEAR_RESOLUTION_FLAGS: u32 = 3071;
pub const NO_FLAG_TO_CLEAR: u32 = 3072;
pub const ONLY_ADMIN_CAN_CONFIGURE_COOLING_OFF_PERIOD: u32 = 3073;
pub const FEE_CONFIGURATION_EXCEEDS_ESCROW_AMOUNT: u32 = 3074;
pub const TIMEOUT_MUST_BE_POSITIVE: u32 = 3075;
pub const MULTIPLIER_MUST_BE_POSITIVE: u32 = 3076;
pub const DEADLINE_MUST_BE_POSITIVE: u32 = 3077;
pub const DISPUTE_ALREADY_RESOLVED: u32 = 3078;
pub const DISPUTE_TIMEOUT_DEADLINE_HAS_NOT_PASSED_YET: u32 = 3079;
pub const MAX_ORACLE_AGE_MUST_BE_POSITIVE: u32 = 3080;
pub const INSURANCE_TRIGGER_DAYS_MUST_BE_POSITIVE: u32 = 3081;
pub const INSURANCE_CONTRIBUTION_MUST_BE_POSITIVE: u32 = 3082;
pub const ONLY_BUYER_OR_SELLER_CAN_CLAIM_INSURANCE: u32 = 3083;
pub const INSURANCE_ALREADY_CLAIMED: u32 = 3084;
pub const ADMIN_CONFIRMATION_REQUIRED: u32 = 3085;
pub const INSURANCE_TRIGGER_PERIOD_NOT_REACHED: u32 = 3086;
pub const ESCROW_TOKEN_NOT_COVERED_BY_INSURANCE_POOL: u32 = 3087;
pub const INSURANCE_POOL_HAS_INSUFFICIENT_BALANCE: u32 = 3088;
pub const FEE_EXCEEDS_MAXIMUM_200_BPS: u32 = 3089;
pub const WITHDRAWAL_AMOUNT_MUST_BE_POSITIVE: u32 = 3090;
pub const INSUFFICIENT_ACCRUED_FEES: u32 = 3091;
pub const RELEASE_CONDITION_NOT_MET: u32 = 3092;
pub const ESCROW_HAS_NOT_EXPIRED_YET: u32 = 3093;
pub const ONLY_BUYER_OR_SELLER_CAN_PROPOSE_DEADLINE_EXTENSION: u32 = 3094;
pub const CANNOT_EXTEND_DEADLINE_WHILE_ESCROW_IS_DISPUTED: u32 = 3095;
pub const NEW_DEADLINE_MUST_BE_GREATER_THAN_CURRENT_DEADLINE: u32 = 3096;
pub const ONLY_BUYER_OR_SELLER_CAN_ACCEPT_DEADLINE_EXTENSION: u32 = 3097;
pub const PROPOSER_CANNOT_ACCEPT_THEIR_OWN_DEADLINE_EXTENSION: u32 = 3098;
pub const DEADLINE_EXTENSION_PROPOSAL_HAS_EXPIRED: u32 = 3099;
pub const ONLY_BUYER_OR_SELLER_CAN_PROPOSE_AMENDMENT: u32 = 3100;
pub const CANNOT_AMEND_TERMINAL_ESCROW: u32 = 3101;
pub const NEW_AMOUNT_MUST_BE_POSITIVE: u32 = 3102;
pub const ONLY_BUYER_OR_SELLER_CAN_SIGN_AMENDMENT: u32 = 3103;
pub const AMENDMENT_NONCE_MISMATCH: u32 = 3104;
pub const AMENDMENT_PROPOSAL_HAS_EXPIRED: u32 = 3105;
pub const AMENDMENT_REQUIRES_BUYER_AND_SELLER_SIGNATURES: u32 = 3106;
pub const ONLY_BUYER_CAN_TOP_UP_ESCROW: u32 = 3107;
pub const ESCROW_IS_NOT_ACTIVE_OR_AWAITING_INSPECTION: u32 = 3108;
pub const ADDITIONAL_AMOUNT_MUST_BE_POSITIVE: u32 = 3109;
pub const TOP_UP_LIMIT_EXCEEDED: u32 = 3110;
pub const ONLY_SELLER_CAN_ACKNOWLEDGE_TOP_UP: u32 = 3111;
pub const ONLY_SELLER_CAN_REQUEST_PARTIAL_RELEASE: u32 = 3112;
pub const PARTIAL_RELEASE_ONLY_ALLOWED_ACTIVE_ESCROW: u32 = 3113;
pub const PARTIAL_RELEASE_AMOUNT_MUST_BE_POSITIVE: u32 = 3114;
pub const PARTIAL_RELEASE_AMOUNT_CANNOT_EXCEED_ESCROW_AMOUNT: u32 = 3115;
pub const REQUEST_ALREADY_PENDING: u32 = 3116;
pub const ONLY_BUYER_CAN_APPROVE_PARTIAL_RELEASE: u32 = 3117;
pub const INVALID_REQUEST_ID: u32 = 3118;
pub const DELEGATE_MUST_BE_DIFFERENT_FROM_SELLER: u32 = 3119;
pub const SELLER_NOT_PART_OF_ESCROW: u32 = 3120;
pub const CAN_ONLY_DELEGATE_BEFORE_ESCROW_IS_RELEASED: u32 = 3121;
pub const ONLY_BUYER_CAN_REJECT_PARTIAL_RELEASE: u32 = 3122;
pub const ONLY_SELLER_CAN_ESCALATE_PARTIAL_RELEASE: u32 = 3123;
pub const RESPONSE_DEADLINE_NOT_YET_PASSED: u32 = 3124;
pub const NEW_BUYER_MUST_BE_DIFFERENT_FROM_CURRENT_BUYER: u32 = 3125;
pub const BUYER_TRANSFER_ONLY_ALLOWED_ACTIVE_ESCROWS: u32 = 3126;
pub const ONLY_CURRENT_BUYER_CAN_TRANSFER_BUYER_ROLE: u32 = 3127;
pub const ONLY_BUYER_OR_SELLER_CAN_UPDATE_METADATA: u32 = 3128;
pub const ONLY_ADMIN_CAN_UPGRADE_CONTRACT: u32 = 3129;
pub const ONLY_ADMIN_CAN_MIGRATE_CONTRACT: u32 = 3130;
pub const MIGRATION_ALREADY_COMPLETED_VERSION: u32 = 3131;
pub const UNLOCK_AT_MUST_BE_FUTURE: u32 = 3132;
pub const ALREADY_CLAIMED: u32 = 3133;
pub const ONLY_BENEFICIARY_CAN_CLAIM: u32 = 3134;
pub const UNLOCK_TIME_HAS_NOT_PASSED: u32 = 3135;
pub const ESCROW_NOT_ACTIVE: u32 = 3136;
pub const PAST_UNLOCK_TIME_USE_CLAIM_TIMELOCKED: u32 = 3137;
pub const ONLY_BUYER_CAN_CANCEL: u32 = 3138;
pub const DISPUTE_ACTIVE: u32 = 3139;
pub const ONLY_ADMIN_CAN_SET_TOKEN_WHITELIST_CONTRACT: u32 = 3140;
pub const CONTRACT_ALREADY_PAUSED: u32 = 3141;
pub const CONTRACT_IS_NOT_PAUSED: u32 = 3142;
pub const TOKEN_NOT_ALLOWED: u32 = 3143;
pub const DEADLINE_DURATION_MUST_BE_POSITIVE: u32 = 3144;
pub const TEMPLATE_IS_DEACTIVATED: u32 = 3145;
pub const ARBITER_ALREADY_POOL: u32 = 3146;
pub const ARBITER_NOT_POOL: u32 = 3147;
pub const ARBITER_POOL_IS_EMPTY: u32 = 3148;
pub const ONLY_TEMPLATE_CREATOR_CAN_UPDATE: u32 = 3149;
pub const ONLY_TEMPLATE_CREATOR_CAN_DEACTIVATE: u32 = 3150;
pub const TEMPLATE_ALREADY_DEACTIVATED: u32 = 3151;
pub const INACTIVITY_RELEASE_IS_NOT_ENABLED_ESCROW: u32 = 3152;
pub const ONLY_ESCROW_SELLER_CAN_CLAIM_INACTIVITY_RELEASE: u32 = 3153;
pub const BUYER_INACTIVITY_WINDOW_HAS_NOT_ELAPSED: u32 = 3154;
pub const PENALTY_CANNOT_EXCEED_10000_BPS: u32 = 3155;
pub const RESPONSE_WINDOW_MUST_BE_POSITIVE: u32 = 3156;
pub const ONLY_BUYER_OR_SELLER_CAN_REQUEST_CANCELLATION: u32 = 3157;
pub const NO_PENDING_CANCELLATION_ESCROW: u32 = 3158;
pub const INITIATOR_CANNOT_ACCEPT_THEIR_OWN_CANCELLATION_REQUEST: u32 = 3159;
pub const ONLY_BUYER_OR_SELLER_CAN_ACCEPT_CANCELLATION: u32 = 3160;
pub const INITIATOR_CANNOT_REJECT_THEIR_OWN_CANCELLATION_REQUEST: u32 = 3161;
pub const ONLY_BUYER_OR_SELLER_CAN_REJECT_CANCELLATION: u32 = 3162;
pub const RESPONSE_WINDOW_HAS_NOT_ELAPSED: u32 = 3163;
pub const BOUNTY_AMOUNT_MUST_BE_POSITIVE: u32 = 3164;
pub const CLAIM_DEADLINE_MUST_BE_FUTURE: u32 = 3165;
pub const SUBMISSION_DEADLINE_MUST_BE_AFTER_CLAIM_DEADLINE: u32 = 3166;
pub const TOKEN_NOT_WHITELISTED: u32 = 3167;
pub const BOUNTY_IS_NOT_AVAILABLE_CLAIMING: u32 = 3168;
pub const CLAIM_DEADLINE_HAS_PASSED: u32 = 3169;
pub const BOUNTY_IS_NOT_CLAIMED_STATUS: u32 = 3170;
pub const ONLY_ASSIGNED_SOLVER_CAN_SUBMIT_WORK: u32 = 3171;
pub const SUBMISSION_DEADLINE_HAS_PASSED: u32 = 3172;
pub const ONLY_BUYER_CAN_APPROVE_SUBMISSION: u32 = 3173;
pub const NO_SUBMISSION_HAS_BEEN_MADE: u32 = 3174;
pub const ONLY_BUYER_CAN_REJECT_SUBMISSION: u32 = 3175;
pub const MAXIMUM_REJECTION_ROUNDS_REACHED: u32 = 3176;
pub const ONLY_BUYER_CAN_CANCEL_BOUNTY: u32 = 3177;
pub const CANNOT_CANCEL_BOUNTY_CURRENT_STATE: u32 = 3178;
pub const ONLY_ADMIN_CAN_SET_MAX_BOUNTY_REJECTION_ROUNDS: u32 = 3179;
pub const BOUNTY_MUST_HAVE_AT_LEAST_ONE_MILESTONE: u32 = 3180;
pub const BOUNTY_MUST_BE_CLAIMED_BEFORE_SUBMITTING_MILESTONES: u32 = 3181;
pub const ONLY_SOLVER_CAN_SUBMIT_MILESTONES: u32 = 3182;
pub const MILESTONE_INDEX_OUT_BOUNDS: u32 = 3183;
pub const PREVIOUS_MILESTONE_NOT_YET_VERIFIED: u32 = 3184;
pub const MILESTONE_IS_NOT_AWAITING_SUBMISSION: u32 = 3185;
pub const MILESTONE_IS_NOT_AWAITING_VERIFICATION: u32 = 3186;
pub const ONLY_BOUNTY_CREATOR_CAN_REPLACE_VERIFIER: u32 = 3187;
pub const VERIFIER_CAN_ONLY_BE_REPLACED_BEFORE_MILESTONE_IS_SUBMITTED: u32 = 3188;
pub const ONLY_BUYER_CAN_CONFIGURE_COLLATERAL_HEALTH: u32 = 3189;
pub const MIN_COLLATERAL_RATIO_BPS_OUT_OF_RANGE: u32 = 3190;
pub const TOP_UP_AMOUNT_MUST_BE_POSITIVE: u32 = 3191;
pub const ESCROW_IS_NOT_ACTIVE_OR_UNDER_COLLATERALIZED: u32 = 3192;
pub const ONLY_BUYER_CAN_CONFIGURE_MULTI_PARTY_APPROVAL: u32 = 3193;
pub const APPROVERS_COUNT_MUST_BE_BETWEEN_2_AND_10: u32 = 3194;
pub const THRESHOLD_MUST_BE_BETWEEN_1_AND_APPROVERS_COUNT: u32 = 3195;
pub const CANNOT_RECONFIGURE_APPROVALS_ALREADY_PROGRESS: u32 = 3196;
pub const CALLER_IS_NOT_AUTHORIZED_APPROVER_ESCROW: u32 = 3197;
pub const APPROVER_HAS_ALREADY_APPROVED_ESCROW: u32 = 3198;
pub const RELEASE_SCHEDULE_MUST_CONTAIN_AT_LEAST_ONE_TRANCHE: u32 = 3199;
pub const EACH_TRANCHE_AMOUNT_MUST_BE_POSITIVE: u32 = 3200;
pub const EACH_TRANCHE_UNLOCK_AT_MUST_BE_FUTURE: u32 = 3201;
pub const ONLY_BENEFICIARY_SELLER_CAN_CLAIM_SCHEDULED_RELEASES: u32 = 3202;
pub const ESCROW_IS_NOT_CLAIMABLE_STATE: u32 = 3203;
pub const NO_TRANCHES_ARE_CURRENTLY_CLAIMABLE: u32 = 3204;
pub const CONTRACT_IS_PAUSED: u32 = 3205;
pub const ONLY_ADMIN_CAN_PAUSE_CONTRACT: u32 = 3206;
pub const ONLY_ADMIN_CAN_RESUME_CONTRACT: u32 = 3207;
pub const ESCROW_STILL_LOCKED: u32 = 3208;
pub const ORACLE_PRICE_IS_STALE: u32 = 3209;
pub const INVALID_ORACLE_PRICE: u32 = 3210;
pub const INSUFFICIENT_RENEWAL_ALLOWANCE: u32 = 3211;
pub const ESCROW_RENEWAL_DURATION_MUST_BE_POSITIVE: u32 = 3212;
pub const ONLY_ADMIN_CAN_SET_MAX_TOP_UP_BPS: u32 = 3213;
pub const COLLATERAL_FORFEIT_BPS_CANNOT_EXCEED_10000: u32 = 3214;
pub const AT_LEAST_ONE_SELLER_REQUIRED: u32 = 3215;
pub const ONLY_SELLER_CAN_DEPOSIT_COLLATERAL: u32 = 3216;
pub const ESCROW_IS_NOT_AWAITING_COLLATERAL: u32 = 3217;
pub const COLLATERAL_DEPOSIT_WINDOW_HAS_EXPIRED: u32 = 3218;
pub const RATING_MUST_BE_BETWEEN_1_AND_5: u32 = 3219;
pub const RATING_ONLY_ALLOWED_AFTER_ESCROW_IS_RELEASED_OR_RESOLVED: u32 = 3220;
pub const ONLY_BUYER_OR_SELLER_CAN_SUBMIT_RATING: u32 = 3221;
pub const RATING_ALREADY_SUBMITTED_ESCROW: u32 = 3222;
pub const ONLY_SELLER_CAN_SUBMIT_DELIVERY_PROOF: u32 = 3223;
pub const PROOF_SUBMISSION_LOCKED_ESCROW_IS_UNDER_DISPUTE: u32 = 3224;
pub const INVALID_DELIVERY_PROOF: u32 = 3225;
pub const ONLY_ESCROW_SELLER_CAN_RAISE_VETO: u32 = 3226;
pub const VETO_COOLDOWN_ACTIVE: u32 = 3227;
pub const ONLY_BUYER_CAN_APPROVE: u32 = 3228;
pub const NO_PENDING_SELLER_TRANSFER: u32 = 3229;
pub const ONLY_ADMIN_CAN_SET_VETO_OVERRIDE_WINDOW: u32 = 3230;
pub const WINDOW_SECONDS_MUST_BE_POSITIVE: u32 = 3231;
pub const ONLY_ESCROW_SELLER_CAN_CANCEL_VETO: u32 = 3232;
pub const VETO_WINDOW_ELAPSED: u32 = 3233;
pub const ONLY_ADMIN_CAN_OVERRIDE_SELLER_VETO: u32 = 3234;
pub const ACTIVE_DISPUTE_EXISTS: u32 = 3235;
pub const VETO_WINDOW_NOT_ELAPSED: u32 = 3236;
pub const VETO_WINDOW_HAS_NOT_EXPIRED_YET: u32 = 3237;
pub const ONLY_CURRENT_SELLER_CAN_INITIATE_TRANSFER: u32 = 3238;
pub const ESCROW_MUST_BE_ACTIVE_TO_TRANSFER_SELLER_ROLE: u32 = 3239;
pub const ONLY_BUYER_CAN_VETO: u32 = 3240;
pub const ONLY_ADMIN_CAN_SET_VETO_WINDOW: u32 = 3241;
pub const RELEASE_BPS_MUST_BE_POSITIVE_EACH_MILESTONE: u32 = 3242;
pub const MILESTONE_RELEASE_BPS_MUST_SUM_TO_10000: u32 = 3243;
pub const ONLY_ESCROW_SELLER_MAY_SUBMIT_MILESTONES: u32 = 3244;
pub const MILESTONE_MUST_BE_PENDING_OR_REJECTED_TO_SUBMIT: u32 = 3245;
pub const MILESTONE_MUST_BE_SUBMITTED_BEFORE_APPROVAL: u32 = 3246;
pub const ONLY_ESCROW_BUYER_MAY_REJECT_MILESTONES: u32 = 3247;
pub const ONLY_SUBMITTED_MILESTONE_CAN_BE_REJECTED: u32 = 3248;
pub const ONLY_LOSING_PARTY_CAN_FLAG_RESOLUTION_ERROR: u32 = 3249;

/// Registered name of a code of this contract, as a sequence of characters.
pub open spec fn spec_name(code: u32) -> Option<Seq<char>> {
    match code {
        3001 => Some("InvalidDeadline"@),
        3002 => Some("InvalidTrancheIndex"@),
        3003 => Some("TrancheAlreadyClaimed"@),
        3004 => Some("AlreadyInitialized"@),
        3005 => Some("AtLeastOneBuyerIsRequired"@),
        3006 => Some("DeadlineMustBeFuture"@),
        3007 => Some("BuyerContributionMustBePositive"@),
        3008 => Some("DuplicateBuyerInList"@),
        3009 => Some("BatchMustContainAtLeastOneEscrowConfig"@),
        3010 => Some("BatchSizeExceedsMaximum10Escrows"@),
        3011 => Some("OnlySellerCanMarkComplete"@),
        3012 => Some("EscrowIsNotActive"@),
        3013 => Some("NoInspectorSetUseReleaseEscrowDirectly"@),
        3014 => Some("EscrowIsNotAwaitingInspection"@),
        3015 => Some("OnlyAssignedInspectorCanSubmitReport"@),
        3016 => Some("OnlyBuyerOrSellerCanProposeInspectorReplacement"@),
        3017 => Some("NoInspectorSetEscrow"@),
        3018 => Some("OnlyAdminCanSetInspectorScoreThreshold"@),
        3019 => Some("MinScoreBpsExceedsMaximum"@),
        3020 => Some("OnlyAdminCanAppealInspectorRuling"@),
        3021 => Some("InspectorRulingAlreadyAppealedEscrow"@),
        3022 => Some("InspectorScoreBelowMinimumThresholdHighValueEscrow"@),
        3023 => Some("EscrowAmountMustBePositive"@),
        3024 => Some("DeadlineMustBeAfterMinLockUntil"@),
        3025 => Some("ArbiterFeeExceedsMaximum1000Bps"@),
        3026 => Some("IncompleteReleaseCondition"@),
        3027 => Some("ReleaseConditionThresholdMustBePositive"@),
        3028 => Some("InvalidReleaseComparison"@),
        3029 => Some("Maximum5SellersAllowed"@),
        3030 => Some("SellerAllocationsMustSumTo10000Bps"@),
        3031 => Some("DisputeTimeoutSecondsMustBePositive"@),
        3032 => Some("OnlyCurrentHolderCanTransferReceipt"@),
        3033 => Some("ActiveMilestoneInProgress"@),
        3034 => Some("InspectionPending"@),
        3035 => Some("OnlyListedBuyerCanApproveMultiBuyerRelease"@),
        3036 => Some("BuyerHasAlreadyApprovedRelease"@),
        3037 => Some("OnlyBuyerOrArbiterCanReleaseEscrow"@),
        3038 => Some("SellerVetoActive"@),
        3039 => Some("SellerVetoActive2"@),
        3040 => Some("ConditionNotMet"@),
        3041 => Some("OnlyBuyerOrSellerCanWaiveCondition"@),
        3042 => Some("NoConditionalReleaseSetEscrow"@),
        3043 => Some("OnlyBuyerOrSellerCanSubmitEvidence"@),
        3044 => Some("MaximumEvidenceEntriesReachedParty"@),
        3045 => Some("OnlyBuyerCanSetRenewalAllowance"@),
        3046 => Some("AutoRenewIsNotEnabledEscrow"@),
        3047 => Some("OnlyBuyerCanCancelAutoRenew"@),
        3048 => Some("OnlyBuyerCanCancelAutoRenewal"@),
        3049 => Some("NoAutoRenewConfigSetEscrow"@),
        3050 => Some("ReleaseAmountMustBePositive"@),
        3051 => Some("ReleaseAmountExceedsEscrowBalance"@),
        3052 => Some("AtLeastOneMilestoneRequired"@),
        3053 => Some("TooManyMilestones"@),
        3054 => Some("MilestoneAmountMustBePositive"@),
        3055 => Some("NewMilestonesMustStartAsPending"@),
        3056 => Some("EscrowAlreadyTerminal"@),
        3057 => Some("OnlyBuyerOrArbiterCanApproveMilestones"@),
        3058 => Some("MilestoneIndexOutRange"@),
        3059 => Some("MilestoneNotPending"@),
        3060 => Some("OnlyBuyerOrSellerCanDisputeEscrow"@),
        3061 => Some("DisputeAmountOutOfRange"@),
        3062 => Some("BuyerPercentMustBeBetween0And100"@),
        3063 => Some("EscrowIsNotDisputed"@),
        3064 => Some("OnlyArbiterCanResolveDispute"@),
        3065 => Some("EscrowIsNotCoolingOffState"@),
        3066 => Some("OnlyBuyerOrSellerCanFlagResolutionError"@),
        3067 => Some("CoolingOffWindowHasExpired"@),
        3068 => Some("ResolutionAlreadyFlagged"@),
        3069 => Some("CoolingOffWindowHasNotElapsed"@),
        3070 => Some("ResolutionIsFlaggedAdminMustReviewBeforeFinalization"@),
        3071 => Some("OnlyAdminCanClearResolutionFlags"@),
        3072 => Some("NoFlagToClear"@),
        3073 => Some("OnlyAdminCanConfigureCoolingOffPeriod"@),
        3074 => Some("FeeConfigurationExceedsEscrowAmount"@),
        3075 => Some("TimeoutMustBePositive"@),
        3076 => Some("MultiplierMustBePositive"@),
        3077 => Some("DeadlineMustBePositive"@),
        3078 => Some("DisputeAlreadyResolved"@),
        3079 => Some("DisputeTimeoutDeadlineHasNotPassedYet"@),
        3080 => Some("MaxOracleAgeMustBePositive"@),
        3081 => Some("InsuranceTriggerDaysMustBePositive"@),
        3082 => Some("InsuranceContributionMustBePositive"@),
        3083 => Some("OnlyBuyerOrSellerCanClaimInsurance"@),
        3084 => Some("InsuranceAlreadyClaimed"@),
        3085 => Some("AdminConfirmationRequired"@),
        3086 => Some("InsuranceTriggerPeriodNotReached"@),
        3087 => Some("EscrowTokenNotCoveredByInsurancePool"@),
        3088 => Some("InsurancePoolHasInsufficientBalance"@),
        3089 => Some("FeeExceedsMaximum200Bps"@),
        3090 => Some("WithdrawalAmountMustBePositive"@),
        3091 => Some("InsufficientAccruedFees"@),
        3092 => Some("ReleaseConditionNotMet"@),
        3093 => Some("EscrowHasNotExpiredYet"@),
        3094 => Some("OnlyBuyerOrSellerCanProposeDeadlineExtension"@),
        3095 => Some("CannotExtendDeadlineWhileEscrowIsDisputed"@),
        3096 => Some("NewDeadlineMustBeGreaterThanCurrentDeadline"@),
        3097 => Some("OnlyBuyerOrSellerCanAcceptDeadlineExtension"@),
        3098 => Some("ProposerCannotAcceptTheirOwnDeadlineExtension"@),
        3099 => Some("DeadlineExtensionProposalHasExpired"@),
        3100 => Some("OnlyBuyerOrSellerCanProposeAmendment"@),
        3101 => Some("CannotAmendTerminalEscrow"@),
        3102 => Some("NewAmountMustBePositive"@),
        3103 => Some("OnlyBuyerOrSellerCanSignAmendment"@),
        3104 => Some("AmendmentNonceMismatch"@),
        3105 => Some("AmendmentProposalHasExpired"@),
        3106 => Some("AmendmentRequiresBuyerAndSellerSignatures"@),
        3107 => Some("OnlyBuyerCanTopUpEscrow"@),
        3108 => Some("EscrowIsNotActiveOrAwaitingInspection"@),
        3109 => Some("AdditionalAmountMustBePositive"@),
        3110 => Some("TopUpLimitExceeded"@),
        3111 => Some("OnlySellerCanAcknowledgeTopUp"@),
        3112 => Some("OnlySellerCanRequestPartialRelease"@),
        3113 => Some("PartialReleaseOnlyAllowedActiveEscrow"@),
        3114 => Some("PartialReleaseAmountMustBePositive"@),
        3115 => Some("PartialReleaseAmountCannotExceedEscrowAmount"@),
        3116 => Some("RequestAlreadyPending"@),
        3117 => Some("OnlyBuyerCanApprovePartialRelease"@),
        3118 => Some("InvalidRequestID"@),
        3119 => Some("DelegateMustBeDifferentFromSeller"@),
        3120 => Some("SellerNotPartOfEscrow"@),
        3121 => Some("CanOnlyDelegateBeforeEscrowIsReleased"@),
        3122 => Some("OnlyBuyerCanRejectPartialRelease"@),
        3123 => Some("OnlySellerCanEscalatePartialRelease"@),
        3124 => Some("ResponseDeadlineNotYetPassed"@),
        3125 => Some("NewBuyerMustBeDifferentFromCurrentBuyer"@),
        3126 => Some("BuyerTransferOnlyAllowedActiveEscrows"@),
        3127 => Some("OnlyCurrentBuyerCanTransferBuyerRole"@),
        3128 => Some("OnlyBuyerOrSellerCanUpdateMetadata"@),
        3129 => Some("OnlyAdminCanUpgradeContract"@),
        3130 => Some("OnlyAdminCanMigrateContract"@),
        3131 => Some("MigrationAlreadyCompletedVersion"@),
        3132 => Some("UnlockAtMustBeFuture"@),
        3133 => Some("AlreadyClaimed"@),
        3134 => Some("OnlyBeneficiaryCanClaim"@),
        3135 => Some("UnlockTimeHasNotPassed"@),
        3136 => Some("EscrowNotActive"@),
        3137 => Some("PastUnlockTimeUseClaimTimelocked"@),
        3138 => Some("OnlyBuyerCanCancel"@),
        3139 => Some("DisputeActive"@),
        3140 => Some("OnlyAdminCanSetTokenWhitelistContract"@),
        3141 => Some("ContractAlreadyPaused"@),
        3142 => Some("ContractIsNotPaused"@),
        3143 => Some("TokenNotAllowed"@),
        3144 => Some("DeadlineDurationMustBePositive"@),
        3145 => Some("TemplateIsDeactivated"@),
        3146 => Some("ArbiterAlreadyPool"@),
        3147 => Some("ArbiterNotPool"@),
        3148 => Some("ArbiterPoolIsEmpty"@),
        3149 => Some("OnlyTemplateCreatorCanUpdate"@),
        3150 => Some("OnlyTemplateCreatorCanDeactivate"@),
        3151 => Some("TemplateAlreadyDeactivated"@),
        3152 => Some("InactivityReleaseIsNotEnabledEscrow"@),
        3153 => Some("OnlyEscrowSellerCanClaimInactivityRelease"@),
        3154 => Some("BuyerInactivityWindowHasNotElapsed"@),
        3155 => Some("PenaltyCannotExceed10000Bps"@),
        3156 => Some("ResponseWindowMustBePositive"@),
        3157 => Some("OnlyBuyerOrSellerCanRequestCancellation"@),
        3158 => Some("NoPendingCancellationEscrow"@),
        3159 => Some("InitiatorCannotAcceptTheirOwnCancellationRequest"@),
        3160 => Some("OnlyBuyerOrSellerCanAcceptCancellation"@),
        3161 => Some("InitiatorCannotRejectTheirOwnCancellationRequest"@),
        3162 => Some("OnlyBuyerOrSellerCanRejectCancellation"@),
        3163 => Some("ResponseWindowHasNotElapsed"@),
        3164 => Some("BountyAmountMustBePositive"@),
        3165 => Some("ClaimDeadlineMustBeFuture"@),
        3166 => Some("SubmissionDeadlineMustBeAfterClaimDeadline"@),
        3167 => Some("TokenNotWhitelisted"@),
        3168 => Some("BountyIsNotAvailableClaiming"@),
        3169 => Some("ClaimDeadlineHasPassed"@),
        3170 => Some("BountyIsNotClaimedStatus"@),
        3171 => Some("OnlyAssignedSolverCanSubmitWork"@),
        3172 => Some("SubmissionDeadlineHasPassed"@),
        3173 => Some("OnlyBuyerCanApproveSubmission"@),
        3174 => Some("NoSubmissionHasBeenMade"@),
        3175 => Some("OnlyBuyerCanRejectSubmission"@),
        3176 => Some("MaximumRejectionRoundsReached"@),
        3177 => Some("OnlyBuyerCanCancelBounty"@),
        3178 => Some("CannotCancelBountyCurrentState"@),
        3179 => Some("OnlyAdminCanSetMaxBountyRejectionRounds"@),
        3180 => Some("BountyMustHaveAtLeastOneMilestone"@),
        3181 => Some("BountyMustBeClaimedBeforeSubmittingMilestones"@),
        3182 => Some("OnlySolverCanSubmitMilestones"@),
        3183 => Some("MilestoneIndexOutBounds"@),
        3184 => Some("PreviousMilestoneNotYetVerified"@),
        3185 => Some("MilestoneIsNotAwaitingSubmission"@),
        3186 => Some("MilestoneIsNotAwaitingVerification"@),
        3187 => Some("OnlyBountyCreatorCanReplaceVerifier"@),
        3188 => Some("VerifierCanOnlyBeReplacedBeforeMilestoneIsSubmitted"@),
        3189 => Some("OnlyBuyerCanConfigureCollateralHealth"@),
        3190 => Some("MinCollateralRatioBpsOutOfRange"@),
        3191 => Some("TopUpAmountMustBePositive"@),
        3192 => Some("EscrowIsNotActiveOrUnderCollateralized"@),
        3193 => Some("OnlyBuyerCanConfigureMultiPartyApproval"@),
        3194 => Some("ApproversCountMustBeBetween2And10"@),
        3195 => Some("ThresholdMustBeBetween1AndApproversCount"@),
        3196 => Some("CannotReconfigureApprovalsAlreadyProgress"@),
        3197 => Some("CallerIsNotAuthorizedApproverEscrow"@),
        3198 => Some("ApproverHasAlreadyApprovedEscrow"@),
        3199 => Some("ReleaseScheduleMustContainAtLeastOneTranche"@),
        3200 => Some("EachTrancheAmountMustBePositive"@),
        3201 => Some("EachTrancheUnlockAtMustBeFuture"@),
        3202 => Some("OnlyBeneficiarySellerCanClaimScheduledReleases"@),
        3203 => Some("EscrowIsNotClaimableState"@),
        3204 => Some("NoTranchesAreCurrentlyClaimable"@),
        3205 => Some("ContractIsPaused"@),
        3206 => Some("OnlyAdminCanPauseContract"@),
        3207 => Some("OnlyAdminCanResumeContract"@),
        3208 => Some("EscrowStillLocked"@),
        3209 => Some("OraclePriceIsStale"@),
        3210 => Some("InvalidOraclePrice"@),
        3211 => Some("InsufficientRenewalAllowance"@),
        3212 => Some("EscrowRenewalDurationMustBePositive"@),
        3213 => Some("OnlyAdminCanSetMaxTopUpBps"@),
        3214 => Some("CollateralForfeitBpsCannotExceed10000"@),
        3215 => Some("AtLeastOneSellerRequired"@),
        3216 => Some("OnlySellerCanDepositCollateral"@),
        3217 => Some("EscrowIsNotAwaitingCollateral"@),
        3218 => Some("CollateralDepositWindowHasExpired"@),
        3219 => Some("RatingMustBeBetween1And5"@),
        3220 => Some("RatingOnlyAllowedAfterEscrowIsReleasedOrResolved"@),
        3221 => Some("OnlyBuyerOrSellerCanSubmitRating"@),
        3222 => Some("RatingAlreadySubmittedEscrow"@),
        3223 => Some("OnlySellerCanSubmitDeliveryProof"@),
        3224 => Some("ProofSubmissionLockedEscrowIsUnderDispute"@),
        3225 => Some("InvalidDeliveryProof"@),
        3226 => Some("OnlyEscrowSellerCanRaiseVeto"@),
        3227 => Some("VetoCooldownActive"@),
        3228 => Some("OnlyBuyerCanApprove"@),
        3229 => Some("NoPendingSellerTransfer"@),
        3230 => Some("OnlyAdminCanSetVetoOverrideWindow"@),
        3231 => Some("WindowSecondsMustBePositive"@),
        3232 => Some("OnlyEscrowSellerCanCancelVeto"@),
        3233 => Some("VetoWindowElapsed"@),
        3234 => Some("OnlyAdminCanOverrideSellerVeto"@),
        3235 => Some("ActiveDisputeExists"@),
        3236 => Some("VetoWindowNotElapsed"@),
        3237 => Some("VetoWindowHasNotExpiredYet"@),
        3238 => Some("OnlyCurrentSellerCanInitiateTransfer"@),
        3239 => Some("EscrowMustBeActiveToTransferSellerRole"@),
        3240 => Some("OnlyBuyerCanVeto"@),
        3241 => Some("OnlyAdminCanSetVetoWindow"@),
        3242 => Some("ReleaseBpsMustBePositiveEachMilestone"@),
        3243 => Some("MilestoneReleaseBpsMustSumTo10000"@),
        3244 => Some("OnlyEscrowSellerMaySubmitMilestones"@),
        3245 => Some("MilestoneMustBePendingOrRejectedToSubmit"@),
        3246 => Some("MilestoneMustBeSubmittedBeforeApproval"@),
        3247 => Some("OnlyEscrowBuyerMayRejectMilestones"@),
        3248 => Some("OnlySubmittedMilestoneCanBeRejected"@),
        3249 => Some("OnlyLosingPartyCanFlagResolutionError"@),
        _ => None,
    }
}

/// Looks up the registered name of a code of this contract.
pub fn name(code: u32) -> (r: Option<&'static str>)
    ensures
        r is Some <==> spec_name(code) is Some,
        r is Some ==> r->0@ == spec_name(code)->0,
{
    match code {
        3001 => Some("InvalidDeadline"),
        3002 => Some("InvalidTrancheIndex"),
        3003 => Some("TrancheAlreadyClaimed"),
        3004 => Some("AlreadyInitialized"),
        3005 => Some("AtLeastOneBuyerIsRequired"),
        3006 => Some("DeadlineMustBeFuture"),
        3007 => Some("BuyerContributionMustBePositive"),
        3008 => Some("DuplicateBuyerInList"),
        3009 => Some("BatchMustContainAtLeastOneEscrowConfig"),
        3010 => Some("BatchSizeExceedsMaximum10Escrows"),
        3011 => Some("OnlySellerCanMarkComplete"),
        3012 => Some("EscrowIsNotActive"),
        3013 => Some("NoInspectorSetUseReleaseEscrowDirectly"),
        3014 => Some("EscrowIsNotAwaitingInspection"),
        3015 => Some("OnlyAssignedInspectorCanSubmitReport"),
        3016 => Some("OnlyBuyerOrSellerCanProposeInspectorReplacement"),
        3017 => Some("NoInspectorSetEscrow"),
        3018 => Some("OnlyAdminCanSetInspectorScoreThreshold"),
        3019 => Some("MinScoreBpsExceedsMaximum"),
        3020 => Some("OnlyAdminCanAppealInspectorRuling"),
        3021 => Some("InspectorRulingAlreadyAppealedEscrow"),
        3022 => Some("InspectorScoreBelowMinimumThresholdHighValueEscrow"),
        3023 => Some("EscrowAmountMustBePositive"),
        3024 => Some("DeadlineMustBeAfterMinLockUntil"),
        3025 => Some("ArbiterFeeExceedsMaximum1000Bps"),
        3026 => Some("IncompleteReleaseCondition"),
        3027 => Some("ReleaseConditionThresholdMustBePositive"),
        3028 => Some("InvalidReleaseComparison"),
        3029 => Some("Maximum5SellersAllowed"),
        3030 => Some("SellerAllocationsMustSumTo10000Bps"),
        3031 => Some("DisputeTimeoutSecondsMustBePositive"),
        3032 => Some("OnlyCurrentHolderCanTransferReceipt"),
        3033 => Some("ActiveMilestoneInProgress"),
        3034 => Some("InspectionPending"),
        3035 => Some("OnlyListedBuyerCanApproveMultiBuyerRelease"),
        3036 => Some("BuyerHasAlreadyApprovedRelease"),
        3037 => Some("OnlyBuyerOrArbiterCanReleaseEscrow"),
        3038 => Some("SellerVetoActive"),
        3039 => Some("SellerVetoActive2"),
        3040 => Some("ConditionNotMet"),
        3041 => Some("OnlyBuyerOrSellerCanWaiveCondition"),
        3042 => Some("NoConditionalReleaseSetEscrow"),
        3043 => Some("OnlyBuyerOrSellerCanSubmitEvidence"),
        3044 => Some("MaximumEvidenceEntriesReachedParty"),
        3045 => Some("OnlyBuyerCanSetRenewalAllowance"),
        3046 => Some("AutoRenewIsNotEnabledEscrow"),
        3047 => Some("OnlyBuyerCanCancelAutoRenew"),
        3048 => Some("OnlyBuyerCanCancelAutoRenewal"),
        3049 => Some("NoAutoRenewConfigSetEscrow"),
        3050 => Some("ReleaseAmountMustBePositive"),
        3051 => Some("ReleaseAmountExceedsEscrowBalance"),
        3052 => Some("AtLeastOneMilestoneRequired"),
        3053 => Some("TooManyMilestones"),
        3054 => Some("MilestoneAmountMustBePositive"),
        3055 => Some("NewMilestonesMustStartAsPending"),
        3056 => Some("EscrowAlreadyTerminal"),
        3057 => Some("OnlyBuyerOrArbiterCanApproveMilestones"),
        3058 => Some("MilestoneIndexOutRange"),
        3059 => Some("MilestoneNotPending"),
        3060 => Some("OnlyBuyerOrSellerCanDisputeEscrow"),
        3061 => Some("DisputeAmountOutOfRange"),
        3062 => Some("BuyerPercentMustBeBetween0And100"),
        3063 => Some("EscrowIsNotDisputed"),
        3064 => Some("OnlyArbiterCanResolveDispute"),
        3065 => Some("EscrowIsNotCoolingOffState"),
        3066 => Some("OnlyBuyerOrSellerCanFlagResolutionError"),
        3067 => Some("CoolingOffWindowHasExpired"),
        3068 => Some("ResolutionAlreadyFlagged"),
        3069 => Some("CoolingOffWindowHasNotElapsed"),
        3070 => Some("ResolutionIsFlaggedAdminMustReviewBeforeFinalization"),
        3071 => Some("OnlyAdminCanClearResolutionFlags"),
        3072 => Some("NoFlagToClear"),
        3073 => Some("OnlyAdminCanConfigureCoolingOffPeriod"),
        3074 => Some("FeeConfigurationExceedsEscrowAmount"),
        3075 => Some("TimeoutMustBePositive"),
        3076 => Some("MultiplierMustBePositive"),
        3077 => Some("DeadlineMustBePositive"),
        3078 => Some("DisputeAlreadyResolved"),
        3079 => Some("DisputeTimeoutDeadlineHasNotPassedYet"),
        3080 => Some("MaxOracleAgeMustBePositive"),
        3081 => Some("InsuranceTriggerDaysMustBePositive"),
        3082 => Some("InsuranceContributionMustBePositive"),
        3083 => Some("OnlyBuyerOrSellerCanClaimInsurance"),
        3084 => Some("InsuranceAlreadyClaimed"),
        3085 => Some("AdminConfirmationRequired"),
        3086 => Some("InsuranceTriggerPeriodNotReached"),
        3087 => Some("EscrowTokenNotCoveredByInsurancePool"),
        3088 => Some("InsurancePoolHasInsufficientBalance"),
        3089 => Some("FeeExceedsMaximum200Bps"),
        3090 => Some("WithdrawalAmountMustBePositive"),
        3091 => Some("InsufficientAccruedFees"),
        3092 => Some("ReleaseConditionNotMet"),
        3093 => Some("EscrowHasNotExpiredYet"),
        3094 => Some("OnlyBuyerOrSellerCanProposeDeadlineExtension"),
        3095 => Some("CannotExtendDeadlineWhileEscrowIsDisputed"),
        3096 => Some("NewDeadlineMustBeGreaterThanCurrentDeadline"),
        3097 => Some("OnlyBuyerOrSellerCanAcceptDeadlineExtension"),
        3098 => Some("ProposerCannotAcceptTheirOwnDeadlineExtension"),
        3099 => Some("DeadlineExtensionProposalHasExpired"),
        3100 => Some("OnlyBuyerOrSellerCanProposeAmendment"),
        3101 => Some("CannotAmendTerminalEscrow"),
        3102 => Some("NewAmountMustBePositive"),
        3103 => Some("OnlyBuyerOrSellerCanSignAmendment"),
        3104 => Some("AmendmentNonceMismatch"),
        3105 => Some("AmendmentProposalHasExpired"),
        3106 => Some("AmendmentRequiresBuyerAndSellerSignatures"),
        3107 => Some("OnlyBuyerCanTopUpEscrow"),
        3108 => Some("EscrowIsNotActiveOrAwaitingInspection"),
        3109 => Some("AdditionalAmountMustBePositive"),
        3110 => Some("TopUpLimitExceeded"),
        3111 => Some("OnlySellerCanAcknowledgeTopUp"),
        3112 => Some("OnlySellerCanRequestPartialRelease"),
        3113 => Some("PartialReleaseOnlyAllowedActiveEscrow"),
        3114 => Some("PartialReleaseAmountMustBePositive"),
        3115 => Some("PartialReleaseAmountCannotExceedEscrowAmount"),
        3116 => Some("RequestAlreadyPending"),
        3117 => Some("OnlyBuyerCanApprovePartialRelease"),
        3118 => Some("InvalidRequestID"),
        3119 => Some("DelegateMustBeDifferentFromSeller"),
        3120 => Some("SellerNotPartOfEscrow"),
        3121 => Some("CanOnlyDelegateBeforeEscrowIsReleased"),
        3122 => Some("OnlyBuyerCanRejectPartialRelease"),
        3123 => Some("OnlySellerCanEscalatePartialRelease"),
        3124 => Some("ResponseDeadlineNotYetPassed"),
        3125 => Some("NewBuyerMustBeDifferentFromCurrentBuyer"),
        3126 => Some("BuyerTransferOnlyAllowedActiveEscrows"),
        3127 => Some("OnlyCurrentBuyerCanTransferBuyerRole"),
        3128 => Some("OnlyBuyerOrSellerCanUpdateMetadata"),
        3129 => Some("OnlyAdminCanUpgradeContract"),
        3130 => Some("OnlyAdminCanMigrateContract"),
        3131 => Some("MigrationAlreadyCompletedVersion"),
        3132 => Some("UnlockAtMustBeFuture"),
        3133 => Some("AlreadyClaimed"),
        3134 => Some("OnlyBeneficiaryCanClaim"),
        3135 => Some("UnlockTimeHasNotPassed"),
        3136 => Some("EscrowNotActive"),
        3137 => Some("PastUnlockTimeUseClaimTimelocked"),
        3138 => Some("OnlyBuyerCanCancel"),
        3139 => Some("DisputeActive"),
        3140 => Some("OnlyAdminCanSetTokenWhitelistContract"),
        3141 => Some("ContractAlreadyPaused"),
        3142 => Some("ContractIsNotPaused"),
        3143 => Some("TokenNotAllowed"),
        3144 => Some("DeadlineDurationMustBePositive"),
        3145 => Some("TemplateIsDeactivated"),
        3146 => Some("ArbiterAlreadyPool"),
        3147 => Some("ArbiterNotPool"),
        3148 => Some("ArbiterPoolIsEmpty"),
        3149 => Some("OnlyTemplateCreatorCanUpdate"),
        3150 => Some("OnlyTemplateCreatorCanDeactivate"),
        3151 => Some("TemplateAlreadyDeactivated"),
        3152 => Some("InactivityReleaseIsNotEnabledEscrow"),
        3153 => Some("OnlyEscrowSellerCanClaimInactivityRelease"),
        3154 => Some("BuyerInactivityWindowHasNotElapsed"),
        3155 => Some("PenaltyCannotExceed10000Bps"),
        3156 => Some("ResponseWindowMustBePositive"),
        3157 => Some("OnlyBuyerOrSellerCanRequestCancellation"),
        3158 => Some("NoPendingCancellationEscrow"),
        3159 => Some("InitiatorCannotAcceptTheirOwnCancellationRequest"),
        3160 => Some("OnlyBuyerOrSellerCanAcceptCancellation"),
        3161 => Some("InitiatorCannotRejectTheirOwnCancellationRequest"),
        3162 => Some("OnlyBuyerOrSellerCanRejectCancellation"),
        3163 => Some("ResponseWindowHasNotElapsed"),
        3164 => Some("BountyAmountMustBePositive"),
        3165 => Some("ClaimDeadlineMustBeFuture"),
        3166 => Some("SubmissionDeadlineMustBeAfterClaimDeadline"),
        3167 => Some("TokenNotWhitelisted"),
        3168 => Some("BountyIsNotAvailableClaiming"),
        3169 => Some("ClaimDeadlineHasPassed"),
        3170 => Some("BountyIsNotClaimedStatus"),
        3171 => Some("OnlyAssignedSolverCanSubmitWork"),
        3172 => Some("SubmissionDeadlineHasPassed"),
        3173 => Some("OnlyBuyerCanApproveSubmission"),
        3174 => Some("NoSubmissionHasBeenMade"),
        3175 => Some("OnlyBuyerCanRejectSubmission"),
        3176 => Some("MaximumRejectionRoundsReached"),
        3177 => Some("OnlyBuyerCanCancelBounty"),
        3178 => Some("CannotCancelBountyCurrentState"),
        3179 => Some("OnlyAdminCanSetMaxBountyRejectionRounds"),
        3180 => Some("BountyMustHaveAtLeastOneMilestone"),
        3181 => Some("BountyMustBeClaimedBeforeSubmittingMilestones"),
        3182 => Some("OnlySolverCanSubmitMilestones"),
        3183 => Some("MilestoneIndexOutBounds"),
        3184 => Some("PreviousMilestoneNotYetVerified"),
        3185 => Some("MilestoneIsNotAwaitingSubmission"),
        3186 => Some("MilestoneIsNotAwaitingVerification"),
        3187 => Some("OnlyBountyCreatorCanReplaceVerifier"),
        3188 => Some("VerifierCanOnlyBeReplacedBeforeMilestoneIsSubmitted"),
        3189 => Some("OnlyBuyerCanConfigureCollateralHealth"),
        3190 => Some("MinCollateralRatioBpsOutOfRange"),
        3191 => Some("TopUpAmountMustBePositive"),
        3192 => Some("EscrowIsNotActiveOrUnderCollateralized"),
        3193 => Some("OnlyBuyerCanConfigureMultiPartyApproval"),
        3194 => Some("ApproversCountMustBeBetween2And10"),
        3195 => Some("ThresholdMustBeBetween1AndApproversCount"),
        3196 => Some("CannotReconfigureApprovalsAlreadyProgress"),
        3197 => Some("CallerIsNotAuthorizedApproverEscrow"),
        3198 => Some("ApproverHasAlreadyApprovedEscrow"),
        3199 => Some("ReleaseScheduleMustContainAtLeastOneTranche"),
        3200 => Some("EachTrancheAmountMustBePositive"),
        3201 => Some("EachTrancheUnlockAtMustBeFuture"),
        3202 => Some("OnlyBeneficiarySellerCanClaimScheduledReleases"),
        3203 => Some("EscrowIsNotClaimableState"),
        3204 => Some("NoTranchesAreCurrentlyClaimable"),
        3205 => Some("ContractIsPaused"),
        3206 => Some("OnlyAdminCanPauseContract"),
        3207 => Some("OnlyAdminCanResumeContract"),
        3208 => Some("EscrowStillLocked"),
        3209 => Some("OraclePriceIsStale"),
        3210 => Some("InvalidOraclePrice"),
        3211 => Some("InsufficientRenewalAllowance"),
        3212 => Some("EscrowRenewalDurationMustBePositive"),
        3213 => Some("OnlyAdminCanSetMaxTopUpBps"),
        3214 => Some("CollateralForfeitBpsCannotExceed10000"),
        3215 => Some("AtLeastOneSellerRequired"),
        3216 => Some("OnlySellerCanDepositCollateral"),
        3217 => Some("EscrowIsNotAwaitingCollateral"),
        3218 => Some("CollateralDepositWindowHasExpired"),
        3219 => Some("RatingMustBeBetween1And5"),
        3220 => Some("RatingOnlyAllowedAfterEscrowIsReleasedOrResolved"),
        3221 => Some("OnlyBuyerOrSellerCanSubmitRating"),
        3222 => Some("RatingAlreadySubmittedEscrow"),
        3223 => Some("OnlySellerCanSubmitDeliveryProof"),
        3224 => Some("ProofSubmissionLockedEscrowIsUnderDispute"),
        3225 => Some("InvalidDeliveryProof"),
        3226 => Some("OnlyEscrowSellerCanRaiseVeto"),
        3227 => Some("VetoCooldownActive"),
        3228 => Some("OnlyBuyerCanApprove"),
        3229 => Some("NoPendingSellerTransfer"),
        3230 => Some("OnlyAdminCanSetVetoOverrideWindow"),
        3231 => Some("WindowSecondsMustBePositive"),
        3232 => Some("OnlyEscrowSellerCanCancelVeto"),
        3233 => Some("VetoWindowElapsed"),
        3234 => Some("OnlyAdminCanOverrideSellerVeto"),
        3235 => Some("ActiveDisputeExists"),
        3236 => Some("VetoWindowNotElapsed"),
        3237 => Some("VetoWindowHasNotExpiredYet"),
        3238 => Some("OnlyCurrentSellerCanInitiateTransfer"),
        3239 => Some("EscrowMustBeActiveToTransferSellerRole"),
        3240 => Some("OnlyBuyerCanVeto"),
        3241 => Some("OnlyAdminCanSetVetoWindow"),
        3242 => Some("ReleaseBpsMustBePositiveEachMilestone"),
        3243 => Some("MilestoneReleaseBpsMustSumTo10000"),
        3244 => Some("OnlyEscrowSellerMaySubmitMilestones"),
        3245 => Some("MilestoneMustBePendingOrRejectedToSubmit"),
        3246 => Some("MilestoneMustBeSubmittedBeforeApproval"),
        3247 => Some("OnlyEscrowBuyerMayRejectMilestones"),
        3248 => Some("OnlySubmittedMilestoneCanBeRejected"),
        3249 => Some("OnlyLosingPartyCanFlagResolutionError"),
        _ => None,
    }
}

} // verus!
