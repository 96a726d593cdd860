//! Reasons for which an operation of the contract is refused.

use crate::model::EscrowError;
use vstd::prelude::*;

verus! {

/// Why an operation was refused. A refused operation leaves the contract's
/// state unchanged and moves no tokens.
#[derive(Clone, Copy, Debug, PartialEq, Eq, Structural)]
pub enum ContractError {
    /// A typed ledger error code.
    Code(EscrowError),
    AlreadyInitialized,
    AtLeastOneBuyerIsRequired,
    DeadlineMustBeFuture,
    BuyerContributionMustBePositive,
    DuplicateBuyerInList,
    BatchMustContainAtLeastOneEscrowConfig,
    BatchSizeExceedsMaximum10Escrows,
    OnlySellerCanMarkComplete,
    EscrowIsNotActive,
    NoInspectorSetUseReleaseEscrowDirectly,
    EscrowIsNotAwaitingInspection,
    OnlyAssignedInspectorCanSubmitReport,
    OnlyBuyerOrSellerCanProposeInspectorReplacement,
    NoInspectorSetEscrow,
    OnlyAdminCanSetInspectorScoreThreshold,
    MinScoreBpsExceedsMaximum,
    OnlyAdminCanAppealInspectorRuling,
    InspectorRulingAlreadyAppealedEscrow,
    InspectorScoreBelowMinimumThresholdHighValueEscrow,
    EscrowAmountMustBePositive,
    DeadlineMustBeAfterMinLockUntil,
    ArbiterFeeExceedsMaximum1000Bps,
    IncompleteReleaseCondition,
    ReleaseConditionThresholdMustBePositive,
    InvalidReleaseComparison,
    Maximum5SellersAllowed,
    SellerAllocationsMustSumTo10000Bps,
    DisputeTimeoutSecondsMustBePositive,
    OnlyCurrentHolderCanTransferReceipt,
    ActiveMilestoneInProgress,
    InspectionPending,
    OnlyListedBuyerCanApproveMultiBuyerRelease,
    BuyerHasAlreadyApprovedRelease,
    OnlyBuyerOrArbiterCanReleaseEscrow,
    SellerVetoActive,
    SellerVetoBlocksRelease,
    ConditionNotMet,
    OnlyBuyerOrSellerCanWaiveCondition,
    NoConditionalReleaseSetEscrow,
    OnlyBuyerOrSellerCanSubmitEvidence,
    MaximumEvidenceEntriesReachedParty,
    OnlyBuyerCanSetRenewalAllowance,
    AutoRenewIsNotEnabledEscrow,
    OnlyBuyerCanCancelAutoRenew,
    OnlyBuyerCanCancelAutoRenewal,
    NoAutoRenewConfigSetEscrow,
    ReleaseAmountMustBePositive,
    ReleaseAmountExceedsEscrowBalance,
    AtLeastOneMilestoneRequired,
    TooManyMilestones,
    MilestoneAmountMustBePositive,
    NewMilestonesMustStartAsPending,
    EscrowAlreadyTerminal,
    OnlyBuyerOrArbiterCanApproveMilestones,
    MilestoneIndexOutRange,
    MilestoneNotPending,
    OnlyBuyerOrSellerCanDisputeEscrow,
    DisputeAmountOutOfRange,
    BuyerPercentMustBeBetween0And100,
    EscrowIsNotDisputed,
    OnlyArbiterCanResolveDispute,
    EscrowIsNotCoolingOffState,
    OnlyBuyerOrSellerCanFlagResolutionError,
    CoolingOffWindowHasExpired,
    ResolutionAlreadyFlagged,
    CoolingOffWindowHasNotElapsed,
    ResolutionIsFlaggedAdminMustReviewBeforeFinalization,
    OnlyAdminCanClearResolutionFlags,
    NoFlagToClear,
    OnlyAdminCanConfigureCoolingOffPeriod,
    FeeConfigurationExceedsEscrowAmount,
    TimeoutMustBePositive,
    MultiplierMustBePositive,
    DeadlineMustBePositive,
    DisputeAlreadyResolved,
    DisputeTimeoutDeadlineHasNotPassedYet,
    MaxOracleAgeMustBePositive,
    InsuranceTriggerDaysMustBePositive,
    InsuranceContributionMustBePositive,
    OnlyBuyerOrSellerCanClaimInsurance,
    InsuranceAlreadyClaimed,
    AdminConfirmationRequired,
    InsuranceTriggerPeriodNotReached,
    EscrowTokenNotCoveredByInsurancePool,
    InsurancePoolHasInsufficientBalance,
    FeeExceedsMaximum200Bps,
    WithdrawalAmountMustBePositive,
    InsufficientAccruedFees,
    ReleaseConditionNotMet,
    EscrowHasNotExpiredYet,
    OnlyBuyerOrSellerCanProposeDeadlineExtension,
    CannotExtendDeadlineWhileEscrowIsDisputed,
    NewDeadlineMustBeGreaterThanCurrentDeadline,
    OnlyBuyerOrSellerCanAcceptDeadlineExtension,
    ProposerCannotAcceptTheirOwnDeadlineExtension,
    DeadlineExtensionProposalHasExpired,
    OnlyBuyerOrSellerCanProposeAmendment,
    CannotAmendTerminalEscrow,
    NewAmountMustBePositive,
    OnlyBuyerOrSellerCanSignAmendment,
    AmendmentNonceMismatch,
    AmendmentProposalHasExpired,
    AmendmentRequiresBuyerAndSellerSignatures,
    OnlyBuyerCanTopUpEscrow,
    EscrowIsNotActiveOrAwaitingInspection,
    AdditionalAmountMustBePositive,
    TopUpLimitExceeded,
    OnlySellerCanAcknowledgeTopUp,
    OnlySellerCanRequestPartialRelease,
    PartialReleaseOnlyAllowedActiveEscrow,
    PartialReleaseAmountMustBePositive,
    PartialReleaseAmountCannotExceedEscrowAmount,
    RequestAlreadyPending,
    OnlyBuyerCanApprovePartialRelease,
    InvalidRequestID,
    DelegateMustBeDifferentFromSeller,
    SellerNotPartOfEscrow,
    CanOnlyDelegateBeforeEscrowIsReleased,
    OnlyBuyerCanRejectPartialRelease,
    OnlySellerCanEscalatePartialRelease,
    ResponseDeadlineNotYetPassed,
    NewBuyerMustBeDifferentFromCurrentBuyer,
    BuyerTransferOnlyAllowedActiveEscrows,
    OnlyCurrentBuyerCanTransferBuyerRole,
    OnlyBuyerOrSellerCanUpdateMetadata,
    OnlyAdminCanUpgradeContract,
    OnlyAdminCanMigrateContract,
    MigrationAlreadyCompletedVersion,
    UnlockAtMustBeFuture,
    AlreadyClaimed,
    OnlyBeneficiaryCanClaim,
    UnlockTimeHasNotPassed,
    EscrowNotActive,
    PastUnlockTimeUseClaimTimelocked,
    OnlyBuyerCanCancel,
    DisputeActive,
    OnlyAdminCanSetTokenWhitelistContract,
    ContractAlreadyPaused,
    ContractIsNotPaused,
    TokenNotAllowed,
    DeadlineDurationMustBePositive,
    TemplateIsDeactivated,
    ArbiterAlreadyPool,
    ArbiterNotPool,
    ArbiterPoolIsEmpty,
    OnlyTemplateCreatorCanUpdate,
    OnlyTemplateCreatorCanDeactivate,
    TemplateAlreadyDeactivated,
    InactivityReleaseIsNotEnabledEscrow,
    OnlyEscrowSellerCanClaimInactivityRelease,
    BuyerInactivityWindowHasNotElapsed,
    PenaltyCannotExceed10000Bps,
    ResponseWindowMustBePositive,
    OnlyBuyerOrSellerCanRequestCancellation,
    NoPendingCancellationEscrow,
    InitiatorCannotAcceptTheirOwnCancellationRequest,
    OnlyBuyerOrSellerCanAcceptCancellation,
    InitiatorCannotRejectTheirOwnCancellationRequest,
    OnlyBuyerOrSellerCanRejectCancellation,
    ResponseWindowHasNotElapsed,
    BountyAmountMustBePositive,
    ClaimDeadlineMustBeFuture,
    SubmissionDeadlineMustBeAfterClaimDeadline,
    TokenNotWhitelisted,
    BountyIsNotAvailableClaiming,
    ClaimDeadlineHasPassed,
    BountyIsNotClaimedStatus,
    OnlyAssignedSolverCanSubmitWork,
    SubmissionDeadlineHasPassed,
    OnlyBuyerCanApproveSubmission,
    NoSubmissionHasBeenMade,
    OnlyBuyerCanRejectSubmission,
    MaximumRejectionRoundsReached,
    OnlyBuyerCanCancelBounty,
    CannotCancelBountyCurrentState,
    OnlyAdminCanSetMaxBountyRejectionRounds,
    BountyMustHaveAtLeastOneMilestone,
    BountyMustBeClaimedBeforeSubmittingMilestones,
    OnlySolverCanSubmitMilestones,
    MilestoneIndexOutBounds,
    PreviousMilestoneNotYetVerified,
    MilestoneIsNotAwaitingSubmission,
    MilestoneIsNotAwaitingVerification,
    OnlyBountyCreatorCanReplaceVerifier,
    VerifierCanOnlyBeReplacedBeforeMilestoneIsSubmitted,
    OnlyBuyerCanConfigureCollateralHealth,
    MinCollateralRatioBpsOutOfRange,
    TopUpAmountMustBePositive,
    EscrowIsNotActiveOrUnderCollateralized,
    OnlyBuyerCanConfigureMultiPartyApproval,
    ApproversCountMustBeBetween2And10,
    ThresholdMustBeBetween1AndApproversCount,
    CannotReconfigureApprovalsAlreadyProgress,
    CallerIsNotAuthorizedApproverEscrow,
    ApproverHasAlreadyApprovedEscrow,
    ReleaseScheduleMustContainAtLeastOneTranche,
    EachTrancheAmountMustBePositive,
    EachTrancheUnlockAtMustBeFuture,
    OnlyBeneficiarySellerCanClaimScheduledReleases,
    EscrowIsNotClaimableState,
    NoTranchesAreCurrentlyClaimable,
    ContractIsPaused,
    OnlyAdminCanPauseContract,
    OnlyAdminCanResumeContract,
    EscrowStillLocked,
    OraclePriceIsStale,
    InvalidOraclePrice,
    InsufficientRenewalAllowance,
    EscrowRenewalDurationMustBePositive,
    OnlyAdminCanSetMaxTopUpBps,
    CollateralForfeitBpsCannotExceed10000,
    AtLeastOneSellerRequired,
    OnlySellerCanDepositCollateral,
    EscrowIsNotAwaitingCollateral,
    CollateralDepositWindowHasExpired,
    RatingMustBeBetween1And5,
    RatingOnlyAllowedAfterEscrowIsReleasedOrResolved,
    OnlyBuyerOrSellerCanSubmitRating,
    RatingAlreadySubmittedEscrow,
    OnlySellerCanSubmitDeliveryProof,
    ProofSubmissionLockedEscrowIsUnderDispute,
    InvalidDeliveryProof,
    OnlyEscrowSellerCanRaiseVeto,
    VetoCooldownActive,
    OnlyBuyerCanApprove,
    NoPendingSellerTransfer,
    OnlyAdminCanSetVetoOverrideWindow,
    WindowSecondsMustBePositive,
    OnlyEscrowSellerCanCancelVeto,
    VetoWindowElapsed,
    OnlyAdminCanOverrideSellerVeto,
    ActiveDisputeExists,
    VetoWindowNotElapsed,
    VetoWindowHasNotExpiredYet,
    OnlyCurrentSellerCanInitiateTransfer,
    EscrowMustBeActiveToTransferSellerRole,
    OnlyBuyerCanVeto,
    OnlyAdminCanSetVetoWindow,
    ReleaseBpsMustBePositiveEachMilestone,
    MilestoneReleaseBpsMustSumTo10000,
    OnlyEscrowSellerMaySubmitMilestones,
    MilestoneMustBePendingOrRejectedToSubmit,
    MilestoneMustBeSubmittedBeforeApproval,
    OnlyEscrowBuyerMayRejectMilestones,
    OnlySubmittedMilestoneCanBeRejected,
    OnlyLosingPartyCanFlagResolutionError,
    EscrowNotFound,
    NotInitialized,
    AdminNotSet,
    ReceiptNotFound,
    DisputeNotFound,
    NoDisputeFound,
    NoPendingVerdict,
    DisputeDeadlineStartNotFound,
    OracleNotConfigured,
    OraclePriceUnavailable,
    InsuranceTokenNotConfigured,
    NoReleaseConditionSet,
    NoDeadlineExtensionProposalFound,
    NoAmendmentProposalFound,
    NoPendingPartialReleaseRequest,
    TemplateNotFound,
    CancellationRequestNotFound,
    BountyDataNotFound,
    NoMilestonesForBounty,
    CollateralHealthNotConfigured,
    CollateralOracleNotConfigured,
    MultiPartyApprovalNotConfigured,
    ThresholdNotConfigured,
    NoReleaseScheduleFound,
    NotTimeLockedEscrow,
    EscrowHasNoMilestones,
    NoBpsMilestones,
    ProposalNotFound,
    NoActiveVetoToCancel,
    NoActiveVetoToOverride,
    NoDeliveryProofHashSet,
    NoInspectorOnEscrow,
    DisbursedFeesExceedBountyAmount,
    Overflow,
    VersionOverflow,
}

} // verus!
