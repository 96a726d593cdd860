//! Records kept by the escrow contract, and the values its operations exchange
//! with the ledger around it.
//!
//! Accounts, tokens and contracts are identified by [`Address`] values;
//! 32-byte hashes are carried as [`Hash32`] values. The ledger host checks
//! signatures, moves tokens and answers oracle and whitelist queries; the
//! operations here take the answers as arguments and hand back the token
//! movements to perform.

use vstd::prelude::*;

verus! {

/// Identifier of an account, token or contract on the ledger.
pub type Address = u64;

/// A 32-byte hash, as four 64-bit words.
#[derive(Clone, Copy, Debug, PartialEq, Eq, Structural)]
pub struct Hash32 {
    pub w0: u64,
    pub w1: u64,
    pub w2: u64,
    pub w3: u64,
}

/// One token movement that an operation asks the ledger to perform.
#[derive(Clone, Copy, Debug, PartialEq, Eq, Structural)]
pub struct Transfer {
    pub token: Address,
    pub from: Address,
    pub to: Address,
    pub amount: i128,
    /// Whether the contract spends an allowance that `from` granted it, rather
    /// than `from` authorising the movement itself.
    pub by_allowance: bool,
}

/// An allowance that an operation asks the ledger to grant: `owner` lets
/// `spender` move up to `amount` of `token` until `expiration_ledger`.
#[derive(Clone, Copy, Debug, PartialEq, Eq, Structural)]
pub struct Approval {
    pub token: Address,
    pub owner: Address,
    pub spender: Address,
    pub amount: i128,
    pub expiration_ledger: u32,
}

/// Error codes that the contract raises as typed ledger errors.
#[derive(Clone, Copy, Debug, PartialEq, Eq, Structural)]
pub enum EscrowError {
    InvalidDeadline,
    InvalidTrancheIndex,
    TrancheAlreadyClaimed,
}

#[derive(Clone, Copy, Debug, PartialEq, Eq, Structural)]
pub enum EscrowStatus {
    Active,
    Released,
    Disputed,
    Resolved,
    Refunded,
    PartiallyReleased,
    PartiallyDisputed,
    /// Arbiter has recorded a verdict; funds held pending cooling-off window.
    CoolingOff,
    /// Mutual cancellation requested; awaiting counterparty response.
    CancellationPending,
    /// Escrow created but awaiting seller collateral deposit before becoming Active.
    AwaitingCollateral,
    /// Seller has proposed a role transfer; buyer has a veto window.
    AwaitingBuyerVetoDecision,
    /// Seller marked work complete; awaiting inspector verdict.
    AwaitingInspection,
    /// Inspector approved; buyer may release.
    InspectionPassed,
    /// Inspector rejected; buyer/seller may negotiate or dispute.
    InspectionFailed,
    /// Bounty created but not yet claimed by any solver.
    BountyUnclaimed,
    /// Bounty claimed by a solver; awaiting submission.
    BountyClaimed,
    /// Collateral value dropped below required ratio; release blocked.
    UnderCollateralized,
}

#[derive(Clone, Copy, Debug, PartialEq, Eq, Structural)]
pub enum DisputeDefaultWinner {
    Buyer,
    Seller,
}

/// Oracle price answer.
#[derive(Clone, Copy, Debug, PartialEq, Eq, Structural)]
pub struct PriceData {
    pub price: i128,
    pub timestamp: u64,
}

/// An oracle price condition on which an escrow may be released.
#[derive(Clone, Copy, Debug, PartialEq, Eq, Structural)]
pub struct ReleaseCondition {
    pub base: Address,
    pub quote: Address,
    /// 0 = LessOrEqual, 1 = GreaterOrEqual.
    pub comparison: u32,
    pub threshold_price: i128,
}

/// Auto-renewal configuration for recurring service agreements.
/// When provided at escrow creation, the escrow re-funds and restarts at the
/// end of each period for up to `max_renewals` cycles.
#[derive(Clone, Copy, Debug, PartialEq, Eq, Structural)]
pub struct AutoRenewConfig {
    /// Maximum number of automatic renewal cycles.
    pub max_renewals: u32,
    /// Duration of each renewal period in ledgers (used to compute new deadline).
    pub renewal_interval_ledgers: u32,
}

/// Parameters of a new escrow.
#[derive(Clone, Debug)]
pub struct EscrowCreateRequest {
    pub seller: Address,
    pub arbiter: Address,
    pub amount: i128,
    pub token: Address,
    pub deadline: u64,
    pub metadata_hash: Option<Hash32>,
    pub sellers: Vec<(Address, u32)>,
    pub auto_renew: bool,
    pub renewal_count: u32,
    pub buyer_inactivity_secs: u64,
    pub min_lock_until: Option<u64>,
    pub release_base: Option<Address>,
    pub release_quote: Option<Address>,
    pub release_comparison: Option<u32>,
    pub release_threshold_price: Option<i128>,
    pub arbiter_fee_bps: Option<u32>,
    /// 0 = Buyer, 1 = Seller.
    pub dispute_default_winner: Option<u32>,
    pub auto_renew_max_renewals: Option<u32>,
    pub auto_renew_interval_ledgers: Option<u32>,
}

/// Mathematical model of an [`EscrowCreateRequest`].
pub struct CreateRequestView {
    pub seller: Address,
    pub arbiter: Address,
    pub amount: i128,
    pub token: Address,
    pub deadline: u64,
    pub metadata_hash: Option<Hash32>,
    pub sellers: Seq<(Address, u32)>,
    pub auto_renew: bool,
    pub renewal_count: u32,
    pub buyer_inactivity_secs: u64,
    pub min_lock_until: Option<u64>,
    pub release_base: Option<Address>,
    pub release_quote: Option<Address>,
    pub release_comparison: Option<u32>,
    pub release_threshold_price: Option<i128>,
    pub arbiter_fee_bps: Option<u32>,
    pub dispute_default_winner: Option<u32>,
    pub auto_renew_max_renewals: Option<u32>,
    pub auto_renew_interval_ledgers: Option<u32>,
}

impl View for EscrowCreateRequest {
    type V = CreateRequestView;

    open spec fn view(&self) -> CreateRequestView {
        CreateRequestView {
            seller: self.seller,
            arbiter: self.arbiter,
            amount: self.amount,
            token: self.token,
            deadline: self.deadline,
            metadata_hash: self.metadata_hash,
            sellers: self.sellers@,
            auto_renew: self.auto_renew,
            renewal_count: self.renewal_count,
            buyer_inactivity_secs: self.buyer_inactivity_secs,
            min_lock_until: self.min_lock_until,
            release_base: self.release_base,
            release_quote: self.release_quote,
            release_comparison: self.release_comparison,
            release_threshold_price: self.release_threshold_price,
            arbiter_fee_bps: self.arbiter_fee_bps,
            dispute_default_winner: self.dispute_default_winner,
            auto_renew_max_renewals: self.auto_renew_max_renewals,
            auto_renew_interval_ledgers: self.auto_renew_interval_ledgers,
        }
    }
}

#[derive(Clone, Debug)]
pub struct Escrow {
    pub id: u32,
    pub buyer: Address,
    pub seller: Address,
    pub arbiter: Address,
    pub amount: i128,
    pub original_amount: i128,
    pub token: Address,
    pub status: EscrowStatus,
    pub created_at: u64,
    pub deadline: u64,
    pub metadata_hash: Option<Hash32>,
    /// (address, bps) of every seller; a single seller holds 10 000 bps.
    pub sellers: Vec<(Address, u32)>,
    pub extensions: EscrowExtensions,
    pub top_up_history: Vec<TopUpEntry>,
    pub top_up_acknowledged: bool,
}

/// Mathematical model of an [`Escrow`].
pub struct EscrowView {
    pub id: u32,
    pub buyer: Address,
    pub seller: Address,
    pub arbiter: Address,
    pub amount: i128,
    pub original_amount: i128,
    pub token: Address,
    pub status: EscrowStatus,
    pub created_at: u64,
    pub deadline: u64,
    pub metadata_hash: Option<Hash32>,
    pub sellers: Seq<(Address, u32)>,
    pub extensions: EscrowExtensions,
    pub top_up_history: Seq<TopUpEntry>,
    pub top_up_acknowledged: bool,
}

impl View for Escrow {
    type V = EscrowView;

    open spec fn view(&self) -> EscrowView {
        EscrowView {
            id: self.id,
            buyer: self.buyer,
            seller: self.seller,
            arbiter: self.arbiter,
            amount: self.amount,
            original_amount: self.original_amount,
            token: self.token,
            status: self.status,
            created_at: self.created_at,
            deadline: self.deadline,
            metadata_hash: self.metadata_hash,
            sellers: self.sellers@,
            extensions: self.extensions,
            top_up_history: self.top_up_history@,
            top_up_acknowledged: self.top_up_acknowledged,
        }
    }
}

impl Escrow {
    /// An owned copy of this record.
    pub fn copy(&self) -> (r: Escrow)
        ensures
            r@ == self@,
    {
        Escrow {
            id: self.id,
            buyer: self.buyer,
            seller: self.seller,
            arbiter: self.arbiter,
            amount: self.amount,
            original_amount: self.original_amount,
            token: self.token,
            status: self.status,
            created_at: self.created_at,
            deadline: self.deadline,
            metadata_hash: self.metadata_hash,
            sellers: crate::common::copy_vec(&self.sellers),
            extensions: self.extensions,
            top_up_history: crate::common::copy_vec(&self.top_up_history),
            top_up_acknowledged: self.top_up_acknowledged,
        }
    }
}

#[derive(Clone, Copy, Debug, PartialEq, Eq, Structural)]
pub struct EscrowReceipt {
    pub receipt_id: u32,
    pub escrow_id: u32,
    pub holder: Address,
}

#[derive(Clone, Copy, Debug, PartialEq, Eq, Structural)]
pub struct EscrowExtensions {
    pub auto_renew: bool,
    pub renewal_count: u32,
    pub renewals_remaining: u32,
    pub dispute_timeout_seconds: Option<u64>,
    /// Seconds of buyer inactivity before seller can claim auto-release; 0 = disabled.
    pub buyer_inactivity_secs: u64,
    /// Earliest ledger timestamp when release/partial release is permitted.
    pub min_lock_until: Option<u64>,
    pub release_base: Option<Address>,
    pub release_quote: Option<Address>,
    pub release_comparison: Option<u32>,
    pub release_threshold_price: Option<i128>,
    /// Optional per-escrow arbiter fee override in basis points.
    pub arbiter_fee_bps: Option<u32>,
    /// Optional per-escrow default winner override for dispute timeout (0 = Buyer, 1 = Seller).
    pub dispute_default_winner: Option<u32>,
    /// Required seller collateral as bps of escrow amount (0 = no collateral).
    pub required_collateral_bps: u32,
    /// Forfeiture bps applied to collateral on buyer-favour dispute resolution.
    pub collateral_forfeit_bps: u32,
    /// Ledger timestamp deadline for seller to deposit collateral (0 = not set).
    pub collateral_deposit_deadline: u64,
    /// Collateral amount owed or deposited by the seller.
    pub collateral_amount: i128,
    /// Optional pre-committed delivery proof hash.
    pub delivery_proof_hash: Option<Hash32>,
    /// Optional inspector address for a three-party quality gate.
    pub inspector: Option<Address>,
    /// Auto-renewal config; None = no auto-renewal.
    pub auto_renew_max_renewals: Option<u32>,
    pub auto_renew_interval_ledgers: Option<u32>,
    /// Number of renewal cycles completed so far.
    pub renewals_completed: u32,
}

#[derive(Clone, Copy, Debug, PartialEq, Eq, Structural)]
pub struct EvidenceSubmission {
    pub evidence_hash: Hash32,
    pub evidence_uri_hash: Hash32,
    pub submitted_at: u64,
}

#[derive(Clone, Debug)]
pub struct Dispute {
    pub escrow_id: u32,
    pub reason: String,
    pub created_at: u64,
    pub resolved: bool,
    pub dispute_amount: i128,
    pub timeout_seconds: Option<u64>,
}

/// Mathematical model of a [`Dispute`].
pub struct DisputeView {
    pub escrow_id: u32,
    pub reason: Seq<char>,
    pub created_at: u64,
    pub resolved: bool,
    pub dispute_amount: i128,
    pub timeout_seconds: Option<u64>,
}

impl View for Dispute {
    type V = DisputeView;

    open spec fn view(&self) -> DisputeView {
        DisputeView {
            escrow_id: self.escrow_id,
            reason: self.reason@,
            created_at: self.created_at,
            resolved: self.resolved,
            dispute_amount: self.dispute_amount,
            timeout_seconds: self.timeout_seconds,
        }
    }
}

impl Dispute {
    /// An owned copy of this record.
    pub fn copy(&self) -> (r: Dispute)
        ensures
            r@ == self@,
    {
        Dispute {
            escrow_id: self.escrow_id,
            reason: self.reason.clone(),
            created_at: self.created_at,
            resolved: self.resolved,
            dispute_amount: self.dispute_amount,
            timeout_seconds: self.timeout_seconds,
        }
    }
}

/// Time-locked release data.
#[derive(Clone, Copy, Debug, PartialEq, Eq, Structural)]
pub struct TimeLockData {
    pub unlock_at: u64,
    pub beneficiary: Address,
    pub claimed: bool,
}

/// Mutual cancellation request record.
#[derive(Clone, Copy, Debug, PartialEq, Eq, Structural)]
pub struct CancellationRequest {
    pub initiator: Address,
    pub reason_hash: Hash32,
    pub requested_at: u64,
    pub expires_at: u64,
}

#[derive(Clone, Copy, Debug, PartialEq, Eq, Structural)]
pub struct DeadlineProposal {
    pub proposer: Address,
    pub new_deadline: u64,
    pub proposed_at: u64,
}

#[derive(Clone, Copy, Debug, PartialEq, Eq, Structural)]
pub struct TopUpEntry {
    pub amount: i128,
    pub timestamp: u64,
    pub cumulative_total: i128,
}

#[derive(Clone, Copy, Debug, PartialEq, Eq, Structural)]
pub struct PartialReleaseRequest {
    pub request_id: u64,
    pub amount: i128,
    pub justification_hash: Hash32,
    pub created_at: u64,
    pub response_deadline: u64,
}

#[derive(Clone, Copy, Debug, PartialEq, Eq, Structural)]
pub struct EscrowTemplateConfig {
    pub arbiter: Address,
    pub token: Address,
    /// Seconds from escrow creation to its deadline.
    pub deadline_duration: u64,
}

#[derive(Clone, Copy, Debug, PartialEq, Eq, Structural)]
pub struct EscrowTemplate {
    pub id: u32,
    pub creator: Address,
    pub config: EscrowTemplateConfig,
    pub active: bool,
}

/// Status of a milestone in a milestone-based escrow.
#[derive(Clone, Copy, Debug, PartialEq, Eq, Structural)]
pub enum MilestoneStatus {
    Pending,
    Approved,
    Disputed,
}

/// Single milestone in a milestone-based escrow.
#[derive(Clone, Copy, Debug, PartialEq, Eq, Structural)]
pub struct Milestone {
    pub description_hash: Hash32,
    pub amount: i128,
    pub status: MilestoneStatus,
}

#[derive(Clone, Debug)]
pub struct EscrowBatchConfig {
    pub seller: Address,
    pub arbiter: Address,
    pub amount: i128,
    pub token: Address,
    pub deadline: u64,
    pub metadata_hash: Option<Hash32>,
    pub sellers: Vec<(Address, u32)>,
    pub auto_renew: bool,
    pub renewal_count: u32,
}

/// On-chain reputation record for an inspector.
#[derive(Clone, Copy, Debug, PartialEq, Eq, Structural)]
pub struct InspectorScore {
    pub total_rulings: u32,
    pub correct_rulings: u32,
}

/// A single time-locked tranche in a staged release schedule.
#[derive(Clone, Copy, Debug, PartialEq, Eq, Structural)]
pub struct ReleaseTranche {
    /// Unix timestamp after which this tranche may be claimed.
    pub unlock_at: u64,
    /// Token amount released in this tranche.
    pub amount: i128,
    /// Whether this tranche has already been claimed.
    pub claimed: bool,
}

/// Input type for creating a bps-based milestone escrow.
#[derive(Clone, Debug)]
pub struct MilestoneInput {
    pub name: String,
    pub release_bps: u32,
    pub description_hash: Hash32,
}

#[derive(Clone, Copy, Debug, PartialEq, Eq, Structural)]
pub enum MilestoneStateStatus {
    Pending,
    Submitted,
    Approved,
    Rejected,
}

/// On-chain milestone state for a proportional-release escrow.
#[derive(Clone, Debug)]
pub struct MilestoneState {
    pub name: String,
    pub release_bps: u32,
    pub description_hash: Hash32,
    pub status: MilestoneStateStatus,
    pub delivery_hash: Option<Hash32>,
    pub rejection_hash: Option<Hash32>,
}

impl MilestoneState {
    /// An owned copy of this record.
    pub fn copy(&self) -> (r: MilestoneState)
        ensures
            r@ == self@,
    {
        MilestoneState {
            name: self.name.clone(),
            release_bps: self.release_bps,
            description_hash: self.description_hash,
            status: self.status,
            delivery_hash: self.delivery_hash,
            rejection_hash: self.rejection_hash,
        }
    }
}

/// Mathematical model of a [`MilestoneState`].
pub struct MilestoneStateView {
    pub name: Seq<char>,
    pub release_bps: u32,
    pub description_hash: Hash32,
    pub status: MilestoneStateStatus,
    pub delivery_hash: Option<Hash32>,
    pub rejection_hash: Option<Hash32>,
}

impl View for MilestoneState {
    type V = MilestoneStateView;

    open spec fn view(&self) -> MilestoneStateView {
        MilestoneStateView {
            name: self.name@,
            release_bps: self.release_bps,
            description_hash: self.description_hash,
            status: self.status,
            delivery_hash: self.delivery_hash,
            rejection_hash: self.rejection_hash,
        }
    }
}

/// Bounty metadata for open competitive work assignment.
#[derive(Clone, Copy, Debug, PartialEq, Eq, Structural)]
pub struct BountyData {
    /// Hash of the bounty description/requirements.
    pub description_hash: Hash32,
    /// Ledger timestamp deadline for claiming the bounty.
    pub claim_deadline_ledger: u64,
    /// Ledger timestamp deadline for submitting work after claiming.
    pub submission_deadline_ledger: u64,
    /// Address of the solver who claimed the bounty (None if unclaimed).
    pub solver: Option<Address>,
    /// Hash of the submitted work (None if not yet submitted).
    pub submission_hash: Option<Hash32>,
    /// Number of times this bounty has been rejected and re-opened.
    pub rejection_count: u32,
    /// Bounty funds already paid out before final cancellation.
    pub fees_disbursed: i128,
}

/// Verification status of a single milestone in a milestone-gated bounty.
#[derive(Clone, Copy, Debug, PartialEq, Eq, Structural)]
pub enum BountyMilestoneStatus {
    /// Awaiting deliverable submission from the solver.
    Pending,
    /// Deliverable submitted; awaiting the designated verifier's sign-off.
    Submitted,
    /// Verifier signed off; tranche transfer in progress.
    Verified,
    /// Tranche has been released to the solver.
    Paid,
}

/// Input describing one milestone when creating a milestone-gated bounty.
#[derive(Clone, Copy, Debug, PartialEq, Eq, Structural)]
pub struct BountyMilestoneInput {
    /// Hash of the sub-deliverable description/requirements.
    pub description_hash: Hash32,
    /// Address authorized to verify (sign off) this milestone.
    pub verifier: Address,
    /// Token amount released to the solver when this milestone is verified.
    pub amount: i128,
}

/// State of a single milestone of a milestone-gated bounty.
#[derive(Clone, Copy, Debug, PartialEq, Eq, Structural)]
pub struct BountyMilestone {
    pub description_hash: Hash32,
    pub verifier: Address,
    pub amount: i128,
    pub status: BountyMilestoneStatus,
    pub deliverable_hash: Option<Hash32>,
}

/// Pending seller role transfer proposal.
#[derive(Clone, Copy, Debug, PartialEq, Eq, Structural)]
pub struct SellerTransferProposal {
    pub original_seller: Address,
    pub new_seller: Address,
    /// Ledger sequence number after which the transfer can be finalised.
    pub veto_deadline: u32,
}

/// Mutual amendment proposal for post-creation term changes.
/// Both buyer and seller must sign the same proposal for it to take effect.
#[derive(Clone, Copy, Debug, PartialEq, Eq, Structural)]
pub struct AmendmentProposal {
    pub nonce: u32,
    pub proposer: Address,
    pub new_amount: Option<i128>,
    pub new_deadline: Option<u64>,
    pub new_metadata_hash: Option<Hash32>,
    pub proposed_at: u64,
    pub expires_at: u64,
    pub buyer_signed: bool,
    pub seller_signed: bool,
}

/// Inspector report stored on-chain.
#[derive(Clone, Copy, Debug, PartialEq, Eq, Structural)]
pub struct InspectorReport {
    pub inspector: Address,
    pub approved: bool,
    pub report_hash: Hash32,
    pub submitted_at: u64,
}

/// Pending inspector replacement request.
#[derive(Clone, Copy, Debug, PartialEq, Eq, Structural)]
pub struct InspectorReplacement {
    pub new_inspector: Address,
    pub buyer_signed: bool,
    pub seller_signed: bool,
}

/// Verdict recorded by arbiter during cooling-off period.
#[derive(Clone, Copy, Debug, PartialEq, Eq, Structural)]
pub struct PendingVerdict {
    pub buyer_percent: u32,
    pub arbiter: Address,
    pub recorded_at: u64,
}

/// Conditional release based on external contract state.
#[derive(Clone, Copy, Debug, PartialEq, Eq, Structural)]
pub struct ConditionalRelease {
    pub oracle_contract: Address,
    pub expected_value: i128,
}

} // verus!
