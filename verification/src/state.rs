//! The contract's state: its configuration and every table it keeps.

use crate::model::{
    Address, AmendmentProposal, BountyData, BountyMilestone, CancellationRequest, ConditionalRelease,
    DeadlineProposal, Dispute, DisputeView, EscrowView, MilestoneStateView, DisputeDefaultWinner, Escrow, EscrowReceipt, EscrowTemplate,
    EvidenceSubmission, Hash32, InspectorReplacement, InspectorReport, InspectorScore, Milestone,
    MilestoneState, PartialReleaseRequest, PendingVerdict, ReleaseTranche, SellerTransferProposal,
    TimeLockData,
};
use std::collections::HashMap;
use vstd::prelude::*;

verus! {

broadcast use vstd::std_specs::hash::group_hash_axioms;

pub const MAX_EVIDENCE_ENTRIES_PER_PARTY: u32 = 5;
pub const DEFAULT_DISPUTE_TIMEOUT_SECONDS: u64 = 604800;
pub const MAX_BATCH_ESCROWS: u32 = 10;
pub const DEFAULT_MAX_ORACLE_AGE_SECONDS: u64 = 300;
pub const DEFAULT_INSURANCE_TRIGGER_DAYS: u64 = 7;
pub const DEFAULT_MAX_TOPUP_MULTIPLIER: u32 = 3;
/// One day.
pub const DEFAULT_PARTIAL_RELEASE_RESPONSE_DEADLINE: u64 = 86400;
/// One day.
pub const DEADLINE_EXTENSION_PROPOSAL_WINDOW: u64 = 86400;
pub const MAX_MILESTONES: u32 = 20;
/// 2%.
pub const MAX_PROTOCOL_FEE_BPS: u32 = 200;
/// 10%.
pub const MAX_ARBITER_FEE_BPS: u32 = 1000;
pub const DEFAULT_SELLER_TRANSFER_VETO_WINDOW: u32 = 200;
/// Seven days.
pub const DEFAULT_AMENDMENT_EXPIRY_SECONDS: u64 = 604800;
/// Seven days.
pub const DEFAULT_VETO_COOLDOWN_SECONDS: u64 = 604800;
pub const DEFAULT_MAX_BOUNTY_REJECTION_ROUNDS: u32 = 3;
/// 48 hours.
pub const DEFAULT_VETO_OVERRIDE_WINDOW_SECONDS: u64 = 172800;
/// Seven days.
pub const DEFAULT_CANCELLATION_RESPONSE_WINDOW: u64 = 604800;
pub const ORACLE_COMPARISON_LESS_OR_EQUAL: u32 = 0;
pub const ORACLE_COMPARISON_GREATER_OR_EQUAL: u32 = 1;

/// The escrow contract: configuration and tables.
pub struct AhjoorEscrowContract {
    /// Address of the contract itself; escrowed funds are held here.
    pub me: Address,
    pub admin: Option<Address>,
    /// Current code version.
    pub version: u32,
    /// Versions whose migration has run.
    pub migrations_done: HashMap<u32, bool>,
    pub paused: bool,
    pub pause_reason: Option<String>,
    /// Next escrow id.
    pub escrow_counter: u32,
    /// Next receipt id.
    pub receipt_counter: u32,
    /// Next template id.
    pub template_counter: u32,
    /// Internal token allowlist.
    pub allowed_tokens: HashMap<Address, bool>,
    /// Whether the internal allowlist is enforced.
    pub allowlist_activated: bool,
    pub protocol_fee_bps: u32,
    pub fee_recipient: Option<Address>,
    pub arbiter_pool: Option<Vec<Address>>,
    pub next_arbiter_index: u32,
    pub default_dispute_timeout: u64,
    pub default_arbiter_fee_bps: u32,
    pub oracle: Option<Address>,
    pub max_oracle_age: u64,
    pub insurance_pool: i128,
    pub insurance_token: Option<Address>,
    pub insurance_trigger_days: u64,
    pub default_dispute_winner: DisputeDefaultWinner,
    /// External token whitelist contract, when one is configured.
    pub token_whitelist_contract: Option<Address>,
    pub cancellation_penalty_bps: u32,
    pub cancellation_response_window: u64,
    pub max_top_up_bps: u32,
    pub max_topup_multiplier: u32,
    pub partial_release_response_deadline: u64,
    /// Ledgers a buyer has to veto a seller transfer.
    pub seller_transfer_veto_window: u32,
    pub resolution_cooling_off_secs: u64,
    pub amendment_expiry_secs: u64,
    pub veto_cooldown_secs: u64,
    pub max_bounty_rejection_rounds: u32,
    pub veto_override_window: u64,
    pub min_inspector_score_bps: u32,
    pub inspector_value_threshold: i128,
    pub escrows: HashMap<u32, Escrow>,
    /// Receipts by receipt id.
    pub receipts: HashMap<u32, EscrowReceipt>,
    /// Receipt id by escrow id.
    pub receipt_of: HashMap<u32, u32>,
    pub disputes: HashMap<u32, Dispute>,
    /// When each dispute was raised.
    pub dispute_started: HashMap<u32, u64>,
    pub deadline_proposals: HashMap<u32, DeadlineProposal>,
    pub templates: HashMap<u32, EscrowTemplate>,
    pub arbiter_needs_replacement: HashMap<u32, bool>,
    /// Latest metadata hash of each escrow and when it was set.
    pub metadata: HashMap<u32, (Hash32, u64)>,
    pub evidence: HashMap<u32, HashMap<Address, Vec<EvidenceSubmission>>>,
    pub renewal_allowance: HashMap<u32, u32>,
    pub insurance_confirmed: HashMap<u32, bool>,
    pub insurance_claimed: HashMap<u32, bool>,
    pub last_buyer_action: HashMap<u32, u64>,
    pub milestones: HashMap<u32, Vec<Milestone>>,
    pub arbiter_timeouts: HashMap<Address, u32>,
    pub timelocks: HashMap<u32, TimeLockData>,
    pub cancellations: HashMap<u32, CancellationRequest>,
    pub pending_partial_release: HashMap<u32, PartialReleaseRequest>,
    pub partial_release_counter: HashMap<u32, u64>,
    pub seller_collateral: HashMap<u32, i128>,
    pub seller_transfers: HashMap<u32, SellerTransferProposal>,
    /// (total score, count) per rated account.
    pub rating_scores: HashMap<Address, (u64, u32)>,
    pub ratings_submitted: HashMap<u32, HashMap<Address, bool>>,
    pub pending_verdicts: HashMap<u32, PendingVerdict>,
    pub resolution_flags: HashMap<u32, (Address, Hash32)>,
    pub amendments: HashMap<u32, AmendmentProposal>,
    pub amendment_nonce: HashMap<u32, u32>,
    pub inspector_reports: HashMap<u32, InspectorReport>,
    pub inspector_replacements: HashMap<u32, InspectorReplacement>,
    pub renewal_history: HashMap<u32, Vec<u32>>,
    /// First escrow of the renewal chain that each renewed escrow belongs to.
    pub renewal_origin: HashMap<u32, u32>,
    pub auto_renewal_cancelled: HashMap<u32, bool>,
    pub share_delegates: HashMap<u32, HashMap<Address, Address>>,
    pub conditional_releases: HashMap<u32, ConditionalRelease>,
    pub buyer_waiver_signed: HashMap<u32, bool>,
    pub seller_waiver_signed: HashMap<u32, bool>,
    pub bps_milestones: HashMap<u32, Vec<MilestoneState>>,
    pub seller_veto_last: HashMap<u32, u64>,
    pub bounties: HashMap<u32, BountyData>,
    pub collateral_min_ratio: HashMap<u32, u32>,
    pub collateral_oracle: HashMap<u32, Address>,
    pub approvers: HashMap<u32, Vec<Address>>,
    pub approval_threshold: HashMap<u32, u32>,
    pub release_approvals: HashMap<u32, Vec<Address>>,
    pub schedules: HashMap<u32, Vec<ReleaseTranche>>,
    pub released_index: HashMap<u32, u32>,
    pub veto_timestamps: HashMap<u32, u64>,
    pub veto_reasons: HashMap<u32, Hash32>,
    pub inspector_scores: HashMap<Address, InspectorScore>,
    pub inspector_appealed: HashMap<u32, bool>,
    pub bounty_milestones: HashMap<u32, Vec<BountyMilestone>>,
    pub multi_buyers: HashMap<u32, Vec<Address>>,
    pub buyer_shares: HashMap<u32, HashMap<Address, i128>>,
    pub multi_buyer_approvals: HashMap<u32, Vec<Address>>,
    /// Protocol fees awaiting withdrawal, per token.
    pub accrued_fees: HashMap<Address, i128>,
}

/// Mathematical model of the contract state.
#[verifier::ext_equal]
pub struct ContractView {
    pub me: Address,
    pub admin: Option<Address>,
    pub version: u32,
    pub migrations_done: Map<u32, bool>,
    pub paused: bool,
    pub pause_reason: Option<Seq<char>>,
    pub escrow_counter: u32,
    pub receipt_counter: u32,
    pub template_counter: u32,
    pub allowed_tokens: Map<Address, bool>,
    pub allowlist_activated: bool,
    pub protocol_fee_bps: u32,
    pub fee_recipient: Option<Address>,
    pub arbiter_pool: Option<Seq<Address>>,
    pub next_arbiter_index: u32,
    pub default_dispute_timeout: u64,
    pub default_arbiter_fee_bps: u32,
    pub oracle: Option<Address>,
    pub max_oracle_age: u64,
    pub insurance_pool: i128,
    pub insurance_token: Option<Address>,
    pub insurance_trigger_days: u64,
    pub default_dispute_winner: DisputeDefaultWinner,
    pub token_whitelist_contract: Option<Address>,
    pub cancellation_penalty_bps: u32,
    pub cancellation_response_window: u64,
    pub max_top_up_bps: u32,
    pub max_topup_multiplier: u32,
    pub partial_release_response_deadline: u64,
    pub seller_transfer_veto_window: u32,
    pub resolution_cooling_off_secs: u64,
    pub amendment_expiry_secs: u64,
    pub veto_cooldown_secs: u64,
    pub max_bounty_rejection_rounds: u32,
    pub veto_override_window: u64,
    pub min_inspector_score_bps: u32,
    pub inspector_value_threshold: i128,
    pub escrows: Map<u32, EscrowView>,
    pub receipts: Map<u32, EscrowReceipt>,
    pub receipt_of: Map<u32, u32>,
    pub disputes: Map<u32, DisputeView>,
    pub dispute_started: Map<u32, u64>,
    pub deadline_proposals: Map<u32, DeadlineProposal>,
    pub templates: Map<u32, EscrowTemplate>,
    pub arbiter_needs_replacement: Map<u32, bool>,
    pub metadata: Map<u32, (Hash32, u64)>,
    pub evidence: Map<u32, Map<Address, Seq<EvidenceSubmission>>>,
    pub renewal_allowance: Map<u32, u32>,
    pub insurance_confirmed: Map<u32, bool>,
    pub insurance_claimed: Map<u32, bool>,
    pub last_buyer_action: Map<u32, u64>,
    pub milestones: Map<u32, Seq<Milestone>>,
    pub arbiter_timeouts: Map<Address, u32>,
    pub timelocks: Map<u32, TimeLockData>,
    pub cancellations: Map<u32, CancellationRequest>,
    pub pending_partial_release: Map<u32, PartialReleaseRequest>,
    pub partial_release_counter: Map<u32, u64>,
    pub seller_collateral: Map<u32, i128>,
    pub seller_transfers: Map<u32, SellerTransferProposal>,
    pub rating_scores: Map<Address, (u64, u32)>,
    pub ratings_submitted: Map<u32, Map<Address, bool>>,
    pub pending_verdicts: Map<u32, PendingVerdict>,
    pub resolution_flags: Map<u32, (Address, Hash32)>,
    pub amendments: Map<u32, AmendmentProposal>,
    pub amendment_nonce: Map<u32, u32>,
    pub inspector_reports: Map<u32, InspectorReport>,
    pub inspector_replacements: Map<u32, InspectorReplacement>,
    pub renewal_history: Map<u32, Seq<u32>>,
    pub renewal_origin: Map<u32, u32>,
    pub auto_renewal_cancelled: Map<u32, bool>,
    pub share_delegates: Map<u32, Map<Address, Address>>,
    pub conditional_releases: Map<u32, ConditionalRelease>,
    pub buyer_waiver_signed: Map<u32, bool>,
    pub seller_waiver_signed: Map<u32, bool>,
    pub bps_milestones: Map<u32, Seq<MilestoneStateView>>,
    pub seller_veto_last: Map<u32, u64>,
    pub bounties: Map<u32, BountyData>,
    pub collateral_min_ratio: Map<u32, u32>,
    pub collateral_oracle: Map<u32, Address>,
    pub approvers: Map<u32, Seq<Address>>,
    pub approval_threshold: Map<u32, u32>,
    pub release_approvals: Map<u32, Seq<Address>>,
    pub schedules: Map<u32, Seq<ReleaseTranche>>,
    pub released_index: Map<u32, u32>,
    pub veto_timestamps: Map<u32, u64>,
    pub veto_reasons: Map<u32, Hash32>,
    pub inspector_scores: Map<Address, InspectorScore>,
    pub inspector_appealed: Map<u32, bool>,
    pub bounty_milestones: Map<u32, Seq<BountyMilestone>>,
    pub multi_buyers: Map<u32, Seq<Address>>,
    pub buyer_shares: Map<u32, Map<Address, i128>>,
    pub multi_buyer_approvals: Map<u32, Seq<Address>>,
    pub accrued_fees: Map<Address, i128>,
}

impl View for AhjoorEscrowContract {
    type V = ContractView;

    open spec fn view(&self) -> ContractView {
        ContractView {
            me: self.me,
            admin: self.admin,
            version: self.version,
            migrations_done: self.migrations_done@,
            paused: self.paused,
            pause_reason: match &self.pause_reason { Some(s) => Some(s@), None => None },
            escrow_counter: self.escrow_counter,
            receipt_counter: self.receipt_counter,
            template_counter: self.template_counter,
            allowed_tokens: self.allowed_tokens@,
            allowlist_activated: self.allowlist_activated,
            protocol_fee_bps: self.protocol_fee_bps,
            fee_recipient: self.fee_recipient,
            arbiter_pool: match &self.arbiter_pool { Some(v) => Some(v@), None => None },
            next_arbiter_index: self.next_arbiter_index,
            default_dispute_timeout: self.default_dispute_timeout,
            default_arbiter_fee_bps: self.default_arbiter_fee_bps,
            oracle: self.oracle,
            max_oracle_age: self.max_oracle_age,
            insurance_pool: self.insurance_pool,
            insurance_token: self.insurance_token,
            insurance_trigger_days: self.insurance_trigger_days,
            default_dispute_winner: self.default_dispute_winner,
            token_whitelist_contract: self.token_whitelist_contract,
            cancellation_penalty_bps: self.cancellation_penalty_bps,
            cancellation_response_window: self.cancellation_response_window,
            max_top_up_bps: self.max_top_up_bps,
            max_topup_multiplier: self.max_topup_multiplier,
            partial_release_response_deadline: self.partial_release_response_deadline,
            seller_transfer_veto_window: self.seller_transfer_veto_window,
            resolution_cooling_off_secs: self.resolution_cooling_off_secs,
            amendment_expiry_secs: self.amendment_expiry_secs,
            veto_cooldown_secs: self.veto_cooldown_secs,
            max_bounty_rejection_rounds: self.max_bounty_rejection_rounds,
            veto_override_window: self.veto_override_window,
            min_inspector_score_bps: self.min_inspector_score_bps,
            inspector_value_threshold: self.inspector_value_threshold,
            escrows: self.escrows@.map_values(|e: Escrow| e@),
            receipts: self.receipts@,
            receipt_of: self.receipt_of@,
            disputes: self.disputes@.map_values(|d: Dispute| d@),
            dispute_started: self.dispute_started@,
            deadline_proposals: self.deadline_proposals@,
            templates: self.templates@,
            arbiter_needs_replacement: self.arbiter_needs_replacement@,
            metadata: self.metadata@,
            evidence: self.evidence@.map_values(|m: HashMap<Address, Vec<EvidenceSubmission>>| m@.map_values(|v: Vec<EvidenceSubmission>| v@)),
            renewal_allowance: self.renewal_allowance@,
            insurance_confirmed: self.insurance_confirmed@,
            insurance_claimed: self.insurance_claimed@,
            last_buyer_action: self.last_buyer_action@,
            milestones: self.milestones@.map_values(|v: Vec<Milestone>| v@),
            arbiter_timeouts: self.arbiter_timeouts@,
            timelocks: self.timelocks@,
            cancellations: self.cancellations@,
            pending_partial_release: self.pending_partial_release@,
            partial_release_counter: self.partial_release_counter@,
            seller_collateral: self.seller_collateral@,
            seller_transfers: self.seller_transfers@,
            rating_scores: self.rating_scores@,
            ratings_submitted: self.ratings_submitted@.map_values(|m: HashMap<Address, bool>| m@),
            pending_verdicts: self.pending_verdicts@,
            resolution_flags: self.resolution_flags@,
            amendments: self.amendments@,
            amendment_nonce: self.amendment_nonce@,
            inspector_reports: self.inspector_reports@,
            inspector_replacements: self.inspector_replacements@,
            renewal_history: self.renewal_history@.map_values(|v: Vec<u32>| v@),
            renewal_origin: self.renewal_origin@,
            auto_renewal_cancelled: self.auto_renewal_cancelled@,
            share_delegates: self.share_delegates@.map_values(|m: HashMap<Address, Address>| m@),
            conditional_releases: self.conditional_releases@,
            buyer_waiver_signed: self.buyer_waiver_signed@,
            seller_waiver_signed: self.seller_waiver_signed@,
            bps_milestones: self.bps_milestones@.map_values(|v: Vec<MilestoneState>| v@.map_values(|m: MilestoneState| m@)),
            seller_veto_last: self.seller_veto_last@,
            bounties: self.bounties@,
            collateral_min_ratio: self.collateral_min_ratio@,
            collateral_oracle: self.collateral_oracle@,
            approvers: self.approvers@.map_values(|v: Vec<Address>| v@),
            approval_threshold: self.approval_threshold@,
            release_approvals: self.release_approvals@.map_values(|v: Vec<Address>| v@),
            schedules: self.schedules@.map_values(|v: Vec<ReleaseTranche>| v@),
            released_index: self.released_index@,
            veto_timestamps: self.veto_timestamps@,
            veto_reasons: self.veto_reasons@,
            inspector_scores: self.inspector_scores@,
            inspector_appealed: self.inspector_appealed@,
            bounty_milestones: self.bounty_milestones@.map_values(|v: Vec<BountyMilestone>| v@),
            multi_buyers: self.multi_buyers@.map_values(|v: Vec<Address>| v@),
            buyer_shares: self.buyer_shares@.map_values(|m: HashMap<Address, i128>| m@),
            multi_buyer_approvals: self.multi_buyer_approvals@.map_values(|v: Vec<Address>| v@),
            accrued_fees: self.accrued_fees@,
        }
    }
}

/// The state of a freshly deployed contract at `me`.
pub open spec fn spec_new(me: Address) -> ContractView {
    ContractView {
        me: me,
        admin: None,
        version: 1,
        migrations_done: Map::empty(),
        paused: false,
        pause_reason: None,
        escrow_counter: 0,
        receipt_counter: 0,
        template_counter: 0,
        allowed_tokens: Map::empty(),
        allowlist_activated: false,
        protocol_fee_bps: 0,
        fee_recipient: None,
        arbiter_pool: None,
        next_arbiter_index: 0,
        default_dispute_timeout: DEFAULT_DISPUTE_TIMEOUT_SECONDS,
        default_arbiter_fee_bps: 0,
        oracle: None,
        max_oracle_age: DEFAULT_MAX_ORACLE_AGE_SECONDS,
        insurance_pool: 0,
        insurance_token: None,
        insurance_trigger_days: DEFAULT_INSURANCE_TRIGGER_DAYS,
        default_dispute_winner: DisputeDefaultWinner::Buyer,
        token_whitelist_contract: None,
        cancellation_penalty_bps: 0,
        cancellation_response_window: DEFAULT_CANCELLATION_RESPONSE_WINDOW,
        max_top_up_bps: 0,
        max_topup_multiplier: DEFAULT_MAX_TOPUP_MULTIPLIER,
        partial_release_response_deadline: DEFAULT_PARTIAL_RELEASE_RESPONSE_DEADLINE,
        seller_transfer_veto_window: DEFAULT_SELLER_TRANSFER_VETO_WINDOW,
        resolution_cooling_off_secs: 0,
        amendment_expiry_secs: DEFAULT_AMENDMENT_EXPIRY_SECONDS,
        veto_cooldown_secs: DEFAULT_VETO_COOLDOWN_SECONDS,
        max_bounty_rejection_rounds: DEFAULT_MAX_BOUNTY_REJECTION_ROUNDS,
        veto_override_window: DEFAULT_VETO_OVERRIDE_WINDOW_SECONDS,
        min_inspector_score_bps: 0,
        inspector_value_threshold: 0,
        escrows: Map::empty(),
        receipts: Map::empty(),
        receipt_of: Map::empty(),
        disputes: Map::empty(),
        dispute_started: Map::empty(),
        deadline_proposals: Map::empty(),
        templates: Map::empty(),
        arbiter_needs_replacement: Map::empty(),
        metadata: Map::empty(),
        evidence: Map::empty(),
        renewal_allowance: Map::empty(),
        insurance_confirmed: Map::empty(),
        insurance_claimed: Map::empty(),
        last_buyer_action: Map::empty(),
        milestones: Map::empty(),
        arbiter_timeouts: Map::empty(),
        timelocks: Map::empty(),
        cancellations: Map::empty(),
        pending_partial_release: Map::empty(),
        partial_release_counter: Map::empty(),
        seller_collateral: Map::empty(),
        seller_transfers: Map::empty(),
        rating_scores: Map::empty(),
        ratings_submitted: Map::empty(),
        pending_verdicts: Map::empty(),
        resolution_flags: Map::empty(),
        amendments: Map::empty(),
        amendment_nonce: Map::empty(),
        inspector_reports: Map::empty(),
        inspector_replacements: Map::empty(),
        renewal_history: Map::empty(),
        renewal_origin: Map::empty(),
        auto_renewal_cancelled: Map::empty(),
        share_delegates: Map::empty(),
        conditional_releases: Map::empty(),
        buyer_waiver_signed: Map::empty(),
        seller_waiver_signed: Map::empty(),
        bps_milestones: Map::empty(),
        seller_veto_last: Map::empty(),
        bounties: Map::empty(),
        collateral_min_ratio: Map::empty(),
        collateral_oracle: Map::empty(),
        approvers: Map::empty(),
        approval_threshold: Map::empty(),
        release_approvals: Map::empty(),
        schedules: Map::empty(),
        released_index: Map::empty(),
        veto_timestamps: Map::empty(),
        veto_reasons: Map::empty(),
        inspector_scores: Map::empty(),
        inspector_appealed: Map::empty(),
        bounty_milestones: Map::empty(),
        multi_buyers: Map::empty(),
        buyer_shares: Map::empty(),
        multi_buyer_approvals: Map::empty(),
        accrued_fees: Map::empty(),
    }
}

impl AhjoorEscrowContract {
    /// A freshly deployed contract at `me`.
    pub fn new(me: Address) -> (r: Self)
        ensures
            r@ == spec_new(me),
    {
        let r = AhjoorEscrowContract {
            me: me,
            admin: None,
            version: 1,
            migrations_done: HashMap::new(),
            paused: false,
            pause_reason: None,
            escrow_counter: 0,
            receipt_counter: 0,
            template_counter: 0,
            allowed_tokens: HashMap::new(),
            allowlist_activated: false,
            protocol_fee_bps: 0,
            fee_recipient: None,
            arbiter_pool: None,
            next_arbiter_index: 0,
            default_dispute_timeout: DEFAULT_DISPUTE_TIMEOUT_SECONDS,
            default_arbiter_fee_bps: 0,
            oracle: None,
            max_oracle_age: DEFAULT_MAX_ORACLE_AGE_SECONDS,
            insurance_pool: 0,
            insurance_token: None,
            insurance_trigger_days: DEFAULT_INSURANCE_TRIGGER_DAYS,
            default_dispute_winner: DisputeDefaultWinner::Buyer,
            token_whitelist_contract: None,
            cancellation_penalty_bps: 0,
            cancellation_response_window: DEFAULT_CANCELLATION_RESPONSE_WINDOW,
            max_top_up_bps: 0,
            max_topup_multiplier: DEFAULT_MAX_TOPUP_MULTIPLIER,
            partial_release_response_deadline: DEFAULT_PARTIAL_RELEASE_RESPONSE_DEADLINE,
            seller_transfer_veto_window: DEFAULT_SELLER_TRANSFER_VETO_WINDOW,
            resolution_cooling_off_secs: 0,
            amendment_expiry_secs: DEFAULT_AMENDMENT_EXPIRY_SECONDS,
            veto_cooldown_secs: DEFAULT_VETO_COOLDOWN_SECONDS,
            max_bounty_rejection_rounds: DEFAULT_MAX_BOUNTY_REJECTION_ROUNDS,
            veto_override_window: DEFAULT_VETO_OVERRIDE_WINDOW_SECONDS,
            min_inspector_score_bps: 0,
            inspector_value_threshold: 0,
            escrows: HashMap::new(),
            receipts: HashMap::new(),
            receipt_of: HashMap::new(),
            disputes: HashMap::new(),
            dispute_started: HashMap::new(),
            deadline_proposals: HashMap::new(),
            templates: HashMap::new(),
            arbiter_needs_replacement: HashMap::new(),
            metadata: HashMap::new(),
            evidence: HashMap::new(),
            renewal_allowance: HashMap::new(),
            insurance_confirmed: HashMap::new(),
            insurance_claimed: HashMap::new(),
            last_buyer_action: HashMap::new(),
            milestones: HashMap::new(),
            arbiter_timeouts: HashMap::new(),
            timelocks: HashMap::new(),
            cancellations: HashMap::new(),
            pending_partial_release: HashMap::new(),
            partial_release_counter: HashMap::new(),
            seller_collateral: HashMap::new(),
            seller_transfers: HashMap::new(),
            rating_scores: HashMap::new(),
            ratings_submitted: HashMap::new(),
            pending_verdicts: HashMap::new(),
            resolution_flags: HashMap::new(),
            amendments: HashMap::new(),
            amendment_nonce: HashMap::new(),
            inspector_reports: HashMap::new(),
            inspector_replacements: HashMap::new(),
            renewal_history: HashMap::new(),
            renewal_origin: HashMap::new(),
            auto_renewal_cancelled: HashMap::new(),
            share_delegates: HashMap::new(),
            conditional_releases: HashMap::new(),
            buyer_waiver_signed: HashMap::new(),
            seller_waiver_signed: HashMap::new(),
            bps_milestones: HashMap::new(),
            seller_veto_last: HashMap::new(),
            bounties: HashMap::new(),
            collateral_min_ratio: HashMap::new(),
            collateral_oracle: HashMap::new(),
            approvers: HashMap::new(),
            approval_threshold: HashMap::new(),
            release_approvals: HashMap::new(),
            schedules: HashMap::new(),
            released_index: HashMap::new(),
            veto_timestamps: HashMap::new(),
            veto_reasons: HashMap::new(),
            inspector_scores: HashMap::new(),
            inspector_appealed: HashMap::new(),
            bounty_milestones: HashMap::new(),
            multi_buyers: HashMap::new(),
            buyer_shares: HashMap::new(),
            multi_buyer_approvals: HashMap::new(),
            accrued_fees: HashMap::new(),
        };
        assert(r@ =~= spec_new(me));
        r
    }

    /// A copy of the whole state.
    pub fn snapshot(&self) -> (r: Self)
        ensures
            r@ == self@,
    {
        let r = AhjoorEscrowContract {
            me: self.me,
            admin: self.admin,
            version: self.version,
            migrations_done: self.migrations_done.clone(),
            paused: self.paused,
            pause_reason: self.pause_reason.clone(),
            escrow_counter: self.escrow_counter,
            receipt_counter: self.receipt_counter,
            template_counter: self.template_counter,
            allowed_tokens: self.allowed_tokens.clone(),
            allowlist_activated: self.allowlist_activated,
            protocol_fee_bps: self.protocol_fee_bps,
            fee_recipient: self.fee_recipient,
            arbiter_pool: self.arbiter_pool.clone(),
            next_arbiter_index: self.next_arbiter_index,
            default_dispute_timeout: self.default_dispute_timeout,
            default_arbiter_fee_bps: self.default_arbiter_fee_bps,
            oracle: self.oracle,
            max_oracle_age: self.max_oracle_age,
            insurance_pool: self.insurance_pool,
            insurance_token: self.insurance_token,
            insurance_trigger_days: self.insurance_trigger_days,
            default_dispute_winner: self.default_dispute_winner,
            token_whitelist_contract: self.token_whitelist_contract,
            cancellation_penalty_bps: self.cancellation_penalty_bps,
            cancellation_response_window: self.cancellation_response_window,
            max_top_up_bps: self.max_top_up_bps,
            max_topup_multiplier: self.max_topup_multiplier,
            partial_release_response_deadline: self.partial_release_response_deadline,
            seller_transfer_veto_window: self.seller_transfer_veto_window,
            resolution_cooling_off_secs: self.resolution_cooling_off_secs,
            amendment_expiry_secs: self.amendment_expiry_secs,
            veto_cooldown_secs: self.veto_cooldown_secs,
            max_bounty_rejection_rounds: self.max_bounty_rejection_rounds,
            veto_override_window: self.veto_override_window,
            min_inspector_score_bps: self.min_inspector_score_bps,
            inspector_value_threshold: self.inspector_value_threshold,
            escrows: self.escrows.clone(),
            receipts: self.receipts.clone(),
            receipt_of: self.receipt_of.clone(),
            disputes: self.disputes.clone(),
            dispute_started: self.dispute_started.clone(),
            deadline_proposals: self.deadline_proposals.clone(),
            templates: self.templates.clone(),
            arbiter_needs_replacement: self.arbiter_needs_replacement.clone(),
            metadata: self.metadata.clone(),
            evidence: self.evidence.clone(),
            renewal_allowance: self.renewal_allowance.clone(),
            insurance_confirmed: self.insurance_confirmed.clone(),
            insurance_claimed: self.insurance_claimed.clone(),
            last_buyer_action: self.last_buyer_action.clone(),
            milestones: self.milestones.clone(),
            arbiter_timeouts: self.arbiter_timeouts.clone(),
            timelocks: self.timelocks.clone(),
            cancellations: self.cancellations.clone(),
            pending_partial_release: self.pending_partial_release.clone(),
            partial_release_counter: self.partial_release_counter.clone(),
            seller_collateral: self.seller_collateral.clone(),
            seller_transfers: self.seller_transfers.clone(),
            rating_scores: self.rating_scores.clone(),
            ratings_submitted: self.ratings_submitted.clone(),
            pending_verdicts: self.pending_verdicts.clone(),
            resolution_flags: self.resolution_flags.clone(),
            amendments: self.amendments.clone(),
            amendment_nonce: self.amendment_nonce.clone(),
            inspector_reports: self.inspector_reports.clone(),
            inspector_replacements: self.inspector_replacements.clone(),
            renewal_history: self.renewal_history.clone(),
            renewal_origin: self.renewal_origin.clone(),
            auto_renewal_cancelled: self.auto_renewal_cancelled.clone(),
            share_delegates: self.share_delegates.clone(),
            conditional_releases: self.conditional_releases.clone(),
            buyer_waiver_signed: self.buyer_waiver_signed.clone(),
            seller_waiver_signed: self.seller_waiver_signed.clone(),
            bps_milestones: self.bps_milestones.clone(),
            seller_veto_last: self.seller_veto_last.clone(),
            bounties: self.bounties.clone(),
            collateral_min_ratio: self.collateral_min_ratio.clone(),
            collateral_oracle: self.collateral_oracle.clone(),
            approvers: self.approvers.clone(),
            approval_threshold: self.approval_threshold.clone(),
            release_approvals: self.release_approvals.clone(),
            schedules: self.schedules.clone(),
            released_index: self.released_index.clone(),
            veto_timestamps: self.veto_timestamps.clone(),
            veto_reasons: self.veto_reasons.clone(),
            inspector_scores: self.inspector_scores.clone(),
            inspector_appealed: self.inspector_appealed.clone(),
            bounty_milestones: self.bounty_milestones.clone(),
            multi_buyers: self.multi_buyers.clone(),
            buyer_shares: self.buyer_shares.clone(),
            multi_buyer_approvals: self.multi_buyer_approvals.clone(),
            accrued_fees: self.accrued_fees.clone(),
        };
        assert(r@ =~= self@);
        r
    }
}

} // verus!
