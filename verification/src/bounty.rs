//! Bounties: open work that a solver claims, delivers and is paid for, in one
//! payment or milestone by milestone.

use crate::common::{
    buyer_payout, fits_i128, get_vec, lemma_map_values_insert, lemma_map_values_lookup,
    named_admin_refusal, outcome, outcome_unit, outcome_with, xfer, Step, StepWith,
};
use crate::dispute::spec_record_disbursement;
use crate::errors::ContractError;
use crate::model::{
    Address, BountyData, BountyMilestone, BountyMilestoneInput, BountyMilestoneStatus, Escrow,
    EscrowExtensions, EscrowStatus, EscrowView, Hash32, Transfer,
};
use crate::release::with_status;
use crate::state::{AhjoorEscrowContract, ContractView};
use vstd::prelude::*;

verus! {

broadcast use vstd::std_specs::hash::group_hash_axioms;

/// The escrow record that holds a bounty's funds: the contract stands in for
/// the seller until a solver claims it, and for the arbiter.
pub open spec fn bounty_escrow(
    id: u32,
    buyer: Address,
    me: Address,
    token: Address,
    amount: i128,
    description_hash: Hash32,
    now: u64,
    submission_deadline: u64,
) -> EscrowView {
    EscrowView {
        id,
        buyer,
        seller: me,
        arbiter: me,
        amount,
        original_amount: amount,
        token,
        status: EscrowStatus::BountyUnclaimed,
        created_at: now,
        deadline: submission_deadline,
        metadata_hash: Some(description_hash),
        sellers: Seq::empty(),
        extensions: plain_extensions(),
        top_up_history: Seq::empty(),
        top_up_acknowledged: false,
    }
}

/// Extensions with every option off.
pub open spec fn plain_extensions() -> EscrowExtensions {
    EscrowExtensions {
        auto_renew: false,
        renewal_count: 0,
        renewals_remaining: 0,
        dispute_timeout_seconds: None,
        buyer_inactivity_secs: 0,
        min_lock_until: None,
        release_base: None,
        release_quote: None,
        release_comparison: None,
        release_threshold_price: None,
        arbiter_fee_bps: None,
        dispute_default_winner: None,
        required_collateral_bps: 0,
        collateral_forfeit_bps: 0,
        collateral_deposit_deadline: 0,
        collateral_amount: 0,
        delivery_proof_hash: None,
        inspector: None,
        auto_renew_max_renewals: None,
        auto_renew_interval_ledgers: None,
        renewals_completed: 0,
    }
}

pub open spec fn new_bounty_data(description_hash: Hash32, claim_deadline: u64, submission_deadline: u64) -> BountyData {
    BountyData {
        description_hash,
        claim_deadline_ledger: claim_deadline,
        submission_deadline_ledger: submission_deadline,
        solver: None,
        submission_hash: None,
        rejection_count: 0,
        fees_disbursed: 0,
    }
}

/// The refusal, if any, shared by both kinds of bounty creation after their
/// own checks: the external whitelist (when configured) must accept the token
/// and the id counter must not be exhausted.
pub open spec fn bounty_creation_refusal(pre: ContractView, whitelist_allows: bool) -> Option<ContractError> {
    if pre.token_whitelist_contract is Some && !whitelist_allows {
        Some(ContractError::TokenNotWhitelisted)
    } else if pre.escrow_counter == u32::MAX {
        Some(ContractError::Overflow)
    } else {
        None
    }
}

/// Posting a bounty of `amount`: the buyer pays it in, the bounty takes the
/// id after the escrow counter, and the counter moves to that id.
pub open spec fn spec_create_bounty(
    pre: ContractView,
    buyer: Address,
    token: Address,
    amount: i128,
    description_hash: Hash32,
    claim_deadline: u64,
    submission_deadline: u64,
    now: u64,
    whitelist_allows: bool,
) -> StepWith<u32> {
    if pre.paused {
        Err(ContractError::ContractIsPaused)
    } else if amount <= 0 {
        Err(ContractError::BountyAmountMustBePositive)
    } else if claim_deadline <= now {
        Err(ContractError::ClaimDeadlineMustBeFuture)
    } else if submission_deadline <= claim_deadline {
        Err(ContractError::SubmissionDeadlineMustBeAfterClaimDeadline)
    } else if let Some(x) = bounty_creation_refusal(pre, whitelist_allows) {
        Err(x)
    } else {
        let id = (pre.escrow_counter + 1) as u32;
        Ok(
            (
                ContractView {
                    escrows: pre.escrows.insert(
                        id,
                        bounty_escrow(id, buyer, pre.me, token, amount, description_hash, now, submission_deadline),
                    ),
                    escrow_counter: id,
                    bounties: pre.bounties.insert(
                        id,
                        new_bounty_data(description_hash, claim_deadline, submission_deadline),
                    ),
                    ..pre
                },
                seq![xfer(token, buyer, pre.me, amount)],
                id,
            ),
        )
    }
}

/// Sum of the first `n` milestone amounts.
pub open spec fn milestone_total(ms: Seq<BountyMilestoneInput>, n: int) -> int
    decreases n,
{
    if n <= 0 {
        0
    } else {
        milestone_total(ms, n - 1) + ms[n - 1].amount
    }
}

/// The first refusal met adding up the first `n` milestone amounts.
pub open spec fn milestone_amounts_refusal(ms: Seq<BountyMilestoneInput>, n: int) -> Option<ContractError>
    decreases n,
{
    if n <= 0 {
        None
    } else {
        match milestone_amounts_refusal(ms, n - 1) {
            Some(x) => Some(x),
            None => if ms[n - 1].amount <= 0 {
                Some(ContractError::MilestoneAmountMustBePositive)
            } else if !fits_i128(milestone_total(ms, n)) {
                Some(ContractError::Overflow)
            } else {
                None
            },
        }
    }
}

pub open spec fn pending_milestone(m: BountyMilestoneInput) -> BountyMilestone {
    BountyMilestone {
        description_hash: m.description_hash,
        verifier: m.verifier,
        amount: m.amount,
        status: BountyMilestoneStatus::Pending,
        deliverable_hash: None,
    }
}

/// Posting a bounty paid out milestone by milestone: the buyer pays in the sum
/// of the milestone amounts; the first milestone's hash describes the bounty.
pub open spec fn spec_create_milestone_bounty(
    pre: ContractView,
    buyer: Address,
    token: Address,
    milestones: Seq<BountyMilestoneInput>,
    claim_deadline: u64,
    submission_deadline: u64,
    now: u64,
    whitelist_allows: bool,
) -> StepWith<u32> {
    if pre.paused {
        Err(ContractError::ContractIsPaused)
    } else if milestones.len() == 0 {
        Err(ContractError::BountyMustHaveAtLeastOneMilestone)
    } else if claim_deadline <= now {
        Err(ContractError::ClaimDeadlineMustBeFuture)
    } else if submission_deadline <= claim_deadline {
        Err(ContractError::SubmissionDeadlineMustBeAfterClaimDeadline)
    } else if let Some(x) = milestone_amounts_refusal(milestones, milestones.len() as int) {
        Err(x)
    } else if let Some(x) = bounty_creation_refusal(pre, whitelist_allows) {
        Err(x)
    } else {
        let id = (pre.escrow_counter + 1) as u32;
        let total = milestone_total(milestones, milestones.len() as int) as i128;
        let desc = milestones[0].description_hash;
        Ok(
            (
                ContractView {
                    escrows: pre.escrows.insert(
                        id,
                        bounty_escrow(id, buyer, pre.me, token, total, desc, now, submission_deadline),
                    ),
                    escrow_counter: id,
                    bounties: pre.bounties.insert(
                        id,
                        new_bounty_data(desc, claim_deadline, submission_deadline),
                    ),
                    bounty_milestones: pre.bounty_milestones.insert(
                        id,
                        milestones.map_values(|m: BountyMilestoneInput| pending_milestone(m)),
                    ),
                    ..pre
                },
                seq![xfer(token, buyer, pre.me, total)],
                id,
            ),
        )
    }
}

/// A solver claiming an unclaimed bounty before its claim deadline.
pub open spec fn spec_claim_bounty(pre: ContractView, solver: Address, id: u32, now: u64) -> Step {
    if pre.paused {
        Err(ContractError::ContractIsPaused)
    } else if !pre.escrows.contains_key(id) {
        Err(ContractError::EscrowNotFound)
    } else if pre.escrows[id].status != EscrowStatus::BountyUnclaimed {
        Err(ContractError::BountyIsNotAvailableClaiming)
    } else if !pre.bounties.contains_key(id) {
        Err(ContractError::BountyDataNotFound)
    } else if now > pre.bounties[id].claim_deadline_ledger {
        Err(ContractError::ClaimDeadlineHasPassed)
    } else {
        let e = pre.escrows[id];
        Ok(
            (
                ContractView {
                    escrows: pre.escrows.insert(
                        id,
                        EscrowView { seller: solver, status: EscrowStatus::BountyClaimed, ..e },
                    ),
                    bounties: pre.bounties.insert(id, BountyData { solver: Some(solver), ..pre.bounties[id] }),
                    ..pre
                },
                Seq::empty(),
            ),
        )
    }
}

/// The solver handing in its work before the submission deadline.
pub open spec fn spec_submit_bounty_work(pre: ContractView, solver: Address, id: u32, submission_hash: Hash32, now: u64) -> Step {
    if pre.paused {
        Err(ContractError::ContractIsPaused)
    } else if !pre.escrows.contains_key(id) {
        Err(ContractError::EscrowNotFound)
    } else if pre.escrows[id].status != EscrowStatus::BountyClaimed {
        Err(ContractError::BountyIsNotClaimedStatus)
    } else if pre.escrows[id].seller != solver {
        Err(ContractError::OnlyAssignedSolverCanSubmitWork)
    } else if !pre.bounties.contains_key(id) {
        Err(ContractError::BountyDataNotFound)
    } else if now > pre.bounties[id].submission_deadline_ledger {
        Err(ContractError::SubmissionDeadlineHasPassed)
    } else {
        Ok(
            (
                ContractView {
                    bounties: pre.bounties.insert(
                        id,
                        BountyData { submission_hash: Some(submission_hash), ..pre.bounties[id] },
                    ),
                    ..pre
                },
                Seq::empty(),
            ),
        )
    }
}

/// The buyer accepting the submitted work: the whole bounty goes to the solver.
pub open spec fn spec_approve_bounty_submission(pre: ContractView, buyer: Address, id: u32) -> Step {
    if pre.paused {
        Err(ContractError::ContractIsPaused)
    } else if !pre.escrows.contains_key(id) {
        Err(ContractError::EscrowNotFound)
    } else if pre.escrows[id].buyer != buyer {
        Err(ContractError::OnlyBuyerCanApproveSubmission)
    } else if pre.escrows[id].status != EscrowStatus::BountyClaimed {
        Err(ContractError::BountyIsNotClaimedStatus)
    } else if !pre.bounties.contains_key(id) {
        Err(ContractError::BountyDataNotFound)
    } else if pre.bounties[id].submission_hash is None {
        Err(ContractError::NoSubmissionHasBeenMade)
    } else {
        let e = pre.escrows[id];
        Ok(
            (
                ContractView { escrows: pre.escrows.insert(id, with_status(e, EscrowStatus::Released)), ..pre },
                seq![xfer(e.token, pre.me, e.seller, e.amount)],
            ),
        )
    }
}

/// The buyer turning the submitted work down: the bounty is open again, as
/// long as the rounds of rejection allowed are not used up.
pub open spec fn spec_reject_bounty_submission(pre: ContractView, buyer: Address, id: u32) -> Step {
    if pre.paused {
        Err(ContractError::ContractIsPaused)
    } else if !pre.escrows.contains_key(id) {
        Err(ContractError::EscrowNotFound)
    } else if pre.escrows[id].buyer != buyer {
        Err(ContractError::OnlyBuyerCanRejectSubmission)
    } else if pre.escrows[id].status != EscrowStatus::BountyClaimed {
        Err(ContractError::BountyIsNotClaimedStatus)
    } else if !pre.bounties.contains_key(id) {
        Err(ContractError::BountyDataNotFound)
    } else if pre.bounties[id].rejection_count >= pre.max_bounty_rejection_rounds {
        Err(ContractError::MaximumRejectionRoundsReached)
    } else {
        let e = pre.escrows[id];
        let b = pre.bounties[id];
        Ok(
            (
                ContractView {
                    escrows: pre.escrows.insert(
                        id,
                        EscrowView { seller: pre.me, status: EscrowStatus::BountyUnclaimed, ..e },
                    ),
                    bounties: pre.bounties.insert(
                        id,
                        BountyData {
                            solver: None,
                            submission_hash: None,
                            rejection_count: (b.rejection_count + 1) as u32,
                            ..b
                        },
                    ),
                    ..pre
                },
                Seq::empty(),
            ),
        )
    }
}

/// The buyer withdrawing a bounty that is unclaimed, or claimed but past its
/// claim deadline: what was not yet paid out goes back to the buyer(s).
pub open spec fn spec_cancel_bounty(pre: ContractView, buyer: Address, id: u32, now: u64) -> Step {
    if pre.paused {
        Err(ContractError::ContractIsPaused)
    } else if !pre.escrows.contains_key(id) {
        Err(ContractError::EscrowNotFound)
    } else if pre.escrows[id].buyer != buyer {
        Err(ContractError::OnlyBuyerCanCancelBounty)
    } else if !pre.bounties.contains_key(id) {
        Err(ContractError::BountyDataNotFound)
    } else {
        let e = pre.escrows[id];
        let b = pre.bounties[id];
        let refund = e.amount - b.fees_disbursed;
        if !(e.status == EscrowStatus::BountyUnclaimed || (e.status == EscrowStatus::BountyClaimed
            && now > b.claim_deadline_ledger)) {
            Err(ContractError::CannotCancelBountyCurrentState)
        } else if !fits_i128(refund) {
            Err(ContractError::DisbursedFeesExceedBountyAmount)
        } else {
            let pay = if refund > 0 {
                buyer_payout(pre, id, e, refund as i128)
            } else {
                Some(Seq::empty())
            };
            match pay {
                None => Err(ContractError::Overflow),
                Some(ts) => Ok(
                    (
                        ContractView {
                            escrows: pre.escrows.insert(id, with_status(e, EscrowStatus::Refunded)),
                            ..pre
                        },
                        ts,
                    ),
                ),
            }
        }
    }
}

/// Admin setting how many times a bounty's work may be rejected.
pub open spec fn spec_set_max_bounty_rejection_rounds(pre: ContractView, admin: Address, max_rounds: u32) -> Step {
    if pre.paused {
        Err(ContractError::ContractIsPaused)
    } else if let Some(x) = named_admin_refusal(
        pre,
        admin,
        ContractError::OnlyAdminCanSetMaxBountyRejectionRounds,
    ) {
        Err(x)
    } else {
        Ok((ContractView { max_bounty_rejection_rounds: max_rounds, ..pre }, Seq::empty()))
    }
}

/// Whether every milestone before `index` is paid.
pub open spec fn earlier_paid(ms: Seq<BountyMilestone>, index: int) -> bool {
    forall|k: int| 0 <= k < index ==> #[trigger] ms[k].status == BountyMilestoneStatus::Paid
}

/// The solver handing in the deliverable of milestone `index`, in order.
pub open spec fn spec_submit_bounty_milestone(
    pre: ContractView,
    solver: Address,
    id: u32,
    index: u32,
    deliverable_hash: Hash32,
    now: u64,
) -> Step {
    if pre.paused {
        Err(ContractError::ContractIsPaused)
    } else if !pre.escrows.contains_key(id) {
        Err(ContractError::EscrowNotFound)
    } else if pre.escrows[id].status != EscrowStatus::BountyClaimed {
        Err(ContractError::BountyMustBeClaimedBeforeSubmittingMilestones)
    } else if pre.escrows[id].seller != solver {
        Err(ContractError::OnlySolverCanSubmitMilestones)
    } else if now > pre.escrows[id].deadline {
        Err(ContractError::SubmissionDeadlineHasPassed)
    } else if !pre.bounty_milestones.contains_key(id) {
        Err(ContractError::NoMilestonesForBounty)
    } else {
        let ms = pre.bounty_milestones[id];
        if index >= ms.len() {
            Err(ContractError::MilestoneIndexOutBounds)
        } else if !earlier_paid(ms, index as int) {
            Err(ContractError::PreviousMilestoneNotYetVerified)
        } else if ms[index as int].status != BountyMilestoneStatus::Pending {
            Err(ContractError::MilestoneIsNotAwaitingSubmission)
        } else {
            let m = BountyMilestone {
                status: BountyMilestoneStatus::Submitted,
                deliverable_hash: Some(deliverable_hash),
                ..ms[index as int]
            };
            Ok(
                (
                    ContractView {
                        bounty_milestones: pre.bounty_milestones.insert(id, ms.update(index as int, m)),
                        ..pre
                    },
                    Seq::empty(),
                ),
            )
        }
    }
}

/// The milestone's verifier signing it off: its tranche goes to the solver and
/// counts as paid out of the bounty; the bounty is released once every
/// milestone is paid.
pub open spec fn spec_verify_bounty_milestone(pre: ContractView, id: u32, index: u32) -> Step {
    if pre.paused {
        Err(ContractError::ContractIsPaused)
    } else if !pre.escrows.contains_key(id) {
        Err(ContractError::EscrowNotFound)
    } else if pre.escrows[id].status != EscrowStatus::BountyClaimed {
        Err(ContractError::BountyIsNotClaimedStatus)
    } else if !pre.bounty_milestones.contains_key(id) {
        Err(ContractError::NoMilestonesForBounty)
    } else {
        let ms = pre.bounty_milestones[id];
        let e = pre.escrows[id];
        if index >= ms.len() {
            Err(ContractError::MilestoneIndexOutRange)
        } else if ms[index as int].status != BountyMilestoneStatus::Submitted {
            Err(ContractError::MilestoneIsNotAwaitingVerification)
        } else {
            let m = ms[index as int];
            match spec_record_disbursement(pre, id, m.amount) {
                None => Err(ContractError::Overflow),
                Some(s1) => {
                    let ms2 = ms.update(
                        index as int,
                        BountyMilestone { status: BountyMilestoneStatus::Paid, ..m },
                    );
                    let all_paid = earlier_paid(ms2, ms2.len() as int);
                    Ok(
                        (
                            ContractView {
                                bounty_milestones: s1.bounty_milestones.insert(id, ms2),
                                escrows: if all_paid {
                                    s1.escrows.insert(id, with_status(e, EscrowStatus::Released))
                                } else {
                                    s1.escrows
                                },
                                ..s1
                            },
                            seq![xfer(e.token, pre.me, e.seller, m.amount)],
                        ),
                    )
                },
            }
        }
    }
}

/// The bounty's creator naming another verifier for a milestone that has not
/// been submitted yet.
pub open spec fn spec_replace_bounty_verifier(
    pre: ContractView,
    buyer: Address,
    id: u32,
    index: u32,
    new_verifier: Address,
) -> Step {
    if pre.paused {
        Err(ContractError::ContractIsPaused)
    } else if !pre.escrows.contains_key(id) {
        Err(ContractError::EscrowNotFound)
    } else if pre.escrows[id].buyer != buyer {
        Err(ContractError::OnlyBountyCreatorCanReplaceVerifier)
    } else if !pre.bounty_milestones.contains_key(id) {
        Err(ContractError::NoMilestonesForBounty)
    } else {
        let ms = pre.bounty_milestones[id];
        if index >= ms.len() {
            Err(ContractError::MilestoneIndexOutRange)
        } else if ms[index as int].status != BountyMilestoneStatus::Pending {
            Err(ContractError::VerifierCanOnlyBeReplacedBeforeMilestoneIsSubmitted)
        } else {
            Ok(
                (
                    ContractView {
                        bounty_milestones: pre.bounty_milestones.insert(
                            id,
                            ms.update(index as int, BountyMilestone { verifier: new_verifier, ..ms[index as int] }),
                        ),
                        ..pre
                    },
                    Seq::empty(),
                ),
            )
        }
    }
}

proof fn lemma_amounts_refusal_stays(ms: Seq<BountyMilestoneInput>, i: int, n: int)
    requires
        0 <= i <= n,
        milestone_amounts_refusal(ms, i) is Some,
    ensures
        milestone_amounts_refusal(ms, n) == milestone_amounts_refusal(ms, i),
    decreases n - i,
{
    if i < n {
        lemma_amounts_refusal_stays(ms, i, n - 1);
    }
}

impl AhjoorEscrowContract {
    fn plain_extensions() -> (r: EscrowExtensions)
        ensures
            r == plain_extensions(),
    {
        EscrowExtensions {
            auto_renew: false,
            renewal_count: 0,
            renewals_remaining: 0,
            dispute_timeout_seconds: None,
            buyer_inactivity_secs: 0,
            min_lock_until: None,
            release_base: None,
            release_quote: None,
            release_comparison: None,
            release_threshold_price: None,
            arbiter_fee_bps: None,
            dispute_default_winner: None,
            required_collateral_bps: 0,
            collateral_forfeit_bps: 0,
            collateral_deposit_deadline: 0,
            collateral_amount: 0,
            delivery_proof_hash: None,
            inspector: None,
            auto_renew_max_renewals: None,
            auto_renew_interval_ledgers: None,
            renewals_completed: 0,
        }
    }

    /// Stores a new bounty escrow under the id after the escrow counter.
    fn open_bounty(
        &mut self,
        buyer: Address,
        token: Address,
        amount: i128,
        description_hash: Hash32,
        claim_deadline: u64,
        submission_deadline: u64,
        now: u64,
    ) -> (id: u32)
        requires
            old(self).escrow_counter < u32::MAX,
        ensures
            id == old(self).escrow_counter + 1,
            final(self)@ == (ContractView {
                escrows: old(self)@.escrows.insert(
                    id,
                    bounty_escrow(id, buyer, old(self)@.me, token, amount, description_hash, now, submission_deadline),
                ),
                escrow_counter: id,
                bounties: old(self)@.bounties.insert(
                    id,
                    new_bounty_data(description_hash, claim_deadline, submission_deadline),
                ),
                ..old(self)@
            }),
    {
        let id = self.escrow_counter + 1;
        self.escrow_counter = id;
        let e = Escrow {
            id,
            buyer,
            seller: self.me,
            arbiter: self.me,
            amount,
            original_amount: amount,
            token,
            status: EscrowStatus::BountyUnclaimed,
            created_at: now,
            deadline: submission_deadline,
            metadata_hash: Some(description_hash),
            sellers: Vec::new(),
            extensions: Self::plain_extensions(),
            top_up_history: Vec::new(),
            top_up_acknowledged: false,
        };
        self.put_escrow(id, e);
        self.bounties.insert(
            id,
            BountyData {
                description_hash,
                claim_deadline_ledger: claim_deadline,
                submission_deadline_ledger: submission_deadline,
                solver: None,
                submission_hash: None,
                rejection_count: 0,
                fees_disbursed: 0,
            },
        );
        proof {
            assert(e@ == bounty_escrow(id, buyer, self.me, token, amount, description_hash, now, submission_deadline));
        }
        assert(self@ =~= ContractView {
            escrows: old(self)@.escrows.insert(
                id,
                bounty_escrow(id, buyer, old(self)@.me, token, amount, description_hash, now, submission_deadline),
            ),
            escrow_counter: id,
            bounties: old(self)@.bounties.insert(
                id,
                new_bounty_data(description_hash, claim_deadline, submission_deadline),
            ),
            ..old(self)@
        });
        id
    }

    /// Posts a bounty of `amount` in `token`, paid in by `buyer`.
    /// `whitelist_allows` is the external token whitelist's answer for `token`,
    /// when one is configured. Returns the bounty's escrow id.
    pub fn create_bounty(
        &mut self,
        buyer: Address,
        token: Address,
        amount: i128,
        description_hash: Hash32,
        claim_deadline_ledger: u64,
        submission_deadline_ledger: u64,
        now: u64,
        whitelist_allows: bool,
    ) -> (r: Result<(u32, Vec<Transfer>), ContractError>)
        ensures
            spec_create_bounty(
                old(self)@,
                buyer,
                token,
                amount,
                description_hash,
                claim_deadline_ledger,
                submission_deadline_ledger,
                now,
                whitelist_allows,
            ) == outcome_with(r, final(self)@),
            r is Err ==> final(self)@ == old(self)@,
    {
        if self.paused {
            return Err(ContractError::ContractIsPaused);
        }
        if amount <= 0 {
            return Err(ContractError::BountyAmountMustBePositive);
        }
        if claim_deadline_ledger <= now {
            return Err(ContractError::ClaimDeadlineMustBeFuture);
        }
        if submission_deadline_ledger <= claim_deadline_ledger {
            return Err(ContractError::SubmissionDeadlineMustBeAfterClaimDeadline);
        }
        if self.token_whitelist_contract.is_some() && !whitelist_allows {
            return Err(ContractError::TokenNotWhitelisted);
        }
        if self.escrow_counter == u32::MAX {
            return Err(ContractError::Overflow);
        }
        let me = self.me;
        let id = self.open_bounty(
            buyer,
            token,
            amount,
            description_hash,
            claim_deadline_ledger,
            submission_deadline_ledger,
            now,
        );
        let mut ts = Vec::new();
        ts.push(Transfer { token, from: buyer, to: me, amount, by_allowance: false });
        assert(ts@ =~= seq![xfer(token, buyer, me, amount)]);
        Ok((id, ts))
    }

    /// Posts a bounty paid out milestone by milestone, each milestone signed
    /// off by its own verifier. The buyer pays in the sum of the amounts.
    #[verifier::loop_isolation(false)]
    pub fn create_milestone_bounty(
        &mut self,
        buyer: Address,
        token: Address,
        milestones: Vec<BountyMilestoneInput>,
        claim_deadline_ledger: u64,
        submission_deadline_ledger: u64,
        now: u64,
        whitelist_allows: bool,
    ) -> (r: Result<(u32, Vec<Transfer>), ContractError>)
        ensures
            spec_create_milestone_bounty(
                old(self)@,
                buyer,
                token,
                milestones@,
                claim_deadline_ledger,
                submission_deadline_ledger,
                now,
                whitelist_allows,
            ) == outcome_with(r, final(self)@),
            r is Err ==> final(self)@ == old(self)@,
    {
        let ghost pre = self@;
        let ghost ms = milestones@;
        if self.paused {
            return Err(ContractError::ContractIsPaused);
        }
        let n = milestones.len();
        if n == 0 {
            return Err(ContractError::BountyMustHaveAtLeastOneMilestone);
        }
        if claim_deadline_ledger <= now {
            return Err(ContractError::ClaimDeadlineMustBeFuture);
        }
        if submission_deadline_ledger <= claim_deadline_ledger {
            return Err(ContractError::SubmissionDeadlineMustBeAfterClaimDeadline);
        }
        let mut total: i128 = 0;
        let mut states: Vec<BountyMilestone> = Vec::new();
        let mut i: usize = 0;
        while i < n
            invariant
                0 <= i <= n,
                n == ms.len(),
                ms == milestones@,
                milestone_amounts_refusal(ms, i as int) is None,
                total == milestone_total(ms, i as int),
                states@ == ms.subrange(0, i as int).map_values(|m: BountyMilestoneInput| pending_milestone(m)),
                self@ == pre,
            decreases n - i,
        {
            let m = milestones[i];
            if m.amount <= 0 {
                proof {
                    lemma_amounts_refusal_stays(ms, i as int + 1, n as int);
                }
                return Err(ContractError::MilestoneAmountMustBePositive);
            }
            total = match total.checked_add(m.amount) {
                Some(t) => t,
                None => {
                    proof {
                        lemma_amounts_refusal_stays(ms, i as int + 1, n as int);
                    }
                    return Err(ContractError::Overflow);
                },
            };
            states.push(
                BountyMilestone {
                    description_hash: m.description_hash,
                    verifier: m.verifier,
                    amount: m.amount,
                    status: BountyMilestoneStatus::Pending,
                    deliverable_hash: None,
                },
            );
            i = i + 1;
            assert(states@ =~= ms.subrange(0, i as int).map_values(
                |m: BountyMilestoneInput| pending_milestone(m),
            ));
        }
        assert(ms.subrange(0, n as int) =~= ms);
        if self.token_whitelist_contract.is_some() && !whitelist_allows {
            return Err(ContractError::TokenNotWhitelisted);
        }
        if self.escrow_counter == u32::MAX {
            return Err(ContractError::Overflow);
        }
        let me = self.me;
        let desc = milestones[0].description_hash;
        let id = self.open_bounty(
            buyer,
            token,
            total,
            desc,
            claim_deadline_ledger,
            submission_deadline_ledger,
            now,
        );
        proof {
            lemma_map_values_insert(self.bounty_milestones@, id, states, |v: Vec<BountyMilestone>| v@);
        }
        self.bounty_milestones.insert(id, states);
        let mut ts = Vec::new();
        ts.push(Transfer { token, from: buyer, to: me, amount: total, by_allowance: false });
        proof {
            let (sp, st, sid) = spec_create_milestone_bounty(
                pre,
                buyer,
                token,
                ms,
                claim_deadline_ledger,
                submission_deadline_ledger,
                now,
                whitelist_allows,
            )->Ok_0;
            assert(self@ =~= sp);
            assert(ts@ =~= st);
        }
        Ok((id, ts))
    }

    /// A solver claims an unclaimed bounty before its claim deadline.
    pub fn claim_bounty(&mut self, solver: Address, escrow_id: u32, now: u64) -> (r: Result<(), ContractError>)
        ensures
            spec_claim_bounty(old(self)@, solver, escrow_id, now) == outcome_unit(r, final(self)@),
            r is Err ==> final(self)@ == old(self)@,
    {
        let id = escrow_id;
        if self.paused {
            return Err(ContractError::ContractIsPaused);
        }
        let e = self.find_escrow(id)?;
        if e.status != EscrowStatus::BountyUnclaimed {
            return Err(ContractError::BountyIsNotAvailableClaiming);
        }
        let b = match self.bounties.get(&id) {
            Some(b) => *b,
            None => return Err(ContractError::BountyDataNotFound),
        };
        if now > b.claim_deadline_ledger {
            return Err(ContractError::ClaimDeadlineHasPassed);
        }
        let ghost pre = self@;
        let mut e = self.take_escrow(id);
        e.seller = solver;
        e.status = EscrowStatus::BountyClaimed;
        self.put_escrow(id, e);
        self.bounties.insert(id, BountyData { solver: Some(solver), ..b });
        assert(self@ =~= spec_claim_bounty(pre, solver, id, now)->Ok_0.0);
        Ok(())
    }

    /// The solver hands in its work.
    pub fn submit_bounty_work(&mut self, solver: Address, escrow_id: u32, submission_hash: Hash32, now: u64) -> (r:
        Result<(), ContractError>)
        ensures
            spec_submit_bounty_work(old(self)@, solver, escrow_id, submission_hash, now) == outcome_unit(
                r,
                final(self)@,
            ),
            r is Err ==> final(self)@ == old(self)@,
    {
        let id = escrow_id;
        if self.paused {
            return Err(ContractError::ContractIsPaused);
        }
        let e = self.find_escrow(id)?;
        if e.status != EscrowStatus::BountyClaimed {
            return Err(ContractError::BountyIsNotClaimedStatus);
        }
        if e.seller != solver {
            return Err(ContractError::OnlyAssignedSolverCanSubmitWork);
        }
        let b = match self.bounties.get(&id) {
            Some(b) => *b,
            None => return Err(ContractError::BountyDataNotFound),
        };
        if now > b.submission_deadline_ledger {
            return Err(ContractError::SubmissionDeadlineHasPassed);
        }
        self.bounties.insert(id, BountyData { submission_hash: Some(submission_hash), ..b });
        Ok(())
    }

    /// The buyer accepts the submitted work; the whole bounty goes to the solver.
    pub fn approve_bounty_submission(&mut self, buyer: Address, escrow_id: u32) -> (r: Result<
        Vec<Transfer>,
        ContractError,
    >)
        ensures
            spec_approve_bounty_submission(old(self)@, buyer, escrow_id) == outcome(r, final(self)@),
            r is Err ==> final(self)@ == old(self)@,
    {
        let id = escrow_id;
        if self.paused {
            return Err(ContractError::ContractIsPaused);
        }
        let e = self.find_escrow(id)?;
        if e.buyer != buyer {
            return Err(ContractError::OnlyBuyerCanApproveSubmission);
        }
        if e.status != EscrowStatus::BountyClaimed {
            return Err(ContractError::BountyIsNotClaimedStatus);
        }
        let b = match self.bounties.get(&id) {
            Some(b) => *b,
            None => return Err(ContractError::BountyDataNotFound),
        };
        if b.submission_hash.is_none() {
            return Err(ContractError::NoSubmissionHasBeenMade);
        }
        let ghost pre = self@;
        let mut ts = Vec::new();
        ts.push(Transfer { token: e.token, from: self.me, to: e.seller, amount: e.amount, by_allowance: false });
        let mut e = self.take_escrow(id);
        e.status = EscrowStatus::Released;
        self.put_escrow(id, e);
        proof {
            let (sp, st) = spec_approve_bounty_submission(pre, buyer, id)->Ok_0;
            assert(self@ =~= sp);
            assert(ts@ =~= st);
        }
        Ok(ts)
    }

    /// The buyer turns the submitted work down and the bounty opens again.
    pub fn reject_bounty_submission(&mut self, buyer: Address, escrow_id: u32) -> (r: Result<(), ContractError>)
        ensures
            spec_reject_bounty_submission(old(self)@, buyer, escrow_id) == outcome_unit(r, final(self)@),
            r is Err ==> final(self)@ == old(self)@,
    {
        let id = escrow_id;
        if self.paused {
            return Err(ContractError::ContractIsPaused);
        }
        let e = self.find_escrow(id)?;
        if e.buyer != buyer {
            return Err(ContractError::OnlyBuyerCanRejectSubmission);
        }
        if e.status != EscrowStatus::BountyClaimed {
            return Err(ContractError::BountyIsNotClaimedStatus);
        }
        let b = match self.bounties.get(&id) {
            Some(b) => *b,
            None => return Err(ContractError::BountyDataNotFound),
        };
        if b.rejection_count >= self.max_bounty_rejection_rounds {
            return Err(ContractError::MaximumRejectionRoundsReached);
        }
        let ghost pre = self@;
        let me = self.me;
        let mut e = self.take_escrow(id);
        e.seller = me;
        e.status = EscrowStatus::BountyUnclaimed;
        self.put_escrow(id, e);
        self.bounties.insert(
            id,
            BountyData { solver: None, submission_hash: None, rejection_count: b.rejection_count + 1, ..b },
        );
        assert(self@ =~= spec_reject_bounty_submission(pre, buyer, id)->Ok_0.0);
        Ok(())
    }

    /// The buyer withdraws a bounty that is unclaimed, or claimed but past
    /// its claim deadline; what was not paid out goes back.
    pub fn cancel_bounty(&mut self, buyer: Address, escrow_id: u32, now: u64) -> (r: Result<
        Vec<Transfer>,
        ContractError,
    >)
        ensures
            spec_cancel_bounty(old(self)@, buyer, escrow_id, now) == outcome(r, final(self)@),
            r is Err ==> final(self)@ == old(self)@,
    {
        let id = escrow_id;
        if self.paused {
            return Err(ContractError::ContractIsPaused);
        }
        let e = self.find_escrow(id)?;
        if e.buyer != buyer {
            return Err(ContractError::OnlyBuyerCanCancelBounty);
        }
        let b = match self.bounties.get(&id) {
            Some(b) => *b,
            None => return Err(ContractError::BountyDataNotFound),
        };
        if !(e.status == EscrowStatus::BountyUnclaimed || (e.status == EscrowStatus::BountyClaimed
            && now > b.claim_deadline_ledger)) {
            return Err(ContractError::CannotCancelBountyCurrentState);
        }
        let refund = match e.amount.checked_sub(b.fees_disbursed) {
            Some(v) => v,
            None => return Err(ContractError::DisbursedFeesExceedBountyAmount),
        };
        let ghost pre = self@;
        let ts = if refund > 0 {
            match self.transfer_to_buyers(id, e, refund) {
                Some(v) => v,
                None => return Err(ContractError::Overflow),
            }
        } else {
            Vec::new()
        };
        let mut e = self.take_escrow(id);
        e.status = EscrowStatus::Refunded;
        self.put_escrow(id, e);
        proof {
            let (sp, st) = spec_cancel_bounty(pre, buyer, id, now)->Ok_0;
            assert(self@ =~= sp);
            assert(ts@ =~= st);
        }
        Ok(ts)
    }

    /// Admin sets how many times a bounty's work may be rejected.
    pub fn set_max_bounty_rejection_rounds(&mut self, admin: Address, max_rounds: u32) -> (r: Result<
        (),
        ContractError,
    >)
        ensures
            spec_set_max_bounty_rejection_rounds(old(self)@, admin, max_rounds) == outcome_unit(
                r,
                final(self)@,
            ),
            r is Err ==> final(self)@ == old(self)@,
    {
        if self.paused {
            return Err(ContractError::ContractIsPaused);
        }
        self.check_named_admin(admin, ContractError::OnlyAdminCanSetMaxBountyRejectionRounds)?;
        self.max_bounty_rejection_rounds = max_rounds;
        Ok(())
    }

    /// The bounty record of an escrow, if it is a bounty.
    pub fn get_bounty_data(&self, escrow_id: u32) -> (r: Option<BountyData>)
        ensures
            r == (if self@.bounties.contains_key(escrow_id) {
                Some(self@.bounties[escrow_id])
            } else {
                None::<BountyData>
            }),
    {
        match self.bounties.get(&escrow_id) {
            Some(b) => Some(*b),
            None => None,
        }
    }

    /// The milestones of a bounty, as a copy.
    fn bounty_milestones_of(&self, id: u32) -> (r: Option<Vec<BountyMilestone>>)
        ensures
            match r {
                Some(v) => self@.bounty_milestones.contains_key(id) && v@ == self@.bounty_milestones[id],
                None => !self@.bounty_milestones.contains_key(id),
            },
    {
        proof {
            lemma_map_values_lookup(self.bounty_milestones@, |v: Vec<BountyMilestone>| v@);
        }
        get_vec(&self.bounty_milestones, id)
    }

    fn store_bounty_milestones(&mut self, id: u32, v: Vec<BountyMilestone>)
        ensures
            final(self)@ == (ContractView {
                bounty_milestones: old(self)@.bounty_milestones.insert(id, v@),
                ..old(self)@
            }),
    {
        proof {
            lemma_map_values_insert(self.bounty_milestones@, id, v, |v: Vec<BountyMilestone>| v@);
        }
        self.bounty_milestones.insert(id, v);
        assert(self@ =~= ContractView {
            bounty_milestones: old(self)@.bounty_milestones.insert(id, v@),
            ..old(self)@
        });
    }

    /// The solver hands in the deliverable of milestone `index`; milestones go
    /// strictly in order.
    #[verifier::loop_isolation(false)]
    pub fn submit_bounty_milestone(
        &mut self,
        solver: Address,
        escrow_id: u32,
        index: u32,
        deliverable_hash: Hash32,
        now: u64,
    ) -> (r: Result<(), ContractError>)
        ensures
            spec_submit_bounty_milestone(old(self)@, solver, escrow_id, index, deliverable_hash, now)
                == outcome_unit(r, final(self)@),
            r is Err ==> final(self)@ == old(self)@,
    {
        let id = escrow_id;
        if self.paused {
            return Err(ContractError::ContractIsPaused);
        }
        let e = self.find_escrow(id)?;
        if e.status != EscrowStatus::BountyClaimed {
            return Err(ContractError::BountyMustBeClaimedBeforeSubmittingMilestones);
        }
        if e.seller != solver {
            return Err(ContractError::OnlySolverCanSubmitMilestones);
        }
        if now > e.deadline {
            return Err(ContractError::SubmissionDeadlineHasPassed);
        }
        let mut ms = match self.bounty_milestones_of(id) {
            Some(v) => v,
            None => return Err(ContractError::NoMilestonesForBounty),
        };
        if index as usize >= ms.len() {
            return Err(ContractError::MilestoneIndexOutBounds);
        }
        let mut k: usize = 0;
        while k < index as usize
            invariant
                0 <= k <= index,
                index < ms@.len(),
                earlier_paid(ms@, k as int),
            decreases index - k,
        {
            if ms[k].status != BountyMilestoneStatus::Paid {
                assert(!earlier_paid(ms@, index as int)) by {
                    assert(ms@[k as int].status != BountyMilestoneStatus::Paid);
                }
                return Err(ContractError::PreviousMilestoneNotYetVerified);
            }
            k = k + 1;
        }
        let m = ms[index as usize];
        if m.status != BountyMilestoneStatus::Pending {
            return Err(ContractError::MilestoneIsNotAwaitingSubmission);
        }
        ms.set(
            index as usize,
            BountyMilestone { status: BountyMilestoneStatus::Submitted, deliverable_hash: Some(deliverable_hash), ..m },
        );
        self.store_bounty_milestones(id, ms);
        Ok(())
    }

    /// The verifier of milestone `index` signs it off: its tranche goes to
    /// the solver. The verifier's signature is checked by the host.
    #[verifier::loop_isolation(false)]
    pub fn verify_bounty_milestone(&mut self, escrow_id: u32, index: u32) -> (r: Result<
        Vec<Transfer>,
        ContractError,
    >)
        ensures
            spec_verify_bounty_milestone(old(self)@, escrow_id, index) == outcome(r, final(self)@),
            r is Err ==> final(self)@ == old(self)@,
    {
        let id = escrow_id;
        if self.paused {
            return Err(ContractError::ContractIsPaused);
        }
        let e = self.find_escrow(id)?;
        if e.status != EscrowStatus::BountyClaimed {
            return Err(ContractError::BountyIsNotClaimedStatus);
        }
        let mut ms = match self.bounty_milestones_of(id) {
            Some(v) => v,
            None => return Err(ContractError::NoMilestonesForBounty),
        };
        if index as usize >= ms.len() {
            return Err(ContractError::MilestoneIndexOutRange);
        }
        let m = ms[index as usize];
        if m.status != BountyMilestoneStatus::Submitted {
            return Err(ContractError::MilestoneIsNotAwaitingVerification);
        }
        if !self.bounty_disbursement_fits(id, m.amount) {
            return Err(ContractError::Overflow);
        }
        let ghost pre = self@;
        let mut ts = Vec::new();
        ts.push(Transfer { token: e.token, from: self.me, to: e.seller, amount: m.amount, by_allowance: false });
        self.record_bounty_disbursement(id, m.amount);
        ms.set(index as usize, BountyMilestone { status: BountyMilestoneStatus::Paid, ..m });
        let mut all_paid = true;
        let mut j: usize = 0;
        while j < ms.len()
            invariant
                0 <= j <= ms@.len(),
                all_paid == earlier_paid(ms@, j as int),
            decreases ms@.len() - j,
        {
            if ms[j].status != BountyMilestoneStatus::Paid {
                all_paid = false;
            }
            j = j + 1;
        }
        self.store_bounty_milestones(id, ms);
        if all_paid {
            let mut e = self.take_escrow(id);
            e.status = EscrowStatus::Released;
            self.put_escrow(id, e);
        }
        proof {
            let (sp, st) = spec_verify_bounty_milestone(pre, id, index)->Ok_0;
            assert(self@ =~= sp);
            assert(ts@ =~= st);
        }
        Ok(ts)
    }

    /// The bounty's creator names another verifier for a milestone that has
    /// not been submitted yet.
    pub fn replace_bounty_verifier(
        &mut self,
        buyer: Address,
        escrow_id: u32,
        index: u32,
        new_verifier: Address,
    ) -> (r: Result<(), ContractError>)
        ensures
            spec_replace_bounty_verifier(old(self)@, buyer, escrow_id, index, new_verifier) == outcome_unit(
                r,
                final(self)@,
            ),
            r is Err ==> final(self)@ == old(self)@,
    {
        let id = escrow_id;
        if self.paused {
            return Err(ContractError::ContractIsPaused);
        }
        let e = self.find_escrow(id)?;
        if e.buyer != buyer {
            return Err(ContractError::OnlyBountyCreatorCanReplaceVerifier);
        }
        let mut ms = match self.bounty_milestones_of(id) {
            Some(v) => v,
            None => return Err(ContractError::NoMilestonesForBounty),
        };
        if index as usize >= ms.len() {
            return Err(ContractError::MilestoneIndexOutRange);
        }
        let m = ms[index as usize];
        if m.status != BountyMilestoneStatus::Pending {
            return Err(ContractError::VerifierCanOnlyBeReplacedBeforeMilestoneIsSubmitted);
        }
        ms.set(index as usize, BountyMilestone { verifier: new_verifier, ..m });
        self.store_bounty_milestones(id, ms);
        Ok(())
    }

    /// The milestones of a milestone-gated bounty.
    pub fn get_bounty_milestones(&self, escrow_id: u32) -> (r: Result<Vec<BountyMilestone>, ContractError>)
        ensures
            match r {
                Ok(v) => self@.bounty_milestones.contains_key(escrow_id) && v@ == self@.bounty_milestones[escrow_id],
                Err(x) => !self@.bounty_milestones.contains_key(escrow_id) && x == ContractError::NoMilestonesForBounty,
            },
    {
        match self.bounty_milestones_of(escrow_id) {
            Some(v) => Ok(v),
            None => Err(ContractError::NoMilestonesForBounty),
        }
    }
}

} // verus!
