//! Disputes: raising them, the arbiter's verdict, its cooling-off window,
//! escalation and the timeout that settles unanswered disputes.

use crate::common::{
    buyer_payout, fits_i128, lemma_map_values_insert, lemma_map_values_lookup,
    lemma_map_values_remove, named_admin_refusal, outcome, outcome_unit, spec_burn_receipt,
    spec_is_open, tdiv, xfer, Step,
};
use crate::errors::ContractError;
use crate::model::{
    Address, Dispute, DisputeDefaultWinner, DisputeView, Escrow, EscrowStatus, EscrowView, Hash32,
    InspectorScore, PendingVerdict, Transfer,
};
use crate::release::{collateral_of, note_buyer_action, with_status};
use crate::state::{AhjoorEscrowContract, ContractView};
use vstd::prelude::*;

verus! {

broadcast use vstd::std_specs::hash::group_hash_axioms;

pub open spec fn is_disputed(s: EscrowStatus) -> bool {
    s == EscrowStatus::Disputed || s == EscrowStatus::PartiallyDisputed
}

/// Raising a dispute over `dispute_amount` of escrow `id`; the undisputed
/// rest goes to the seller at once.
pub open spec fn spec_dispute_escrow(
    pre: ContractView,
    caller: Address,
    id: u32,
    reason: Seq<char>,
    dispute_amount: i128,
    now: u64,
) -> Step {
    if pre.paused {
        Err(ContractError::ContractIsPaused)
    } else if !pre.escrows.contains_key(id) {
        Err(ContractError::EscrowNotFound)
    } else {
        let e = pre.escrows[id];
        if !spec_is_open(e.status) {
            Err(ContractError::EscrowIsNotActive)
        } else if caller != e.buyer && caller != e.seller {
            Err(ContractError::OnlyBuyerOrSellerCanDisputeEscrow)
        } else if dispute_amount <= 0 || dispute_amount > e.amount {
            Err(ContractError::DisputeAmountOutOfRange)
        } else {
            let s1 = if caller == e.buyer {
                note_buyer_action(pre, e, id, now)
            } else {
                pre
            };
            let released = e.amount - dispute_amount;
            let e2 = EscrowView {
                amount: dispute_amount,
                status: if released > 0 {
                    EscrowStatus::PartiallyDisputed
                } else {
                    EscrowStatus::Disputed
                },
                ..e
            };
            let d = DisputeView {
                escrow_id: id,
                reason,
                created_at: now,
                resolved: false,
                dispute_amount,
                timeout_seconds: e.extensions.dispute_timeout_seconds,
            };
            Ok(
                (
                    ContractView {
                        escrows: s1.escrows.insert(id, e2),
                        disputes: s1.disputes.insert(id, d),
                        dispute_started: s1.dispute_started.insert(id, now),
                        ..s1
                    },
                    if released > 0 {
                        seq![xfer(e.token, pre.me, e.seller, released as i128)]
                    } else {
                        Seq::empty()
                    },
                ),
            )
        }
    }
}

/// The state after `amount` is counted as paid out of bounty `id`, or `None`
/// when the running total overflows.
pub open spec fn spec_record_disbursement(pre: ContractView, id: u32, amount: i128) -> Option<ContractView> {
    if amount <= 0 || !pre.bounties.contains_key(id) {
        Some(pre)
    } else if !fits_i128(pre.bounties[id].fees_disbursed + amount) {
        None
    } else {
        let b = pre.bounties[id];
        Some(
            ContractView {
                bounties: pre.bounties.insert(
                    id,
                    crate::model::BountyData {
                        fees_disbursed: (b.fees_disbursed + amount) as i128,
                        ..b
                    },
                ),
                ..pre
            },
        )
    }
}

pub open spec fn score_of(pre: ContractView, a: Address) -> InspectorScore {
    if pre.inspector_scores.contains_key(a) {
        pre.inspector_scores[a]
    } else {
        InspectorScore { total_rulings: 0, correct_rulings: 0 }
    }
}

/// An inspector's record after one more correct ruling: a first ruling
/// counts as one correct out of one.
pub open spec fn after_correct_ruling(s: InspectorScore) -> InspectorScore {
    if s.total_rulings == 0 {
        InspectorScore { total_rulings: 1, correct_rulings: 1 }
    } else {
        InspectorScore {
            total_rulings: if s.total_rulings == u32::MAX {
                u32::MAX
            } else {
                (s.total_rulings + 1) as u32
            },
            correct_rulings: if s.correct_rulings == u32::MAX {
                u32::MAX
            } else {
                (s.correct_rulings + 1) as u32
            },
        }
    }
}

/// The fee an arbiter earns on escrow `e`.
pub open spec fn arbiter_fee_bps_of(pre: ContractView, e: EscrowView) -> u32 {
    match e.extensions.arbiter_fee_bps {
        Some(b) => b,
        None => pre.default_arbiter_fee_bps,
    }
}

pub open spec fn accrued_of(pre: ContractView, token: Address) -> i128 {
    if pre.accrued_fees.contains_key(token) {
        pre.accrued_fees[token]
    } else {
        0
    }
}

pub open spec fn verdict_status(buyer_percent: u32) -> EscrowStatus {
    if buyer_percent == 100 {
        EscrowStatus::Refunded
    } else if buyer_percent == 0 {
        EscrowStatus::Released
    } else {
        EscrowStatus::Resolved
    }
}

/// The fee stage of a verdict on escrow `id`: the arbiter fee and the protocol
/// fee are computed, the protocol fee accrues to the contract and both count as
/// paid out of a bounty stored under `id`. Gives the state after it and the
/// two fees.
pub open spec fn spec_verdict_fees(pre: ContractView, id: u32) -> Result<
    (ContractView, i128, i128),
    ContractError,
> {
    let e = pre.escrows[id];
    let aprod = e.amount * arbiter_fee_bps_of(pre, e);
    let afee = tdiv(aprod, 10000);
    let pprod = e.amount * pre.protocol_fee_bps;
    let pfee = tdiv(pprod, 10000);
    if !fits_i128(aprod) {
        Err(ContractError::Overflow)
    } else {
        match spec_record_disbursement(pre, id, afee as i128) {
            None => Err(ContractError::Overflow),
            Some(s1) => if !fits_i128(pprod) {
                Err(ContractError::Overflow)
            } else if pfee > 0 && !fits_i128(accrued_of(s1, e.token) + pfee) {
                Err(ContractError::Overflow)
            } else {
                let s2 = if pfee > 0 {
                    ContractView {
                        accrued_fees: s1.accrued_fees.insert(
                            e.token,
                            (accrued_of(s1, e.token) + pfee) as i128,
                        ),
                        ..s1
                    }
                } else {
                    s1
                };
                match spec_record_disbursement(s2, id, pfee as i128) {
                    None => Err(ContractError::Overflow),
                    Some(s3) => Ok((s3, afee as i128, pfee as i128)),
                }
            },
        }
    }
}

/// The token movements of the settling stage of a verdict that gives
/// `buyer_percent` of what is left of escrow `id` after the fees to the
/// buyer(s) and the rest to the seller: the arbiter's fee, the buyer side's
/// share, the seller's share, then the seller collateral, of which the forfeit
/// share goes to the buyer(s) when the buyer won anything. Refused when an
/// amount overflows or the fees exceed the escrow.
pub open spec fn verdict_transfers(
    pre: ContractView,
    id: u32,
    buyer_percent: u32,
    arbiter: Address,
    afee: i128,
    pfee: i128,
) -> Result<Seq<Transfer>, ContractError> {
    let e = pre.escrows[id];
    let dist = e.amount - pfee - afee;
    let bprod = dist * buyer_percent;
    if !fits_i128(e.amount - pfee) || !fits_i128(dist) {
        Err(ContractError::Overflow)
    } else if dist < 0 {
        Err(ContractError::FeeConfigurationExceedsEscrowAmount)
    } else if !fits_i128(bprod) {
        Err(ContractError::Overflow)
    } else {
        let bamt = tdiv(bprod, 100);
        let samt = dist - bamt;
        let fee_ts = if afee > 0 {
            seq![xfer(e.token, pre.me, arbiter, afee)]
        } else {
            Seq::empty()
        };
        let bpay = if bamt > 0 {
            buyer_payout(pre, id, e, bamt as i128)
        } else {
            Some(Seq::empty())
        };
        let sts = if samt > 0 {
            seq![xfer(e.token, pre.me, e.seller, samt as i128)]
        } else {
            Seq::empty()
        };
        let c = collateral_of(pre, id);
        let fprod = c * e.extensions.collateral_forfeit_bps;
        let forfeit = tdiv(fprod, 10000);
        let fpay = if c > 0 && buyer_percent > 0 && forfeit > 0 {
            buyer_payout(pre, id, e, forfeit as i128)
        } else {
            Some(Seq::empty())
        };
        let cts = if c <= 0 {
            Seq::empty()
        } else if buyer_percent > 0 {
            if c - forfeit > 0 {
                seq![xfer(e.token, pre.me, e.seller, (c - forfeit) as i128)]
            } else {
                Seq::empty()
            }
        } else {
            seq![xfer(e.token, pre.me, e.seller, c)]
        };
        let new_score = after_correct_ruling(score_of(pre, e.extensions.inspector->0));
        if bpay is None {
            Err(ContractError::Overflow)
        } else if c > 0 && buyer_percent > 0 && (!fits_i128(fprod) || !fits_i128(c - forfeit)) {
            Err(ContractError::Overflow)
        } else if fpay is None {
            Err(ContractError::Overflow)
        } else if e.extensions.inspector is Some && new_score.correct_rulings * 10000 > u32::MAX {
            Err(ContractError::Overflow)
        } else {
            Ok(fee_ts + bpay->0 + sts + fpay->0 + cts)
        }
    }
}

/// The state after a verdict on escrow `id` is settled: the collateral is
/// gone, the escrow takes the verdict's status, the dispute is resolved and
/// the escrow's inspector is credited with a correct ruling.
pub open spec fn verdict_state(pre: ContractView, id: u32, buyer_percent: u32) -> ContractView {
    let e = pre.escrows[id];
    ContractView {
        seller_collateral: if collateral_of(pre, id) > 0 {
            pre.seller_collateral.remove(id)
        } else {
            pre.seller_collateral
        },
        escrows: pre.escrows.insert(id, with_status(e, verdict_status(buyer_percent))),
        disputes: if pre.disputes.contains_key(id) {
            pre.disputes.insert(id, DisputeView { resolved: true, ..pre.disputes[id] })
        } else {
            pre.disputes
        },
        inspector_scores: match e.extensions.inspector {
            Some(i) => pre.inspector_scores.insert(
                i,
                after_correct_ruling(score_of(pre, i)),
            ),
            None => pre.inspector_scores,
        },
        ..pre
    }
}

/// The settling stage of a verdict on escrow `id`, given the two fees.
pub open spec fn spec_verdict_settle(
    pre: ContractView,
    id: u32,
    buyer_percent: u32,
    arbiter: Address,
    afee: i128,
    pfee: i128,
) -> Step {
    match verdict_transfers(pre, id, buyer_percent, arbiter, afee, pfee) {
        Err(x) => Err(x),
        Ok(ts) => Ok((verdict_state(pre, id, buyer_percent), ts)),
    }
}

/// Carrying out a verdict that gives `buyer_percent` of escrow `id` to the
/// buyer(s): the fee stage, then the settling stage on the state it leaves.
pub open spec fn spec_execute_verdict(pre: ContractView, id: u32, buyer_percent: u32, arbiter: Address) -> Step {
    match spec_verdict_fees(pre, id) {
        Err(x) => Err(x),
        Ok((s3, afee, pfee)) => spec_verdict_settle(s3, id, buyer_percent, arbiter, afee, pfee),
    }
}
/// The arbiter resolving the dispute on escrow `id`: the verdict is carried
/// out at once, or held for the cooling-off window when one is configured.
pub open spec fn spec_resolve_dispute(pre: ContractView, arbiter: Address, id: u32, buyer_percent: u32, now: u64) -> Step {
    if pre.paused {
        Err(ContractError::ContractIsPaused)
    } else if buyer_percent > 100 {
        Err(ContractError::BuyerPercentMustBeBetween0And100)
    } else if !pre.escrows.contains_key(id) {
        Err(ContractError::EscrowNotFound)
    } else if !is_disputed(pre.escrows[id].status) {
        Err(ContractError::EscrowIsNotDisputed)
    } else if arbiter != pre.escrows[id].arbiter {
        Err(ContractError::OnlyArbiterCanResolveDispute)
    } else if pre.resolution_cooling_off_secs > 0 {
        Ok(
            (
                ContractView {
                    pending_verdicts: pre.pending_verdicts.insert(
                        id,
                        PendingVerdict { buyer_percent, arbiter, recorded_at: now },
                    ),
                    escrows: pre.escrows.insert(
                        id,
                        with_status(pre.escrows[id], EscrowStatus::CoolingOff),
                    ),
                    ..pre
                },
                Seq::empty(),
            ),
        )
    } else {
        spec_execute_verdict(pre, id, buyer_percent, arbiter)
    }
}

/// The losing side flagging a procedural error during the cooling-off window.
pub open spec fn spec_flag_resolution_error(pre: ContractView, caller: Address, id: u32, reason_hash: Hash32, now: u64) -> Step {
    if pre.paused {
        Err(ContractError::ContractIsPaused)
    } else if !pre.escrows.contains_key(id) {
        Err(ContractError::EscrowNotFound)
    } else {
        let e = pre.escrows[id];
        if e.status != EscrowStatus::CoolingOff {
            Err(ContractError::EscrowIsNotCoolingOffState)
        } else if !pre.pending_verdicts.contains_key(id) {
            Err(ContractError::NoPendingVerdict)
        } else if caller != e.buyer && caller != e.seller {
            Err(ContractError::OnlyBuyerOrSellerCanFlagResolutionError)
        } else if pre.pending_verdicts[id].recorded_at + pre.resolution_cooling_off_secs > u64::MAX {
            Err(ContractError::Overflow)
        } else if now > pre.pending_verdicts[id].recorded_at + pre.resolution_cooling_off_secs {
            Err(ContractError::CoolingOffWindowHasExpired)
        } else if pre.resolution_flags.contains_key(id) {
            Err(ContractError::ResolutionAlreadyFlagged)
        } else {
            Ok(
                (
                    ContractView {
                        resolution_flags: pre.resolution_flags.insert(id, (caller, reason_hash)),
                        ..pre
                    },
                    Seq::empty(),
                ),
            )
        }
    }
}

/// Carrying out a held verdict once its cooling-off window has passed unflagged.
pub open spec fn spec_finalize_resolution(pre: ContractView, id: u32, now: u64) -> Step {
    if pre.paused {
        Err(ContractError::ContractIsPaused)
    } else if !pre.escrows.contains_key(id) {
        Err(ContractError::EscrowNotFound)
    } else if pre.escrows[id].status != EscrowStatus::CoolingOff {
        Err(ContractError::EscrowIsNotCoolingOffState)
    } else if !pre.pending_verdicts.contains_key(id) {
        Err(ContractError::NoPendingVerdict)
    } else {
        let v = pre.pending_verdicts[id];
        if v.recorded_at + pre.resolution_cooling_off_secs > u64::MAX {
            Err(ContractError::Overflow)
        } else if now <= v.recorded_at + pre.resolution_cooling_off_secs {
            Err(ContractError::CoolingOffWindowHasNotElapsed)
        } else if pre.resolution_flags.contains_key(id) {
            Err(ContractError::ResolutionIsFlaggedAdminMustReviewBeforeFinalization)
        } else if v.buyer_percent > 100 {
            // Recorded verdicts always carry a valid percentage.
            Err(ContractError::BuyerPercentMustBeBetween0And100)
        } else {
            spec_execute_verdict(
                ContractView { pending_verdicts: pre.pending_verdicts.remove(id), ..pre },
                id,
                v.buyer_percent,
                v.arbiter,
            )
        }
    }
}

pub open spec fn effective_timeout(pre: ContractView, d: DisputeView) -> u64 {
    match d.timeout_seconds {
        Some(t) => t,
        None => pre.default_dispute_timeout,
    }
}

/// Whether the unresolved dispute on escrow `id` has outlived its timeout.
pub open spec fn spec_check_escalation(pre: ContractView, id: u32, now: u64) -> Result<bool, ContractError> {
    if !pre.escrows.contains_key(id) {
        Err(ContractError::EscrowNotFound)
    } else if !is_disputed(pre.escrows[id].status) {
        Ok(false)
    } else if !pre.disputes.contains_key(id) {
        Err(ContractError::DisputeNotFound)
    } else if pre.disputes[id].resolved {
        Ok(false)
    } else if now < pre.disputes[id].created_at {
        Err(ContractError::Overflow)
    } else {
        Ok(now - pre.disputes[id].created_at > effective_timeout(pre, pre.disputes[id]))
    }
}

/// Who wins a dispute that its arbiter let time out.
pub open spec fn timeout_winner(pre: ContractView, e: EscrowView) -> DisputeDefaultWinner {
    match e.extensions.dispute_default_winner {
        Some(w) => if w == 1 {
            DisputeDefaultWinner::Seller
        } else {
            DisputeDefaultWinner::Buyer
        },
        None => pre.default_dispute_winner,
    }
}

pub open spec fn timeouts_of(pre: ContractView, a: Address) -> u32 {
    if pre.arbiter_timeouts.contains_key(a) {
        pre.arbiter_timeouts[a]
    } else {
        0
    }
}

/// Settling a dispute whose arbiter did not answer in time: the whole
/// disputed amount goes to the default winner and the arbiter's timeout count grows.
pub open spec fn spec_enforce_dispute_timeout(pre: ContractView, id: u32, now: u64) -> Step {
    if pre.paused {
        Err(ContractError::ContractIsPaused)
    } else if !pre.escrows.contains_key(id) {
        Err(ContractError::EscrowNotFound)
    } else if !pre.disputes.contains_key(id) {
        Err(ContractError::EscrowIsNotDisputed)
    } else if pre.disputes[id].resolved {
        Err(ContractError::DisputeAlreadyResolved)
    } else if !is_disputed(pre.escrows[id].status) {
        Err(ContractError::EscrowIsNotDisputed)
    } else if !pre.dispute_started.contains_key(id) {
        Err(ContractError::DisputeDeadlineStartNotFound)
    } else {
        let e = pre.escrows[id];
        let start = pre.dispute_started[id];
        let elapsed = if now >= start {
            now - start
        } else {
            0
        };
        if elapsed < effective_timeout(pre, pre.disputes[id]) {
            Err(ContractError::DisputeTimeoutDeadlineHasNotPassedYet)
        } else if timeouts_of(pre, e.arbiter) == u32::MAX {
            Err(ContractError::Overflow)
        } else {
            let s1 = ContractView {
                arbiter_timeouts: pre.arbiter_timeouts.insert(
                    e.arbiter,
                    (timeouts_of(pre, e.arbiter) + 1) as u32,
                ),
                ..pre
            };
            let to_seller = timeout_winner(pre, e) == DisputeDefaultWinner::Seller;
            let pay = if to_seller {
                Some(seq![xfer(e.token, pre.me, e.seller, e.amount)])
            } else {
                buyer_payout(s1, id, e, e.amount)
            };
            match pay {
                None => Err(ContractError::Overflow),
                Some(ts) => {
                    let s2 = ContractView {
                        escrows: s1.escrows.insert(
                            id,
                            with_status(
                                e,
                                if to_seller {
                                    EscrowStatus::Released
                                } else {
                                    EscrowStatus::Refunded
                                },
                            ),
                        ),
                        ..s1
                    };
                    let s3 = spec_burn_receipt(s2, id);
                    Ok(
                        (
                            ContractView {
                                disputes: s3.disputes.insert(
                                    id,
                                    DisputeView { resolved: true, ..pre.disputes[id] },
                                ),
                                ..s3
                            },
                            ts,
                        ),
                    )
                },
            }
        }
    }
}

impl AhjoorEscrowContract {
    /// Disputes an escrow. Called by buyer or seller. A `dispute_amount` below
    /// the escrow amount releases the undisputed rest to the seller at once.
    pub fn dispute_escrow(
        &mut self,
        caller: Address,
        escrow_id: u32,
        reason: String,
        dispute_amount: i128,
        now: u64,
    ) -> (r: Result<Vec<Transfer>, ContractError>)
        ensures
            spec_dispute_escrow(old(self)@, caller, escrow_id, reason@, dispute_amount, now) == outcome(
                r,
                final(self)@,
            ),
            r is Err ==> final(self)@ == old(self)@,
    {
        let id = escrow_id;
        if self.paused {
            return Err(ContractError::ContractIsPaused);
        }
        let e = self.find_escrow(id)?;
        if !Self::is_open_escrow_status(e.status) {
            return Err(ContractError::EscrowIsNotActive);
        }
        if caller != e.buyer && caller != e.seller {
            return Err(ContractError::OnlyBuyerOrSellerCanDisputeEscrow);
        }
        if dispute_amount <= 0 || dispute_amount > e.amount {
            return Err(ContractError::DisputeAmountOutOfRange);
        }
        let ghost pre = self@;
        let is_buyer = caller == e.buyer;
        let inactivity = e.extensions.buyer_inactivity_secs;
        if is_buyer {
            self.update_last_buyer_action(id, inactivity, now);
        }
        let ghost s1 = self@;
        let mut e = self.take_escrow(id);
        let released = e.amount - dispute_amount;
        let mut ts = Vec::new();
        if released > 0 {
            ts.push(Transfer { token: e.token, from: self.me, to: e.seller, amount: released, by_allowance: false });
        }
        e.amount = dispute_amount;
        e.status = if released > 0 {
            EscrowStatus::PartiallyDisputed
        } else {
            EscrowStatus::Disputed
        };
        let timeout = e.extensions.dispute_timeout_seconds;
        self.put_escrow(id, e);
        let d = Dispute {
            escrow_id: id,
            reason,
            created_at: now,
            resolved: false,
            dispute_amount,
            timeout_seconds: timeout,
        };
        proof {
            lemma_map_values_insert(self.disputes@, id, d, |d: Dispute| d@);
        }
        self.disputes.insert(id, d);
        self.dispute_started.insert(id, now);
        proof {
            let (sp, st) = spec_dispute_escrow(pre, caller, id, d@.reason, dispute_amount, now)->Ok_0;
            assert(self@ =~= sp);
            assert(ts@ =~= st);
        }
        Ok(ts)
    }

    pub(crate) fn record_bounty_disbursement(&mut self, id: u32, amount: i128)
        requires
            spec_record_disbursement(old(self)@, id, amount) is Some,
        ensures
            final(self)@ == spec_record_disbursement(old(self)@, id, amount)->0,
    {
        if amount <= 0 {
            return ;
        }
        match self.bounties.get(&id) {
            None => {},
            Some(b) => {
                let mut b = *b;
                b.fees_disbursed = b.fees_disbursed + amount;
                self.bounties.insert(id, b);
                assert(self@ =~= spec_record_disbursement(old(self)@, id, amount)->0);
            },
        }
    }

    pub(crate) fn bounty_disbursement_fits(&self, id: u32, amount: i128) -> (r: bool)
        ensures
            r == spec_record_disbursement(self@, id, amount) is Some,
    {
        if amount <= 0 {
            return true;
        }
        match self.bounties.get(&id) {
            None => true,
            Some(b) => b.fees_disbursed.checked_add(amount).is_some(),
        }
    }

    fn accrued_of(&self, token: Address) -> (r: i128)
        ensures
            r == accrued_of(self@, token),
    {
        match self.accrued_fees.get(&token) {
            Some(a) => *a,
            None => 0,
        }
    }

    fn score_of(&self, a: Address) -> (r: InspectorScore)
        ensures
            r == score_of(self@, a),
    {
        match self.inspector_scores.get(&a) {
            Some(s) => *s,
            None => InspectorScore { total_rulings: 0, correct_rulings: 0 },
        }
    }

    /// The fee stage of a verdict on escrow `id`; gives the arbiter fee and the
    /// protocol fee.
    fn verdict_fees(&mut self, id: u32) -> (r: Result<(i128, i128), ContractError>)
        requires
            old(self)@.escrows.contains_key(id),
        ensures
            match r {
                Ok((a, p)) => spec_verdict_fees(old(self)@, id) == Ok::<
                    (ContractView, i128, i128),
                    ContractError,
                >((final(self)@, a, p)),
                Err(x) => spec_verdict_fees(old(self)@, id) == Err::<
                    (ContractView, i128, i128),
                    ContractError,
                >(x) && final(self)@ == old(self)@,
            },
    {
        let ghost pre = self@;
        let e = self.find_escrow(id).unwrap();
        let token = e.token;
        let amount = e.amount;
        let abps = match e.extensions.arbiter_fee_bps {
            Some(b) => b,
            None => self.default_arbiter_fee_bps,
        };
        let aprod = match amount.checked_mul(abps as i128) {
            Some(p) => p,
            None => return Err(ContractError::Overflow),
        };
        let afee = aprod / 10000;
        if !self.bounty_disbursement_fits(id, afee) {
            return Err(ContractError::Overflow);
        }
        let ghost s1 = spec_record_disbursement(pre, id, afee)->0;
        let pprod = match amount.checked_mul(self.protocol_fee_bps as i128) {
            Some(p) => p,
            None => return Err(ContractError::Overflow),
        };
        let pfee = pprod / 10000;
        // Recording the arbiter fee touches bounties only.
        let acc = self.accrued_of(token);
        assert(acc == accrued_of(s1, token));
        let new_acc: i128 = if pfee > 0 {
            match acc.checked_add(pfee) {
                Some(a) => a,
                None => return Err(ContractError::Overflow),
            }
        } else {
            acc
        };
        let ghost s2 = if pfee > 0 {
            ContractView { accrued_fees: s1.accrued_fees.insert(token, new_acc), ..s1 }
        } else {
            s1
        };
        // The second disbursement sees the first one's running total.
        let bounty_after_first: Option<i128> = match self.bounties.get(&id) {
            Some(b) => if afee > 0 {
                Some(b.fees_disbursed + afee)
            } else {
                Some(b.fees_disbursed)
            },
            None => None,
        };
        let second_fits = if pfee <= 0 {
            true
        } else {
            match bounty_after_first {
                None => true,
                Some(f) => f.checked_add(pfee).is_some(),
            }
        };
        assert(second_fits == spec_record_disbursement(s2, id, pfee) is Some);
        if !second_fits {
            return Err(ContractError::Overflow);
        }
        self.record_bounty_disbursement(id, afee);
        if pfee > 0 {
            self.accrued_fees.insert(token, new_acc);
        }
        assert(self@ == s2);
        self.record_bounty_disbursement(id, pfee);
        Ok((afee, pfee))
    }

    /// The token movements of the settling stage of a verdict on escrow `id`.
    #[verifier::rlimit(40)]
    fn verdict_transfers(&self, id: u32, buyer_percent: u32, arbiter: Address, afee: i128, pfee: i128) -> (r:
        Result<Vec<Transfer>, ContractError>)
        requires
            self@.escrows.contains_key(id),
            buyer_percent <= 100,
        ensures
            match r {
                Ok(ts) => verdict_transfers(self@, id, buyer_percent, arbiter, afee, pfee) == Ok::<
                    Seq<Transfer>,
                    ContractError,
                >(ts@),
                Err(x) => verdict_transfers(self@, id, buyer_percent, arbiter, afee, pfee) == Err::<
                    Seq<Transfer>,
                    ContractError,
                >(x),
            },
    {
        let e = self.find_escrow(id).unwrap();
        let token = e.token;
        let seller = e.seller;
        let inspector = e.extensions.inspector;
        let after_p = match e.amount.checked_sub(pfee) {
            Some(v) => v,
            None => return Err(ContractError::Overflow),
        };
        let dist = match after_p.checked_sub(afee) {
            Some(v) => v,
            None => return Err(ContractError::Overflow),
        };
        if dist < 0 {
            return Err(ContractError::FeeConfigurationExceedsEscrowAmount);
        }
        let bprod = match dist.checked_mul(buyer_percent as i128) {
            Some(p) => p,
            None => return Err(ContractError::Overflow),
        };
        let bamt = bprod / 100;
        let samt = dist - bamt;
        let bpay: Vec<Transfer> = if bamt > 0 {
            match self.transfer_to_buyers(id, e, bamt) {
                Some(p) => p,
                None => return Err(ContractError::Overflow),
            }
        } else {
            Vec::new()
        };
        let c = self.collateral_of(id);
        let mut forfeit: i128 = 0;
        if c > 0 && buyer_percent > 0 {
            let fprod = match c.checked_mul(e.extensions.collateral_forfeit_bps as i128) {
                Some(p) => p,
                None => return Err(ContractError::Overflow),
            };
            forfeit = fprod / 10000;
            if c.checked_sub(forfeit).is_none() {
                return Err(ContractError::Overflow);
            }
        }
        let fpay: Vec<Transfer> = if c > 0 && buyer_percent > 0 && forfeit > 0 {
            match self.transfer_to_buyers(id, e, forfeit) {
                Some(p) => p,
                None => return Err(ContractError::Overflow),
            }
        } else {
            Vec::new()
        };
        if let Some(i) = inspector {
            let score = self.score_of(i);
            let correct: u32 = if score.total_rulings == 0 {
                1
            } else {
                score.correct_rulings.saturating_add(1)
            };
            if correct > u32::MAX / 10000 {
                return Err(ContractError::Overflow);
            }
        }
        let mut ts: Vec<Transfer> = Vec::new();
        if afee > 0 {
            ts.push(Transfer { token, from: self.me, to: arbiter, amount: afee, by_allowance: false });
        }
        let mut bpay = bpay;
        ts.append(&mut bpay);
        if samt > 0 {
            ts.push(Transfer { token, from: self.me, to: seller, amount: samt, by_allowance: false });
        }
        let mut fpay = fpay;
        ts.append(&mut fpay);
        if c > 0 {
            if buyer_percent > 0 {
                if c - forfeit > 0 {
                    ts.push(Transfer { token, from: self.me, to: seller, amount: c - forfeit, by_allowance: false });
                }
            } else {
                ts.push(Transfer { token, from: self.me, to: seller, amount: c, by_allowance: false });
            }
        }
        proof {
            let st = verdict_transfers(self@, id, buyer_percent, arbiter, afee, pfee)->Ok_0;
            assert(ts@ =~= st);
        }
        Ok(ts)
    }

    /// Records the outcome of a settled verdict on escrow `id`.
    fn apply_verdict_state(&mut self, id: u32, buyer_percent: u32)
        requires
            old(self)@.escrows.contains_key(id),
        ensures
            final(self)@ == verdict_state(old(self)@, id, buyer_percent),
    {
        let ghost pre = self@;
        let c = self.collateral_of(id);
        if c > 0 {
            self.seller_collateral.remove(&id);
        }
        let mut e = self.take_escrow(id);
        let inspector = e.extensions.inspector;
        e.status = if buyer_percent == 100 {
            EscrowStatus::Refunded
        } else if buyer_percent == 0 {
            EscrowStatus::Released
        } else {
            EscrowStatus::Resolved
        };
        self.put_escrow(id, e);
        proof {
            lemma_map_values_lookup(self.disputes@, |d: Dispute| d@);
        }
        if self.disputes.contains_key(&id) {
            let mut d = self.disputes.remove(&id).unwrap();
            d.resolved = true;
            proof {
                lemma_map_values_insert(self.disputes@, id, d, |d: Dispute| d@);
            }
            self.disputes.insert(id, d);
        }
        if let Some(i) = inspector {
            let score = self.score_of(i);
            let new_score = if score.total_rulings == 0 {
                InspectorScore { total_rulings: 1, correct_rulings: 1 }
            } else {
                InspectorScore {
                    total_rulings: score.total_rulings.saturating_add(1),
                    correct_rulings: score.correct_rulings.saturating_add(1),
                }
            };
            self.inspector_scores.insert(i, new_score);
        }
        proof {
            let sp = verdict_state(pre, id, buyer_percent);
            assert(self@.disputes =~= sp.disputes);
            assert(self@ =~= sp);
        }
    }

    /// The settling stage of a verdict on escrow `id`, given the two fees.
    fn verdict_settle(&mut self, id: u32, buyer_percent: u32, arbiter: Address, afee: i128, pfee: i128) -> (r:
        Result<Vec<Transfer>, ContractError>)
        requires
            old(self)@.escrows.contains_key(id),
            buyer_percent <= 100,
        ensures
            spec_verdict_settle(old(self)@, id, buyer_percent, arbiter, afee, pfee) == outcome(
                r,
                final(self)@,
            ),
            r is Err ==> final(self)@ == old(self)@,
    {
        let ts = self.verdict_transfers(id, buyer_percent, arbiter, afee, pfee)?;
        self.apply_verdict_state(id, buyer_percent);
        Ok(ts)
    }

    /// Carries out a verdict on escrow `id`.
    pub(crate) fn execute_verdict(&mut self, id: u32, buyer_percent: u32, arbiter: Address) -> (r: Result<
        Vec<Transfer>,
        ContractError,
    >)
        requires
            old(self)@.escrows.contains_key(id),
            buyer_percent <= 100,
        ensures
            spec_execute_verdict(old(self)@, id, buyer_percent, arbiter) == outcome(r, final(self)@),
            r is Err ==> final(self)@ == old(self)@,
    {
        let saved = self.snapshot();
        let (afee, pfee) = self.verdict_fees(id)?;
        match self.verdict_settle(id, buyer_percent, arbiter, afee, pfee) {
            Ok(ts) => Ok(ts),
            Err(x) => {
                *self = saved;
                Err(x)
            },
        }
    }
}

/// Admin clearing the flag on escrow `id` so that its verdict can be finalized.
pub open spec fn spec_clear_resolution_flag(pre: ContractView, admin: Address, id: u32) -> Step {
    if pre.paused {
        Err(ContractError::ContractIsPaused)
    } else if let Some(x) = named_admin_refusal(
        pre,
        admin,
        ContractError::OnlyAdminCanClearResolutionFlags,
    ) {
        Err(x)
    } else if !pre.resolution_flags.contains_key(id) {
        Err(ContractError::NoFlagToClear)
    } else {
        Ok((ContractView { resolution_flags: pre.resolution_flags.remove(id), ..pre }, Seq::empty()))
    }
}

/// Admin setting the cooling-off window (0 disables it).
pub open spec fn spec_set_resolution_cooloff_secs(pre: ContractView, admin: Address, seconds: u64) -> Step {
    if pre.paused {
        Err(ContractError::ContractIsPaused)
    } else if let Some(x) = named_admin_refusal(
        pre,
        admin,
        ContractError::OnlyAdminCanConfigureCoolingOffPeriod,
    ) {
        Err(x)
    } else {
        Ok((ContractView { resolution_cooling_off_secs: seconds, ..pre }, Seq::empty()))
    }
}

impl AhjoorEscrowContract {
    /// The arbiter resolves a dispute, giving `buyer_percent` of the disputed
    /// amount to the buyer side. With a cooling-off window configured the
    /// verdict is only recorded; otherwise it is carried out at once.
    pub fn resolve_dispute(&mut self, arbiter: Address, escrow_id: u32, buyer_percent: u32, now: u64) -> (r:
        Result<Vec<Transfer>, ContractError>)
        ensures
            spec_resolve_dispute(old(self)@, arbiter, escrow_id, buyer_percent, now) == outcome(
                r,
                final(self)@,
            ),
            r is Err ==> final(self)@ == old(self)@,
    {
        let id = escrow_id;
        if self.paused {
            return Err(ContractError::ContractIsPaused);
        }
        if buyer_percent > 100 {
            return Err(ContractError::BuyerPercentMustBeBetween0And100);
        }
        let e = self.find_escrow(id)?;
        if e.status != EscrowStatus::Disputed && e.status != EscrowStatus::PartiallyDisputed {
            return Err(ContractError::EscrowIsNotDisputed);
        }
        if arbiter != e.arbiter {
            return Err(ContractError::OnlyArbiterCanResolveDispute);
        }
        if self.resolution_cooling_off_secs > 0 {
            let ghost pre = self@;
            self.pending_verdicts.insert(id, PendingVerdict { buyer_percent, arbiter, recorded_at: now });
            let mut e = self.take_escrow(id);
            e.status = EscrowStatus::CoolingOff;
            self.put_escrow(id, e);
            assert(self@ =~= spec_resolve_dispute(pre, arbiter, id, buyer_percent, now)->Ok_0.0);
            return Ok(Vec::new());
        }
        self.execute_verdict(id, buyer_percent, arbiter)
    }

    /// The buyer or the seller flags a procedural error in a verdict that is
    /// still inside its cooling-off window; finalization then waits for the admin.
    pub fn flag_resolution_error(&mut self, caller: Address, escrow_id: u32, reason_hash: Hash32, now: u64) -> (r:
        Result<(), ContractError>)
        ensures
            spec_flag_resolution_error(old(self)@, caller, escrow_id, reason_hash, now) == outcome_unit(
                r,
                final(self)@,
            ),
            r is Err ==> final(self)@ == old(self)@,
    {
        let id = escrow_id;
        if self.paused {
            return Err(ContractError::ContractIsPaused);
        }
        let e = self.find_escrow(id)?;
        if e.status != EscrowStatus::CoolingOff {
            return Err(ContractError::EscrowIsNotCoolingOffState);
        }
        let v = match self.pending_verdicts.get(&id) {
            Some(v) => *v,
            None => return Err(ContractError::NoPendingVerdict),
        };
        if caller != e.buyer && caller != e.seller {
            return Err(ContractError::OnlyBuyerOrSellerCanFlagResolutionError);
        }
        let end = match v.recorded_at.checked_add(self.resolution_cooling_off_secs) {
            Some(t) => t,
            None => return Err(ContractError::Overflow),
        };
        if now > end {
            return Err(ContractError::CoolingOffWindowHasExpired);
        }
        if self.resolution_flags.contains_key(&id) {
            return Err(ContractError::ResolutionAlreadyFlagged);
        }
        self.resolution_flags.insert(id, (caller, reason_hash));
        Ok(())
    }

    /// Carries out a recorded verdict once its cooling-off window has passed
    /// with no flag. Anyone may call it.
    pub fn finalize_resolution(&mut self, escrow_id: u32, now: u64) -> (r: Result<Vec<Transfer>, ContractError>)
        ensures
            spec_finalize_resolution(old(self)@, escrow_id, now) == outcome(r, final(self)@),
            r is Err ==> final(self)@ == old(self)@,
    {
        let id = escrow_id;
        if self.paused {
            return Err(ContractError::ContractIsPaused);
        }
        let e = self.find_escrow(id)?;
        if e.status != EscrowStatus::CoolingOff {
            return Err(ContractError::EscrowIsNotCoolingOffState);
        }
        let v = match self.pending_verdicts.get(&id) {
            Some(v) => *v,
            None => return Err(ContractError::NoPendingVerdict),
        };
        let end = match v.recorded_at.checked_add(self.resolution_cooling_off_secs) {
            Some(t) => t,
            None => return Err(ContractError::Overflow),
        };
        if now <= end {
            return Err(ContractError::CoolingOffWindowHasNotElapsed);
        }
        if self.resolution_flags.contains_key(&id) {
            return Err(ContractError::ResolutionIsFlaggedAdminMustReviewBeforeFinalization);
        }
        if v.buyer_percent > 100 {
            return Err(ContractError::BuyerPercentMustBeBetween0And100);
        }
        let ghost pre = self@;
        self.pending_verdicts.remove(&id);
        let r = self.execute_verdict(id, v.buyer_percent, v.arbiter);
        if r.is_err() {
            self.pending_verdicts.insert(id, v);
            assert(self@ =~= pre);
        }
        r
    }

    /// Admin clears a resolution flag after review.
    pub fn clear_resolution_flag(&mut self, admin: Address, escrow_id: u32) -> (r: Result<(), ContractError>)
        ensures
            spec_clear_resolution_flag(old(self)@, admin, escrow_id) == outcome_unit(r, final(self)@),
            r is Err ==> final(self)@ == old(self)@,
    {
        if self.paused {
            return Err(ContractError::ContractIsPaused);
        }
        self.check_named_admin(admin, ContractError::OnlyAdminCanClearResolutionFlags)?;
        if !self.resolution_flags.contains_key(&escrow_id) {
            return Err(ContractError::NoFlagToClear);
        }
        self.resolution_flags.remove(&escrow_id);
        Ok(())
    }

    /// Admin sets the cooling-off window in seconds (0 disables it).
    pub fn set_resolution_cooloff_secs(&mut self, admin: Address, seconds: u64) -> (r: Result<(), ContractError>)
        ensures
            spec_set_resolution_cooloff_secs(old(self)@, admin, seconds) == outcome_unit(r, final(self)@),
            r is Err ==> final(self)@ == old(self)@,
    {
        if self.paused {
            return Err(ContractError::ContractIsPaused);
        }
        self.check_named_admin(admin, ContractError::OnlyAdminCanConfigureCoolingOffPeriod)?;
        self.resolution_cooling_off_secs = seconds;
        Ok(())
    }

    /// Whether the unresolved dispute on an escrow has outlived its timeout
    /// and should be escalated.
    pub fn check_escalation(&self, escrow_id: u32, now: u64) -> (r: Result<bool, ContractError>)
        ensures
            r == spec_check_escalation(self@, escrow_id, now),
    {
        let id = escrow_id;
        let e = self.find_escrow(id)?;
        if e.status != EscrowStatus::Disputed && e.status != EscrowStatus::PartiallyDisputed {
            return Ok(false);
        }
        proof {
            lemma_map_values_lookup(self.disputes@, |d: Dispute| d@);
        }
        let d = match self.disputes.get(&id) {
            Some(d) => d,
            None => return Err(ContractError::DisputeNotFound),
        };
        if d.resolved {
            return Ok(false);
        }
        let timeout = match d.timeout_seconds {
            Some(t) => t,
            None => self.default_dispute_timeout,
        };
        if now < d.created_at {
            return Err(ContractError::Overflow);
        }
        Ok(now - d.created_at > timeout)
    }

    /// Settles a dispute whose arbiter did not rule within the timeout: the
    /// disputed amount goes to the default winner and the arbiter's timeout
    /// count grows. Anyone may call it.
    pub fn enforce_dispute_timeout(&mut self, escrow_id: u32, now: u64) -> (r: Result<Vec<Transfer>, ContractError>)
        ensures
            spec_enforce_dispute_timeout(old(self)@, escrow_id, now) == outcome(r, final(self)@),
            r is Err ==> final(self)@ == old(self)@,
    {
        let id = escrow_id;
        if self.paused {
            return Err(ContractError::ContractIsPaused);
        }
        let e = self.find_escrow(id)?;
        proof {
            lemma_map_values_lookup(self.disputes@, |d: Dispute| d@);
        }
        let d = match self.disputes.get(&id) {
            Some(d) => d,
            None => return Err(ContractError::EscrowIsNotDisputed),
        };
        if d.resolved {
            return Err(ContractError::DisputeAlreadyResolved);
        }
        if e.status != EscrowStatus::Disputed && e.status != EscrowStatus::PartiallyDisputed {
            return Err(ContractError::EscrowIsNotDisputed);
        }
        let start = match self.dispute_started.get(&id) {
            Some(s) => *s,
            None => return Err(ContractError::DisputeDeadlineStartNotFound),
        };
        let timeout = match d.timeout_seconds {
            Some(t) => t,
            None => self.default_dispute_timeout,
        };
        let elapsed = now.saturating_sub(start);
        if elapsed < timeout {
            return Err(ContractError::DisputeTimeoutDeadlineHasNotPassedYet);
        }
        let to_seller = match e.extensions.dispute_default_winner {
            Some(w) => w == 1,
            None => match self.default_dispute_winner {
                DisputeDefaultWinner::Seller => true,
                DisputeDefaultWinner::Buyer => false,
            },
        };
        let count: u32 = match self.arbiter_timeouts.get(&e.arbiter) {
            Some(c) => *c,
            None => 0,
        };
        if count == u32::MAX {
            return Err(ContractError::Overflow);
        }
        let ghost pre = self@;
        let arbiter = e.arbiter;
        let ts: Vec<Transfer> = if to_seller {
            let mut v = Vec::new();
            v.push(Transfer { token: e.token, from: self.me, to: e.seller, amount: e.amount, by_allowance: false });
            v
        } else {
            match self.transfer_to_buyers(id, e, e.amount) {
                Some(v) => v,
                None => return Err(ContractError::Overflow),
            }
        };
        let mut resolved = d.copy();
        resolved.resolved = true;
        self.arbiter_timeouts.insert(arbiter, count + 1);
        let mut e = self.take_escrow(id);
        e.status = if to_seller {
            EscrowStatus::Released
        } else {
            EscrowStatus::Refunded
        };
        self.put_escrow(id, e);
        self.burn_receipt_if_exists(id);
        proof {
            lemma_map_values_insert(self.disputes@, id, resolved, |d: Dispute| d@);
        }
        self.disputes.insert(id, resolved);
        proof {
            let (sp, st) = spec_enforce_dispute_timeout(pre, id, now)->Ok_0;
            assert(self@ =~= sp);
            assert(ts@ =~= st);
        }
        Ok(ts)
    }

    /// Number of disputes that this arbiter let time out.
    pub fn get_arbiter_timeout_count(&self, arbiter: Address) -> (r: u32)
        ensures
            r == timeouts_of(self@, arbiter),
    {
        match self.arbiter_timeouts.get(&arbiter) {
            Some(c) => *c,
            None => 0,
        }
    }

    /// The dispute raised on an escrow.
    pub fn get_dispute(&self, escrow_id: u32) -> (r: Result<Dispute, ContractError>)
        ensures
            match r {
                Ok(d) => self@.disputes.contains_key(escrow_id) && d@ == self@.disputes[escrow_id],
                Err(x) => !self@.disputes.contains_key(escrow_id) && x == ContractError::NoDisputeFound,
            },
    {
        proof {
            lemma_map_values_lookup(self.disputes@, |d: Dispute| d@);
        }
        match self.disputes.get(&escrow_id) {
            Some(d) => Ok(d.copy()),
            None => Err(ContractError::NoDisputeFound),
        }
    }
}

} // verus!
