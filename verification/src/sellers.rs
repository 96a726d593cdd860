//! Multi-seller escrows with seller collateral, delivery proofs, ratings,
//! seller vetoes and the transfer of the seller's role.

use crate::common::{
    admin_refusal, buyer_payout, named_admin_refusal, outcome, outcome_unit, outcome_with, seller_payout,
    spec_is_open, xfer, Step, StepWith,
};
use crate::create::{basic_request, spec_create_core};
use crate::errors::ContractError;
use crate::host::{delivery_digest, hash_of_bytes, sha256_of};
use crate::model::{
    Address, EscrowCreateRequest, EscrowExtensions, EscrowStatus, EscrowView, Hash32, SellerTransferProposal, Transfer,
};
use crate::release::with_status;
use crate::state::{AhjoorEscrowContract, ContractView};
use soroban_sdk::Env;
use std::collections::HashMap;
use vstd::prelude::*;

verus! {

broadcast use vstd::std_specs::hash::group_hash_axioms;

/// Creating an escrow shared by several sellers; with a positive collateral
/// requirement the escrow first waits for the seller's collateral, which is
/// `amount * required_collateral_bps / 10 000` computed on unsigned 128-bit
/// numbers, due within the deposit window.
pub open spec fn spec_create_multi_seller_escrow(
    pre: ContractView,
    buyer: Address,
    sellers: Seq<(Address, u32)>,
    arbiter: Address,
    amount: i128,
    token: Address,
    deadline: u64,
    metadata_hash: Option<Hash32>,
    required_collateral_bps: u32,
    collateral_forfeit_bps: u32,
    collateral_deposit_window: u64,
    now: u64,
    whitelist_allows: bool,
) -> StepWith<u32> {
    if pre.paused {
        Err(ContractError::ContractIsPaused)
    } else if collateral_forfeit_bps > 10000 {
        Err(ContractError::CollateralForfeitBpsCannotExceed10000)
    } else if sellers.len() == 0 {
        Err(ContractError::AtLeastOneSellerRequired)
    } else {
        match spec_create_core(
            pre,
            buyer,
            basic_request(sellers[0].0, arbiter, amount, token, deadline, metadata_hash, sellers, false, 0, 0),
            now,
            whitelist_allows,
        ) {
            Err(x) => Err(x),
            Ok((s1, ts, id)) => if required_collateral_bps == 0 {
                Ok((s1, ts, id))
            } else {
                let prod = (amount as u128) * required_collateral_bps;
                if prod > u128::MAX || now + collateral_deposit_window > u64::MAX {
                    Err(ContractError::Overflow)
                } else {
                    let e = s1.escrows[id];
                    let e2 = EscrowView {
                        status: EscrowStatus::AwaitingCollateral,
                        extensions: EscrowExtensions {
                            required_collateral_bps,
                            collateral_forfeit_bps,
                            collateral_deposit_deadline: (now + collateral_deposit_window) as u64,
                            collateral_amount: ((prod as u128) / 10000) as i128,
                            ..e.extensions
                        },
                        ..e
                    };
                    Ok((ContractView { escrows: s1.escrows.insert(id, e2), ..s1 }, ts, id))
                }
            },
        }
    }
}

/// The seller depositing the collateral owed, within the deposit window.
pub open spec fn spec_deposit_collateral(pre: ContractView, seller: Address, id: u32, now: u64) -> Step {
    if pre.paused {
        Err(ContractError::ContractIsPaused)
    } else if !pre.escrows.contains_key(id) {
        Err(ContractError::EscrowNotFound)
    } else {
        let e = pre.escrows[id];
        if e.seller != seller {
            Err(ContractError::OnlySellerCanDepositCollateral)
        } else if e.status != EscrowStatus::AwaitingCollateral {
            Err(ContractError::EscrowIsNotAwaitingCollateral)
        } else if now > e.extensions.collateral_deposit_deadline {
            Err(ContractError::CollateralDepositWindowHasExpired)
        } else {
            Ok(
                (
                    ContractView {
                        seller_collateral: pre.seller_collateral.insert(id, e.extensions.collateral_amount),
                        escrows: pre.escrows.insert(id, with_status(e, EscrowStatus::Active)),
                        ..pre
                    },
                    seq![xfer(e.token, seller, pre.me, e.extensions.collateral_amount)],
                ),
            )
        }
    }
}

pub open spec fn rating_of(pre: ContractView, a: Address) -> (u64, u32) {
    if pre.rating_scores.contains_key(a) {
        pre.rating_scores[a]
    } else {
        (0, 0)
    }
}

pub open spec fn rated(pre: ContractView, id: u32, rater: Address) -> bool {
    pre.ratings_submitted.contains_key(id) && pre.ratings_submitted[id].contains_key(rater)
}

/// The buyer or the seller of a released or resolved escrow rating the other
/// from 1 to 5, once.
pub open spec fn spec_submit_rating(pre: ContractView, rater: Address, id: u32, rating: u32) -> Step {
    if rating < 1 || rating > 5 {
        Err(ContractError::RatingMustBeBetween1And5)
    } else if !pre.escrows.contains_key(id) {
        Err(ContractError::EscrowNotFound)
    } else {
        let e = pre.escrows[id];
        if e.status != EscrowStatus::Released && e.status != EscrowStatus::Resolved {
            Err(ContractError::RatingOnlyAllowedAfterEscrowIsReleasedOrResolved)
        } else if rater != e.buyer && rater != e.seller {
            Err(ContractError::OnlyBuyerOrSellerCanSubmitRating)
        } else if rated(pre, id, rater) {
            Err(ContractError::RatingAlreadySubmittedEscrow)
        } else {
            let ratee = if rater == e.buyer {
                e.seller
            } else {
                e.buyer
            };
            let (total, count) = rating_of(pre, ratee);
            if total + rating > u64::MAX || count == u32::MAX {
                Err(ContractError::Overflow)
            } else {
                let table = if pre.ratings_submitted.contains_key(id) {
                    pre.ratings_submitted[id]
                } else {
                    Map::empty()
                };
                Ok(
                    (
                        ContractView {
                            ratings_submitted: pre.ratings_submitted.insert(id, table.insert(rater, true)),
                            rating_scores: pre.rating_scores.insert(ratee, ((total + rating) as u64, (count + 1) as u32)),
                            ..pre
                        },
                        Seq::empty(),
                    ),
                )
            }
        }
    }
}

/// An account's (average rating times 100, number of ratings); `None` when
/// the average overflows.
pub open spec fn reputation(pre: ContractView, a: Address) -> Option<(u32, u32)> {
    let (total, count) = rating_of(pre, a);
    if count == 0 {
        Some((0, 0))
    } else if total * 100 > u64::MAX {
        None
    } else {
        Some(((((total * 100) as u64) / (count as u64)) as u32, count))
    }
}

/// The seller of an open escrow proving delivery: when `proof_digest` (the
/// SHA-256 digest of the proof) matches the committed hash, the escrow is paid
/// out to its sellers.
pub open spec fn spec_submit_delivery_proof(pre: ContractView, seller: Address, id: u32, proof_digest: Hash32) -> Step {
    if pre.paused {
        Err(ContractError::ContractIsPaused)
    } else if !pre.escrows.contains_key(id) {
        Err(ContractError::EscrowNotFound)
    } else {
        let e = pre.escrows[id];
        if e.seller != seller {
            Err(ContractError::OnlySellerCanSubmitDeliveryProof)
        } else if e.status == EscrowStatus::Disputed {
            Err(ContractError::ProofSubmissionLockedEscrowIsUnderDispute)
        } else if !spec_is_open(e.status) {
            Err(ContractError::EscrowIsNotActive)
        } else if e.extensions.delivery_proof_hash is None {
            Err(ContractError::NoDeliveryProofHashSet)
        } else if e.extensions.delivery_proof_hash->0 != proof_digest {
            Err(ContractError::InvalidDeliveryProof)
        } else {
            match seller_payout(pre, id, e, e.amount) {
                None => Err(ContractError::Overflow),
                Some(ts) => Ok(
                    (ContractView { escrows: pre.escrows.insert(id, with_status(e, EscrowStatus::Released)), ..pre }, ts),
                ),
            }
        }
    }
}

/// The seller of an open escrow vetoing its release, at most once per cooldown.
pub open spec fn spec_raise_seller_veto(pre: ContractView, seller: Address, id: u32, now: u64) -> Step {
    if pre.paused {
        Err(ContractError::ContractIsPaused)
    } else if !pre.escrows.contains_key(id) {
        Err(ContractError::EscrowNotFound)
    } else if pre.escrows[id].seller != seller {
        Err(ContractError::OnlyEscrowSellerCanRaiseVeto)
    } else if !spec_is_open(pre.escrows[id].status) {
        Err(ContractError::EscrowIsNotActive)
    } else if pre.seller_veto_last.contains_key(id) && pre.seller_veto_last[id] + pre.veto_cooldown_secs > u64::MAX {
        Err(ContractError::Overflow)
    } else if pre.seller_veto_last.contains_key(id) && now < pre.seller_veto_last[id] + pre.veto_cooldown_secs {
        Err(ContractError::VetoCooldownActive)
    } else {
        Ok((ContractView { seller_veto_last: pre.seller_veto_last.insert(id, now), ..pre }, Seq::empty()))
    }
}

/// Admin lifting the seller's veto on an open escrow; the cooldown restarts now.
pub open spec fn spec_admin_override_veto(pre: ContractView, admin: Address, id: u32, now: u64) -> Step {
    if pre.paused {
        Err(ContractError::ContractIsPaused)
    } else if let Some(x) = admin_refusal(pre, admin) {
        Err(x)
    } else if !pre.escrows.contains_key(id) {
        Err(ContractError::EscrowNotFound)
    } else if !spec_is_open(pre.escrows[id].status) {
        Err(ContractError::EscrowIsNotActive)
    } else {
        Ok((ContractView { seller_veto_last: pre.seller_veto_last.insert(id, now), ..pre }, Seq::empty()))
    }
}

pub open spec fn saturating_add_u64(a: u64, b: u64) -> u64 {
    if a + b > u64::MAX {
        u64::MAX
    } else {
        (a + b) as u64
    }
}

/// The seller withdrawing its veto within the override window.
pub open spec fn spec_cancel_seller_veto(pre: ContractView, seller: Address, id: u32, now: u64) -> Step {
    if pre.paused {
        Err(ContractError::ContractIsPaused)
    } else if !pre.escrows.contains_key(id) {
        Err(ContractError::EscrowNotFound)
    } else if pre.escrows[id].seller != seller {
        Err(ContractError::OnlyEscrowSellerCanCancelVeto)
    } else if !pre.veto_timestamps.contains_key(id) {
        Err(ContractError::NoActiveVetoToCancel)
    } else if now > saturating_add_u64(pre.veto_timestamps[id], pre.veto_override_window) {
        Err(ContractError::VetoWindowElapsed)
    } else {
        Ok((ContractView { veto_timestamps: pre.veto_timestamps.remove(id), ..pre }, Seq::empty()))
    }
}

/// Admin overriding a veto that outlived the override window, outside any
/// dispute: the reason is recorded and the escrow refunded to the buyer side.
pub open spec fn spec_override_veto(pre: ContractView, admin: Address, id: u32, reason_hash: Hash32, now: u64) -> Step {
    if pre.paused {
        Err(ContractError::ContractIsPaused)
    } else if let Some(x) = named_admin_refusal(pre, admin, ContractError::OnlyAdminCanOverrideSellerVeto) {
        Err(x)
    } else if !pre.escrows.contains_key(id) {
        Err(ContractError::EscrowNotFound)
    } else {
        let e = pre.escrows[id];
        if e.status == EscrowStatus::Disputed || e.status == EscrowStatus::PartiallyDisputed {
            Err(ContractError::ActiveDisputeExists)
        } else if !pre.veto_timestamps.contains_key(id) {
            Err(ContractError::NoActiveVetoToOverride)
        } else if now <= saturating_add_u64(pre.veto_timestamps[id], pre.veto_override_window) {
            Err(ContractError::VetoWindowNotElapsed)
        } else {
            match buyer_payout(pre, id, e, e.amount) {
                None => Err(ContractError::Overflow),
                Some(ts) => Ok(
                    (
                        ContractView {
                            veto_reasons: pre.veto_reasons.insert(id, reason_hash),
                            veto_timestamps: pre.veto_timestamps.remove(id),
                            escrows: pre.escrows.insert(id, with_status(e, EscrowStatus::Refunded)),
                            ..pre
                        },
                        ts,
                    ),
                ),
            }
        }
    }
}

/// The seller of an active escrow proposing to hand its role over; the buyer
/// may veto until the window of ledgers has passed.
pub open spec fn spec_transfer_seller_role(pre: ContractView, seller: Address, id: u32, new_seller: Address, ledger: u32) -> Step {
    if pre.paused {
        Err(ContractError::ContractIsPaused)
    } else if !pre.escrows.contains_key(id) {
        Err(ContractError::EscrowNotFound)
    } else if pre.escrows[id].seller != seller {
        Err(ContractError::OnlyCurrentSellerCanInitiateTransfer)
    } else if pre.escrows[id].status != EscrowStatus::Active {
        Err(ContractError::EscrowMustBeActiveToTransferSellerRole)
    } else if ledger + pre.seller_transfer_veto_window > u32::MAX {
        Err(ContractError::Overflow)
    } else {
        Ok(
            (
                ContractView {
                    seller_transfers: pre.seller_transfers.insert(
                        id,
                        SellerTransferProposal {
                            original_seller: seller,
                            new_seller,
                            veto_deadline: (ledger + pre.seller_transfer_veto_window) as u32,
                        },
                    ),
                    escrows: pre.escrows.insert(id, with_status(pre.escrows[id], EscrowStatus::AwaitingBuyerVetoDecision)),
                    ..pre
                },
                Seq::empty(),
            ),
        )
    }
}

/// The state once a pending seller transfer on escrow `id` takes effect.
pub open spec fn seller_transferred(pre: ContractView, id: u32) -> ContractView {
    ContractView {
        escrows: pre.escrows.insert(
            id,
            EscrowView {
                seller: pre.seller_transfers[id].new_seller,
                status: EscrowStatus::Active,
                ..pre.escrows[id]
            },
        ),
        ..pre
    }
}

/// The buyer accepting a pending seller transfer at once.
pub open spec fn spec_approve_seller_transfer(pre: ContractView, buyer: Address, id: u32) -> Step {
    if !pre.escrows.contains_key(id) {
        Err(ContractError::EscrowNotFound)
    } else if pre.escrows[id].buyer != buyer {
        Err(ContractError::OnlyBuyerCanApprove)
    } else if pre.escrows[id].status != EscrowStatus::AwaitingBuyerVetoDecision {
        Err(ContractError::NoPendingSellerTransfer)
    } else if !pre.seller_transfers.contains_key(id) {
        Err(ContractError::ProposalNotFound)
    } else {
        Ok((seller_transferred(pre, id), Seq::empty()))
    }
}

/// Anyone completing a pending seller transfer once the buyer's window passed.
pub open spec fn spec_expire_seller_transfer_veto(pre: ContractView, id: u32, ledger: u32) -> Step {
    if !pre.escrows.contains_key(id) {
        Err(ContractError::EscrowNotFound)
    } else if pre.escrows[id].status != EscrowStatus::AwaitingBuyerVetoDecision {
        Err(ContractError::NoPendingSellerTransfer)
    } else if !pre.seller_transfers.contains_key(id) {
        Err(ContractError::ProposalNotFound)
    } else if ledger <= pre.seller_transfers[id].veto_deadline {
        Err(ContractError::VetoWindowHasNotExpiredYet)
    } else {
        Ok((seller_transferred(pre, id), Seq::empty()))
    }
}

/// The buyer vetoing a pending seller transfer: the escrow is refunded.
pub open spec fn spec_veto_seller_transfer(pre: ContractView, buyer: Address, id: u32) -> Step {
    if pre.paused {
        Err(ContractError::ContractIsPaused)
    } else if !pre.escrows.contains_key(id) {
        Err(ContractError::EscrowNotFound)
    } else if pre.escrows[id].buyer != buyer {
        Err(ContractError::OnlyBuyerCanVeto)
    } else if pre.escrows[id].status != EscrowStatus::AwaitingBuyerVetoDecision {
        Err(ContractError::NoPendingSellerTransfer)
    } else {
        let e = pre.escrows[id];
        match buyer_payout(pre, id, e, e.amount) {
            None => Err(ContractError::Overflow),
            Some(ts) => Ok(
                (ContractView { escrows: pre.escrows.insert(id, with_status(e, EscrowStatus::Refunded)), ..pre }, ts),
            ),
        }
    }
}

impl AhjoorEscrowContract {
    /// Creates an escrow shared by several sellers, optionally awaiting the
    /// seller's collateral first.
    pub fn create_multi_seller_escrow(
        &mut self,
        buyer: Address,
        sellers: Vec<(Address, u32)>,
        arbiter: Address,
        amount: i128,
        token: Address,
        deadline: u64,
        metadata_hash: Option<Hash32>,
        required_collateral_bps: u32,
        collateral_forfeit_bps: u32,
        collateral_deposit_window: u64,
        now: u64,
        whitelist_allows: bool,
    ) -> (r: Result<(u32, Vec<Transfer>), ContractError>)
        ensures
            spec_create_multi_seller_escrow(
                old(self)@,
                buyer,
                sellers@,
                arbiter,
                amount,
                token,
                deadline,
                metadata_hash,
                required_collateral_bps,
                collateral_forfeit_bps,
                collateral_deposit_window,
                now,
                whitelist_allows,
            ) == outcome_with(r, final(self)@),
            r is Err ==> final(self)@ == old(self)@,
    {
        if self.paused {
            return Err(ContractError::ContractIsPaused);
        }
        if collateral_forfeit_bps > 10000 {
            return Err(ContractError::CollateralForfeitBpsCannotExceed10000);
        }
        if sellers.len() == 0 {
            return Err(ContractError::AtLeastOneSellerRequired);
        }
        let ghost pre = self@;
        let ghost sv = sellers@;
        let primary = sellers[0].0;
        let mut collateral: i128 = 0;
        let mut due: u64 = 0;
        if required_collateral_bps > 0 {
            collateral = match (amount as u128).checked_mul(required_collateral_bps as u128) {
                Some(p) => (p / 10000) as i128,
                None => {
                    // Creation would succeed or fail first; either way nothing is kept.
                    let saved = self.snapshot();
                    let req = Self::multi_seller_request(primary, arbiter, amount, token, deadline, metadata_hash, sellers);
                    let r = self.create_escrow_core(buyer, req, now, whitelist_allows);
                    *self = saved;
                    return match r {
                        Err(x) => Err(x),
                        Ok(_) => Err(ContractError::Overflow),
                    };
                },
            };
            due = match now.checked_add(collateral_deposit_window) {
                Some(d) => d,
                None => {
                    let saved = self.snapshot();
                    let req = Self::multi_seller_request(primary, arbiter, amount, token, deadline, metadata_hash, sellers);
                    let r = self.create_escrow_core(buyer, req, now, whitelist_allows);
                    *self = saved;
                    return match r {
                        Err(x) => Err(x),
                        Ok(_) => Err(ContractError::Overflow),
                    };
                },
            };
        }
        let req = Self::multi_seller_request(primary, arbiter, amount, token, deadline, metadata_hash, sellers);
        let (id, ts) = self.create_escrow_core(buyer, req, now, whitelist_allows)?;
        if required_collateral_bps > 0 {
            let mut e = self.take_escrow(id);
            e.status = EscrowStatus::AwaitingCollateral;
            e.extensions.required_collateral_bps = required_collateral_bps;
            e.extensions.collateral_forfeit_bps = collateral_forfeit_bps;
            e.extensions.collateral_deposit_deadline = due;
            e.extensions.collateral_amount = collateral;
            self.put_escrow(id, e);
        }
        proof {
            let (sp, st, sid) = spec_create_multi_seller_escrow(
                pre,
                buyer,
                sv,
                arbiter,
                amount,
                token,
                deadline,
                metadata_hash,
                required_collateral_bps,
                collateral_forfeit_bps,
                collateral_deposit_window,
                now,
                whitelist_allows,
            )->Ok_0;
            assert(self@ =~= sp);
        }
        Ok((id, ts))
    }

    fn multi_seller_request(
        seller: Address,
        arbiter: Address,
        amount: i128,
        token: Address,
        deadline: u64,
        metadata_hash: Option<Hash32>,
        sellers: Vec<(Address, u32)>,
    ) -> (r: EscrowCreateRequest)
        ensures
            r@ == basic_request(seller, arbiter, amount, token, deadline, metadata_hash, sellers@, false, 0, 0),
    {
        EscrowCreateRequest {
            seller,
            arbiter,
            amount,
            token,
            deadline,
            metadata_hash,
            sellers,
            auto_renew: false,
            renewal_count: 0,
            buyer_inactivity_secs: 0,
            min_lock_until: None,
            release_base: None,
            release_quote: None,
            release_comparison: None,
            release_threshold_price: None,
            arbiter_fee_bps: None,
            dispute_default_winner: None,
            auto_renew_max_renewals: None,
            auto_renew_interval_ledgers: None,
        }
    }

    /// The seller deposits the collateral owed.
    pub fn deposit_collateral(&mut self, seller: Address, escrow_id: u32, now: u64) -> (r: Result<
        Vec<Transfer>,
        ContractError,
    >)
        ensures
            spec_deposit_collateral(old(self)@, seller, escrow_id, now) == outcome(r, final(self)@),
            r is Err ==> final(self)@ == old(self)@,
    {
        let id = escrow_id;
        if self.paused {
            return Err(ContractError::ContractIsPaused);
        }
        let e = self.find_escrow(id)?;
        if e.seller != seller {
            return Err(ContractError::OnlySellerCanDepositCollateral);
        }
        if e.status != EscrowStatus::AwaitingCollateral {
            return Err(ContractError::EscrowIsNotAwaitingCollateral);
        }
        if now > e.extensions.collateral_deposit_deadline {
            return Err(ContractError::CollateralDepositWindowHasExpired);
        }
        let ghost pre = self@;
        let c = e.extensions.collateral_amount;
        let mut ts = Vec::new();
        ts.push(Transfer { token: e.token, from: seller, to: self.me, amount: c, by_allowance: false });
        self.seller_collateral.insert(id, c);
        let mut e = self.take_escrow(id);
        e.status = EscrowStatus::Active;
        self.put_escrow(id, e);
        proof {
            let (sp, st) = spec_deposit_collateral(pre, seller, id, now)->Ok_0;
            assert(self@ =~= sp);
            assert(ts@ =~= st);
        }
        Ok(ts)
    }

    /// The buyer or the seller of a settled escrow rates the other, once.
    pub fn submit_rating(&mut self, rater: Address, escrow_id: u32, rating: u32, comment_hash: Option<Hash32>) -> (r:
        Result<(), ContractError>)
        ensures
            spec_submit_rating(old(self)@, rater, escrow_id, rating) == outcome_unit(r, final(self)@),
            r is Err ==> final(self)@ == old(self)@,
    {
        let id = escrow_id;
        if rating < 1 || rating > 5 {
            return Err(ContractError::RatingMustBeBetween1And5);
        }
        let e = self.find_escrow(id)?;
        if e.status != EscrowStatus::Released && e.status != EscrowStatus::Resolved {
            return Err(ContractError::RatingOnlyAllowedAfterEscrowIsReleasedOrResolved);
        }
        let ratee = if rater == e.buyer {
            e.seller
        } else if rater == e.seller {
            e.buyer
        } else {
            return Err(ContractError::OnlyBuyerOrSellerCanSubmitRating);
        };
        proof {
            crate::common::lemma_map_values_lookup(self.ratings_submitted@, |m: HashMap<Address, bool>| m@);
        }
        let mut table: HashMap<Address, bool> = match self.ratings_submitted.get(&id) {
            Some(m) => m.clone(),
            None => HashMap::new(),
        };
        if table.contains_key(&rater) {
            return Err(ContractError::RatingAlreadySubmittedEscrow);
        }
        let (total, count): (u64, u32) = match self.rating_scores.get(&ratee) {
            Some(v) => *v,
            None => (0, 0),
        };
        let new_total = match total.checked_add(rating as u64) {
            Some(t) => t,
            None => return Err(ContractError::Overflow),
        };
        if count == u32::MAX {
            return Err(ContractError::Overflow);
        }
        let ghost pre = self@;
        table.insert(rater, true);
        proof {
            crate::common::lemma_map_values_insert(self.ratings_submitted@, id, table, |m: HashMap<Address, bool>| m@);
        }
        self.ratings_submitted.insert(id, table);
        self.rating_scores.insert(ratee, (new_total, count + 1));
        proof {
            let sp = spec_submit_rating(pre, rater, id, rating)->Ok_0.0;
            assert(self@.ratings_submitted =~= sp.ratings_submitted);
            assert(self@ =~= sp);
        }
        Ok(())
    }

    /// An account's (average rating times 100, number of ratings).
    pub fn get_reputation(&self, address: Address) -> (r: Result<(u32, u32), ContractError>)
        ensures
            match reputation(self@, address) {
                Some(v) => r == Ok::<(u32, u32), ContractError>(v),
                None => r == Err::<(u32, u32), ContractError>(ContractError::Overflow),
            },
    {
        let (total, count): (u64, u32) = match self.rating_scores.get(&address) {
            Some(v) => *v,
            None => (0, 0),
        };
        if count == 0 {
            return Ok((0, 0));
        }
        let scaled = match total.checked_mul(100) {
            Some(v) => v,
            None => return Err(ContractError::Overflow),
        };
        Ok(((scaled / count as u64) as u32, count))
    }

    /// The seller proves delivery of an open escrow with a 32-byte `proof`:
    /// when its SHA-256 digest matches the committed hash the escrow is paid
    /// out to its sellers.
    pub fn submit_delivery_proof(&mut self, env: &Env, seller: Address, escrow_id: u32, proof: [u8; 32]) -> (r: Result<
        Vec<Transfer>,
        ContractError,
    >)
        ensures
            spec_submit_delivery_proof(old(self)@, seller, escrow_id, hash_of_bytes(sha256_of(proof@))) == outcome(
                r,
                final(self)@,
            ),
            r is Err ==> final(self)@ == old(self)@,
    {
        let digest = delivery_digest(env, proof);
        self.submit_delivery_digest(seller, escrow_id, digest)
    }

    /// The seller proves delivery of an open escrow by the SHA-256 digest of
    /// the proof, `proof_digest`: when it matches the committed hash the escrow
    /// is paid out to its sellers.
    pub fn submit_delivery_digest(&mut self, seller: Address, escrow_id: u32, proof_digest: Hash32) -> (r: Result<
        Vec<Transfer>,
        ContractError,
    >)
        ensures
            spec_submit_delivery_proof(old(self)@, seller, escrow_id, proof_digest) == outcome(r, final(self)@),
            r is Err ==> final(self)@ == old(self)@,
    {
        let id = escrow_id;
        if self.paused {
            return Err(ContractError::ContractIsPaused);
        }
        let e = self.find_escrow(id)?;
        if e.seller != seller {
            return Err(ContractError::OnlySellerCanSubmitDeliveryProof);
        }
        if e.status == EscrowStatus::Disputed {
            return Err(ContractError::ProofSubmissionLockedEscrowIsUnderDispute);
        }
        if !Self::is_open_escrow_status(e.status) {
            return Err(ContractError::EscrowIsNotActive);
        }
        let expected = match e.extensions.delivery_proof_hash {
            Some(h) => h,
            None => return Err(ContractError::NoDeliveryProofHashSet),
        };
        if expected != proof_digest {
            return Err(ContractError::InvalidDeliveryProof);
        }
        let ts = match self.transfer_to_sellers(id, e, e.amount) {
            Some(v) => v,
            None => return Err(ContractError::Overflow),
        };
        let ghost pre = self@;
        let mut e = self.take_escrow(id);
        e.status = EscrowStatus::Released;
        self.put_escrow(id, e);
        proof {
            let (sp, st) = spec_submit_delivery_proof(pre, seller, id, proof_digest)->Ok_0;
            assert(self@ =~= sp);
        }
        Ok(ts)
    }

    /// The seller vetoes the release of an open escrow.
    pub fn raise_seller_veto(&mut self, seller: Address, escrow_id: u32, now: u64) -> (r: Result<(), ContractError>)
        ensures
            spec_raise_seller_veto(old(self)@, seller, escrow_id, now) == outcome_unit(r, final(self)@),
            r is Err ==> final(self)@ == old(self)@,
    {
        let id = escrow_id;
        if self.paused {
            return Err(ContractError::ContractIsPaused);
        }
        let e = self.find_escrow(id)?;
        if e.seller != seller {
            return Err(ContractError::OnlyEscrowSellerCanRaiseVeto);
        }
        if !Self::is_open_escrow_status(e.status) {
            return Err(ContractError::EscrowIsNotActive);
        }
        if let Some(last) = self.seller_veto_last.get(&id) {
            let until = match last.checked_add(self.veto_cooldown_secs) {
                Some(t) => t,
                None => return Err(ContractError::Overflow),
            };
            if now < until {
                return Err(ContractError::VetoCooldownActive);
            }
        }
        self.seller_veto_last.insert(id, now);
        Ok(())
    }

    /// Admin lifts the seller's veto on an open escrow.
    pub fn admin_override_veto(&mut self, admin: Address, escrow_id: u32, now: u64) -> (r: Result<(), ContractError>)
        ensures
            spec_admin_override_veto(old(self)@, admin, escrow_id, now) == outcome_unit(r, final(self)@),
            r is Err ==> final(self)@ == old(self)@,
    {
        if self.paused {
            return Err(ContractError::ContractIsPaused);
        }
        self.require_admin(admin)?;
        let e = self.find_escrow(escrow_id)?;
        if !Self::is_open_escrow_status(e.status) {
            return Err(ContractError::EscrowIsNotActive);
        }
        self.seller_veto_last.insert(escrow_id, now);
        Ok(())
    }

    /// The seller withdraws its veto within the override window.
    pub fn cancel_seller_veto(&mut self, seller: Address, escrow_id: u32, now: u64) -> (r: Result<(), ContractError>)
        ensures
            spec_cancel_seller_veto(old(self)@, seller, escrow_id, now) == outcome_unit(r, final(self)@),
            r is Err ==> final(self)@ == old(self)@,
    {
        let id = escrow_id;
        if self.paused {
            return Err(ContractError::ContractIsPaused);
        }
        let e = self.find_escrow(id)?;
        if e.seller != seller {
            return Err(ContractError::OnlyEscrowSellerCanCancelVeto);
        }
        let ts = match self.veto_timestamps.get(&id) {
            Some(t) => *t,
            None => return Err(ContractError::NoActiveVetoToCancel),
        };
        let end: u64 = match ts.checked_add(self.veto_override_window) {
            Some(t) => t,
            None => u64::MAX,
        };
        if now > end {
            return Err(ContractError::VetoWindowElapsed);
        }
        self.veto_timestamps.remove(&id);
        Ok(())
    }

    /// Admin overrides a veto that outlived the override window; the escrow
    /// is refunded to the buyer side.
    pub fn override_veto(&mut self, admin: Address, escrow_id: u32, reason_hash: Hash32, now: u64) -> (r: Result<
        Vec<Transfer>,
        ContractError,
    >)
        ensures
            spec_override_veto(old(self)@, admin, escrow_id, reason_hash, now) == outcome(r, final(self)@),
            r is Err ==> final(self)@ == old(self)@,
    {
        let id = escrow_id;
        if self.paused {
            return Err(ContractError::ContractIsPaused);
        }
        self.check_named_admin(admin, ContractError::OnlyAdminCanOverrideSellerVeto)?;
        let e = self.find_escrow(id)?;
        if e.status == EscrowStatus::Disputed || e.status == EscrowStatus::PartiallyDisputed {
            return Err(ContractError::ActiveDisputeExists);
        }
        let vt = match self.veto_timestamps.get(&id) {
            Some(t) => *t,
            None => return Err(ContractError::NoActiveVetoToOverride),
        };
        let end: u64 = match vt.checked_add(self.veto_override_window) {
            Some(t) => t,
            None => u64::MAX,
        };
        if now <= end {
            return Err(ContractError::VetoWindowNotElapsed);
        }
        let ts = match self.transfer_to_buyers(id, e, e.amount) {
            Some(v) => v,
            None => return Err(ContractError::Overflow),
        };
        let ghost pre = self@;
        self.veto_reasons.insert(id, reason_hash);
        self.veto_timestamps.remove(&id);
        let mut e = self.take_escrow(id);
        e.status = EscrowStatus::Refunded;
        self.put_escrow(id, e);
        proof {
            let (sp, st) = spec_override_veto(pre, admin, id, reason_hash, now)->Ok_0;
            assert(self@ =~= sp);
        }
        Ok(ts)
    }

    /// The seller of an active escrow proposes to hand its role to
    /// `new_seller`; `ledger` is the current ledger sequence.
    pub fn transfer_seller_role(&mut self, seller: Address, escrow_id: u32, new_seller: Address, ledger: u32) -> (r:
        Result<(), ContractError>)
        ensures
            spec_transfer_seller_role(old(self)@, seller, escrow_id, new_seller, ledger) == outcome_unit(
                r,
                final(self)@,
            ),
            r is Err ==> final(self)@ == old(self)@,
    {
        let id = escrow_id;
        if self.paused {
            return Err(ContractError::ContractIsPaused);
        }
        let e = self.find_escrow(id)?;
        if e.seller != seller {
            return Err(ContractError::OnlyCurrentSellerCanInitiateTransfer);
        }
        if e.status != EscrowStatus::Active {
            return Err(ContractError::EscrowMustBeActiveToTransferSellerRole);
        }
        let deadline = match ledger.checked_add(self.seller_transfer_veto_window) {
            Some(d) => d,
            None => return Err(ContractError::Overflow),
        };
        let ghost pre = self@;
        self.seller_transfers.insert(
            id,
            SellerTransferProposal { original_seller: seller, new_seller, veto_deadline: deadline },
        );
        let mut e = self.take_escrow(id);
        e.status = EscrowStatus::AwaitingBuyerVetoDecision;
        self.put_escrow(id, e);
        assert(self@ =~= spec_transfer_seller_role(pre, seller, id, new_seller, ledger)->Ok_0.0);
        Ok(())
    }

    fn complete_seller_transfer(&mut self, id: u32)
        requires
            old(self)@.escrows.contains_key(id),
            old(self)@.seller_transfers.contains_key(id),
        ensures
            final(self)@ == seller_transferred(old(self)@, id),
    {
        let p = *self.seller_transfers.get(&id).unwrap();
        let mut e = self.take_escrow(id);
        e.seller = p.new_seller;
        e.status = EscrowStatus::Active;
        self.put_escrow(id, e);
        assert(self@ =~= seller_transferred(old(self)@, id));
    }

    /// The buyer accepts a pending seller transfer at once.
    pub fn approve_seller_transfer(&mut self, buyer: Address, escrow_id: u32) -> (r: Result<(), ContractError>)
        ensures
            spec_approve_seller_transfer(old(self)@, buyer, escrow_id) == outcome_unit(r, final(self)@),
            r is Err ==> final(self)@ == old(self)@,
    {
        let id = escrow_id;
        let e = self.find_escrow(id)?;
        if e.buyer != buyer {
            return Err(ContractError::OnlyBuyerCanApprove);
        }
        if e.status != EscrowStatus::AwaitingBuyerVetoDecision {
            return Err(ContractError::NoPendingSellerTransfer);
        }
        if !self.seller_transfers.contains_key(&id) {
            return Err(ContractError::ProposalNotFound);
        }
        self.complete_seller_transfer(id);
        Ok(())
    }

    /// Anyone completes a pending seller transfer once the buyer's window of
    /// ledgers has passed; `ledger` is the current ledger sequence.
    pub fn expire_seller_transfer_veto(&mut self, escrow_id: u32, ledger: u32) -> (r: Result<(), ContractError>)
        ensures
            spec_expire_seller_transfer_veto(old(self)@, escrow_id, ledger) == outcome_unit(r, final(self)@),
            r is Err ==> final(self)@ == old(self)@,
    {
        let id = escrow_id;
        let e = self.find_escrow(id)?;
        if e.status != EscrowStatus::AwaitingBuyerVetoDecision {
            return Err(ContractError::NoPendingSellerTransfer);
        }
        let p = match self.seller_transfers.get(&id) {
            Some(p) => *p,
            None => return Err(ContractError::ProposalNotFound),
        };
        if ledger <= p.veto_deadline {
            return Err(ContractError::VetoWindowHasNotExpiredYet);
        }
        self.complete_seller_transfer(id);
        Ok(())
    }

    /// Same as [`Self::expire_seller_transfer_veto`].
    pub fn finalize_seller_transfer(&mut self, escrow_id: u32, ledger: u32) -> (r: Result<(), ContractError>)
        ensures
            spec_expire_seller_transfer_veto(old(self)@, escrow_id, ledger) == outcome_unit(r, final(self)@),
            r is Err ==> final(self)@ == old(self)@,
    {
        self.expire_seller_transfer_veto(escrow_id, ledger)
    }

    /// The buyer vetoes a pending seller transfer; the escrow is refunded.
    pub fn veto_seller_transfer(&mut self, buyer: Address, escrow_id: u32) -> (r: Result<Vec<Transfer>, ContractError>)
        ensures
            spec_veto_seller_transfer(old(self)@, buyer, escrow_id) == outcome(r, final(self)@),
            r is Err ==> final(self)@ == old(self)@,
    {
        let id = escrow_id;
        if self.paused {
            return Err(ContractError::ContractIsPaused);
        }
        let e = self.find_escrow(id)?;
        if e.buyer != buyer {
            return Err(ContractError::OnlyBuyerCanVeto);
        }
        if e.status != EscrowStatus::AwaitingBuyerVetoDecision {
            return Err(ContractError::NoPendingSellerTransfer);
        }
        let ts = match self.transfer_to_buyers(id, e, e.amount) {
            Some(v) => v,
            None => return Err(ContractError::Overflow),
        };
        let ghost pre = self@;
        let mut e = self.take_escrow(id);
        e.status = EscrowStatus::Refunded;
        self.put_escrow(id, e);
        proof {
            let (sp, st) = spec_veto_seller_transfer(pre, buyer, id)->Ok_0;
            assert(self@ =~= sp);
        }
        Ok(ts)
    }
}

} // verus!
