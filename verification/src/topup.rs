//! Top-ups, partial release requests, share delegation, the buyer's role and
//! metadata.

use crate::common::{
    fits_i128, lemma_map_values_insert, outcome, outcome_unit, seller_payout, spec_is_open, xfer, Step,
};
use crate::dispute::spec_dispute_escrow;
use crate::errors::ContractError;
use crate::model::{
    Address, Dispute, DisputeView, EscrowStatus, EscrowView, Hash32, PartialReleaseRequest, TopUpEntry,
    Transfer,
};
use crate::release::{note_buyer_action, with_status};
use crate::state::{AhjoorEscrowContract, ContractView};
use std::collections::HashMap;
use vstd::prelude::*;

verus! {

broadcast use vstd::std_specs::hash::group_hash_axioms;

/// The buyer adding funds to an active or inspected escrow, up to the
/// multiple of its original amount that the contract allows; the seller has
/// to acknowledge the top-up.
pub open spec fn spec_top_up_escrow(pre: ContractView, buyer: Address, id: u32, additional: i128, now: u64) -> Step {
    if pre.paused {
        Err(ContractError::ContractIsPaused)
    } else if !pre.escrows.contains_key(id) {
        Err(ContractError::EscrowNotFound)
    } else {
        let e = pre.escrows[id];
        let max_total = e.original_amount * pre.max_topup_multiplier;
        let new_total = e.amount + additional;
        if buyer != e.buyer {
            Err(ContractError::OnlyBuyerCanTopUpEscrow)
        } else if e.status != EscrowStatus::Active && e.status != EscrowStatus::AwaitingInspection {
            Err(ContractError::EscrowIsNotActiveOrAwaitingInspection)
        } else if additional <= 0 {
            Err(ContractError::AdditionalAmountMustBePositive)
        } else if !fits_i128(max_total) || !fits_i128(new_total) {
            Err(ContractError::Overflow)
        } else if new_total > max_total {
            Err(ContractError::TopUpLimitExceeded)
        } else {
            Ok(
                (
                    ContractView {
                        escrows: pre.escrows.insert(
                            id,
                            EscrowView {
                                amount: new_total as i128,
                                top_up_history: e.top_up_history.push(
                                    TopUpEntry { amount: additional, timestamp: now, cumulative_total: new_total as i128 },
                                ),
                                top_up_acknowledged: false,
                                ..e
                            },
                        ),
                        ..pre
                    },
                    seq![xfer(e.token, buyer, pre.me, additional)],
                ),
            )
        }
    }
}

/// The seller acknowledging the latest top-up.
pub open spec fn spec_acknowledge_topup(pre: ContractView, seller: Address, id: u32) -> Step {
    if pre.paused {
        Err(ContractError::ContractIsPaused)
    } else if !pre.escrows.contains_key(id) {
        Err(ContractError::EscrowNotFound)
    } else if seller != pre.escrows[id].seller {
        Err(ContractError::OnlySellerCanAcknowledgeTopUp)
    } else {
        Ok(
            (
                ContractView {
                    escrows: pre.escrows.insert(id, EscrowView { top_up_acknowledged: true, ..pre.escrows[id] }),
                    ..pre
                },
                Seq::empty(),
            ),
        )
    }
}

pub open spec fn partial_release_counter_of(pre: ContractView, id: u32) -> u64 {
    if pre.partial_release_counter.contains_key(id) {
        pre.partial_release_counter[id]
    } else {
        0
    }
}

/// The seller asking the buyer to release part of an active escrow; the
/// request takes the next request number and the buyer has the response
/// deadline to answer.
pub open spec fn spec_request_partial_release(
    pre: ContractView,
    seller: Address,
    id: u32,
    amount: i128,
    justification_hash: Hash32,
    now: u64,
) -> Step {
    if pre.paused {
        Err(ContractError::ContractIsPaused)
    } else if !pre.escrows.contains_key(id) {
        Err(ContractError::EscrowNotFound)
    } else {
        let e = pre.escrows[id];
        let n = partial_release_counter_of(pre, id);
        if seller != e.seller {
            Err(ContractError::OnlySellerCanRequestPartialRelease)
        } else if e.status != EscrowStatus::Active {
            Err(ContractError::PartialReleaseOnlyAllowedActiveEscrow)
        } else if amount <= 0 {
            Err(ContractError::PartialReleaseAmountMustBePositive)
        } else if amount > e.amount {
            Err(ContractError::PartialReleaseAmountCannotExceedEscrowAmount)
        } else if pre.pending_partial_release.contains_key(id) {
            Err(ContractError::RequestAlreadyPending)
        } else if n == u64::MAX || now + pre.partial_release_response_deadline > u64::MAX {
            Err(ContractError::Overflow)
        } else {
            Ok(
                (
                    ContractView {
                        partial_release_counter: pre.partial_release_counter.insert(id, (n + 1) as u64),
                        pending_partial_release: pre.pending_partial_release.insert(
                            id,
                            PartialReleaseRequest {
                                request_id: (n + 1) as u64,
                                amount,
                                justification_hash,
                                created_at: now,
                                response_deadline: (now + pre.partial_release_response_deadline) as u64,
                            },
                        ),
                        ..pre
                    },
                    Seq::empty(),
                ),
            )
        }
    }
}

/// The buyer approving the pending partial release: its amount is paid to the
/// sellers and taken off the escrow.
pub open spec fn spec_approve_partial_release(pre: ContractView, buyer: Address, id: u32, request_id: u64) -> Step {
    if pre.paused {
        Err(ContractError::ContractIsPaused)
    } else if !pre.escrows.contains_key(id) {
        Err(ContractError::EscrowNotFound)
    } else if buyer != pre.escrows[id].buyer {
        Err(ContractError::OnlyBuyerCanApprovePartialRelease)
    } else if !pre.pending_partial_release.contains_key(id) {
        Err(ContractError::NoPendingPartialReleaseRequest)
    } else if pre.pending_partial_release[id].request_id != request_id {
        Err(ContractError::InvalidRequestID)
    } else {
        let e = pre.escrows[id];
        let amt = pre.pending_partial_release[id].amount;
        match seller_payout(pre, id, e, amt) {
            None => Err(ContractError::Overflow),
            Some(ts) => if !fits_i128(e.amount - amt) {
                Err(ContractError::Overflow)
            } else {
                Ok(
                    (
                        ContractView {
                            escrows: pre.escrows.insert(id, EscrowView { amount: (e.amount - amt) as i128, ..e }),
                            pending_partial_release: pre.pending_partial_release.remove(id),
                            ..pre
                        },
                        ts,
                    ),
                )
            },
        }
    }
}

/// The buyer turning the pending partial release down.
pub open spec fn spec_reject_partial_release(pre: ContractView, buyer: Address, id: u32, request_id: u64) -> Step {
    if pre.paused {
        Err(ContractError::ContractIsPaused)
    } else if !pre.escrows.contains_key(id) {
        Err(ContractError::EscrowNotFound)
    } else if buyer != pre.escrows[id].buyer {
        Err(ContractError::OnlyBuyerCanRejectPartialRelease)
    } else if !pre.pending_partial_release.contains_key(id) {
        Err(ContractError::NoPendingPartialReleaseRequest)
    } else if pre.pending_partial_release[id].request_id != request_id {
        Err(ContractError::InvalidRequestID)
    } else {
        Ok((ContractView { pending_partial_release: pre.pending_partial_release.remove(id), ..pre }, Seq::empty()))
    }
}

/// The reason recorded when an unanswered partial release becomes a dispute.
pub open spec fn escalation_reason() -> Seq<char> {
    "Partial release escalation"@
}

/// The seller turning a partial release request the buyer left unanswered
/// past its deadline into a dispute over the whole escrow, whose timeout runs
/// from now.
pub open spec fn spec_escalate_partial_release_dispute(pre: ContractView, seller: Address, id: u32, now: u64) -> Step {
    if pre.paused {
        Err(ContractError::ContractIsPaused)
    } else if !pre.escrows.contains_key(id) {
        Err(ContractError::EscrowNotFound)
    } else if seller != pre.escrows[id].seller {
        Err(ContractError::OnlySellerCanEscalatePartialRelease)
    } else if !pre.pending_partial_release.contains_key(id) {
        Err(ContractError::NoPendingPartialReleaseRequest)
    } else if now < pre.pending_partial_release[id].response_deadline {
        Err(ContractError::ResponseDeadlineNotYetPassed)
    } else {
        let e = pre.escrows[id];
        Ok(
            (
                ContractView {
                    pending_partial_release: pre.pending_partial_release.remove(id),
                    escrows: pre.escrows.insert(id, with_status(e, EscrowStatus::Disputed)),
                    dispute_started: pre.dispute_started.insert(id, now),
                    disputes: pre.disputes.insert(
                        id,
                        DisputeView {
                            escrow_id: id,
                            reason: escalation_reason(),
                            created_at: now,
                            resolved: false,
                            dispute_amount: e.amount,
                            timeout_seconds: None,
                        },
                    ),
                    ..pre
                },
                Seq::empty(),
            ),
        )
    }
}

/// Whether `a` is among the first `n` sellers.
pub open spec fn lists_seller(s: Seq<(Address, u32)>, a: Address, n: int) -> bool {
    exists|k: int| 0 <= k < n && #[trigger] s[k] == (a, s[k].1)
}

/// A seller of an open escrow having its share paid to another address.
pub open spec fn spec_delegate_escrow_share(pre: ContractView, seller: Address, id: u32, delegate: Address) -> Step {
    if pre.paused {
        Err(ContractError::ContractIsPaused)
    } else if seller == delegate {
        Err(ContractError::DelegateMustBeDifferentFromSeller)
    } else if !pre.escrows.contains_key(id) {
        Err(ContractError::EscrowNotFound)
    } else if !lists_seller(pre.escrows[id].sellers, seller, pre.escrows[id].sellers.len() as int) {
        Err(ContractError::SellerNotPartOfEscrow)
    } else if !spec_is_open(pre.escrows[id].status) {
        Err(ContractError::CanOnlyDelegateBeforeEscrowIsReleased)
    } else {
        let inner = crate::common::delegates_of(pre, id);
        Ok(
            (
                ContractView { share_delegates: pre.share_delegates.insert(id, inner.insert(seller, delegate)), ..pre },
                Seq::empty(),
            ),
        )
    }
}

/// The buyer of an active escrow handing its role to another address.
pub open spec fn spec_transfer_buyer_role(pre: ContractView, current_buyer: Address, id: u32, new_buyer: Address) -> Step {
    if pre.paused {
        Err(ContractError::ContractIsPaused)
    } else if current_buyer == new_buyer {
        Err(ContractError::NewBuyerMustBeDifferentFromCurrentBuyer)
    } else if !pre.escrows.contains_key(id) {
        Err(ContractError::EscrowNotFound)
    } else if pre.escrows[id].status != EscrowStatus::Active {
        Err(ContractError::BuyerTransferOnlyAllowedActiveEscrows)
    } else if pre.escrows[id].buyer != current_buyer {
        Err(ContractError::OnlyCurrentBuyerCanTransferBuyerRole)
    } else {
        Ok(
            (
                ContractView {
                    escrows: pre.escrows.insert(id, EscrowView { buyer: new_buyer, ..pre.escrows[id] }),
                    ..pre
                },
                Seq::empty(),
            ),
        )
    }
}

/// The buyer or the seller setting a new metadata hash; its time is recorded.
pub open spec fn spec_update_metadata(pre: ContractView, caller: Address, id: u32, new_hash: Hash32, now: u64) -> Step {
    if !pre.escrows.contains_key(id) {
        Err(ContractError::EscrowNotFound)
    } else {
        let e = pre.escrows[id];
        if caller != e.buyer && caller != e.seller {
            Err(ContractError::OnlyBuyerOrSellerCanUpdateMetadata)
        } else {
            let s1 = if caller == e.buyer {
                note_buyer_action(pre, e, id, now)
            } else {
                pre
            };
            Ok(
                (
                    ContractView {
                        escrows: s1.escrows.insert(id, EscrowView { metadata_hash: Some(new_hash), ..e }),
                        metadata: s1.metadata.insert(id, (new_hash, now)),
                        ..s1
                    },
                    Seq::empty(),
                ),
            )
        }
    }
}

impl AhjoorEscrowContract {
    /// The buyer adds funds to an active or inspected escrow.
    pub fn top_up_escrow(&mut self, buyer: Address, escrow_id: u32, additional_amount: i128, now: u64) -> (r: Result<
        Vec<Transfer>,
        ContractError,
    >)
        ensures
            spec_top_up_escrow(old(self)@, buyer, escrow_id, additional_amount, now) == outcome(r, final(self)@),
            r is Err ==> final(self)@ == old(self)@,
    {
        let id = escrow_id;
        if self.paused {
            return Err(ContractError::ContractIsPaused);
        }
        let e = self.find_escrow(id)?;
        if buyer != e.buyer {
            return Err(ContractError::OnlyBuyerCanTopUpEscrow);
        }
        if e.status != EscrowStatus::Active && e.status != EscrowStatus::AwaitingInspection {
            return Err(ContractError::EscrowIsNotActiveOrAwaitingInspection);
        }
        if additional_amount <= 0 {
            return Err(ContractError::AdditionalAmountMustBePositive);
        }
        let max_total = match e.original_amount.checked_mul(self.max_topup_multiplier as i128) {
            Some(v) => v,
            None => return Err(ContractError::Overflow),
        };
        let new_total = match e.amount.checked_add(additional_amount) {
            Some(v) => v,
            None => return Err(ContractError::Overflow),
        };
        if new_total > max_total {
            return Err(ContractError::TopUpLimitExceeded);
        }
        let ghost pre = self@;
        let mut ts = Vec::new();
        ts.push(Transfer { token: e.token, from: buyer, to: self.me, amount: additional_amount, by_allowance: false });
        let mut e = self.take_escrow(id);
        e.amount = new_total;
        e.top_up_history.push(TopUpEntry { amount: additional_amount, timestamp: now, cumulative_total: new_total });
        e.top_up_acknowledged = false;
        self.put_escrow(id, e);
        proof {
            let (sp, st) = spec_top_up_escrow(pre, buyer, id, additional_amount, now)->Ok_0;
            assert(self@ =~= sp);
            assert(ts@ =~= st);
        }
        Ok(ts)
    }

    /// The seller acknowledges the latest top-up.
    pub fn acknowledge_topup(&mut self, seller: Address, escrow_id: u32) -> (r: Result<(), ContractError>)
        ensures
            spec_acknowledge_topup(old(self)@, seller, escrow_id) == outcome_unit(r, final(self)@),
            r is Err ==> final(self)@ == old(self)@,
    {
        let id = escrow_id;
        if self.paused {
            return Err(ContractError::ContractIsPaused);
        }
        let e = self.find_escrow(id)?;
        if seller != e.seller {
            return Err(ContractError::OnlySellerCanAcknowledgeTopUp);
        }
        let ghost pre = self@;
        let mut e = self.take_escrow(id);
        e.top_up_acknowledged = true;
        self.put_escrow(id, e);
        assert(self@ =~= spec_acknowledge_topup(pre, seller, id)->Ok_0.0);
        Ok(())
    }

    /// The seller asks the buyer to release part of an active escrow.
    pub fn request_partial_release(
        &mut self,
        seller: Address,
        escrow_id: u32,
        amount: i128,
        justification_hash: Hash32,
        now: u64,
    ) -> (r: Result<(), ContractError>)
        ensures
            spec_request_partial_release(old(self)@, seller, escrow_id, amount, justification_hash, now)
                == outcome_unit(r, final(self)@),
            r is Err ==> final(self)@ == old(self)@,
    {
        let id = escrow_id;
        if self.paused {
            return Err(ContractError::ContractIsPaused);
        }
        let e = self.find_escrow(id)?;
        if seller != e.seller {
            return Err(ContractError::OnlySellerCanRequestPartialRelease);
        }
        if e.status != EscrowStatus::Active {
            return Err(ContractError::PartialReleaseOnlyAllowedActiveEscrow);
        }
        if amount <= 0 {
            return Err(ContractError::PartialReleaseAmountMustBePositive);
        }
        if amount > e.amount {
            return Err(ContractError::PartialReleaseAmountCannotExceedEscrowAmount);
        }
        if self.pending_partial_release.contains_key(&id) {
            return Err(ContractError::RequestAlreadyPending);
        }
        let n: u64 = match self.partial_release_counter.get(&id) {
            Some(c) => *c,
            None => 0,
        };
        if n == u64::MAX {
            return Err(ContractError::Overflow);
        }
        let deadline = match now.checked_add(self.partial_release_response_deadline) {
            Some(d) => d,
            None => return Err(ContractError::Overflow),
        };
        self.partial_release_counter.insert(id, n + 1);
        self.pending_partial_release.insert(
            id,
            PartialReleaseRequest {
                request_id: n + 1,
                amount,
                justification_hash,
                created_at: now,
                response_deadline: deadline,
            },
        );
        Ok(())
    }

    /// The buyer approves the pending partial release.
    pub fn approve_partial_release(&mut self, buyer: Address, escrow_id: u32, request_id: u64) -> (r: Result<
        Vec<Transfer>,
        ContractError,
    >)
        ensures
            spec_approve_partial_release(old(self)@, buyer, escrow_id, request_id) == outcome(r, final(self)@),
            r is Err ==> final(self)@ == old(self)@,
    {
        let id = escrow_id;
        if self.paused {
            return Err(ContractError::ContractIsPaused);
        }
        let e = self.find_escrow(id)?;
        if buyer != e.buyer {
            return Err(ContractError::OnlyBuyerCanApprovePartialRelease);
        }
        let req = match self.pending_partial_release.get(&id) {
            Some(r) => *r,
            None => return Err(ContractError::NoPendingPartialReleaseRequest),
        };
        if req.request_id != request_id {
            return Err(ContractError::InvalidRequestID);
        }
        let ts = match self.transfer_to_sellers(id, e, req.amount) {
            Some(v) => v,
            None => return Err(ContractError::Overflow),
        };
        let rest = match e.amount.checked_sub(req.amount) {
            Some(v) => v,
            None => return Err(ContractError::Overflow),
        };
        let ghost pre = self@;
        let mut e = self.take_escrow(id);
        e.amount = rest;
        self.put_escrow(id, e);
        self.pending_partial_release.remove(&id);
        proof {
            let (sp, st) = spec_approve_partial_release(pre, buyer, id, request_id)->Ok_0;
            assert(self@ =~= sp);
        }
        Ok(ts)
    }

    /// The buyer turns the pending partial release down.
    pub fn reject_partial_release(
        &mut self,
        buyer: Address,
        escrow_id: u32,
        request_id: u64,
        reason_hash: Hash32,
    ) -> (r: Result<(), ContractError>)
        ensures
            spec_reject_partial_release(old(self)@, buyer, escrow_id, request_id) == outcome_unit(r, final(self)@),
            r is Err ==> final(self)@ == old(self)@,
    {
        let id = escrow_id;
        if self.paused {
            return Err(ContractError::ContractIsPaused);
        }
        let e = self.find_escrow(id)?;
        if buyer != e.buyer {
            return Err(ContractError::OnlyBuyerCanRejectPartialRelease);
        }
        let req = match self.pending_partial_release.get(&id) {
            Some(r) => *r,
            None => return Err(ContractError::NoPendingPartialReleaseRequest),
        };
        if req.request_id != request_id {
            return Err(ContractError::InvalidRequestID);
        }
        self.pending_partial_release.remove(&id);
        Ok(())
    }

    /// The seller turns an unanswered partial release request into a dispute
    /// over the whole escrow.
    pub fn escalate_partial_release_dispute(&mut self, seller: Address, escrow_id: u32, now: u64) -> (r: Result<
        (),
        ContractError,
    >)
        ensures
            spec_escalate_partial_release_dispute(old(self)@, seller, escrow_id, now) == outcome_unit(
                r,
                final(self)@,
            ),
            r is Err ==> final(self)@ == old(self)@,
    {
        let id = escrow_id;
        if self.paused {
            return Err(ContractError::ContractIsPaused);
        }
        let e = self.find_escrow(id)?;
        if seller != e.seller {
            return Err(ContractError::OnlySellerCanEscalatePartialRelease);
        }
        let req = match self.pending_partial_release.get(&id) {
            Some(r) => *r,
            None => return Err(ContractError::NoPendingPartialReleaseRequest),
        };
        if now < req.response_deadline {
            return Err(ContractError::ResponseDeadlineNotYetPassed);
        }
        let ghost pre = self@;
        let amount = e.amount;
        self.pending_partial_release.remove(&id);
        let mut e = self.take_escrow(id);
        e.status = EscrowStatus::Disputed;
        self.put_escrow(id, e);
        let d = Dispute {
            escrow_id: id,
            reason: "Partial release escalation".to_owned(),
            created_at: now,
            resolved: false,
            dispute_amount: amount,
            timeout_seconds: None,
        };
        proof {
            lemma_map_values_insert(self.disputes@, id, d, |d: Dispute| d@);
        }
        self.disputes.insert(id, d);
        self.dispute_started.insert(id, now);
        assert(self@ =~= spec_escalate_partial_release_dispute(pre, seller, id, now)->Ok_0.0);
        Ok(())
    }

    /// A seller of an open escrow has its share paid to `delegate`.
    #[verifier::loop_isolation(false)]
    pub fn delegate_escrow_share(&mut self, seller: Address, escrow_id: u32, delegate: Address) -> (r: Result<
        (),
        ContractError,
    >)
        ensures
            spec_delegate_escrow_share(old(self)@, seller, escrow_id, delegate) == outcome_unit(r, final(self)@),
            r is Err ==> final(self)@ == old(self)@,
    {
        let id = escrow_id;
        if self.paused {
            return Err(ContractError::ContractIsPaused);
        }
        if seller == delegate {
            return Err(ContractError::DelegateMustBeDifferentFromSeller);
        }
        let e = self.find_escrow(id)?;
        let mut found = false;
        let mut i: usize = 0;
        while i < e.sellers.len()
            invariant
                0 <= i <= e.sellers@.len(),
                found == lists_seller(e.sellers@, seller, i as int),
            decreases e.sellers@.len() - i,
        {
            if e.sellers[i].0 == seller {
                found = true;
            }
            proof {
                if e.sellers@[i as int].0 == seller {
                    assert(e.sellers@[i as int] == (seller, e.sellers@[i as int].1));
                }
            }
            i = i + 1;
        }
        if !found {
            return Err(ContractError::SellerNotPartOfEscrow);
        }
        if !Self::is_open_escrow_status(e.status) {
            return Err(ContractError::CanOnlyDelegateBeforeEscrowIsReleased);
        }
        let ghost pre = self@;
        proof {
            crate::common::lemma_map_values_lookup(self.share_delegates@, |m: HashMap<Address, Address>| m@);
        }
        let mut inner: HashMap<Address, Address> = match self.share_delegates.get(&id) {
            Some(m) => m.clone(),
            None => HashMap::new(),
        };
        inner.insert(seller, delegate);
        proof {
            crate::common::lemma_map_values_insert(self.share_delegates@, id, inner, |m: HashMap<Address, Address>| m@);
        }
        self.share_delegates.insert(id, inner);
        assert(self@.share_delegates =~= spec_delegate_escrow_share(pre, seller, id, delegate)->Ok_0.0.share_delegates);
        assert(self@ =~= spec_delegate_escrow_share(pre, seller, id, delegate)->Ok_0.0);
        Ok(())
    }

    /// The buyer of an active escrow hands its role to `new_buyer`.
    pub fn transfer_buyer_role(&mut self, current_buyer: Address, escrow_id: u32, new_buyer: Address) -> (r: Result<
        (),
        ContractError,
    >)
        ensures
            spec_transfer_buyer_role(old(self)@, current_buyer, escrow_id, new_buyer) == outcome_unit(
                r,
                final(self)@,
            ),
            r is Err ==> final(self)@ == old(self)@,
    {
        let id = escrow_id;
        if self.paused {
            return Err(ContractError::ContractIsPaused);
        }
        if current_buyer == new_buyer {
            return Err(ContractError::NewBuyerMustBeDifferentFromCurrentBuyer);
        }
        let e = self.find_escrow(id)?;
        if e.status != EscrowStatus::Active {
            return Err(ContractError::BuyerTransferOnlyAllowedActiveEscrows);
        }
        if e.buyer != current_buyer {
            return Err(ContractError::OnlyCurrentBuyerCanTransferBuyerRole);
        }
        let ghost pre = self@;
        let mut e = self.take_escrow(id);
        e.buyer = new_buyer;
        self.put_escrow(id, e);
        assert(self@ =~= spec_transfer_buyer_role(pre, current_buyer, id, new_buyer)->Ok_0.0);
        Ok(())
    }

    /// The buyer or the seller sets a new metadata hash.
    pub fn update_metadata(&mut self, caller: Address, escrow_id: u32, new_hash: Hash32, now: u64) -> (r: Result<
        (),
        ContractError,
    >)
        ensures
            spec_update_metadata(old(self)@, caller, escrow_id, new_hash, now) == outcome_unit(r, final(self)@),
            r is Err ==> final(self)@ == old(self)@,
    {
        let id = escrow_id;
        let e = self.find_escrow(id)?;
        if caller != e.buyer && caller != e.seller {
            return Err(ContractError::OnlyBuyerOrSellerCanUpdateMetadata);
        }
        let ghost pre = self@;
        if caller == e.buyer {
            let secs = e.extensions.buyer_inactivity_secs;
            self.update_last_buyer_action(id, secs, now);
        }
        let mut e = self.take_escrow(id);
        e.metadata_hash = Some(new_hash);
        self.put_escrow(id, e);
        self.metadata.insert(id, (new_hash, now));
        assert(self@ =~= spec_update_metadata(pre, caller, id, new_hash, now)->Ok_0.0);
        Ok(())
    }

    /// An escrow's current metadata hash.
    pub fn get_metadata_hash(&self, escrow_id: u32) -> (r: Result<Option<Hash32>, ContractError>)
        ensures
            match r {
                Ok(h) => self@.escrows.contains_key(escrow_id) && h == self@.escrows[escrow_id].metadata_hash,
                Err(x) => !self@.escrows.contains_key(escrow_id) && x == ContractError::EscrowNotFound,
            },
    {
        let e = self.find_escrow(escrow_id)?;
        Ok(e.metadata_hash)
    }
}

} // verus!
