//! Mutual cancellation of an escrow.

use crate::common::{buyer_payout, outcome, outcome_unit, spec_burn_receipt, spec_is_open, xfer, Step};
use crate::errors::ContractError;
use crate::model::{Address, CancellationRequest, EscrowStatus, Hash32, Transfer};
use crate::release::with_status;
use crate::state::{AhjoorEscrowContract, ContractView};
use vstd::prelude::*;

verus! {

broadcast use vstd::std_specs::hash::group_hash_axioms;

/// The buyer or the seller asking to cancel an open escrow; the other party
/// has the response window to answer.
pub open spec fn spec_request_cancellation(pre: ContractView, caller: Address, id: u32, reason_hash: Hash32, now: u64) -> Step {
    if pre.paused {
        Err(ContractError::ContractIsPaused)
    } else if !pre.escrows.contains_key(id) {
        Err(ContractError::EscrowNotFound)
    } else if !spec_is_open(pre.escrows[id].status) {
        Err(ContractError::EscrowIsNotActive)
    } else if caller != pre.escrows[id].buyer && caller != pre.escrows[id].seller {
        Err(ContractError::OnlyBuyerOrSellerCanRequestCancellation)
    } else if now + pre.cancellation_response_window > u64::MAX {
        Err(ContractError::Overflow)
    } else {
        Ok(
            (
                ContractView {
                    cancellations: pre.cancellations.insert(
                        id,
                        CancellationRequest {
                            initiator: caller,
                            reason_hash,
                            requested_at: now,
                            expires_at: (now + pre.cancellation_response_window) as u64,
                        },
                    ),
                    escrows: pre.escrows.insert(
                        id,
                        with_status(pre.escrows[id], EscrowStatus::CancellationPending),
                    ),
                    ..pre
                },
                Seq::empty(),
            ),
        )
    }
}

/// The state after a cancellation request on escrow `id` is dropped and the
/// escrow is active again.
pub open spec fn back_to_active(pre: ContractView, id: u32) -> ContractView {
    ContractView {
        escrows: pre.escrows.insert(id, with_status(pre.escrows[id], EscrowStatus::Active)),
        cancellations: pre.cancellations.remove(id),
        ..pre
    }
}

/// The penalty of cancelling escrow `id`: its amount, read as an unsigned
/// 128-bit number, times the penalty bps over 10 000; `None` on overflow.
pub open spec fn cancellation_penalty(pre: ContractView, amount: i128) -> Option<i128> {
    if pre.cancellation_penalty_bps == 0 {
        Some(0)
    } else {
        let prod = (amount as u128) * pre.cancellation_penalty_bps;
        if prod > u128::MAX {
            None
        } else {
            Some(((prod as u128) / 10000) as i128)
        }
    }
}

/// The other party accepting a cancellation request: the buyer side gets the
/// amount back less the penalty, which goes to the fee recipient (or also to
/// the buyer side when there is none). A request past its expiry is dropped
/// instead and the escrow becomes active again.
pub open spec fn spec_accept_cancellation(pre: ContractView, caller: Address, id: u32, now: u64) -> Step {
    if pre.paused {
        Err(ContractError::ContractIsPaused)
    } else if !pre.escrows.contains_key(id) {
        Err(ContractError::EscrowNotFound)
    } else if pre.escrows[id].status != EscrowStatus::CancellationPending {
        Err(ContractError::NoPendingCancellationEscrow)
    } else if !pre.cancellations.contains_key(id) {
        Err(ContractError::CancellationRequestNotFound)
    } else if now > pre.cancellations[id].expires_at {
        Ok((back_to_active(pre, id), Seq::empty()))
    } else if caller == pre.cancellations[id].initiator {
        Err(ContractError::InitiatorCannotAcceptTheirOwnCancellationRequest)
    } else if caller != pre.escrows[id].buyer && caller != pre.escrows[id].seller {
        Err(ContractError::OnlyBuyerOrSellerCanAcceptCancellation)
    } else {
        let e = pre.escrows[id];
        match cancellation_penalty(pre, e.amount) {
            None => Err(ContractError::Overflow),
            Some(pen) => {
                let ret = e.amount - pen;
                if ret < i128::MIN || ret > i128::MAX {
                    Err(ContractError::Overflow)
                } else {
                    let back = if ret > 0 {
                        buyer_payout(pre, id, e, ret as i128)
                    } else {
                        Some(Seq::empty())
                    };
                    let fee = if pen <= 0 {
                        Some(Seq::empty())
                    } else {
                        match pre.fee_recipient {
                            Some(r) => Some(seq![xfer(e.token, pre.me, r, pen)]),
                            None => buyer_payout(pre, id, e, pen),
                        }
                    };
                    if back is None || fee is None {
                        Err(ContractError::Overflow)
                    } else {
                        let s1 = spec_burn_receipt(
                            ContractView {
                                escrows: pre.escrows.insert(id, with_status(e, EscrowStatus::Refunded)),
                                ..pre
                            },
                            id,
                        );
                        Ok(
                            (
                                ContractView { cancellations: s1.cancellations.remove(id), ..s1 },
                                back->0 + fee->0,
                            ),
                        )
                    }
                }
            },
        }
    }
}

/// The other party turning a cancellation request down.
pub open spec fn spec_reject_cancellation(pre: ContractView, caller: Address, id: u32) -> Step {
    if pre.paused {
        Err(ContractError::ContractIsPaused)
    } else if !pre.escrows.contains_key(id) {
        Err(ContractError::EscrowNotFound)
    } else if pre.escrows[id].status != EscrowStatus::CancellationPending {
        Err(ContractError::NoPendingCancellationEscrow)
    } else if !pre.cancellations.contains_key(id) {
        Err(ContractError::CancellationRequestNotFound)
    } else if caller == pre.cancellations[id].initiator {
        Err(ContractError::InitiatorCannotRejectTheirOwnCancellationRequest)
    } else if caller != pre.escrows[id].buyer && caller != pre.escrows[id].seller {
        Err(ContractError::OnlyBuyerOrSellerCanRejectCancellation)
    } else {
        Ok((back_to_active(pre, id), Seq::empty()))
    }
}

/// Anyone dropping a cancellation request past its response window.
pub open spec fn spec_expire_cancellation(pre: ContractView, id: u32, now: u64) -> Step {
    if !pre.escrows.contains_key(id) {
        Err(ContractError::EscrowNotFound)
    } else if pre.escrows[id].status != EscrowStatus::CancellationPending {
        Err(ContractError::NoPendingCancellationEscrow)
    } else if !pre.cancellations.contains_key(id) {
        Err(ContractError::CancellationRequestNotFound)
    } else if now <= pre.cancellations[id].expires_at {
        Err(ContractError::ResponseWindowHasNotElapsed)
    } else {
        Ok((back_to_active(pre, id), Seq::empty()))
    }
}

impl AhjoorEscrowContract {
    fn restore_active(&mut self, id: u32)
        requires
            old(self)@.escrows.contains_key(id),
        ensures
            final(self)@ == back_to_active(old(self)@, id),
    {
        let mut e = self.take_escrow(id);
        e.status = EscrowStatus::Active;
        self.put_escrow(id, e);
        self.cancellations.remove(&id);
        assert(self@ =~= back_to_active(old(self)@, id));
    }

    /// The buyer or the seller asks to cancel an open escrow.
    pub fn request_cancellation(&mut self, caller: Address, escrow_id: u32, reason_hash: Hash32, now: u64) -> (r:
        Result<(), ContractError>)
        ensures
            spec_request_cancellation(old(self)@, caller, escrow_id, reason_hash, now) == outcome_unit(
                r,
                final(self)@,
            ),
            r is Err ==> final(self)@ == old(self)@,
    {
        let id = escrow_id;
        if self.paused {
            return Err(ContractError::ContractIsPaused);
        }
        let e = self.find_escrow(id)?;
        if !Self::is_open_escrow_status(e.status) {
            return Err(ContractError::EscrowIsNotActive);
        }
        if caller != e.buyer && caller != e.seller {
            return Err(ContractError::OnlyBuyerOrSellerCanRequestCancellation);
        }
        let expires_at = match now.checked_add(self.cancellation_response_window) {
            Some(t) => t,
            None => return Err(ContractError::Overflow),
        };
        let ghost pre = self@;
        self.cancellations.insert(id, CancellationRequest { initiator: caller, reason_hash, requested_at: now, expires_at });
        let mut e = self.take_escrow(id);
        e.status = EscrowStatus::CancellationPending;
        self.put_escrow(id, e);
        assert(self@ =~= spec_request_cancellation(pre, caller, id, reason_hash, now)->Ok_0.0);
        Ok(())
    }

    /// The other party accepts a cancellation request; the buyer side gets the
    /// amount back less the penalty.
    pub fn accept_cancellation(&mut self, caller: Address, escrow_id: u32, now: u64) -> (r: Result<
        Vec<Transfer>,
        ContractError,
    >)
        ensures
            spec_accept_cancellation(old(self)@, caller, escrow_id, now) == outcome(r, final(self)@),
            r is Err ==> final(self)@ == old(self)@,
    {
        let id = escrow_id;
        if self.paused {
            return Err(ContractError::ContractIsPaused);
        }
        let e = self.find_escrow(id)?;
        if e.status != EscrowStatus::CancellationPending {
            return Err(ContractError::NoPendingCancellationEscrow);
        }
        let req = match self.cancellations.get(&id) {
            Some(c) => *c,
            None => return Err(ContractError::CancellationRequestNotFound),
        };
        if now > req.expires_at {
            self.restore_active(id);
            return Ok(Vec::new());
        }
        if caller == req.initiator {
            return Err(ContractError::InitiatorCannotAcceptTheirOwnCancellationRequest);
        }
        if caller != e.buyer && caller != e.seller {
            return Err(ContractError::OnlyBuyerOrSellerCanAcceptCancellation);
        }
        let bps = self.cancellation_penalty_bps;
        let pen: i128 = if bps > 0 {
            match (e.amount as u128).checked_mul(bps as u128) {
                Some(p) => (p / 10000) as i128,
                None => return Err(ContractError::Overflow),
            }
        } else {
            0
        };
        let ret = match e.amount.checked_sub(pen) {
            Some(v) => v,
            None => return Err(ContractError::Overflow),
        };
        let ghost pre = self@;
        let mut ts: Vec<Transfer> = if ret > 0 {
            match self.transfer_to_buyers(id, e, ret) {
                Some(v) => v,
                None => return Err(ContractError::Overflow),
            }
        } else {
            Vec::new()
        };
        let mut fee: Vec<Transfer> = if pen <= 0 {
            Vec::new()
        } else {
            match self.fee_recipient {
                Some(rcpt) => {
                    let mut v = Vec::new();
                    v.push(Transfer { token: e.token, from: self.me, to: rcpt, amount: pen, by_allowance: false });
                    v
                },
                None => match self.transfer_to_buyers(id, e, pen) {
                    Some(v) => v,
                    None => return Err(ContractError::Overflow),
                },
            }
        };
        ts.append(&mut fee);
        let mut e = self.take_escrow(id);
        e.status = EscrowStatus::Refunded;
        self.put_escrow(id, e);
        self.burn_receipt_if_exists(id);
        self.cancellations.remove(&id);
        proof {
            let (sp, st) = spec_accept_cancellation(pre, caller, id, now)->Ok_0;
            assert(self@ =~= sp);
            assert(ts@ =~= st);
        }
        Ok(ts)
    }

    /// The other party turns a cancellation request down.
    pub fn reject_cancellation(&mut self, caller: Address, escrow_id: u32) -> (r: Result<(), ContractError>)
        ensures
            spec_reject_cancellation(old(self)@, caller, escrow_id) == outcome_unit(r, final(self)@),
            r is Err ==> final(self)@ == old(self)@,
    {
        let id = escrow_id;
        if self.paused {
            return Err(ContractError::ContractIsPaused);
        }
        let e = self.find_escrow(id)?;
        if e.status != EscrowStatus::CancellationPending {
            return Err(ContractError::NoPendingCancellationEscrow);
        }
        let req = match self.cancellations.get(&id) {
            Some(c) => *c,
            None => return Err(ContractError::CancellationRequestNotFound),
        };
        if caller == req.initiator {
            return Err(ContractError::InitiatorCannotRejectTheirOwnCancellationRequest);
        }
        if caller != e.buyer && caller != e.seller {
            return Err(ContractError::OnlyBuyerOrSellerCanRejectCancellation);
        }
        self.restore_active(id);
        Ok(())
    }

    /// Anyone drops a cancellation request past its response window.
    pub fn expire_cancellation(&mut self, escrow_id: u32, now: u64) -> (r: Result<(), ContractError>)
        ensures
            spec_expire_cancellation(old(self)@, escrow_id, now) == outcome_unit(r, final(self)@),
            r is Err ==> final(self)@ == old(self)@,
    {
        let id = escrow_id;
        let e = self.find_escrow(id)?;
        if e.status != EscrowStatus::CancellationPending {
            return Err(ContractError::NoPendingCancellationEscrow);
        }
        let req = match self.cancellations.get(&id) {
            Some(c) => *c,
            None => return Err(ContractError::CancellationRequestNotFound),
        };
        if now <= req.expires_at {
            return Err(ContractError::ResponseWindowHasNotElapsed);
        }
        self.restore_active(id);
        Ok(())
    }
}

} // verus!
