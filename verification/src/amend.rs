//! Changing an escrow's terms by agreement: deadline extensions and amendments.

use crate::common::{buyer_payout, outcome, outcome_unit, outcome_with, spec_is_terminal, xfer, Step, StepWith};
use crate::errors::ContractError;
use crate::model::{
    Address, AmendmentProposal, DeadlineProposal, Escrow, EscrowError, EscrowStatus, EscrowView, Hash32,
    Transfer,
};
use crate::state::{AhjoorEscrowContract, ContractView, DEADLINE_EXTENSION_PROPOSAL_WINDOW};
use vstd::prelude::*;

verus! {

broadcast use vstd::std_specs::hash::group_hash_axioms;

pub open spec fn extension_blocked(s: EscrowStatus) -> bool {
    s == EscrowStatus::Disputed || spec_is_terminal(s)
}

/// The buyer or the seller proposing a later deadline.
pub open spec fn spec_propose_deadline_extension(pre: ContractView, caller: Address, id: u32, new_deadline: u64, now: u64) -> Step {
    if !pre.escrows.contains_key(id) {
        Err(ContractError::EscrowNotFound)
    } else {
        let e = pre.escrows[id];
        if caller != e.buyer && caller != e.seller {
            Err(ContractError::OnlyBuyerOrSellerCanProposeDeadlineExtension)
        } else if extension_blocked(e.status) {
            Err(ContractError::CannotExtendDeadlineWhileEscrowIsDisputed)
        } else if new_deadline <= now {
            Err(ContractError::Code(EscrowError::InvalidDeadline))
        } else if new_deadline <= e.deadline {
            Err(ContractError::NewDeadlineMustBeGreaterThanCurrentDeadline)
        } else {
            Ok(
                (
                    ContractView {
                        deadline_proposals: pre.deadline_proposals.insert(
                            id,
                            DeadlineProposal { proposer: caller, new_deadline, proposed_at: now },
                        ),
                        ..pre
                    },
                    Seq::empty(),
                ),
            )
        }
    }
}

/// The other party accepting a deadline extension within a day of its proposal.
pub open spec fn spec_accept_deadline_extension(pre: ContractView, caller: Address, id: u32, now: u64) -> Step {
    if !pre.escrows.contains_key(id) {
        Err(ContractError::EscrowNotFound)
    } else {
        let e = pre.escrows[id];
        if caller != e.buyer && caller != e.seller {
            Err(ContractError::OnlyBuyerOrSellerCanAcceptDeadlineExtension)
        } else if extension_blocked(e.status) {
            Err(ContractError::CannotExtendDeadlineWhileEscrowIsDisputed)
        } else if !pre.deadline_proposals.contains_key(id) {
            Err(ContractError::NoDeadlineExtensionProposalFound)
        } else {
            let p = pre.deadline_proposals[id];
            if caller == p.proposer {
                Err(ContractError::ProposerCannotAcceptTheirOwnDeadlineExtension)
            } else if p.proposed_at + DEADLINE_EXTENSION_PROPOSAL_WINDOW > u64::MAX {
                Err(ContractError::Overflow)
            } else if now > p.proposed_at + DEADLINE_EXTENSION_PROPOSAL_WINDOW {
                Err(ContractError::DeadlineExtensionProposalHasExpired)
            } else if p.new_deadline <= now {
                Err(ContractError::Code(EscrowError::InvalidDeadline))
            } else if p.new_deadline <= e.deadline {
                Err(ContractError::NewDeadlineMustBeGreaterThanCurrentDeadline)
            } else {
                Ok(
                    (
                        ContractView {
                            escrows: pre.escrows.insert(id, EscrowView { deadline: p.new_deadline, ..e }),
                            deadline_proposals: pre.deadline_proposals.remove(id),
                            ..pre
                        },
                        Seq::empty(),
                    ),
                )
            }
        }
    }
}

pub open spec fn amendment_nonce_of(pre: ContractView, id: u32) -> u32 {
    if pre.amendment_nonce.contains_key(id) {
        pre.amendment_nonce[id]
    } else {
        0
    }
}

/// The buyer or the seller proposing new terms, signed by the proposer. Gives
/// the proposal's nonce.
pub open spec fn spec_propose_amendment(
    pre: ContractView,
    caller: Address,
    id: u32,
    new_amount: Option<i128>,
    new_deadline: Option<u64>,
    new_metadata_hash: Option<Hash32>,
    now: u64,
) -> StepWith<u32> {
    if pre.paused {
        Err(ContractError::ContractIsPaused)
    } else if !pre.escrows.contains_key(id) {
        Err(ContractError::EscrowNotFound)
    } else {
        let e = pre.escrows[id];
        let nonce = amendment_nonce_of(pre, id);
        if caller != e.buyer && caller != e.seller {
            Err(ContractError::OnlyBuyerOrSellerCanProposeAmendment)
        } else if spec_is_terminal(e.status) {
            Err(ContractError::CannotAmendTerminalEscrow)
        } else if new_deadline matches Some(d) && d <= now {
            Err(ContractError::Code(EscrowError::InvalidDeadline))
        } else if new_amount matches Some(a) && a <= 0 {
            Err(ContractError::NewAmountMustBePositive)
        } else if now + pre.amendment_expiry_secs > u64::MAX {
            Err(ContractError::Overflow)
        } else {
            Ok(
                (
                    ContractView {
                        amendment_nonce: pre.amendment_nonce.insert(
                            id,
                            if nonce == u32::MAX {
                                u32::MAX
                            } else {
                                (nonce + 1) as u32
                            },
                        ),
                        amendments: pre.amendments.insert(
                            id,
                            AmendmentProposal {
                                nonce,
                                proposer: caller,
                                new_amount,
                                new_deadline,
                                new_metadata_hash,
                                proposed_at: now,
                                expires_at: (now + pre.amendment_expiry_secs) as u64,
                                buyer_signed: caller == e.buyer,
                                seller_signed: caller == e.seller,
                            },
                        ),
                        ..pre
                    },
                    Seq::empty(),
                    nonce,
                ),
            )
        }
    }
}

/// Applying a fully signed, unexpired amendment: a higher amount is paid in
/// by the buyer, a lower one refunded to the buyer side.
pub open spec fn spec_apply_amendment(pre: ContractView, id: u32, nonce: u32, now: u64) -> Step {
    if pre.paused {
        Err(ContractError::ContractIsPaused)
    } else if !pre.amendments.contains_key(id) {
        Err(ContractError::NoAmendmentProposalFound)
    } else {
        let p = pre.amendments[id];
        if p.nonce != nonce {
            Err(ContractError::AmendmentNonceMismatch)
        } else if !p.buyer_signed || !p.seller_signed {
            Err(ContractError::AmendmentRequiresBuyerAndSellerSignatures)
        } else if now > p.expires_at {
            Err(ContractError::AmendmentProposalHasExpired)
        } else if p.new_deadline matches Some(d) && d <= now {
            Err(ContractError::Code(EscrowError::InvalidDeadline))
        } else if !pre.escrows.contains_key(id) {
            Err(ContractError::EscrowNotFound)
        } else if spec_is_terminal(pre.escrows[id].status) {
            Err(ContractError::CannotAmendTerminalEscrow)
        } else if p.new_amount matches Some(a) && a <= 0 {
            Err(ContractError::NewAmountMustBePositive)
        } else {
            let e = pre.escrows[id];
            let ts = match p.new_amount {
                None => Some(Seq::empty()),
                Some(a) => if a > e.amount {
                    Some(seq![xfer(e.token, e.buyer, pre.me, (a - e.amount) as i128)])
                } else if a < e.amount {
                    buyer_payout(pre, id, e, (e.amount - a) as i128)
                } else {
                    Some(Seq::empty())
                },
            };
            let e2 = EscrowView {
                amount: match p.new_amount {
                    Some(a) => a,
                    None => e.amount,
                },
                deadline: match p.new_deadline {
                    Some(d) => d,
                    None => e.deadline,
                },
                metadata_hash: if p.new_metadata_hash is Some {
                    p.new_metadata_hash
                } else {
                    e.metadata_hash
                },
                ..e
            };
            let big_delta = match p.new_amount {
                Some(a) => (a > e.amount && a - e.amount > i128::MAX) || (a < e.amount && e.amount - a
                    > i128::MAX),
                None => false,
            };
            if big_delta || ts is None {
                Err(ContractError::Overflow)
            } else {
                Ok(
                    (
                        ContractView {
                            escrows: pre.escrows.insert(id, e2),
                            amendments: pre.amendments.remove(id),
                            ..pre
                        },
                        ts->0,
                    ),
                )
            }
        }
    }
}

/// The buyer or the seller signing the pending amendment; it is applied as
/// soon as both have signed.
pub open spec fn spec_sign_amendment(pre: ContractView, caller: Address, id: u32, nonce: u32, now: u64) -> Step {
    if pre.paused {
        Err(ContractError::ContractIsPaused)
    } else if !pre.escrows.contains_key(id) {
        Err(ContractError::EscrowNotFound)
    } else if caller != pre.escrows[id].buyer && caller != pre.escrows[id].seller {
        Err(ContractError::OnlyBuyerOrSellerCanSignAmendment)
    } else if !pre.amendments.contains_key(id) {
        Err(ContractError::NoAmendmentProposalFound)
    } else if pre.amendments[id].nonce != nonce {
        Err(ContractError::AmendmentNonceMismatch)
    } else if now > pre.amendments[id].expires_at {
        Err(ContractError::AmendmentProposalHasExpired)
    } else {
        let p = pre.amendments[id];
        let p2 = if caller == pre.escrows[id].buyer {
            AmendmentProposal { buyer_signed: true, ..p }
        } else {
            AmendmentProposal { seller_signed: true, ..p }
        };
        let s1 = ContractView { amendments: pre.amendments.insert(id, p2), ..pre };
        if p2.buyer_signed && p2.seller_signed {
            spec_apply_amendment(s1, id, nonce, now)
        } else {
            Ok((s1, Seq::empty()))
        }
    }
}

impl AhjoorEscrowContract {
    /// The buyer or the seller proposes a later deadline.
    pub fn propose_deadline_extension(&mut self, caller: Address, escrow_id: u32, new_deadline: u64, now: u64) -> (r:
        Result<(), ContractError>)
        ensures
            spec_propose_deadline_extension(old(self)@, caller, escrow_id, new_deadline, now) == outcome_unit(
                r,
                final(self)@,
            ),
            r is Err ==> final(self)@ == old(self)@,
    {
        let id = escrow_id;
        let e = self.find_escrow(id)?;
        if caller != e.buyer && caller != e.seller {
            return Err(ContractError::OnlyBuyerOrSellerCanProposeDeadlineExtension);
        }
        if e.status == EscrowStatus::Disputed || Self::is_terminal_escrow_status(e.status) {
            return Err(ContractError::CannotExtendDeadlineWhileEscrowIsDisputed);
        }
        if new_deadline <= now {
            return Err(ContractError::Code(EscrowError::InvalidDeadline));
        }
        if new_deadline <= e.deadline {
            return Err(ContractError::NewDeadlineMustBeGreaterThanCurrentDeadline);
        }
        self.deadline_proposals.insert(id, DeadlineProposal { proposer: caller, new_deadline, proposed_at: now });
        Ok(())
    }

    /// The other party accepts a proposed deadline extension.
    pub fn accept_deadline_extension(&mut self, caller: Address, escrow_id: u32, now: u64) -> (r: Result<
        (),
        ContractError,
    >)
        ensures
            spec_accept_deadline_extension(old(self)@, caller, escrow_id, now) == outcome_unit(r, final(self)@),
            r is Err ==> final(self)@ == old(self)@,
    {
        let id = escrow_id;
        let e = self.find_escrow(id)?;
        if caller != e.buyer && caller != e.seller {
            return Err(ContractError::OnlyBuyerOrSellerCanAcceptDeadlineExtension);
        }
        if e.status == EscrowStatus::Disputed || Self::is_terminal_escrow_status(e.status) {
            return Err(ContractError::CannotExtendDeadlineWhileEscrowIsDisputed);
        }
        let p = match self.deadline_proposals.get(&id) {
            Some(p) => *p,
            None => return Err(ContractError::NoDeadlineExtensionProposalFound),
        };
        if caller == p.proposer {
            return Err(ContractError::ProposerCannotAcceptTheirOwnDeadlineExtension);
        }
        let end = match p.proposed_at.checked_add(DEADLINE_EXTENSION_PROPOSAL_WINDOW) {
            Some(t) => t,
            None => return Err(ContractError::Overflow),
        };
        if now > end {
            return Err(ContractError::DeadlineExtensionProposalHasExpired);
        }
        if p.new_deadline <= now {
            return Err(ContractError::Code(EscrowError::InvalidDeadline));
        }
        if p.new_deadline <= e.deadline {
            return Err(ContractError::NewDeadlineMustBeGreaterThanCurrentDeadline);
        }
        let ghost pre = self@;
        let mut e = self.take_escrow(id);
        e.deadline = p.new_deadline;
        self.put_escrow(id, e);
        self.deadline_proposals.remove(&id);
        assert(self@ =~= spec_accept_deadline_extension(pre, caller, id, now)->Ok_0.0);
        Ok(())
    }

    /// The buyer or the seller proposes new terms; gives the proposal's nonce.
    pub fn propose_amendment(
        &mut self,
        caller: Address,
        escrow_id: u32,
        new_amount: Option<i128>,
        new_deadline: Option<u64>,
        new_metadata_hash: Option<Hash32>,
        now: u64,
    ) -> (r: Result<u32, ContractError>)
        ensures
            spec_propose_amendment(old(self)@, caller, escrow_id, new_amount, new_deadline, new_metadata_hash, now)
                == match r {
                Ok(n) => Ok((final(self)@, Seq::<Transfer>::empty(), n)),
                Err(x) => Err::<(ContractView, Seq<Transfer>, u32), ContractError>(x),
            },
            r is Err ==> final(self)@ == old(self)@,
    {
        let id = escrow_id;
        if self.paused {
            return Err(ContractError::ContractIsPaused);
        }
        let e = self.find_escrow(id)?;
        if caller != e.buyer && caller != e.seller {
            return Err(ContractError::OnlyBuyerOrSellerCanProposeAmendment);
        }
        if Self::is_terminal_escrow_status(e.status) {
            return Err(ContractError::CannotAmendTerminalEscrow);
        }
        if let Some(d) = new_deadline {
            if d <= now {
                return Err(ContractError::Code(EscrowError::InvalidDeadline));
            }
        }
        if let Some(a) = new_amount {
            if a <= 0 {
                return Err(ContractError::NewAmountMustBePositive);
            }
        }
        let expires_at = match now.checked_add(self.amendment_expiry_secs) {
            Some(t) => t,
            None => return Err(ContractError::Overflow),
        };
        let nonce: u32 = match self.amendment_nonce.get(&id) {
            Some(n) => *n,
            None => 0,
        };
        let next: u32 = if nonce == u32::MAX {
            u32::MAX
        } else {
            nonce + 1
        };
        let buyer_signed = caller == e.buyer;
        let seller_signed = caller == e.seller;
        self.amendment_nonce.insert(id, next);
        self.amendments.insert(
            id,
            AmendmentProposal {
                nonce,
                proposer: caller,
                new_amount,
                new_deadline,
                new_metadata_hash,
                proposed_at: now,
                expires_at,
                buyer_signed,
                seller_signed,
            },
        );
        Ok(nonce)
    }

    /// Applies a fully signed amendment.
    pub fn apply_amendment(&mut self, escrow_id: u32, nonce: u32, now: u64) -> (r: Result<Vec<Transfer>, ContractError>)
        ensures
            spec_apply_amendment(old(self)@, escrow_id, nonce, now) == outcome(r, final(self)@),
            r is Err ==> final(self)@ == old(self)@,
    {
        let id = escrow_id;
        if self.paused {
            return Err(ContractError::ContractIsPaused);
        }
        let p = match self.amendments.get(&id) {
            Some(p) => *p,
            None => return Err(ContractError::NoAmendmentProposalFound),
        };
        if p.nonce != nonce {
            return Err(ContractError::AmendmentNonceMismatch);
        }
        if !p.buyer_signed || !p.seller_signed {
            return Err(ContractError::AmendmentRequiresBuyerAndSellerSignatures);
        }
        if now > p.expires_at {
            return Err(ContractError::AmendmentProposalHasExpired);
        }
        if let Some(d) = p.new_deadline {
            if d <= now {
                return Err(ContractError::Code(EscrowError::InvalidDeadline));
            }
        }
        let e = self.find_escrow(id)?;
        if Self::is_terminal_escrow_status(e.status) {
            return Err(ContractError::CannotAmendTerminalEscrow);
        }
        if let Some(a) = p.new_amount {
            if a <= 0 {
                return Err(ContractError::NewAmountMustBePositive);
            }
        }
        let ghost pre = self@;
        let ts: Vec<Transfer> = match p.new_amount {
            None => Vec::new(),
            Some(a) => if a > e.amount {
                let delta = match a.checked_sub(e.amount) {
                    Some(d) => d,
                    None => return Err(ContractError::Overflow),
                };
                let mut v = Vec::new();
                v.push(Transfer { token: e.token, from: e.buyer, to: self.me, amount: delta, by_allowance: false });
                v
            } else if a < e.amount {
                let delta = match e.amount.checked_sub(a) {
                    Some(d) => d,
                    None => return Err(ContractError::Overflow),
                };
                match self.transfer_to_buyers(id, e, delta) {
                    Some(v) => v,
                    None => return Err(ContractError::Overflow),
                }
            } else {
                Vec::new()
            },
        };
        let mut e = self.take_escrow(id);
        if let Some(a) = p.new_amount {
            e.amount = a;
        }
        if let Some(d) = p.new_deadline {
            e.deadline = d;
        }
        if p.new_metadata_hash.is_some() {
            e.metadata_hash = p.new_metadata_hash;
        }
        self.put_escrow(id, e);
        self.amendments.remove(&id);
        proof {
            let (sp, st) = spec_apply_amendment(pre, id, nonce, now)->Ok_0;
            assert(self@ =~= sp);
            assert(ts@ =~= st);
        }
        Ok(ts)
    }

    /// The buyer or the seller signs the pending amendment; it is applied as
    /// soon as both have signed.
    pub fn sign_amendment(&mut self, caller: Address, escrow_id: u32, nonce: u32, now: u64) -> (r: Result<
        Vec<Transfer>,
        ContractError,
    >)
        ensures
            spec_sign_amendment(old(self)@, caller, escrow_id, nonce, now) == outcome(r, final(self)@),
            r is Err ==> final(self)@ == old(self)@,
    {
        let id = escrow_id;
        if self.paused {
            return Err(ContractError::ContractIsPaused);
        }
        let e = self.find_escrow(id)?;
        if caller != e.buyer && caller != e.seller {
            return Err(ContractError::OnlyBuyerOrSellerCanSignAmendment);
        }
        let is_buyer = caller == e.buyer;
        let p = match self.amendments.get(&id) {
            Some(p) => *p,
            None => return Err(ContractError::NoAmendmentProposalFound),
        };
        if p.nonce != nonce {
            return Err(ContractError::AmendmentNonceMismatch);
        }
        if now > p.expires_at {
            return Err(ContractError::AmendmentProposalHasExpired);
        }
        let p2 = if is_buyer {
            AmendmentProposal { buyer_signed: true, ..p }
        } else {
            AmendmentProposal { seller_signed: true, ..p }
        };
        self.amendments.insert(id, p2);
        if p2.buyer_signed && p2.seller_signed {
            let r = self.apply_amendment(id, nonce, now);
            if r.is_err() {
                self.amendments.insert(id, p);
                assert(self@ =~= old(self)@);
            }
            return r;
        }
        Ok(Vec::new())
    }

    /// An escrow's record.
    pub fn get_escrow(&self, escrow_id: u32) -> (r: Result<Escrow, ContractError>)
        ensures
            match r {
                Ok(e) => self@.escrows.contains_key(escrow_id) && e@ == self@.escrows[escrow_id],
                Err(x) => !self@.escrows.contains_key(escrow_id) && x == ContractError::EscrowNotFound,
            },
    {
        let e = self.find_escrow(escrow_id)?;
        Ok(e.copy())
    }

    /// An escrow's sellers and their shares in bps.
    pub fn get_escrow_sellers(&self, escrow_id: u32) -> (r: Result<Vec<(Address, u32)>, ContractError>)
        ensures
            match r {
                Ok(v) => self@.escrows.contains_key(escrow_id) && v@ == self@.escrows[escrow_id].sellers,
                Err(x) => !self@.escrows.contains_key(escrow_id) && x == ContractError::EscrowNotFound,
            },
    {
        let e = self.find_escrow(escrow_id)?;
        Ok(crate::common::copy_vec(&e.sellers))
    }
}

} // verus!
