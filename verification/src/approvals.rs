//! N-of-M release approval, and the health of seller collateral.

use crate::common::{
    fits_i128, get_vec, lemma_map_values_insert, lemma_map_values_lookup, outcome, outcome_unit,
    seller_payout, spec_burn_receipt, spec_is_open, tdiv, xfer, Step, StepWith,
};
use crate::errors::ContractError;
use crate::model::{Address, EscrowStatus, EscrowView, PriceData, Transfer};
use crate::release::{collateral_of, with_status};
use crate::state::{AhjoorEscrowContract, ContractView};
use vstd::prelude::*;

verus! {

broadcast use vstd::std_specs::hash::group_hash_axioms;

pub open spec fn approvals_so_far(pre: ContractView, id: u32) -> Seq<Address> {
    if pre.release_approvals.contains_key(id) {
        pre.release_approvals[id]
    } else {
        Seq::empty()
    }
}

/// The buyer naming 2 to 10 approvers of whom `threshold` must approve the
/// release, before anyone has approved.
pub open spec fn spec_set_multiparty_approval(
    pre: ContractView,
    buyer: Address,
    id: u32,
    approvers: Seq<Address>,
    threshold: u32,
) -> Step {
    if pre.paused {
        Err(ContractError::ContractIsPaused)
    } else if !pre.escrows.contains_key(id) {
        Err(ContractError::EscrowNotFound)
    } else if pre.escrows[id].buyer != buyer {
        Err(ContractError::OnlyBuyerCanConfigureMultiPartyApproval)
    } else if !spec_is_open(pre.escrows[id].status) {
        Err(ContractError::EscrowIsNotActive)
    } else if approvers.len() < 2 || approvers.len() > 10 {
        Err(ContractError::ApproversCountMustBeBetween2And10)
    } else if threshold == 0 || threshold > approvers.len() {
        Err(ContractError::ThresholdMustBeBetween1AndApproversCount)
    } else if approvals_so_far(pre, id).len() != 0 {
        Err(ContractError::CannotReconfigureApprovalsAlreadyProgress)
    } else {
        Ok(
            (
                ContractView {
                    approvers: pre.approvers.insert(id, approvers),
                    approval_threshold: pre.approval_threshold.insert(id, threshold),
                    release_approvals: pre.release_approvals.insert(id, Seq::empty()),
                    ..pre
                },
                Seq::empty(),
            ),
        )
    }
}

/// An approver approving the release of escrow `id`; once the approvals reach
/// the threshold the escrow is paid out to its sellers, with any seller
/// collateral returned to the seller.
pub open spec fn spec_approve_release(pre: ContractView, approver: Address, id: u32) -> Step {
    if pre.paused {
        Err(ContractError::ContractIsPaused)
    } else if !pre.escrows.contains_key(id) {
        Err(ContractError::EscrowNotFound)
    } else if !spec_is_open(pre.escrows[id].status) {
        Err(ContractError::EscrowIsNotActive)
    } else if !pre.approvers.contains_key(id) {
        Err(ContractError::MultiPartyApprovalNotConfigured)
    } else if !pre.approvers[id].contains(approver) {
        Err(ContractError::CallerIsNotAuthorizedApproverEscrow)
    } else if approvals_so_far(pre, id).contains(approver) {
        Err(ContractError::ApproverHasAlreadyApprovedEscrow)
    } else if !pre.approval_threshold.contains_key(id) {
        Err(ContractError::ThresholdNotConfigured)
    } else {
        let e = pre.escrows[id];
        let approvals = approvals_so_far(pre, id).push(approver);
        let s1 = ContractView { release_approvals: pre.release_approvals.insert(id, approvals), ..pre };
        if approvals.len() < pre.approval_threshold[id] {
            Ok((s1, Seq::empty()))
        } else {
            match seller_payout(pre, id, e, e.amount) {
                None => Err(ContractError::Overflow),
                Some(pay) => {
                    let c = collateral_of(pre, id);
                    let s2 = ContractView {
                        seller_collateral: if c > 0 {
                            s1.seller_collateral.remove(id)
                        } else {
                            s1.seller_collateral
                        },
                        escrows: s1.escrows.insert(id, with_status(e, EscrowStatus::Released)),
                        ..s1
                    };
                    Ok(
                        (
                            spec_burn_receipt(s2, id),
                            if c > 0 {
                                pay.push(xfer(e.token, pre.me, e.seller, c))
                            } else {
                                pay
                            },
                        ),
                    )
                },
            }
        }
    }
}

/// The buyer setting the minimum collateral ratio (1 to 10 000 bps) of an
/// open escrow and the oracle that prices the collateral.
pub open spec fn spec_set_collateral_health_config(
    pre: ContractView,
    buyer: Address,
    id: u32,
    min_ratio_bps: u32,
    oracle: Address,
) -> Step {
    if pre.paused {
        Err(ContractError::ContractIsPaused)
    } else if !pre.escrows.contains_key(id) {
        Err(ContractError::EscrowNotFound)
    } else if pre.escrows[id].buyer != buyer {
        Err(ContractError::OnlyBuyerCanConfigureCollateralHealth)
    } else if !spec_is_open(pre.escrows[id].status) {
        Err(ContractError::EscrowIsNotActive)
    } else if min_ratio_bps == 0 || min_ratio_bps > 10000 {
        Err(ContractError::MinCollateralRatioBpsOutOfRange)
    } else {
        Ok(
            (
                ContractView {
                    collateral_min_ratio: pre.collateral_min_ratio.insert(id, min_ratio_bps),
                    collateral_oracle: pre.collateral_oracle.insert(id, oracle),
                    ..pre
                },
                Seq::empty(),
            ),
        )
    }
}

/// The collateral ratio in bps of escrow `e` holding collateral `c`, priced
/// at `price` (7 decimals; unpriced when not positive); `None` on overflow.
pub open spec fn collateral_ratio(e: EscrowView, c: i128, price: i128) -> Option<u32> {
    let cp = c * price;
    let value = if price > 0 {
        tdiv(cp, 10000000)
    } else {
        c as int
    };
    if price > 0 && !fits_i128(cp) {
        None
    } else if e.amount > 0 && !fits_i128(value * 10000) {
        None
    } else if e.amount > 0 {
        Some((tdiv(value * 10000, e.amount as int)) as u32)
    } else {
        Some(10000)
    }
}

/// Checking the health of escrow `id`'s collateral: `price` is the oracle's
/// answer (`None` when it has none, read as a price of one). An open escrow
/// below the minimum ratio is flagged under-collateralized; a flagged one that
/// recovered is active again. Gives the ratio in bps.
pub open spec fn spec_check_collateral_health(pre: ContractView, id: u32, price: Option<PriceData>) -> StepWith<u32> {
    if pre.paused {
        Err(ContractError::ContractIsPaused)
    } else if !pre.escrows.contains_key(id) {
        Err(ContractError::EscrowNotFound)
    } else if !pre.collateral_min_ratio.contains_key(id) {
        Err(ContractError::CollateralHealthNotConfigured)
    } else if !pre.collateral_oracle.contains_key(id) {
        Err(ContractError::CollateralOracleNotConfigured)
    } else {
        let e = pre.escrows[id];
        let p = match price {
            Some(d) => d.price,
            None => 10000000i128,
        };
        match collateral_ratio(e, collateral_of(pre, id), p) {
            None => Err(ContractError::Overflow),
            Some(ratio) => {
                let post = if ratio < pre.collateral_min_ratio[id] {
                    if spec_is_open(e.status) {
                        ContractView {
                            escrows: pre.escrows.insert(id, with_status(e, EscrowStatus::UnderCollateralized)),
                            ..pre
                        }
                    } else {
                        pre
                    }
                } else if e.status == EscrowStatus::UnderCollateralized {
                    ContractView { escrows: pre.escrows.insert(id, with_status(e, EscrowStatus::Active)), ..pre }
                } else {
                    pre
                };
                Ok((post, Seq::empty(), ratio))
            },
        }
    }
}

/// Anyone adding collateral to an open or under-collateralized escrow; a
/// flagged escrow whose ratio is restored becomes active again.
pub open spec fn spec_top_up_collateral(pre: ContractView, provider: Address, id: u32, amount: i128) -> Step {
    if pre.paused {
        Err(ContractError::ContractIsPaused)
    } else if amount <= 0 {
        Err(ContractError::TopUpAmountMustBePositive)
    } else if !pre.escrows.contains_key(id) {
        Err(ContractError::EscrowNotFound)
    } else if pre.escrows[id].status != EscrowStatus::UnderCollateralized && !spec_is_open(
        pre.escrows[id].status,
    ) {
        Err(ContractError::EscrowIsNotActiveOrUnderCollateralized)
    } else if !fits_i128(collateral_of(pre, id) + amount) {
        Err(ContractError::Overflow)
    } else {
        let e = pre.escrows[id];
        let c = collateral_of(pre, id) + amount;
        let min = if pre.collateral_min_ratio.contains_key(id) {
            pre.collateral_min_ratio[id]
        } else {
            0
        };
        if e.status == EscrowStatus::UnderCollateralized && e.amount > 0 && !fits_i128(c * 10000) {
            Err(ContractError::Overflow)
        } else {
            let ratio: u32 = if e.amount > 0 {
                tdiv(c * 10000, e.amount as int) as u32
            } else {
                10000
            };
            let restored = e.status == EscrowStatus::UnderCollateralized && ratio >= min;
            let e2 = EscrowView {
                extensions: crate::model::EscrowExtensions { collateral_amount: c as i128, ..e.extensions },
                status: if restored {
                    EscrowStatus::Active
                } else {
                    e.status
                },
                ..e
            };
            Ok(
                (
                    ContractView {
                        seller_collateral: pre.seller_collateral.insert(id, c as i128),
                        escrows: pre.escrows.insert(id, e2),
                        ..pre
                    },
                    seq![xfer(e.token, provider, pre.me, amount)],
                ),
            )
        }
    }
}

impl AhjoorEscrowContract {
    fn approvals_copy(&self, id: u32) -> (r: Vec<Address>)
        ensures
            r@ == approvals_so_far(self@, id),
    {
        proof {
            lemma_map_values_lookup(self.release_approvals@, |v: Vec<Address>| v@);
        }
        match get_vec(&self.release_approvals, id) {
            Some(v) => v,
            None => Vec::new(),
        }
    }

    /// The buyer names the approvers of an escrow's release and how many of
    /// them must approve.
    pub fn set_multiparty_approval(
        &mut self,
        buyer: Address,
        escrow_id: u32,
        approvers: Vec<Address>,
        threshold: u32,
    ) -> (r: Result<(), ContractError>)
        ensures
            spec_set_multiparty_approval(old(self)@, buyer, escrow_id, approvers@, threshold) == outcome_unit(
                r,
                final(self)@,
            ),
            r is Err ==> final(self)@ == old(self)@,
    {
        let id = escrow_id;
        if self.paused {
            return Err(ContractError::ContractIsPaused);
        }
        let e = self.find_escrow(id)?;
        if e.buyer != buyer {
            return Err(ContractError::OnlyBuyerCanConfigureMultiPartyApproval);
        }
        if !Self::is_open_escrow_status(e.status) {
            return Err(ContractError::EscrowIsNotActive);
        }
        let count = approvers.len();
        if count < 2 || count > 10 {
            return Err(ContractError::ApproversCountMustBeBetween2And10);
        }
        if threshold == 0 || threshold as usize > count {
            return Err(ContractError::ThresholdMustBeBetween1AndApproversCount);
        }
        let so_far = self.approvals_copy(id);
        if so_far.len() != 0 {
            return Err(ContractError::CannotReconfigureApprovalsAlreadyProgress);
        }
        let ghost pre = self@;
        let ghost av = approvers@;
        proof {
            lemma_map_values_insert(self.approvers@, id, approvers, |v: Vec<Address>| v@);
        }
        self.approvers.insert(id, approvers);
        self.approval_threshold.insert(id, threshold);
        let empty: Vec<Address> = Vec::new();
        proof {
            lemma_map_values_insert(self.release_approvals@, id, empty, |v: Vec<Address>| v@);
        }
        self.release_approvals.insert(id, empty);
        assert(self@ =~= spec_set_multiparty_approval(pre, buyer, id, av, threshold)->Ok_0.0);
        Ok(())
    }

    /// An approver approves the release; at the threshold the escrow is paid
    /// out to its sellers.
    #[verifier::loop_isolation(false)]
    pub fn approve_release(&mut self, approver: Address, escrow_id: u32) -> (r: Result<Vec<Transfer>, ContractError>)
        ensures
            spec_approve_release(old(self)@, approver, escrow_id) == outcome(r, final(self)@),
            r is Err ==> final(self)@ == old(self)@,
    {
        let id = escrow_id;
        if self.paused {
            return Err(ContractError::ContractIsPaused);
        }
        let e = self.find_escrow(id)?;
        if !Self::is_open_escrow_status(e.status) {
            return Err(ContractError::EscrowIsNotActive);
        }
        proof {
            lemma_map_values_lookup(self.approvers@, |v: Vec<Address>| v@);
        }
        let list = match get_vec(&self.approvers, id) {
            Some(v) => v,
            None => return Err(ContractError::MultiPartyApprovalNotConfigured),
        };
        let mut authorized = false;
        let mut i: usize = 0;
        while i < list.len()
            invariant
                0 <= i <= list@.len(),
                authorized <==> exists|k: int| 0 <= k < i && list@[k] == approver,
            decreases list@.len() - i,
        {
            if list[i] == approver {
                authorized = true;
            }
            i = i + 1;
        }
        if !authorized {
            return Err(ContractError::CallerIsNotAuthorizedApproverEscrow);
        }
        let mut approvals = self.approvals_copy(id);
        let mut j: usize = 0;
        while j < approvals.len()
            invariant
                0 <= j <= approvals@.len(),
                forall|k: int| 0 <= k < j ==> approvals@[k] != approver,
            decreases approvals@.len() - j,
        {
            if approvals[j] == approver {
                assert(approvals@.contains(approver)) by {
                    assert(approvals@[j as int] == approver);
                }
                return Err(ContractError::ApproverHasAlreadyApprovedEscrow);
            }
            j = j + 1;
        }
        let threshold = match self.approval_threshold.get(&id) {
            Some(t) => *t,
            None => return Err(ContractError::ThresholdNotConfigured),
        };
        let ghost pre = self@;
        approvals.push(approver);
        let count = approvals.len();
        if count < threshold as usize {
            proof {
                lemma_map_values_insert(self.release_approvals@, id, approvals, |v: Vec<Address>| v@);
            }
            self.release_approvals.insert(id, approvals);
            assert(self@ =~= spec_approve_release(pre, approver, id)->Ok_0.0);
            return Ok(Vec::new());
        }
        let mut ts = match self.transfer_to_sellers(id, e, e.amount) {
            Some(v) => v,
            None => return Err(ContractError::Overflow),
        };
        let c = self.collateral_of(id);
        if c > 0 {
            ts.push(Transfer { token: e.token, from: self.me, to: e.seller, amount: c, by_allowance: false });
        }
        proof {
            lemma_map_values_insert(self.release_approvals@, id, approvals, |v: Vec<Address>| v@);
        }
        self.release_approvals.insert(id, approvals);
        if c > 0 {
            self.seller_collateral.remove(&id);
        }
        let mut e = self.take_escrow(id);
        e.status = EscrowStatus::Released;
        self.put_escrow(id, e);
        self.burn_receipt_if_exists(id);
        proof {
            let (sp, st) = spec_approve_release(pre, approver, id)->Ok_0;
            assert(self@ =~= sp);
            assert(ts@ =~= st);
        }
        Ok(ts)
    }

    /// The approvals given so far.
    pub fn get_release_approvals(&self, escrow_id: u32) -> (r: Vec<Address>)
        ensures
            r@ == approvals_so_far(self@, escrow_id),
    {
        self.approvals_copy(escrow_id)
    }

    /// The buyer sets the minimum collateral ratio of an open escrow and the
    /// oracle that prices its collateral.
    pub fn set_collateral_health_config(
        &mut self,
        buyer: Address,
        escrow_id: u32,
        min_collateral_ratio_bps: u32,
        oracle: Address,
    ) -> (r: Result<(), ContractError>)
        ensures
            spec_set_collateral_health_config(old(self)@, buyer, escrow_id, min_collateral_ratio_bps, oracle)
                == outcome_unit(r, final(self)@),
            r is Err ==> final(self)@ == old(self)@,
    {
        let id = escrow_id;
        if self.paused {
            return Err(ContractError::ContractIsPaused);
        }
        let e = self.find_escrow(id)?;
        if e.buyer != buyer {
            return Err(ContractError::OnlyBuyerCanConfigureCollateralHealth);
        }
        if !Self::is_open_escrow_status(e.status) {
            return Err(ContractError::EscrowIsNotActive);
        }
        if min_collateral_ratio_bps == 0 || min_collateral_ratio_bps > 10000 {
            return Err(ContractError::MinCollateralRatioBpsOutOfRange);
        }
        self.collateral_min_ratio.insert(id, min_collateral_ratio_bps);
        self.collateral_oracle.insert(id, oracle);
        Ok(())
    }

    fn collateral_ratio(e: &crate::model::Escrow, c: i128, price: i128) -> (r: Option<u32>)
        ensures
            r == collateral_ratio(e@, c, price),
    {
        let value: i128 = if price > 0 {
            match c.checked_mul(price) {
                Some(p) => p / 10000000,
                None => return None,
            }
        } else {
            c
        };
        if e.amount > 0 {
            match value.checked_mul(10000) {
                Some(v) => Some((v / e.amount) as u32),
                None => None,
            }
        } else {
            Some(10000)
        }
    }

    /// Checks the health of an escrow's collateral. `price` is the collateral
    /// oracle's latest price, if it has one. Gives the ratio in bps.
    pub fn check_collateral_health(&mut self, escrow_id: u32, price: Option<PriceData>) -> (r: Result<
        u32,
        ContractError,
    >)
        ensures
            spec_check_collateral_health(old(self)@, escrow_id, price) == match r {
                Ok(v) => Ok((final(self)@, Seq::<Transfer>::empty(), v)),
                Err(x) => Err::<(ContractView, Seq<Transfer>, u32), ContractError>(x),
            },
            r is Err ==> final(self)@ == old(self)@,
    {
        let id = escrow_id;
        if self.paused {
            return Err(ContractError::ContractIsPaused);
        }
        let e = self.find_escrow(id)?;
        let min = match self.collateral_min_ratio.get(&id) {
            Some(m) => *m,
            None => return Err(ContractError::CollateralHealthNotConfigured),
        };
        if !self.collateral_oracle.contains_key(&id) {
            return Err(ContractError::CollateralOracleNotConfigured);
        }
        let p: i128 = match price {
            Some(d) => d.price,
            None => 10000000,
        };
        let c = self.collateral_of(id);
        let ratio = match Self::collateral_ratio(e, c, p) {
            Some(r) => r,
            None => return Err(ContractError::Overflow),
        };
        let ghost pre = self@;
        if ratio < min {
            if Self::is_open_escrow_status(e.status) {
                let mut e = self.take_escrow(id);
                e.status = EscrowStatus::UnderCollateralized;
                self.put_escrow(id, e);
            }
        } else if e.status == EscrowStatus::UnderCollateralized {
            let mut e = self.take_escrow(id);
            e.status = EscrowStatus::Active;
            self.put_escrow(id, e);
        }
        proof {
            let (sp, st, sr) = spec_check_collateral_health(pre, id, price)->Ok_0;
            assert(self@ =~= sp);
        }
        Ok(ratio)
    }

    /// Anyone adds collateral to an open or under-collateralized escrow.
    pub fn top_up_collateral(&mut self, provider: Address, escrow_id: u32, amount: i128) -> (r: Result<
        Vec<Transfer>,
        ContractError,
    >)
        ensures
            spec_top_up_collateral(old(self)@, provider, escrow_id, amount) == outcome(r, final(self)@),
            r is Err ==> final(self)@ == old(self)@,
    {
        let id = escrow_id;
        if self.paused {
            return Err(ContractError::ContractIsPaused);
        }
        if amount <= 0 {
            return Err(ContractError::TopUpAmountMustBePositive);
        }
        let e = self.find_escrow(id)?;
        if e.status != EscrowStatus::UnderCollateralized && !Self::is_open_escrow_status(e.status) {
            return Err(ContractError::EscrowIsNotActiveOrUnderCollateralized);
        }
        let c = match self.collateral_of(id).checked_add(amount) {
            Some(v) => v,
            None => return Err(ContractError::Overflow),
        };
        let min: u32 = match self.collateral_min_ratio.get(&id) {
            Some(m) => *m,
            None => 0,
        };
        let mut restored = false;
        if e.status == EscrowStatus::UnderCollateralized {
            let ratio: u32 = if e.amount > 0 {
                match c.checked_mul(10000) {
                    Some(v) => (v / e.amount) as u32,
                    None => return Err(ContractError::Overflow),
                }
            } else {
                10000
            };
            restored = ratio >= min;
        }
        let ghost pre = self@;
        let mut ts = Vec::new();
        ts.push(Transfer { token: e.token, from: provider, to: self.me, amount, by_allowance: false });
        self.seller_collateral.insert(id, c);
        let mut e = self.take_escrow(id);
        e.extensions.collateral_amount = c;
        if restored {
            e.status = EscrowStatus::Active;
        }
        self.put_escrow(id, e);
        proof {
            let (sp, st) = spec_top_up_collateral(pre, provider, id, amount)->Ok_0;
            assert(self@ =~= sp);
            assert(ts@ =~= st);
        }
        Ok(ts)
    }
}

} // verus!
