//! Releasing escrowed funds to sellers, and refunding them on expiry.

use crate::common::{
    buyer_payout, lemma_map_values_insert, lemma_map_values_lookup, lemma_map_values_remove, outcome, seller_payout,
    spec_burn_receipt, spec_is_open, xfer, Step,
};
use crate::errors::ContractError;
use crate::model::{Address, Escrow, EscrowStatus, EscrowView, PriceData, Transfer};
use crate::renew::{spec_renew, spec_apply_renewal, renewal_refusal};
use crate::state::{AhjoorEscrowContract, ContractView, ORACLE_COMPARISON_GREATER_OR_EQUAL, ORACLE_COMPARISON_LESS_OR_EQUAL};
use vstd::prelude::*;

verus! {

broadcast use vstd::std_specs::hash::group_hash_axioms;

pub open spec fn approvals_of(pre: ContractView, id: u32) -> Seq<Address> {
    if pre.multi_buyer_approvals.contains_key(id) {
        pre.multi_buyer_approvals[id]
    } else {
        Seq::empty()
    }
}

pub open spec fn collateral_of(pre: ContractView, id: u32) -> i128 {
    if pre.seller_collateral.contains_key(id) {
        pre.seller_collateral[id]
    } else {
        0
    }
}

/// The state after a buyer action on escrow `e` (stored under `id`) is recorded.
pub open spec fn note_buyer_action(pre: ContractView, e: EscrowView, id: u32, now: u64) -> ContractView {
    if e.extensions.buyer_inactivity_secs > 0 {
        ContractView { last_buyer_action: pre.last_buyer_action.insert(id, now), ..pre }
    } else {
        pre
    }
}

pub open spec fn with_status(e: EscrowView, s: EscrowStatus) -> EscrowView {
    EscrowView { status: s, ..e }
}

/// The refusal, if any, of paying out escrow `id` once its release is approved.
pub open spec fn payout_refusal(pre: ContractView, id: u32, now: u64) -> Option<ContractError> {
    let e = pre.escrows[id];
    if pre.seller_veto_last.contains_key(id) && pre.seller_veto_last[id] + pre.veto_cooldown_secs
        > u64::MAX {
        Some(ContractError::Overflow)
    } else if pre.seller_veto_last.contains_key(id) && now < pre.seller_veto_last[id]
        + pre.veto_cooldown_secs {
        Some(ContractError::SellerVetoActive)
    } else if pre.veto_timestamps.contains_key(id) {
        Some(ContractError::SellerVetoBlocksRelease)
    } else if e.extensions.min_lock_until matches Some(l) && now < l {
        Some(ContractError::EscrowStillLocked)
    } else {
        None
    }
}

/// Paying out an approved release of escrow `id`: the whole amount to the
/// sellers, any seller collateral back to the seller, the receipt burnt, the
/// escrow `Released`, then any renewal.
pub open spec fn spec_release_funds(pre: ContractView, caller: Address, id: u32, now: u64, funds_available: bool) -> Step {
    let e = pre.escrows[id];
    match payout_refusal(pre, id, now) {
        Some(err) => Err(err),
        None => {
            let s1 = if caller == e.buyer {
                note_buyer_action(pre, e, id, now)
            } else {
                pre
            };
            match seller_payout(s1, id, e, e.amount) {
                None => Err(ContractError::Overflow),
                Some(pay) => {
                    let c = collateral_of(s1, id);
                    let coll = if c > 0 {
                        seq![xfer(e.token, s1.me, e.seller, c)]
                    } else {
                        Seq::empty()
                    };
                    let s2 = ContractView {
                        seller_collateral: if c > 0 {
                            s1.seller_collateral.remove(id)
                        } else {
                            s1.seller_collateral
                        },
                        escrows: s1.escrows.insert(id, with_status(e, EscrowStatus::Released)),
                        ..s1
                    };
                    let s3 = spec_burn_receipt(s2, id);
                    match spec_renew(s3, id, e, now, funds_available) {
                        Err(err) => Err(err),
                        Ok((s4, rts)) => Ok((s4, pay + coll + rts)),
                    }
                },
            }
        },
    }
}

/// Releasing escrow `id` at the request of `caller` (its buyer or arbiter, or
/// for an escrow funded by several buyers, each buyer in turn: funds move once
/// all of them have approved). `funds_available` says whether the buyer's
/// allowance covers a renewal period, should a configured renewal be due.
pub open spec fn spec_release_escrow(pre: ContractView, caller: Address, id: u32, now: u64, funds_available: bool) -> Step {
    if pre.paused {
        Err(ContractError::ContractIsPaused)
    } else if !pre.escrows.contains_key(id) {
        Err(ContractError::EscrowNotFound)
    } else {
        let e = pre.escrows[id];
        if e.status == EscrowStatus::AwaitingInspection {
            Err(ContractError::InspectionPending)
        } else if e.status != EscrowStatus::InspectionPassed && !spec_is_open(e.status) {
            Err(ContractError::EscrowIsNotActive)
        } else if pre.multi_buyers.contains_key(id) {
            let buyers = pre.multi_buyers[id];
            let approvals = approvals_of(pre, id);
            if !buyers.contains(caller) {
                Err(ContractError::OnlyListedBuyerCanApproveMultiBuyerRelease)
            } else if approvals.contains(caller) {
                Err(ContractError::BuyerHasAlreadyApprovedRelease)
            } else {
                let mid = ContractView {
                    multi_buyer_approvals: pre.multi_buyer_approvals.insert(id, approvals.push(caller)),
                    ..pre
                };
                if approvals.len() + 1 < buyers.len() {
                    Ok((mid, Seq::empty()))
                } else {
                    spec_release_funds(mid, caller, id, now, funds_available)
                }
            }
        } else if caller != e.buyer && caller != e.arbiter {
            Err(ContractError::OnlyBuyerOrArbiterCanReleaseEscrow)
        } else {
            spec_release_funds(pre, caller, id, now, funds_available)
        }
    }
}

fn contains_addr(v: &Vec<Address>, a: Address) -> (r: bool)
    ensures
        r == v@.contains(a),
{
    let mut i: usize = 0;
    while i < v.len()
        invariant
            0 <= i <= v@.len(),
            forall|j: int| 0 <= j < i ==> v@[j] != a,
        decreases v@.len() - i,
    {
        if v[i] == a {
            assert(v@[i as int] == a);
            return true;
        }
        i = i + 1;
    }
    false
}

impl AhjoorEscrowContract {
    pub(crate) fn collateral_of(&self, id: u32) -> (r: i128)
        ensures
            r == collateral_of(self@, id),
    {
        match self.seller_collateral.get(&id) {
            Some(c) => *c,
            None => 0,
        }
    }

    pub(crate) fn payout_check(&self, id: u32, now: u64) -> (r: Option<ContractError>)
        requires
            self@.escrows.contains_key(id),
        ensures
            r == payout_refusal(self@, id, now),
    {
        proof {
            lemma_map_values_lookup(self.escrows@, |e: Escrow| e@);
        }
        let e = self.escrows.get(&id).unwrap();
        if let Some(ts) = self.seller_veto_last.get(&id) {
            if *ts > u64::MAX - self.veto_cooldown_secs {
                return Some(ContractError::Overflow);
            }
            if now < *ts + self.veto_cooldown_secs {
                return Some(ContractError::SellerVetoActive);
            }
        }
        if self.veto_timestamps.contains_key(&id) {
            return Some(ContractError::SellerVetoBlocksRelease);
        }
        if let Some(l) = e.extensions.min_lock_until {
            if now < l {
                return Some(ContractError::EscrowStillLocked);
            }
        }
        None
    }

    /// Records a buyer action on escrow `id` for inactivity tracking.
    pub(crate) fn update_last_buyer_action(&mut self, id: u32, inactivity_secs: u64, now: u64)
        ensures
            final(self)@ == if inactivity_secs > 0 {
                ContractView {
                    last_buyer_action: old(self)@.last_buyer_action.insert(id, now),
                    ..old(self)@
                }
            } else {
                old(self)@
            },
    {
        if inactivity_secs > 0 {
            self.last_buyer_action.insert(id, now);
        }
    }

    /// Pays out an approved release of escrow `id`.
    #[verifier::rlimit(50)]
    fn release_funds(&mut self, caller: Address, id: u32, now: u64, funds_available: bool) -> (r: Result<
        Vec<Transfer>,
        ContractError,
    >)
        requires
            old(self)@.escrows.contains_key(id),
        ensures
            spec_release_funds(old(self)@, caller, id, now, funds_available) == outcome(r, final(self)@),
            r is Err ==> final(self)@ == old(self)@,
    {
        let ghost pre = self@;
        if let Some(err) = self.payout_check(id, now) {
            return Err(err);
        }
        proof {
            lemma_map_values_lookup(self.escrows@, |e: Escrow| e@);
        }
        let e = self.escrows.get(&id).unwrap();
        let is_buyer = caller == e.buyer;
        let inactivity = e.extensions.buyer_inactivity_secs;
        let ghost s1 = if is_buyer {
            note_buyer_action(pre, e@, id, now)
        } else {
            pre
        };
        // Everything the payout reads is left alone by recording the buyer action.
        let pay = match self.transfer_to_sellers(id, e, e.amount) {
            Some(p) => p,
            None => {
                assert(seller_payout(s1, id, e@, e.amount) is None);
                return Err(ContractError::Overflow);
            },
        };
        assert(seller_payout(s1, id, e@, e.amount) == Some(pay@));
        let c = self.collateral_of(id);
        // Renewal reads nothing that the release changes.
        let ghost s2 = ContractView {
            seller_collateral: if c > 0 {
                s1.seller_collateral.remove(id)
            } else {
                s1.seller_collateral
            },
            escrows: s1.escrows.insert(id, with_status(e@, EscrowStatus::Released)),
            ..s1
        };
        let ghost s3 = spec_burn_receipt(s2, id);
        if let Some(err) = self.renewal_check(id, e, now, funds_available) {
            assert(renewal_refusal(s3, id, e@, now, funds_available) == Some(err));
            return Err(err);
        }
        assert(renewal_refusal(s3, id, e@, now, funds_available) is None);
        let mut src = self.escrows.remove(&id).unwrap();
        let token = src.token;
        let seller = src.seller;
        let ghost coll_seq = if c > 0 {
            seq![xfer(token, pre.me, seller, c)]
        } else {
            Seq::<Transfer>::empty()
        };
        let mut out = pay;
        if c > 0 {
            out.push(Transfer { token, from: self.me, to: seller, amount: c, by_allowance: false });
            self.seller_collateral.remove(&id);
        }
        assert(out@ =~= pay@ + coll_seq);
        if is_buyer {
            self.update_last_buyer_action(id, inactivity, now);
        }
        let src_copy = Escrow {
            id: src.id,
            buyer: src.buyer,
            seller: src.seller,
            arbiter: src.arbiter,
            amount: src.amount,
            original_amount: src.original_amount,
            token: src.token,
            status: src.status,
            created_at: src.created_at,
            deadline: src.deadline,
            metadata_hash: src.metadata_hash,
            sellers: crate::common::copy_vec(&src.sellers),
            extensions: src.extensions,
            top_up_history: crate::common::copy_vec(&src.top_up_history),
            top_up_acknowledged: src.top_up_acknowledged,
        };
        assert(src_copy@ == e@);
        src.status = EscrowStatus::Released;
        proof {
            lemma_map_values_insert(self.escrows@, id, src, |e: Escrow| e@);
        }
        self.escrows.insert(id, src);
        self.burn_receipt_if_exists(id);
        proof {
            assert(self@ =~= s3);
        }
        let mut rts = self.try_auto_renew(id, &src_copy, now, funds_available);
        let ghost rts_view = rts@;
        proof {
            assert(spec_renew(s3, id, e@, now, funds_available) == Ok::<(ContractView, Seq<Transfer>), ContractError>((self@, rts_view)));
        }
        out.append(&mut rts);
        assert(out@ =~= pay@ + coll_seq + rts_view);
        Ok(out)
    }
}

impl AhjoorEscrowContract {
    /// Releases escrowed funds to the seller(s). Called by the buyer or the
    /// arbiter; an escrow funded by several buyers releases once every buyer has
    /// approved.
    ///
    /// `funds_available` is whether the buyer's allowance to this contract
    /// covers another period, for an escrow whose AutoRenewConfig renewal is due.
    #[verifier::rlimit(60)]
    pub fn release_escrow(&mut self, caller: Address, escrow_id: u32, now: u64, funds_available: bool) -> (r: Result<
        Vec<Transfer>,
        ContractError,
    >)
        ensures
            spec_release_escrow(old(self)@, caller, escrow_id, now, funds_available) == outcome(
                r,
                final(self)@,
            ),
            r is Err ==> final(self)@ == old(self)@,
    {
        let id = escrow_id;
        if self.paused {
            return Err(ContractError::ContractIsPaused);
        }
        proof {
            lemma_map_values_lookup(self.escrows@, |e: Escrow| e@);
        }
        let e = match self.escrows.get(&id) {
            Some(e) => e,
            None => return Err(ContractError::EscrowNotFound),
        };
        if e.status == EscrowStatus::AwaitingInspection {
            return Err(ContractError::InspectionPending);
        }
        if e.status != EscrowStatus::InspectionPassed && !Self::is_open_escrow_status(e.status) {
            return Err(ContractError::EscrowIsNotActive);
        }
        if self.multi_buyers.contains_key(&id) {
            proof {
                lemma_map_values_lookup(self.multi_buyers@, |v: Vec<Address>| v@);
                lemma_map_values_lookup(self.multi_buyer_approvals@, |v: Vec<Address>| v@);
            }
            let buyers = self.multi_buyers.get(&id).unwrap();
            if !contains_addr(buyers, caller) {
                return Err(ContractError::OnlyListedBuyerCanApproveMultiBuyerRelease);
            }
            let nbuyers = buyers.len();
            let already = match self.multi_buyer_approvals.get(&id) {
                Some(a) => contains_addr(a, caller),
                None => false,
            };
            if already {
                return Err(ContractError::BuyerHasAlreadyApprovedRelease);
            }
            let ghost pre = self@;
            let existed = self.multi_buyer_approvals.contains_key(&id);
            let mut approvals = match self.multi_buyer_approvals.remove(&id) {
                Some(a) => a,
                None => Vec::new(),
            };
            let ghost before = approvals@;
            assert(before == approvals_of(pre, id));
            approvals.push(caller);
            let count = approvals.len();
            proof {
                lemma_map_values_insert(self.multi_buyer_approvals@, id, approvals, |v: Vec<Address>| v@);
            }
            self.multi_buyer_approvals.insert(id, approvals);
            let ghost mid = ContractView {
                multi_buyer_approvals: pre.multi_buyer_approvals.insert(id, before.push(caller)),
                ..pre
            };
            assert(self@ =~= mid);
            if count < nbuyers {
                return Ok(Vec::new());
            }
            let ghost at_call = self@;
            let r = self.release_funds(caller, id, now, funds_available);
            match r {
                Ok(ts) => Ok(ts),
                Err(err) => {
                    // The approval is undone with the rest of the refused release.
                    proof {
                        lemma_map_values_lookup(self.multi_buyer_approvals@, |v: Vec<Address>| v@);
                        assert(at_call == mid);
                        assert(self@ == at_call);
                        assert(self@.multi_buyer_approvals.contains_key(id));
                        assert(self@.multi_buyer_approvals[id] == before.push(caller));
                    }
                    proof {
                        lemma_map_values_remove(self.multi_buyer_approvals@, id, |v: Vec<Address>| v@);
                    }
                    let mut a = self.multi_buyer_approvals.remove(&id).unwrap();
                    a.pop();
                    assert(a@ =~= before);
                    if !existed {
                        assert(self@.multi_buyer_approvals =~= pre.multi_buyer_approvals);
                        assert(self@ =~= pre);
                    } else {
                        proof {
                            lemma_map_values_insert(self.multi_buyer_approvals@, id, a, |v: Vec<Address>| v@);
                        }
                        self.multi_buyer_approvals.insert(id, a);
                        assert(self@.multi_buyer_approvals =~= pre.multi_buyer_approvals);
                        assert(self@ =~= pre);
                    }
                    Err(err)
                },
            }
        } else {
            if caller != e.buyer && caller != e.arbiter {
                return Err(ContractError::OnlyBuyerOrArbiterCanReleaseEscrow);
            }
            self.release_funds(caller, id, now, funds_available)
        }
    }
}

/// Partially releasing `amount` of escrow `id` to its seller.
pub open spec fn spec_partial_release(pre: ContractView, caller: Address, id: u32, amount: i128, now: u64) -> Step {
    if pre.paused {
        Err(ContractError::ContractIsPaused)
    } else if !pre.escrows.contains_key(id) {
        Err(ContractError::EscrowNotFound)
    } else {
        let e = pre.escrows[id];
        if !spec_is_open(e.status) {
            Err(ContractError::EscrowIsNotActive)
        } else if caller != e.buyer && caller != e.arbiter {
            Err(ContractError::OnlyBuyerOrArbiterCanReleaseEscrow)
        } else if e.extensions.min_lock_until matches Some(l) && now < l {
            Err(ContractError::EscrowStillLocked)
        } else if amount <= 0 {
            Err(ContractError::ReleaseAmountMustBePositive)
        } else if amount > e.amount {
            Err(ContractError::ReleaseAmountExceedsEscrowBalance)
        } else {
            let left = (e.amount - amount) as i128;
            let e2 = EscrowView {
                amount: left,
                status: if left == 0 {
                    EscrowStatus::Released
                } else {
                    EscrowStatus::PartiallyReleased
                },
                ..e
            };
            Ok(
                (
                    ContractView { escrows: pre.escrows.insert(id, e2), ..pre },
                    seq![xfer(e.token, pre.me, e.seller, amount)],
                ),
            )
        }
    }
}

/// Refunding an expired escrow to its buyer(s).
pub open spec fn spec_auto_release_expired(pre: ContractView, id: u32, now: u64) -> Step {
    if pre.paused {
        Err(ContractError::ContractIsPaused)
    } else if !pre.escrows.contains_key(id) {
        Err(ContractError::EscrowNotFound)
    } else {
        let e = pre.escrows[id];
        if !spec_is_open(e.status) {
            Err(ContractError::EscrowIsNotActive)
        } else if now <= e.deadline {
            Err(ContractError::EscrowHasNotExpiredYet)
        } else if e.extensions.min_lock_until matches Some(l) && now < l {
            Err(ContractError::EscrowStillLocked)
        } else {
            match buyer_payout(pre, id, e, e.amount) {
                None => Err(ContractError::Overflow),
                Some(pay) => Ok(
                    (
                        spec_burn_receipt(
                            ContractView {
                                escrows: pre.escrows.insert(id, with_status(e, EscrowStatus::Refunded)),
                                ..pre
                            },
                            id,
                        ),
                        pay,
                    ),
                ),
            }
        }
    }
}

pub open spec fn last_buyer_action_of(pre: ContractView, id: u32, e: EscrowView) -> u64 {
    if pre.last_buyer_action.contains_key(id) {
        pre.last_buyer_action[id]
    } else {
        e.created_at
    }
}

/// The seller claiming the escrow after the buyer stayed inactive long enough.
pub open spec fn spec_claim_inactivity_release(pre: ContractView, seller: Address, id: u32, now: u64) -> Step {
    if pre.paused {
        Err(ContractError::ContractIsPaused)
    } else if !pre.escrows.contains_key(id) {
        Err(ContractError::EscrowNotFound)
    } else {
        let e = pre.escrows[id];
        let last = last_buyer_action_of(pre, id, e);
        let idle = if now >= last {
            now - last
        } else {
            0
        };
        if e.extensions.buyer_inactivity_secs == 0 {
            Err(ContractError::InactivityReleaseIsNotEnabledEscrow)
        } else if !spec_is_open(e.status) {
            Err(ContractError::EscrowIsNotActive)
        } else if seller != e.seller {
            Err(ContractError::OnlyEscrowSellerCanClaimInactivityRelease)
        } else if idle < e.extensions.buyer_inactivity_secs {
            Err(ContractError::BuyerInactivityWindowHasNotElapsed)
        } else {
            Ok(
                (
                    ContractView {
                        escrows: pre.escrows.insert(id, with_status(e, EscrowStatus::Released)),
                        ..pre
                    },
                    seq![xfer(e.token, pre.me, e.seller, e.amount)],
                ),
            )
        }
    }
}

/// The refusal, if any, of an oracle answer: `price` is the configured
/// oracle's latest price for the escrow's pair.
pub open spec fn oracle_refusal(pre: ContractView, price: Option<PriceData>, now: u64) -> Option<ContractError> {
    if pre.oracle is None {
        Some(ContractError::OracleNotConfigured)
    } else {
        match price {
            None => Some(ContractError::OraclePriceUnavailable),
            Some(p) => if (if now >= p.timestamp {
                now - p.timestamp
            } else {
                0
            }) > pre.max_oracle_age {
                Some(ContractError::OraclePriceIsStale)
            } else if p.price <= 0 {
                Some(ContractError::InvalidOraclePrice)
            } else {
                None
            },
        }
    }
}

/// Anyone releasing escrow `id` once its oracle price condition holds.
pub open spec fn spec_check_and_release(pre: ContractView, id: u32, now: u64, price: Option<PriceData>) -> Step {
    if pre.paused {
        Err(ContractError::ContractIsPaused)
    } else if !pre.escrows.contains_key(id) {
        Err(ContractError::EscrowNotFound)
    } else {
        let e = pre.escrows[id];
        let x = e.extensions;
        if !spec_is_open(e.status) {
            Err(ContractError::EscrowIsNotActive)
        } else if x.release_base is None || x.release_quote is None || x.release_comparison is None
            || x.release_threshold_price is None {
            Err(ContractError::NoReleaseConditionSet)
        } else if oracle_refusal(pre, price, now) is Some {
            Err(oracle_refusal(pre, price, now)->0)
        } else {
            let p = price->0.price;
            let t = x.release_threshold_price->0;
            let c = x.release_comparison->0;
            if c != ORACLE_COMPARISON_LESS_OR_EQUAL && c != ORACLE_COMPARISON_GREATER_OR_EQUAL {
                Err(ContractError::InvalidReleaseComparison)
            } else if (c == ORACLE_COMPARISON_LESS_OR_EQUAL && !(p <= t)) || (c
                == ORACLE_COMPARISON_GREATER_OR_EQUAL && !(p >= t)) {
                Err(ContractError::ReleaseConditionNotMet)
            } else {
                match seller_payout(pre, id, e, e.amount) {
                    None => Err(ContractError::Overflow),
                    Some(pay) => Ok(
                        (
                            ContractView {
                                escrows: pre.escrows.insert(id, with_status(e, EscrowStatus::Released)),
                                ..pre
                            },
                            pay,
                        ),
                    ),
                }
            }
        }
    }
}

impl AhjoorEscrowContract {
    /// Takes escrow `id` out of the table, to be put back changed.
    pub(crate) fn take_escrow(&mut self, id: u32) -> (r: Escrow)
        requires
            old(self)@.escrows.contains_key(id),
        ensures
            r@ == old(self)@.escrows[id],
            final(self)@ == (ContractView { escrows: old(self)@.escrows.remove(id), ..old(self)@ }),
    {
        proof {
            lemma_map_values_lookup(self.escrows@, |e: Escrow| e@);
            lemma_map_values_remove(self.escrows@, id, |e: Escrow| e@);
        }
        let r = self.escrows.remove(&id).unwrap();
        assert(self@ =~= ContractView { escrows: old(self)@.escrows.remove(id), ..old(self)@ });
        r
    }

    /// Puts escrow `e` back under `id`.
    pub(crate) fn put_escrow(&mut self, id: u32, e: Escrow)
        ensures
            final(self)@ == (ContractView { escrows: old(self)@.escrows.insert(id, e@), ..old(self)@ }),
    {
        proof {
            lemma_map_values_insert(self.escrows@, id, e, |e: Escrow| e@);
        }
        self.escrows.insert(id, e);
        assert(self@ =~= ContractView { escrows: old(self)@.escrows.insert(id, e@), ..old(self)@ });
    }

    /// Looks escrow `id` up.
    pub(crate) fn find_escrow(&self, id: u32) -> (r: Result<&Escrow, ContractError>)
        ensures
            match r {
                Ok(e) => self@.escrows.contains_key(id) && e@ == self@.escrows[id],
                Err(err) => !self@.escrows.contains_key(id) && err == ContractError::EscrowNotFound,
            },
    {
        proof {
            lemma_map_values_lookup(self.escrows@, |e: Escrow| e@);
        }
        match self.escrows.get(&id) {
            Some(e) => Ok(e),
            None => Err(ContractError::EscrowNotFound),
        }
    }

    /// Releases part of the escrowed funds to the seller. Called by buyer or arbiter.
    pub fn partial_release(&mut self, caller: Address, escrow_id: u32, release_amount: i128, now: u64) -> (r: Result<
        Vec<Transfer>,
        ContractError,
    >)
        ensures
            spec_partial_release(old(self)@, caller, escrow_id, release_amount, now) == outcome(
                r,
                final(self)@,
            ),
            r is Err ==> final(self)@ == old(self)@,
    {
        let id = escrow_id;
        if self.paused {
            return Err(ContractError::ContractIsPaused);
        }
        let e = self.find_escrow(id)?;
        if !Self::is_open_escrow_status(e.status) {
            return Err(ContractError::EscrowIsNotActive);
        }
        if caller != e.buyer && caller != e.arbiter {
            return Err(ContractError::OnlyBuyerOrArbiterCanReleaseEscrow);
        }
        if let Some(l) = e.extensions.min_lock_until {
            if now < l {
                return Err(ContractError::EscrowStillLocked);
            }
        }
        if release_amount <= 0 {
            return Err(ContractError::ReleaseAmountMustBePositive);
        }
        if release_amount > e.amount {
            return Err(ContractError::ReleaseAmountExceedsEscrowBalance);
        }
        let ghost pre = self@;
        let mut e = self.take_escrow(id);
        let mut ts = Vec::new();
        ts.push(Transfer { token: e.token, from: self.me, to: e.seller, amount: release_amount, by_allowance: false });
        e.amount = e.amount - release_amount;
        e.status = if e.amount == 0 {
            EscrowStatus::Released
        } else {
            EscrowStatus::PartiallyReleased
        };
        self.put_escrow(id, e);
        proof {
            let (sp, st) = spec_partial_release(pre, caller, id, release_amount, now)->Ok_0;
            assert(self@ =~= sp);
            assert(ts@ =~= st);
        }
        Ok(ts)
    }

    /// Refunds an expired escrow (past its deadline, undisputed) to its buyer(s).
    pub fn auto_release_expired(&mut self, escrow_id: u32, now: u64) -> (r: Result<Vec<Transfer>, ContractError>)
        ensures
            spec_auto_release_expired(old(self)@, escrow_id, now) == outcome(r, final(self)@),
            r is Err ==> final(self)@ == old(self)@,
    {
        let id = escrow_id;
        if self.paused {
            return Err(ContractError::ContractIsPaused);
        }
        let e = self.find_escrow(id)?;
        if !Self::is_open_escrow_status(e.status) {
            return Err(ContractError::EscrowIsNotActive);
        }
        if now <= e.deadline {
            return Err(ContractError::EscrowHasNotExpiredYet);
        }
        if let Some(l) = e.extensions.min_lock_until {
            if now < l {
                return Err(ContractError::EscrowStillLocked);
            }
        }
        let pay = match self.transfer_to_buyers(id, e, e.amount) {
            Some(p) => p,
            None => return Err(ContractError::Overflow),
        };
        let ghost pre = self@;
        let mut e = self.take_escrow(id);
        e.status = EscrowStatus::Refunded;
        self.put_escrow(id, e);
        let ghost mid = self@;
        assert(mid =~= ContractView {
            escrows: pre.escrows.insert(id, with_status(pre.escrows[id], EscrowStatus::Refunded)),
            ..pre
        });
        self.burn_receipt_if_exists(id);
        Ok(pay)
    }

    /// The seller claims the escrow after the buyer's inactivity window elapsed.
    pub fn claim_inactivity_release(&mut self, seller: Address, escrow_id: u32, now: u64) -> (r: Result<
        Vec<Transfer>,
        ContractError,
    >)
        ensures
            spec_claim_inactivity_release(old(self)@, seller, escrow_id, now) == outcome(
                r,
                final(self)@,
            ),
            r is Err ==> final(self)@ == old(self)@,
    {
        let id = escrow_id;
        if self.paused {
            return Err(ContractError::ContractIsPaused);
        }
        let e = self.find_escrow(id)?;
        if e.extensions.buyer_inactivity_secs == 0 {
            return Err(ContractError::InactivityReleaseIsNotEnabledEscrow);
        }
        if !Self::is_open_escrow_status(e.status) {
            return Err(ContractError::EscrowIsNotActive);
        }
        if seller != e.seller {
            return Err(ContractError::OnlyEscrowSellerCanClaimInactivityRelease);
        }
        let last = match self.last_buyer_action.get(&id) {
            Some(t) => *t,
            None => e.created_at,
        };
        let idle = if now >= last {
            now - last
        } else {
            0
        };
        if idle < e.extensions.buyer_inactivity_secs {
            return Err(ContractError::BuyerInactivityWindowHasNotElapsed);
        }
        let ghost pre = self@;
        let mut e = self.take_escrow(id);
        let mut ts = Vec::new();
        ts.push(Transfer { token: e.token, from: self.me, to: e.seller, amount: e.amount, by_allowance: false });
        e.status = EscrowStatus::Released;
        self.put_escrow(id, e);
        proof {
            let (sp, st) = spec_claim_inactivity_release(pre, seller, id, now)->Ok_0;
            assert(self@ =~= sp);
            assert(ts@ =~= st);
        }
        Ok(ts)
    }

    pub(crate) fn oracle_check(&self, price: Option<PriceData>, now: u64) -> (r: Option<ContractError>)
        ensures
            r == oracle_refusal(self@, price, now),
    {
        if self.oracle.is_none() {
            return Some(ContractError::OracleNotConfigured);
        }
        match price {
            None => Some(ContractError::OraclePriceUnavailable),
            Some(p) => {
                let age = if now >= p.timestamp {
                    now - p.timestamp
                } else {
                    0
                };
                if age > self.max_oracle_age {
                    Some(ContractError::OraclePriceIsStale)
                } else if p.price <= 0 {
                    Some(ContractError::InvalidOraclePrice)
                } else {
                    None
                }
            },
        }
    }

    /// Releases the escrow to its seller(s) once its oracle price condition
    /// holds; anyone may call. `price` is the configured oracle's latest price
    /// for the escrow's base/quote pair.
    pub fn check_and_release_escrow(&mut self, escrow_id: u32, now: u64, price: Option<PriceData>) -> (r: Result<
        Vec<Transfer>,
        ContractError,
    >)
        ensures
            spec_check_and_release(old(self)@, escrow_id, now, price) == outcome(r, final(self)@),
            r is Err ==> final(self)@ == old(self)@,
    {
        let id = escrow_id;
        if self.paused {
            return Err(ContractError::ContractIsPaused);
        }
        let e = self.find_escrow(id)?;
        if !Self::is_open_escrow_status(e.status) {
            return Err(ContractError::EscrowIsNotActive);
        }
        let x = e.extensions;
        if x.release_base.is_none() || x.release_quote.is_none() || x.release_comparison.is_none()
            || x.release_threshold_price.is_none() {
            return Err(ContractError::NoReleaseConditionSet);
        }
        if let Some(err) = self.oracle_check(price, now) {
            return Err(err);
        }
        let p = price.unwrap().price;
        let t = x.release_threshold_price.unwrap();
        let c = x.release_comparison.unwrap();
        if c != ORACLE_COMPARISON_LESS_OR_EQUAL && c != ORACLE_COMPARISON_GREATER_OR_EQUAL {
            return Err(ContractError::InvalidReleaseComparison);
        }
        if (c == ORACLE_COMPARISON_LESS_OR_EQUAL && !(p <= t)) || (c == ORACLE_COMPARISON_GREATER_OR_EQUAL
            && !(p >= t)) {
            return Err(ContractError::ReleaseConditionNotMet);
        }
        let pay = match self.transfer_to_sellers(id, e, e.amount) {
            Some(p) => p,
            None => return Err(ContractError::Overflow),
        };
        let ghost pre = self@;
        let mut e = self.take_escrow(id);
        e.status = EscrowStatus::Released;
        self.put_escrow(id, e);
        proof {
            let (sp, st) = spec_check_and_release(pre, id, now, price)->Ok_0;
            assert(self@ =~= sp);
        }
        Ok(pay)
    }
}

} // verus!
