//! Escrows funded jointly by several buyers.

use crate::common::{fits_i128, outcome_with, pull, spec_token_allowed, StepWith};
use crate::create::{basic_request, new_escrow};
use crate::errors::ContractError;
use crate::model::{Address, Escrow, EscrowReceipt, Transfer};
use crate::state::{AhjoorEscrowContract, ContractView};
use std::collections::HashMap;
use vstd::prelude::*;

verus! {

broadcast use vstd::std_specs::hash::group_hash_axioms;

/// Sum of the first `n` contributions.
pub open spec fn contributions_total(b: Seq<(Address, i128)>, n: int) -> int
    decreases n,
{
    if n <= 0 {
        0
    } else {
        contributions_total(b, n - 1) + b[n - 1].1
    }
}

/// Whether the buyer at position `i` already appears before it.
pub open spec fn listed_before(b: Seq<(Address, i128)>, i: int) -> bool {
    exists|j: int| 0 <= j < i && #[trigger] b[j].0 == b[i].0
}

/// The first refusal met while taking in the first `n` contributions: a
/// contribution that is not positive, a buyer listed twice, or a total that
/// overflows.
pub open spec fn contributions_refusal(b: Seq<(Address, i128)>, n: int) -> Option<ContractError>
    decreases n,
{
    if n <= 0 {
        None
    } else {
        match contributions_refusal(b, n - 1) {
            Some(x) => Some(x),
            None => if b[n - 1].1 <= 0 {
                Some(ContractError::BuyerContributionMustBePositive)
            } else if listed_before(b, n - 1) {
                Some(ContractError::DuplicateBuyerInList)
            } else if !fits_i128(contributions_total(b, n)) {
                Some(ContractError::Overflow)
            } else {
                None
            },
        }
    }
}

/// Each buyer's contribution, keyed by buyer.
pub open spec fn shares_map(b: Seq<(Address, i128)>, n: int) -> Map<Address, i128>
    decreases n,
{
    if n <= 0 {
        Map::empty()
    } else {
        shares_map(b, n - 1).insert(b[n - 1].0, b[n - 1].1)
    }
}

/// The contributions pulled in, in the order the buyers are listed.
pub open spec fn contribution_pulls(token: Address, me: Address, b: Seq<(Address, i128)>, n: int) -> Seq<
    Transfer,
>
    decreases n,
{
    if n <= 0 {
        Seq::empty()
    } else {
        contribution_pulls(token, me, b, n - 1).push(pull(token, b[n - 1].0, me, b[n - 1].1))
    }
}

/// Creating an escrow funded by several buyers: each contribution is pulled
/// from its buyer's allowance, the first buyer is the escrow's buyer, the
/// seller holds the receipt and every buyer's share is recorded.
pub open spec fn spec_create_multi_buyer_escrow(
    pre: ContractView,
    buyers: Seq<(Address, i128)>,
    seller: Address,
    arbiter: Address,
    token: Address,
    deadline: u64,
    now: u64,
    external_allows: bool,
) -> StepWith<u32> {
    let n = buyers.len() as int;
    if pre.paused {
        Err(ContractError::ContractIsPaused)
    } else if !spec_token_allowed(pre, token, external_allows) {
        Err(ContractError::TokenNotAllowed)
    } else if n == 0 {
        Err(ContractError::AtLeastOneBuyerIsRequired)
    } else if deadline <= now {
        Err(ContractError::DeadlineMustBeFuture)
    } else if let Some(x) = contributions_refusal(buyers, n) {
        Err(x)
    } else if pre.escrow_counter == u32::MAX || pre.receipt_counter == u32::MAX {
        Err(ContractError::Overflow)
    } else {
        let id = pre.escrow_counter;
        let rid = pre.receipt_counter;
        let total = contributions_total(buyers, n) as i128;
        let e = new_escrow(
            id,
            buyers[0].0,
            basic_request(seller, arbiter, total, token, deadline, None, Seq::empty(), false, 0, 0),
            now,
        );
        let post = ContractView {
            escrows: pre.escrows.insert(id, e),
            escrow_counter: (id + 1) as u32,
            multi_buyers: pre.multi_buyers.insert(id, buyers.map_values(|p: (Address, i128)| p.0)),
            buyer_shares: pre.buyer_shares.insert(id, shares_map(buyers, n)),
            multi_buyer_approvals: pre.multi_buyer_approvals.insert(id, Seq::empty()),
            receipts: pre.receipts.insert(
                rid,
                EscrowReceipt { receipt_id: rid, escrow_id: id, holder: seller },
            ),
            receipt_of: pre.receipt_of.insert(id, rid),
            receipt_counter: (rid + 1) as u32,
            ..pre
        };
        Ok((post, contribution_pulls(token, pre.me, buyers, n), id))
    }
}

proof fn lemma_refusal_stays(b: Seq<(Address, i128)>, i: int, n: int)
    requires
        0 <= i <= n,
        contributions_refusal(b, i) is Some,
    ensures
        contributions_refusal(b, n) == contributions_refusal(b, i),
    decreases n - i,
{
    if i < n {
        lemma_refusal_stays(b, i, n - 1);
    }
}

impl AhjoorEscrowContract {
    /// Creates an escrow funded jointly by `buyers`, each with its
    /// contribution, pulled from the allowance it granted the contract.
    /// `external_allows` is the external token whitelist's answer for `token`,
    /// when one is configured.
    #[verifier::loop_isolation(false)]
    pub fn create_multi_buyer_escrow(
        &mut self,
        buyers: Vec<(Address, i128)>,
        seller: Address,
        arbiter: Address,
        token: Address,
        deadline: u64,
        now: u64,
        external_allows: bool,
    ) -> (r: Result<(u32, Vec<Transfer>), ContractError>)
        ensures
            spec_create_multi_buyer_escrow(
                old(self)@,
                buyers@,
                seller,
                arbiter,
                token,
                deadline,
                now,
                external_allows,
            ) == outcome_with(r, final(self)@),
            r is Err ==> final(self)@ == old(self)@,
    {
        let ghost pre = self@;
        let ghost b = buyers@;
        if self.paused {
            return Err(ContractError::ContractIsPaused);
        }
        if !self.token_allowed(token, external_allows) {
            return Err(ContractError::TokenNotAllowed);
        }
        let n = buyers.len();
        if n == 0 {
            return Err(ContractError::AtLeastOneBuyerIsRequired);
        }
        if deadline <= now {
            return Err(ContractError::DeadlineMustBeFuture);
        }
        let mut list: Vec<Address> = Vec::new();
        let mut shares: HashMap<Address, i128> = HashMap::new();
        let mut pulls: Vec<Transfer> = Vec::new();
        let mut total: i128 = 0;
        let mut i: usize = 0;
        while i < n
            invariant
                0 <= i <= n,
                n == b.len(),
                b == buyers@,
                contributions_refusal(b, i as int) is None,
                total == contributions_total(b, i as int),
                list@ == b.subrange(0, i as int).map_values(|p: (Address, i128)| p.0),
                shares@ == shares_map(b, i as int),
                pulls@ == contribution_pulls(token, self.me, b, i as int),
                self@ == pre,
            decreases n - i,
        {
            let (buyer, amount) = buyers[i];
            if amount <= 0 {
                proof {
                    lemma_refusal_stays(b, i as int + 1, n as int);
                }
                return Err(ContractError::BuyerContributionMustBePositive);
            }
            let mut j: usize = 0;
            while j < i
                invariant
                    0 <= j <= i,
                    i < n,
                    forall|k: int| 0 <= k < j ==> b[k].0 != buyer,
                decreases i - j,
            {
                if buyers[j].0 == buyer {
                    assert(listed_before(b, i as int));
                    proof {
                        lemma_refusal_stays(b, i as int + 1, n as int);
                    }
                    return Err(ContractError::DuplicateBuyerInList);
                }
                j = j + 1;
            }
            assert(!listed_before(b, i as int));
            total = match total.checked_add(amount) {
                Some(t) => t,
                None => {
                    proof {
                        lemma_refusal_stays(b, i as int + 1, n as int);
                    }
                    return Err(ContractError::Overflow);
                },
            };
            list.push(buyer);
            shares.insert(buyer, amount);
            pulls.push(Transfer { token, from: buyer, to: self.me, amount, by_allowance: true });
            i = i + 1;
            assert(list@ =~= b.subrange(0, i as int).map_values(|p: (Address, i128)| p.0));
        }
        assert(b.subrange(0, n as int) =~= b);
        if self.escrow_counter == u32::MAX || self.receipt_counter == u32::MAX {
            return Err(ContractError::Overflow);
        }
        let id = self.escrow_counter;
        let rid = self.receipt_counter;
        let mut sellers: Vec<(Address, u32)> = Vec::new();
        sellers.push((seller, 10000));
        let e = Escrow {
            id,
            buyer: buyers[0].0,
            seller,
            arbiter,
            amount: total,
            original_amount: total,
            token,
            status: crate::model::EscrowStatus::Active,
            created_at: now,
            deadline,
            metadata_hash: None,
            sellers,
            extensions: crate::model::EscrowExtensions {
                auto_renew: false,
                renewal_count: 0,
                renewals_remaining: 0,
                dispute_timeout_seconds: None,
                buyer_inactivity_secs: 0,
                min_lock_until: None,
                release_base: None,
                release_quote: None,
                release_comparison: None,
                release_threshold_price: None,
                arbiter_fee_bps: None,
                dispute_default_winner: None,
                required_collateral_bps: 0,
                collateral_forfeit_bps: 0,
                collateral_deposit_deadline: 0,
                collateral_amount: 0,
                delivery_proof_hash: None,
                inspector: None,
                auto_renew_max_renewals: None,
                auto_renew_interval_ledgers: None,
                renewals_completed: 0,
            },
            top_up_history: Vec::new(),
            top_up_acknowledged: true,
        };
        self.put_escrow(id, e);
        self.escrow_counter = id + 1;
        self.multi_buyers.insert(id, list);
        self.buyer_shares.insert(id, shares);
        self.multi_buyer_approvals.insert(id, Vec::new());
        self.receipts.insert(rid, EscrowReceipt { receipt_id: rid, escrow_id: id, holder: seller });
        self.receipt_of.insert(id, rid);
        self.receipt_counter = rid + 1;
        proof {
            let (sp, st, sid) = spec_create_multi_buyer_escrow(
                pre,
                b,
                seller,
                arbiter,
                token,
                deadline,
                now,
                external_allows,
            )->Ok_0;
            assert(e@.sellers =~= seq![(seller, 10000u32)]);
            assert(self@.multi_buyers =~= sp.multi_buyers);
            assert(self@.buyer_shares =~= sp.buyer_shares);
            assert(self@.multi_buyer_approvals =~= sp.multi_buyer_approvals);
            assert(self@ =~= sp);
        }
        Ok((id, pulls))
    }
}

} // verus!
