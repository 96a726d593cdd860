//! Checks, arithmetic and payout rules shared by the contract's operations.

use crate::errors::ContractError;
use crate::model::{Address, Escrow, EscrowStatus, EscrowView, Transfer};
use crate::state::{AhjoorEscrowContract, ContractView};
use std::collections::HashMap;
use vstd::prelude::*;

verus! {

broadcast use vstd::std_specs::hash::group_hash_axioms;

/// Outcome of an operation: the next state and the token movements it asks for.
pub type Step = Result<(ContractView, Seq<Transfer>), ContractError>;

/// Outcome of an operation that also returns a value.
pub type StepWith<T> = Result<(ContractView, Seq<Transfer>, T), ContractError>;

/// The outcome that an executable result and final state amount to.
pub open spec fn outcome(r: Result<Vec<Transfer>, ContractError>, post: ContractView) -> Step {
    match r {
        Ok(ts) => Ok((post, ts@)),
        Err(e) => Err(e),
    }
}

/// The outcome of an operation that moves no tokens.
pub open spec fn outcome_unit(r: Result<(), ContractError>, post: ContractView) -> Step {
    match r {
        Ok(()) => Ok((post, Seq::empty())),
        Err(e) => Err(e),
    }
}

/// The outcome of an operation that also returns a value.
pub open spec fn outcome_with<T>(r: Result<(T, Vec<Transfer>), ContractError>, post: ContractView) -> StepWith<T> {
    match r {
        Ok((v, ts)) => Ok((post, ts@, v)),
        Err(e) => Err(e),
    }
}

pub open spec fn fits_i128(x: int) -> bool {
    i128::MIN <= x <= i128::MAX
}

/// Integer division rounding toward zero, for a positive divisor.
pub open spec fn tdiv(a: int, b: int) -> int
    recommends
        b > 0,
{
    if a >= 0 {
        a / b
    } else {
        -((-a) / b)
    }
}

pub open spec fn xfer(token: Address, from: Address, to: Address, amount: i128) -> Transfer {
    Transfer { token, from, to, amount, by_allowance: false }
}

/// A movement in which the contract spends an allowance granted by `from`.
pub open spec fn pull(token: Address, from: Address, to: Address, amount: i128) -> Transfer {
    Transfer { token, from, to, amount, by_allowance: true }
}

pub open spec fn spec_is_open(s: EscrowStatus) -> bool {
    s == EscrowStatus::Active || s == EscrowStatus::PartiallyReleased || s
        == EscrowStatus::InspectionPassed
}

pub open spec fn spec_is_terminal(s: EscrowStatus) -> bool {
    s == EscrowStatus::Released || s == EscrowStatus::Resolved || s == EscrowStatus::Refunded
}

/// The refusal, if any, of an operation that the admin alone may perform.
pub open spec fn admin_refusal(pre: ContractView, admin: Address) -> Option<ContractError> {
    match pre.admin {
        None => Some(ContractError::AdminNotSet),
        Some(a) => if a != admin {
            Some(ContractError::OnlyAdminCanResumeContract)
        } else {
            None
        },
    }
}

/// The refusal, if any, of an admin operation that names its own message.
pub open spec fn named_admin_refusal(
    pre: ContractView,
    admin: Address,
    not_admin: ContractError,
) -> Option<ContractError> {
    match pre.admin {
        None => Some(ContractError::NotInitialized),
        Some(a) => if a != admin {
            Some(not_admin)
        } else {
            None
        },
    }
}

/// Whether a token may be escrowed: the external whitelist decides when one is
/// configured (`external_allows` is its answer), else the internal allowlist
/// once it has been activated.
pub open spec fn spec_token_allowed(pre: ContractView, token: Address, external_allows: bool) -> bool {
    if pre.token_whitelist_contract is Some {
        external_allows
    } else if pre.allowlist_activated {
        pre.allowed_tokens.contains_key(token) && pre.allowed_tokens[token]
    } else {
        true
    }
}

/// Holder of the receipt minted for an escrow, if one is outstanding.
pub open spec fn spec_receipt_holder(pre: ContractView, id: u32) -> Option<Address> {
    if pre.receipt_of.contains_key(id) && pre.receipts.contains_key(pre.receipt_of[id]) {
        Some(pre.receipts[pre.receipt_of[id]].holder)
    } else {
        None
    }
}

/// The state after the escrow's receipt, if any, is burnt.
pub open spec fn spec_burn_receipt(pre: ContractView, id: u32) -> ContractView {
    if pre.receipt_of.contains_key(id) && pre.receipts.contains_key(pre.receipt_of[id]) {
        ContractView {
            receipts: pre.receipts.remove(pre.receipt_of[id]),
            receipt_of: pre.receipt_of.remove(id),
            ..pre
        }
    } else {
        pre
    }
}

/// The share delegations that the sellers of escrow `id` have made.
pub open spec fn delegates_of(pre: ContractView, id: u32) -> Map<Address, Address> {
    if pre.share_delegates.contains_key(id) {
        pre.share_delegates[id]
    } else {
        Map::empty()
    }
}

/// Where a seller's share goes: its delegate when it has named one.
pub open spec fn share_recipient(delegates: Map<Address, Address>, seller: Address) -> Address {
    if delegates.contains_key(seller) {
        delegates[seller]
    } else {
        seller
    }
}

/// Sum of the shares `total * bps / 10 000` of the sellers at positions `1..n`.
pub open spec fn other_sellers_total(sellers: Seq<(Address, u32)>, total: i128, n: int) -> int
    decreases n,
{
    if n <= 1 {
        0
    } else {
        other_sellers_total(sellers, total, n - 1) + tdiv(total * sellers[n - 1].1, 10000)
    }
}

/// Whether, paying the sellers at positions `1..n` in order, every product
/// `total * bps` and every running total of shares fits in an i128.
pub open spec fn seller_steps_fit(sellers: Seq<(Address, u32)>, total: i128, n: int) -> bool
    decreases n,
{
    if n <= 1 {
        true
    } else {
        &&& seller_steps_fit(sellers, total, n - 1)
        &&& fits_i128(total * sellers[n - 1].1)
        &&& fits_i128(other_sellers_total(sellers, total, n))
    }
}

/// Transfers paying the shares of the sellers at positions `1..n`.
pub open spec fn other_seller_transfers(
    me: Address,
    delegates: Map<Address, Address>,
    e: EscrowView,
    total: i128,
    n: int,
) -> Seq<Transfer>
    decreases n,
{
    if n <= 1 {
        Seq::empty()
    } else {
        let prev = other_seller_transfers(me, delegates, e, total, n - 1);
        let share = tdiv(total * e.sellers[n - 1].1, 10000);
        if share > 0 {
            prev.push(
                xfer(e.token, me, share_recipient(delegates, e.sellers[n - 1].0), share as i128),
            )
        } else {
            prev
        }
    }
}

/// Transfers that pay `total` out of escrow `id` to its sellers: all of it to
/// the receipt holder (else the seller) when there is one seller, else each
/// further seller its bps share rounded toward zero and the first seller the
/// rest. `None` when an intermediate amount overflows.
pub open spec fn seller_payout(pre: ContractView, id: u32, e: EscrowView, total: i128) -> Option<
    Seq<Transfer>,
> {
    payout_to_sellers(pre.me, spec_receipt_holder(pre, id), delegates_of(pre, id), e, total)
}

/// [`seller_payout`] in terms of what it reads: the contract's address, the
/// receipt holder and the sellers' delegations.
pub open spec fn payout_to_sellers(
    me: Address,
    holder: Option<Address>,
    delegates: Map<Address, Address>,
    e: EscrowView,
    total: i128,
) -> Option<Seq<Transfer>> {
    if e.sellers.len() <= 1 {
        let to = match holder {
            Some(h) => h,
            None => e.seller,
        };
        Some(seq![xfer(e.token, me, to, total)])
    } else if !seller_steps_fit(e.sellers, total, e.sellers.len() as int) || !fits_i128(
        total - other_sellers_total(e.sellers, total, e.sellers.len() as int),
    ) {
        None
    } else {
        let rest = total - other_sellers_total(e.sellers, total, e.sellers.len() as int);
        let others = other_seller_transfers(me, delegates, e, total, e.sellers.len() as int);
        if rest > 0 {
            Some(
                others.push(
                    xfer(e.token, me, share_recipient(delegates, e.sellers[0].0), rest as i128),
                ),
            )
        } else {
            Some(others)
        }
    }
}

/// Shares of the listed buyers at positions `0..n`, an unlisted buyer counting 0.
pub open spec fn share_of(shares: Map<Address, i128>, b: Address) -> int {
    if shares.contains_key(b) {
        shares[b] as int
    } else {
        0
    }
}

pub open spec fn shares_total(buyers: Seq<Address>, shares: Map<Address, i128>, n: int) -> int
    decreases n,
{
    if n <= 0 {
        0
    } else {
        shares_total(buyers, shares, n - 1) + share_of(shares, buyers[n - 1])
    }
}

pub open spec fn shares_prefix_fit(buyers: Seq<Address>, shares: Map<Address, i128>, n: int) -> bool
    decreases n,
{
    if n <= 0 {
        true
    } else {
        shares_prefix_fit(buyers, shares, n - 1) && fits_i128(shares_total(buyers, shares, n))
    }
}

pub open spec fn other_buyers_total(
    buyers: Seq<Address>,
    shares: Map<Address, i128>,
    total: i128,
    sum: int,
    n: int,
) -> int
    decreases n,
{
    if n <= 1 {
        0
    } else {
        other_buyers_total(buyers, shares, total, sum, n - 1) + tdiv(
            total * share_of(shares, buyers[n - 1]),
            sum,
        )
    }
}

/// Whether, paying the buyers at positions `1..n` in order, every product
/// `total * share` and every running total of payouts fits in an i128.
pub open spec fn buyer_steps_fit(
    buyers: Seq<Address>,
    shares: Map<Address, i128>,
    total: i128,
    sum: int,
    n: int,
) -> bool
    decreases n,
{
    if n <= 1 {
        true
    } else {
        &&& buyer_steps_fit(buyers, shares, total, sum, n - 1)
        &&& fits_i128(total * share_of(shares, buyers[n - 1]))
        &&& fits_i128(other_buyers_total(buyers, shares, total, sum, n))
    }
}

pub open spec fn other_buyer_transfers(
    token: Address,
    me: Address,
    buyers: Seq<Address>,
    shares: Map<Address, i128>,
    total: i128,
    sum: int,
    n: int,
) -> Seq<Transfer>
    decreases n,
{
    if n <= 1 {
        Seq::empty()
    } else {
        let prev = other_buyer_transfers(token, me, buyers, shares, total, sum, n - 1);
        let p = tdiv(total * share_of(shares, buyers[n - 1]), sum);
        if p > 0 {
            prev.push(xfer(token, me, buyers[n - 1], p as i128))
        } else {
            prev
        }
    }
}

/// Transfers that refund `total` out of escrow `id` to its buyers: all of it to
/// the buyer unless the escrow was funded by several buyers, in which case each
/// further buyer gets its pro-rata share rounded toward zero and the first
/// buyer the rest. `None` when an intermediate amount overflows.
pub open spec fn buyer_payout(pre: ContractView, id: u32, e: EscrowView, total: i128) -> Option<
    Seq<Transfer>,
> {
    if !pre.multi_buyers.contains_key(id) || !pre.buyer_shares.contains_key(id) {
        Some(seq![xfer(e.token, pre.me, e.buyer, total)])
    } else {
        let buyers = pre.multi_buyers[id];
        let shares = pre.buyer_shares[id];
        if buyers.len() == 0 || total <= 0 {
            Some(Seq::empty())
        } else if !shares_prefix_fit(buyers, shares, buyers.len() as int) {
            None
        } else {
            let sum = shares_total(buyers, shares, buyers.len() as int);
            if sum <= 0 {
                Some(seq![xfer(e.token, pre.me, e.buyer, total)])
            } else if !buyer_steps_fit(buyers, shares, total, sum, buyers.len() as int) || !fits_i128(
                total - other_buyers_total(buyers, shares, total, sum, buyers.len() as int),
            ) {
                None
            } else {
                let rest = total - other_buyers_total(buyers, shares, total, sum, buyers.len() as int);
                let others = other_buyer_transfers(
                    e.token,
                    pre.me,
                    buyers,
                    shares,
                    total,
                    sum,
                    buyers.len() as int,
                );
                if rest > 0 {
                    Some(others.push(xfer(e.token, pre.me, buyers[0], rest as i128)))
                } else {
                    Some(others)
                }
            }
        }
    }
}

/// A map seen through `f` has the same keys, and each value seen through `f`.
pub proof fn lemma_map_values_lookup<K, V, W>(m: Map<K, V>, f: spec_fn(V) -> W)
    ensures
        forall|k: K| #[trigger] m.map_values(f).contains_key(k) == m.contains_key(k),
        forall|k: K| m.contains_key(k) ==> #[trigger] m.map_values(f)[k] == f(m[k]),
{
}

/// A copy of a list of plain values.
pub fn copy_vec<T: Copy>(v: &Vec<T>) -> (r: Vec<T>)
    ensures
        r@ == v@,
{
    let mut r = Vec::new();
    let mut i: usize = 0;
    while i < v.len()
        invariant
            0 <= i <= v@.len(),
            r@ == v@.subrange(0, i as int),
        decreases v@.len() - i,
    {
        r.push(v[i]);
        i = i + 1;
        assert(r@ =~= v@.subrange(0, i as int));
    }
    assert(v@.subrange(0, v@.len() as int) =~= v@);
    r
}

/// A copy of the list stored under `k`, if any.
pub fn get_vec<T: Copy>(m: &HashMap<u32, Vec<T>>, k: u32) -> (r: Option<Vec<T>>)
    ensures
        match r {
            Some(v) => m@.contains_key(k) && v@ == m@[k]@,
            None => !m@.contains_key(k),
        },
{
    match m.get(&k) {
        Some(v) => Some(copy_vec(v)),
        None => None,
    }
}

/// A map in which one key was given a new value, seen through `f`.
pub proof fn lemma_map_values_insert<K, V, W>(m: Map<K, V>, k: K, v: V, f: spec_fn(V) -> W)
    ensures
        m.insert(k, v).map_values(f) == m.map_values(f).insert(k, f(v)),
{
    assert(m.insert(k, v).map_values(f) =~= m.map_values(f).insert(k, f(v)));
}

/// A map from which one key was removed, seen through `f`.
pub proof fn lemma_map_values_remove<K, V, W>(m: Map<K, V>, k: K, f: spec_fn(V) -> W)
    ensures
        m.remove(k).map_values(f) == m.map_values(f).remove(k),
{
    assert(m.remove(k).map_values(f) =~= m.map_values(f).remove(k));
}

impl AhjoorEscrowContract {
    /// Whether an escrow in this status may still be released, disputed or amended.
    pub fn is_open_escrow_status(status: EscrowStatus) -> (r: bool)
        ensures
            r == spec_is_open(status),
    {
        match status {
            EscrowStatus::Active | EscrowStatus::PartiallyReleased | EscrowStatus::InspectionPassed => true,
            _ => false,
        }
    }

    /// Whether an escrow in this status is settled for good.
    pub fn is_terminal_escrow_status(status: EscrowStatus) -> (r: bool)
        ensures
            r == spec_is_terminal(status),
    {
        match status {
            EscrowStatus::Released | EscrowStatus::Resolved | EscrowStatus::Refunded => true,
            _ => false,
        }
    }

    pub(crate) fn require_admin(&self, admin: Address) -> (r: Result<(), ContractError>)
        ensures
            match r {
                Ok(()) => admin_refusal(self@, admin) is None,
                Err(e) => admin_refusal(self@, admin) == Some(e),
            },
    {
        match self.admin {
            None => Err(ContractError::AdminNotSet),
            Some(a) => if a != admin {
                Err(ContractError::OnlyAdminCanResumeContract)
            } else {
                Ok(())
            },
        }
    }

    pub(crate) fn check_named_admin(&self, admin: Address, not_admin: ContractError) -> (r: Result<
        (),
        ContractError,
    >)
        ensures
            match r {
                Ok(()) => named_admin_refusal(self@, admin, not_admin) is None,
                Err(e) => named_admin_refusal(self@, admin, not_admin) == Some(e),
            },
    {
        match self.admin {
            None => Err(ContractError::NotInitialized),
            Some(a) => if a != admin {
                Err(not_admin)
            } else {
                Ok(())
            },
        }
    }

    pub(crate) fn token_allowed(&self, token: Address, external_allows: bool) -> (r: bool)
        ensures
            r == spec_token_allowed(self@, token, external_allows),
    {
        if self.token_whitelist_contract.is_some() {
            external_allows
        } else if self.allowlist_activated {
            match self.allowed_tokens.get(&token) {
                Some(b) => *b,
                None => false,
            }
        } else {
            true
        }
    }

    pub(crate) fn get_receipt_holder(&self, id: u32) -> (r: Option<Address>)
        ensures
            r == spec_receipt_holder(self@, id),
    {
        match self.receipt_of.get(&id) {
            Some(rid) => match self.receipts.get(rid) {
                Some(rec) => Some(rec.holder),
                None => None,
            },
            None => None,
        }
    }

    pub(crate) fn burn_receipt_if_exists(&mut self, id: u32)
        ensures
            final(self)@ == spec_burn_receipt(old(self)@, id),
    {
        let rid = match self.receipt_of.get(&id) {
            Some(rid) => *rid,
            None => return ,
        };
        if self.receipts.contains_key(&rid) {
            self.receipts.remove(&rid);
            self.receipt_of.remove(&id);
            assert(self@ =~= spec_burn_receipt(old(self)@, id));
        }
    }

    fn share_in(shares: &HashMap<Address, i128>, b: Address) -> (r: i128)
        ensures
            r as int == share_of(shares@, b),
    {
        match shares.get(&b) {
            Some(v) => *v,
            None => 0,
        }
    }

    /// Transfers refunding `total` of escrow `e` (stored under `id`) to its buyers.
    pub(crate) fn transfer_to_buyers(&self, id: u32, e: &Escrow, total: i128) -> (r: Option<Vec<Transfer>>)
        ensures
            match (r, buyer_payout(self@, id, e@, total)) {
                (Some(v), Some(s)) => v@ == s,
                (None, None) => true,
                _ => false,
            },
    {
        let mut out: Vec<Transfer> = Vec::new();
        let buyers = match self.multi_buyers.get(&id) {
            Some(b) => b,
            None => {
                out.push(Transfer { token: e.token, from: self.me, to: e.buyer, amount: total, by_allowance: false });
                assert(out@ =~= seq![xfer(e.token, self.me, e.buyer, total)]);
                return Some(out);
            },
        };
        let shares = match self.buyer_shares.get(&id) {
            Some(s) => s,
            None => {
                out.push(Transfer { token: e.token, from: self.me, to: e.buyer, amount: total, by_allowance: false });
                assert(out@ =~= seq![xfer(e.token, self.me, e.buyer, total)]);
                return Some(out);
            },
        };
        let n = buyers.len();
        if n == 0 || total <= 0 {
            assert(out@ =~= Seq::<Transfer>::empty());
            return Some(out);
        }
        let mut sum: i128 = 0;
        let mut k: usize = 0;
        while k < n
            invariant
                0 <= k <= n,
                n == buyers@.len(),
                shares_prefix_fit(buyers@, shares@, k as int),
                sum == shares_total(buyers@, shares@, k as int),
                self@.multi_buyers.contains_key(id),
                self@.buyer_shares.contains_key(id),
                self@.multi_buyers[id] == buyers@,
                self@.buyer_shares[id] == shares@,
                total > 0,
                n > 0,
            decreases n - k,
        {
            let sh = Self::share_in(shares, buyers[k]);
            sum = match sum.checked_add(sh) {
                Some(v) => v,
                None => {
                    proof {
                        lemma_shares_prefix(buyers@, shares@, k as int + 1, n as int);
                    }
                    return None;
                },
            };
            k = k + 1;
        }
        if sum <= 0 {
            out.push(Transfer { token: e.token, from: self.me, to: e.buyer, amount: total, by_allowance: false });
            assert(out@ =~= seq![xfer(e.token, self.me, e.buyer, total)]);
            return Some(out);
        }
        let mut distributed: i128 = 0;
        let mut i: usize = 1;
        while i < n
            invariant
                1 <= i <= n,
                n == buyers@.len(),
                sum > 0,
                buyer_steps_fit(buyers@, shares@, total, sum as int, i as int),
                shares_prefix_fit(buyers@, shares@, n as int),
                sum == shares_total(buyers@, shares@, n as int),
                self@.multi_buyers.contains_key(id),
                self@.buyer_shares.contains_key(id),
                self@.multi_buyers[id] == buyers@,
                self@.buyer_shares[id] == shares@,
                total > 0,
                distributed == other_buyers_total(buyers@, shares@, total, sum as int, i as int),
                out@ == other_buyer_transfers(e.token, self.me, buyers@, shares@, total, sum as int, i as int),
            decreases n - i,
        {
            let sh = Self::share_in(shares, buyers[i]);
            let prod = match total.checked_mul(sh) {
                Some(p) => p,
                None => {
                    proof {
                        lemma_buyer_steps_prefix(buyers@, shares@, total, sum as int, i as int + 1, n as int);
                    }
                    return None;
                },
            };
            let p = prod / sum;
            if p > 0 {
                out.push(Transfer { token: e.token, from: self.me, to: buyers[i], amount: p, by_allowance: false });
            }
            distributed = match distributed.checked_add(p) {
                Some(d) => d,
                None => {
                    proof {
                        lemma_buyer_steps_prefix(buyers@, shares@, total, sum as int, i as int + 1, n as int);
                    }
                    return None;
                },
            };
            i = i + 1;
        }
        let rest = match total.checked_sub(distributed) {
            Some(r) => r,
            None => return None,
        };
        if rest > 0 {
            out.push(Transfer { token: e.token, from: self.me, to: buyers[0], amount: rest, by_allowance: false });
        }
        Some(out)
    }

    fn share_recipient(&self, id: u32, seller: Address) -> (r: Address)
        ensures
            r == share_recipient(delegates_of(self@, id), seller),
    {
        match self.share_delegates.get(&id) {
            Some(m) => match m.get(&seller) {
                Some(d) => *d,
                None => seller,
            },
            None => seller,
        }
    }

    /// Transfers paying `total` of escrow `e` (stored under `id`) to its sellers.
    pub(crate) fn transfer_to_sellers(&self, id: u32, e: &Escrow, total: i128) -> (r: Option<Vec<Transfer>>)
        ensures
            match (r, seller_payout(self@, id, e@, total)) {
                (Some(v), Some(s)) => v@ == s,
                (None, None) => true,
                _ => false,
            },
    {
        if e.sellers.len() <= 1 {
            let to = match self.get_receipt_holder(id) {
                Some(h) => h,
                None => e.seller,
            };
            let mut v = Vec::new();
            v.push(Transfer { token: e.token, from: self.me, to, amount: total, by_allowance: false });
            assert(v@ =~= seq![xfer(e.token, self.me, to, total)]);
            return Some(v);
        }
        let n = e.sellers.len();
        let mut out: Vec<Transfer> = Vec::new();
        let mut distributed: i128 = 0;
        let mut i: usize = 1;
        while i < n
            invariant
                1 <= i <= n,
                n == e.sellers@.len(),
                n > 1,
                seller_steps_fit(e.sellers@, total, i as int),
                distributed == other_sellers_total(e.sellers@, total, i as int),
                out@ == other_seller_transfers(self@.me, delegates_of(self@, id), e@, total, i as int),
            decreases n - i,
        {
            let (addr, bps) = e.sellers[i];
            let prod = match total.checked_mul(bps as i128) {
                Some(p) => p,
                None => {
                    proof {
                        lemma_seller_steps_prefix(e.sellers@, total, i as int + 1, n as int);
                    }
                    return None;
                },
            };
            let share = prod / 10000;
            if share > 0 {
                let to = self.share_recipient(id, addr);
                out.push(Transfer { token: e.token, from: self.me, to, amount: share, by_allowance: false });
            }
            let d = match distributed.checked_add(share) {
                Some(d) => d,
                None => {
                    proof {
                        lemma_seller_steps_prefix(e.sellers@, total, i as int + 1, n as int);
                    }
                    return None;
                },
            };
            distributed = d;
            i = i + 1;
        }
        let rest = match total.checked_sub(distributed) {
            Some(r) => r,
            None => return None,
        };
        if rest > 0 {
            let to = self.share_recipient(id, e.sellers[0].0);
            out.push(Transfer { token: e.token, from: self.me, to, amount: rest, by_allowance: false });
        }
        Some(out)
    }
}

proof fn lemma_buyer_steps_prefix(
    b: Seq<Address>,
    sh: Map<Address, i128>,
    total: i128,
    sum: int,
    i: int,
    n: int,
)
    requires
        1 <= i <= n,
        !buyer_steps_fit(b, sh, total, sum, i),
    ensures
        !buyer_steps_fit(b, sh, total, sum, n),
    decreases n - i,
{
    if i < n {
        lemma_buyer_steps_prefix(b, sh, total, sum, i + 1, n);
    }
}

proof fn lemma_shares_prefix(b: Seq<Address>, sh: Map<Address, i128>, i: int, n: int)
    requires
        0 <= i <= n,
        !shares_prefix_fit(b, sh, i),
    ensures
        !shares_prefix_fit(b, sh, n),
    decreases n - i,
{
    if i < n {
        lemma_shares_prefix(b, sh, i + 1, n);
    }
}

proof fn lemma_seller_steps_prefix(s: Seq<(Address, u32)>, total: i128, i: int, n: int)
    requires
        1 <= i <= n,
        !seller_steps_fit(s, total, i),
    ensures
        !seller_steps_fit(s, total, n),
    decreases n - i,
{
    if i < n {
        lemma_seller_steps_prefix(s, total, i + 1, n);
    }
}

} // verus!
