//! Creating escrows.

use crate::common::{
    fits_i128, outcome_with, spec_token_allowed, xfer, StepWith,
};
use crate::errors::ContractError;
use crate::model::{
    Address, AutoRenewConfig, CreateRequestView, Escrow, EscrowBatchConfig, EscrowCreateRequest,
    EscrowExtensions, EscrowReceipt, EscrowStatus, EscrowView, Hash32, TopUpEntry, Transfer,
};
use crate::state::{
    AhjoorEscrowContract, ContractView, MAX_ARBITER_FEE_BPS, MAX_BATCH_ESCROWS,
    ORACLE_COMPARISON_GREATER_OR_EQUAL, ORACLE_COMPARISON_LESS_OR_EQUAL,
};
use vstd::prelude::*;

verus! {

broadcast use vstd::std_specs::hash::group_hash_axioms;

/// Sum of the bps of the first `n` sellers.
pub open spec fn bps_total(s: Seq<(Address, u32)>, n: int) -> int
    decreases n,
{
    if n <= 0 {
        0
    } else {
        bps_total(s, n - 1) + s[n - 1].1
    }
}

/// Whether every running sum of the first `n` sellers' bps fits in a u32.
pub open spec fn bps_running_fit(s: Seq<(Address, u32)>, n: int) -> bool
    decreases n,
{
    if n <= 0 {
        true
    } else {
        bps_running_fit(s, n - 1) && bps_total(s, n) <= u32::MAX
    }
}

/// The refusal, if any, of creating an escrow for `r`, in the order the checks are made.
pub open spec fn create_refusal(pre: ContractView, r: CreateRequestView, now: u64, external_allows: bool) -> Option<
    ContractError,
> {
    let any_cond = r.release_base is Some || r.release_quote is Some || r.release_comparison is Some
        || r.release_threshold_price is Some;
    let full_cond = r.release_base is Some && r.release_quote is Some && r.release_comparison is Some
        && r.release_threshold_price is Some;
    if r.amount <= 0 {
        Some(ContractError::EscrowAmountMustBePositive)
    } else if r.deadline <= now {
        Some(ContractError::DeadlineMustBeFuture)
    } else if r.min_lock_until matches Some(l) && r.deadline <= l {
        Some(ContractError::DeadlineMustBeAfterMinLockUntil)
    } else if r.arbiter_fee_bps matches Some(f) && f > MAX_ARBITER_FEE_BPS {
        Some(ContractError::ArbiterFeeExceedsMaximum1000Bps)
    } else if any_cond && !full_cond {
        Some(ContractError::IncompleteReleaseCondition)
    } else if r.release_threshold_price matches Some(t) && t <= 0 {
        Some(ContractError::ReleaseConditionThresholdMustBePositive)
    } else if r.release_comparison matches Some(c) && c != ORACLE_COMPARISON_LESS_OR_EQUAL && c
        != ORACLE_COMPARISON_GREATER_OR_EQUAL {
        Some(ContractError::InvalidReleaseComparison)
    } else if !spec_token_allowed(pre, r.token, external_allows) {
        Some(ContractError::TokenNotAllowed)
    } else if r.sellers.len() > 5 {
        Some(ContractError::Maximum5SellersAllowed)
    } else if r.sellers.len() > 0 && !bps_running_fit(r.sellers, r.sellers.len() as int) {
        Some(ContractError::Overflow)
    } else if r.sellers.len() > 0 && bps_total(r.sellers, r.sellers.len() as int) != 10000 {
        Some(ContractError::SellerAllocationsMustSumTo10000Bps)
    } else if pre.escrow_counter == u32::MAX || pre.receipt_counter == u32::MAX {
        Some(ContractError::Overflow)
    } else {
        None
    }
}

/// The sellers an escrow ends up with: the given split, else the one seller with 10 000 bps.
pub open spec fn resolved_sellers(r: CreateRequestView) -> Seq<(Address, u32)> {
    if r.sellers.len() == 0 {
        seq![(r.seller, 10000u32)]
    } else {
        r.sellers
    }
}

/// The escrow record created for request `r`.
pub open spec fn new_escrow(id: u32, buyer: Address, r: CreateRequestView, now: u64) -> EscrowView {
    EscrowView {
        id,
        buyer,
        seller: resolved_sellers(r)[0].0,
        arbiter: r.arbiter,
        amount: r.amount,
        original_amount: r.amount,
        token: r.token,
        status: EscrowStatus::Active,
        created_at: now,
        deadline: r.deadline,
        metadata_hash: r.metadata_hash,
        sellers: resolved_sellers(r),
        extensions: EscrowExtensions {
            auto_renew: r.auto_renew,
            renewal_count: r.renewal_count,
            renewals_remaining: r.renewal_count,
            dispute_timeout_seconds: None,
            buyer_inactivity_secs: r.buyer_inactivity_secs,
            min_lock_until: r.min_lock_until,
            release_base: r.release_base,
            release_quote: r.release_quote,
            release_comparison: r.release_comparison,
            release_threshold_price: r.release_threshold_price,
            arbiter_fee_bps: r.arbiter_fee_bps,
            dispute_default_winner: r.dispute_default_winner,
            required_collateral_bps: 0,
            collateral_forfeit_bps: 0,
            collateral_deposit_deadline: 0,
            collateral_amount: 0,
            delivery_proof_hash: None,
            inspector: None,
            auto_renew_max_renewals: r.auto_renew_max_renewals,
            auto_renew_interval_ledgers: r.auto_renew_interval_ledgers,
            renewals_completed: 0,
        },
        top_up_history: Seq::empty(),
        top_up_acknowledged: true,
    }
}

/// Creating an escrow for `r`, funded by `buyer`: the escrow takes the next
/// escrow id, and a receipt naming the primary seller takes the next receipt id.
pub open spec fn spec_create_core(
    pre: ContractView,
    buyer: Address,
    r: CreateRequestView,
    now: u64,
    external_allows: bool,
) -> StepWith<u32> {
    match create_refusal(pre, r, now, external_allows) {
        Some(e) => Err(e),
        None => {
            let id = pre.escrow_counter;
            let rid = pre.receipt_counter;
            let e = new_escrow(id, buyer, r, now);
            let post = ContractView {
                escrows: pre.escrows.insert(id, e),
                escrow_counter: (id + 1) as u32,
                last_buyer_action: if r.buyer_inactivity_secs > 0 {
                    pre.last_buyer_action.insert(id, now)
                } else {
                    pre.last_buyer_action
                },
                metadata: match r.metadata_hash {
                    Some(h) => pre.metadata.insert(id, (h, now)),
                    None => pre.metadata,
                },
                receipts: pre.receipts.insert(
                    rid,
                    EscrowReceipt { receipt_id: rid, escrow_id: id, holder: e.seller },
                ),
                receipt_of: pre.receipt_of.insert(id, rid),
                receipt_counter: (rid + 1) as u32,
                ..pre
            };
            Ok((post, seq![xfer(r.token, buyer, pre.me, r.amount)], id))
        },
    }
}

/// The refusal-checked creation that public entry points perform: the
/// contract must not be paused.
pub open spec fn spec_create_unpaused(
    pre: ContractView,
    buyer: Address,
    r: CreateRequestView,
    now: u64,
    external_allows: bool,
) -> StepWith<u32> {
    if pre.paused {
        Err(ContractError::ContractIsPaused)
    } else {
        spec_create_core(pre, buyer, r, now, external_allows)
    }
}

/// A request with only the basic terms set.
pub open spec fn basic_request(
    seller: Address,
    arbiter: Address,
    amount: i128,
    token: Address,
    deadline: u64,
    metadata_hash: Option<Hash32>,
    sellers: Seq<(Address, u32)>,
    auto_renew: bool,
    renewal_count: u32,
    buyer_inactivity_secs: u64,
) -> CreateRequestView {
    CreateRequestView {
        seller,
        arbiter,
        amount,
        token,
        deadline,
        metadata_hash,
        sellers,
        auto_renew,
        renewal_count,
        buyer_inactivity_secs,
        min_lock_until: None,
        release_base: None,
        release_quote: None,
        release_comparison: None,
        release_threshold_price: None,
        arbiter_fee_bps: None,
        dispute_default_winner: None,
        auto_renew_max_renewals: None,
        auto_renew_interval_ledgers: None,
    }
}

/// Running batch creation over `cfgs[0..n]`: the state and transfers so far,
/// and the ids created in order.
pub open spec fn spec_batch_prefix(
    pre: ContractView,
    buyer: Address,
    cfgs: Seq<EscrowBatchConfig>,
    now: u64,
    external_allows: bool,
    n: int,
) -> StepWith<Seq<u32>>
    decreases n,
{
    if n <= 0 {
        Ok((pre, Seq::empty(), Seq::empty()))
    } else {
        match spec_batch_prefix(pre, buyer, cfgs, now, external_allows, n - 1) {
            Err(e) => Err(e),
            Ok((mid, ts, ids)) => {
                let c = cfgs[n - 1];
                match spec_create_core(
                    mid,
                    buyer,
                    basic_request(
                        c.seller,
                        c.arbiter,
                        c.amount,
                        c.token,
                        c.deadline,
                        c.metadata_hash,
                        c.sellers@,
                        c.auto_renew,
                        c.renewal_count,
                        0,
                    ),
                    now,
                    external_allows,
                ) {
                    Err(e) => Err(e),
                    Ok((post, ts2, id)) => Ok((post, ts + ts2, ids.push(id))),
                }
            },
        }
    }
}

/// Creating up to ten escrows at once; all of them or none.
pub open spec fn spec_create_batch(
    pre: ContractView,
    buyer: Address,
    cfgs: Seq<EscrowBatchConfig>,
    now: u64,
    external_allows: bool,
) -> StepWith<Seq<u32>> {
    if pre.paused {
        Err(ContractError::ContractIsPaused)
    } else if cfgs.len() == 0 {
        Err(ContractError::BatchMustContainAtLeastOneEscrowConfig)
    } else if cfgs.len() > MAX_BATCH_ESCROWS {
        Err(ContractError::BatchSizeExceedsMaximum10Escrows)
    } else {
        spec_batch_prefix(pre, buyer, cfgs, now, external_allows, cfgs.len() as int)
    }
}

impl AhjoorEscrowContract {
    /// Creates an escrow for `req`, funded by `buyer`, without the pause check.
    #[verifier::loop_isolation(false)]
    pub(crate) fn create_escrow_core(
        &mut self,
        buyer: Address,
        req: EscrowCreateRequest,
        now: u64,
        external_allows: bool,
    ) -> (r: Result<(u32, Vec<Transfer>), ContractError>)
        ensures
            spec_create_core(old(self)@, buyer, req@, now, external_allows) == outcome_with(
                r,
                final(self)@,
            ),
            r is Err ==> final(self)@ == old(self)@,
    {
        let ghost rv = req@;
        if req.amount <= 0 {
            return Err(ContractError::EscrowAmountMustBePositive);
        }
        if req.deadline <= now {
            return Err(ContractError::DeadlineMustBeFuture);
        }
        if let Some(l) = req.min_lock_until {
            if req.deadline <= l {
                return Err(ContractError::DeadlineMustBeAfterMinLockUntil);
            }
        }
        if let Some(f) = req.arbiter_fee_bps {
            if f > MAX_ARBITER_FEE_BPS {
                return Err(ContractError::ArbiterFeeExceedsMaximum1000Bps);
            }
        }
        let any_cond = req.release_base.is_some() || req.release_quote.is_some()
            || req.release_comparison.is_some() || req.release_threshold_price.is_some();
        let full_cond = req.release_base.is_some() && req.release_quote.is_some()
            && req.release_comparison.is_some() && req.release_threshold_price.is_some();
        if any_cond && !full_cond {
            return Err(ContractError::IncompleteReleaseCondition);
        }
        if let Some(t) = req.release_threshold_price {
            if t <= 0 {
                return Err(ContractError::ReleaseConditionThresholdMustBePositive);
            }
        }
        if let Some(c) = req.release_comparison {
            if c != ORACLE_COMPARISON_LESS_OR_EQUAL && c != ORACLE_COMPARISON_GREATER_OR_EQUAL {
                return Err(ContractError::InvalidReleaseComparison);
            }
        }
        if !self.token_allowed(req.token, external_allows) {
            return Err(ContractError::TokenNotAllowed);
        }
        let n = req.sellers.len();
        if n > 5 {
            return Err(ContractError::Maximum5SellersAllowed);
        }
        if n > 0 {
            let mut total_bps: u32 = 0;
            let mut i: usize = 0;
            while i < n
                invariant
                    0 <= i <= n,
                    n == req.sellers@.len(),
                    bps_running_fit(req.sellers@, i as int),
                    total_bps == bps_total(req.sellers@, i as int),
                decreases n - i,
            {
                total_bps = match total_bps.checked_add(req.sellers[i].1) {
                    Some(t) => t,
                    None => {
                        proof {
                            lemma_bps_running_prefix(req.sellers@, i as int + 1, n as int);
                        }
                        return Err(ContractError::Overflow);
                    },
                };
                i = i + 1;
            }
            if total_bps != 10000 {
                return Err(ContractError::SellerAllocationsMustSumTo10000Bps);
            }
        }
        if self.escrow_counter == u32::MAX || self.receipt_counter == u32::MAX {
            return Err(ContractError::Overflow);
        }
        let sellers: Vec<(Address, u32)> = if n == 0 {
            let mut v = Vec::new();
            v.push((req.seller, 10000u32));
            assert(v@ =~= seq![(req.seller, 10000u32)]);
            v
        } else {
            req.sellers
        };
        let primary = sellers[0].0;
        let id = self.escrow_counter;
        let rid = self.receipt_counter;
        let e = Escrow {
            id,
            buyer,
            seller: primary,
            arbiter: req.arbiter,
            amount: req.amount,
            original_amount: req.amount,
            token: req.token,
            status: EscrowStatus::Active,
            created_at: now,
            deadline: req.deadline,
            metadata_hash: req.metadata_hash,
            sellers,
            extensions: EscrowExtensions {
                auto_renew: req.auto_renew,
                renewal_count: req.renewal_count,
                renewals_remaining: req.renewal_count,
                dispute_timeout_seconds: None,
                buyer_inactivity_secs: req.buyer_inactivity_secs,
                min_lock_until: req.min_lock_until,
                release_base: req.release_base,
                release_quote: req.release_quote,
                release_comparison: req.release_comparison,
                release_threshold_price: req.release_threshold_price,
                arbiter_fee_bps: req.arbiter_fee_bps,
                dispute_default_winner: req.dispute_default_winner,
                required_collateral_bps: 0,
                collateral_forfeit_bps: 0,
                collateral_deposit_deadline: 0,
                collateral_amount: 0,
                delivery_proof_hash: None,
                inspector: None,
                auto_renew_max_renewals: req.auto_renew_max_renewals,
                auto_renew_interval_ledgers: req.auto_renew_interval_ledgers,
                renewals_completed: 0,
            },
            top_up_history: Vec::new(),
            top_up_acknowledged: true,
        };
        assert(e@ == new_escrow(id, buyer, rv, now)) by {
            assert(e@.sellers =~= resolved_sellers(rv));
            assert(e@.top_up_history =~= Seq::<TopUpEntry>::empty());
        }
        let ghost pre = self@;
        proof {
            crate::common::lemma_map_values_insert(self.escrows@, id, e, |e: Escrow| e@);
        }
        self.escrows.insert(id, e);
        self.escrow_counter = id + 1;
        if req.buyer_inactivity_secs > 0 {
            self.last_buyer_action.insert(id, now);
        }
        if let Some(h) = req.metadata_hash {
            self.metadata.insert(id, (h, now));
        }
        self.receipts.insert(rid, EscrowReceipt { receipt_id: rid, escrow_id: id, holder: primary });
        self.receipt_of.insert(id, rid);
        self.receipt_counter = rid + 1;
        let mut ts = Vec::new();
        ts.push(Transfer { token: req.token, from: buyer, to: self.me, amount: req.amount, by_allowance: false });
        proof {
            let spec_post = spec_create_core(pre, buyer, rv, now, external_allows)->Ok_0.0;
            assert(self@ =~= spec_post);
            assert(ts@ =~= seq![xfer(rv.token, buyer, pre.me, rv.amount)]);
        }
        Ok((id, ts))
    }
}

/// The escrow `id` with its dispute timeout overridden.
pub open spec fn with_dispute_timeout(e: EscrowView, t: u64) -> EscrowView {
    EscrowView {
        extensions: EscrowExtensions { dispute_timeout_seconds: Some(t), ..e.extensions },
        ..e
    }
}

/// The escrow `id` with an inspector assigned.
pub open spec fn with_inspector(e: EscrowView, i: Address) -> EscrowView {
    EscrowView { extensions: EscrowExtensions { inspector: Some(i), ..e.extensions }, ..e }
}

/// Creating an escrow with a per-escrow dispute timeout.
pub open spec fn spec_create_w_timeout(
    pre: ContractView,
    buyer: Address,
    r: CreateRequestView,
    dispute_timeout_seconds: u64,
    now: u64,
    external_allows: bool,
) -> StepWith<u32> {
    if dispute_timeout_seconds == 0 {
        Err(ContractError::DisputeTimeoutSecondsMustBePositive)
    } else {
        match spec_create_unpaused(pre, buyer, r, now, external_allows) {
            Err(e) => Err(e),
            Ok((post, ts, id)) => Ok(
                (
                    ContractView {
                        escrows: post.escrows.insert(
                            id,
                            with_dispute_timeout(post.escrows[id], dispute_timeout_seconds),
                        ),
                        ..post
                    },
                    ts,
                    id,
                ),
            ),
        }
    }
}

/// Whether an inspector may take on an escrow of `amount`: above the value
/// threshold, an inspector with a ruling record needs the minimum accuracy.
pub open spec fn inspector_score_refusal(pre: ContractView, inspector: Address, amount: i128) -> Option<
    ContractError,
> {
    if pre.inspector_value_threshold == 0 || amount <= pre.inspector_value_threshold {
        None
    } else if pre.min_inspector_score_bps == 0 {
        None
    } else if !pre.inspector_scores.contains_key(inspector)
        || pre.inspector_scores[inspector].total_rulings == 0 {
        None
    } else if pre.inspector_scores[inspector].correct_rulings * 10000 > u32::MAX {
        Some(ContractError::Overflow)
    } else if (pre.inspector_scores[inspector].correct_rulings * 10000)
        / (pre.inspector_scores[inspector].total_rulings as int) < pre.min_inspector_score_bps {
        Some(ContractError::InspectorScoreBelowMinimumThresholdHighValueEscrow)
    } else {
        None
    }
}

/// Creating an escrow with an optional inspector.
pub open spec fn spec_create_with_inspector(
    pre: ContractView,
    buyer: Address,
    r: CreateRequestView,
    inspector: Option<Address>,
    now: u64,
    external_allows: bool,
) -> StepWith<u32> {
    if pre.paused {
        Err(ContractError::ContractIsPaused)
    } else if inspector matches Some(i) && inspector_score_refusal(pre, i, r.amount) is Some {
        Err(inspector_score_refusal(pre, inspector->0, r.amount)->0)
    } else {
        match spec_create_core(pre, buyer, r, now, external_allows) {
            Err(e) => Err(e),
            Ok((post, ts, id)) => match inspector {
                None => Ok((post, ts, id)),
                Some(i) => Ok(
                    (
                        ContractView {
                            escrows: post.escrows.insert(id, with_inspector(post.escrows[id], i)),
                            ..post
                        },
                        ts,
                        id,
                    ),
                ),
            },
        }
    }
}

impl AhjoorEscrowContract {
    /// Creates a new escrow. Funds move from buyer to contract; returns the escrow id.
    ///
    /// `now` is the ledger time; `whitelist_allows` is the token whitelist
    /// contract's answer for `token`, consulted only when one is configured.
    pub fn create_escrow(
        &mut self,
        buyer: Address,
        seller: Address,
        arbiter: Address,
        amount: i128,
        token: Address,
        deadline: u64,
        metadata_hash: Option<Hash32>,
        sellers: Vec<(Address, u32)>,
        auto_renew: bool,
        renewal_count: u32,
        now: u64,
        whitelist_allows: bool,
    ) -> (r: Result<(u32, Vec<Transfer>), ContractError>)
        ensures
            spec_create_unpaused(
                old(self)@,
                buyer,
                basic_request(
                    seller,
                    arbiter,
                    amount,
                    token,
                    deadline,
                    metadata_hash,
                    sellers@,
                    auto_renew,
                    renewal_count,
                    0,
                ),
                now,
                whitelist_allows,
            ) == outcome_with(r, final(self)@),
            r is Err ==> final(self)@ == old(self)@,
    {
        if self.paused {
            return Err(ContractError::ContractIsPaused);
        }
        let req = EscrowCreateRequest {
            seller,
            arbiter,
            amount,
            token,
            deadline,
            metadata_hash,
            sellers,
            auto_renew,
            renewal_count,
            buyer_inactivity_secs: 0,
            min_lock_until: None,
            release_base: None,
            release_quote: None,
            release_comparison: None,
            release_threshold_price: None,
            arbiter_fee_bps: None,
            dispute_default_winner: None,
            auto_renew_max_renewals: None,
            auto_renew_interval_ledgers: None,
        };
        self.create_escrow_core(buyer, req, now, whitelist_allows)
    }

    /// Creates a new escrow with buyer-inactivity release configured; a positive
    /// `renewal_count` turns auto-renewal on.
    pub fn create_escrow_with_inactivity(
        &mut self,
        buyer: Address,
        seller: Address,
        arbiter: Address,
        amount: i128,
        token: Address,
        deadline: u64,
        metadata_hash: Option<Hash32>,
        sellers: Vec<(Address, u32)>,
        renewal_count: u32,
        buyer_inactivity_secs: u64,
        now: u64,
        whitelist_allows: bool,
    ) -> (r: Result<(u32, Vec<Transfer>), ContractError>)
        ensures
            spec_create_unpaused(
                old(self)@,
                buyer,
                basic_request(
                    seller,
                    arbiter,
                    amount,
                    token,
                    deadline,
                    metadata_hash,
                    sellers@,
                    renewal_count > 0,
                    renewal_count,
                    buyer_inactivity_secs,
                ),
                now,
                whitelist_allows,
            ) == outcome_with(r, final(self)@),
            r is Err ==> final(self)@ == old(self)@,
    {
        if self.paused {
            return Err(ContractError::ContractIsPaused);
        }
        let req = EscrowCreateRequest {
            seller,
            arbiter,
            amount,
            token,
            deadline,
            metadata_hash,
            sellers,
            auto_renew: renewal_count > 0,
            renewal_count,
            buyer_inactivity_secs,
            min_lock_until: None,
            release_base: None,
            release_quote: None,
            release_comparison: None,
            release_threshold_price: None,
            arbiter_fee_bps: None,
            dispute_default_winner: None,
            auto_renew_max_renewals: None,
            auto_renew_interval_ledgers: None,
        };
        self.create_escrow_core(buyer, req, now, whitelist_allows)
    }

    /// Creates a new escrow from a full request (lock, oracle condition, arbiter fee, ...).
    pub fn create_escrow_v2(
        &mut self,
        buyer: Address,
        request: EscrowCreateRequest,
        now: u64,
        whitelist_allows: bool,
    ) -> (r: Result<(u32, Vec<Transfer>), ContractError>)
        ensures
            spec_create_unpaused(old(self)@, buyer, request@, now, whitelist_allows) == outcome_with(
                r,
                final(self)@,
            ),
            r is Err ==> final(self)@ == old(self)@,
    {
        if self.paused {
            return Err(ContractError::ContractIsPaused);
        }
        self.create_escrow_core(buyer, request, now, whitelist_allows)
    }

    /// Creates a new escrow that renews itself on release, per `auto_renew_config`.
    pub fn create_escrow_with_auto_renew(
        &mut self,
        buyer: Address,
        seller: Address,
        arbiter: Address,
        amount: i128,
        token: Address,
        deadline: u64,
        metadata_hash: Option<Hash32>,
        auto_renew_config: AutoRenewConfig,
        now: u64,
        whitelist_allows: bool,
    ) -> (r: Result<(u32, Vec<Transfer>), ContractError>)
        ensures
            spec_create_unpaused(
                old(self)@,
                buyer,
                CreateRequestView {
                    auto_renew_max_renewals: Some(auto_renew_config.max_renewals),
                    auto_renew_interval_ledgers: Some(auto_renew_config.renewal_interval_ledgers),
                    ..basic_request(
                        seller,
                        arbiter,
                        amount,
                        token,
                        deadline,
                        metadata_hash,
                        Seq::empty(),
                        true,
                        auto_renew_config.max_renewals,
                        0,
                    )
                },
                now,
                whitelist_allows,
            ) == outcome_with(r, final(self)@),
            r is Err ==> final(self)@ == old(self)@,
    {
        if self.paused {
            return Err(ContractError::ContractIsPaused);
        }
        let req = EscrowCreateRequest {
            seller,
            arbiter,
            amount,
            token,
            deadline,
            metadata_hash,
            sellers: Vec::new(),
            auto_renew: true,
            renewal_count: auto_renew_config.max_renewals,
            buyer_inactivity_secs: 0,
            min_lock_until: None,
            release_base: None,
            release_quote: None,
            release_comparison: None,
            release_threshold_price: None,
            arbiter_fee_bps: None,
            dispute_default_winner: None,
            auto_renew_max_renewals: Some(auto_renew_config.max_renewals),
            auto_renew_interval_ledgers: Some(auto_renew_config.renewal_interval_ledgers),
        };
        assert(req@ =~= CreateRequestView {
            auto_renew_max_renewals: Some(auto_renew_config.max_renewals),
            auto_renew_interval_ledgers: Some(auto_renew_config.renewal_interval_ledgers),
            ..basic_request(
                seller,
                arbiter,
                amount,
                token,
                deadline,
                metadata_hash,
                Seq::empty(),
                true,
                auto_renew_config.max_renewals,
                0,
            )
        });
        self.create_escrow_core(buyer, req, now, whitelist_allows)
    }

    /// Creates a new escrow with a per-escrow dispute timeout; a positive
    /// `renewal_count` turns auto-renewal on.
    pub fn create_escrow_w_timeout(
        &mut self,
        buyer: Address,
        seller: Address,
        arbiter: Address,
        amount: i128,
        token: Address,
        deadline: u64,
        metadata_hash: Option<Hash32>,
        sellers: Vec<(Address, u32)>,
        renewal_count: u32,
        dispute_timeout_seconds: u64,
        now: u64,
        whitelist_allows: bool,
    ) -> (r: Result<(u32, Vec<Transfer>), ContractError>)
        ensures
            spec_create_w_timeout(
                old(self)@,
                buyer,
                basic_request(
                    seller,
                    arbiter,
                    amount,
                    token,
                    deadline,
                    metadata_hash,
                    sellers@,
                    renewal_count > 0,
                    renewal_count,
                    0,
                ),
                dispute_timeout_seconds,
                now,
                whitelist_allows,
            ) == outcome_with(r, final(self)@),
            r is Err ==> final(self)@ == old(self)@,
    {
        if dispute_timeout_seconds == 0 {
            return Err(ContractError::DisputeTimeoutSecondsMustBePositive);
        }
        let (id, ts) = match self.create_escrow(
            buyer,
            seller,
            arbiter,
            amount,
            token,
            deadline,
            metadata_hash,
            sellers,
            renewal_count > 0,
            renewal_count,
            now,
            whitelist_allows,
        ) {
            Ok(v) => v,
            Err(e) => return Err(e),
        };
        let ghost mid = self@;
        proof {
            crate::common::lemma_map_values_lookup(self.escrows@, |e: Escrow| e@);
            let rv = basic_request(seller, arbiter, amount, token, deadline, metadata_hash, sellers@, renewal_count > 0, renewal_count, 0);
            assert(create_refusal(old(self)@, rv, now, whitelist_allows) is None);
            assert(mid.escrows.contains_key(id));
            assert(self.escrows@.contains_key(id));
        }
        let mut e = self.escrows.remove(&id).unwrap();
        e.extensions.dispute_timeout_seconds = Some(dispute_timeout_seconds);
        proof {
            crate::common::lemma_map_values_insert(self.escrows@, id, e, |e: Escrow| e@);
        }
        self.escrows.insert(id, e);
        proof {
            assert(self@ =~= ContractView {
                escrows: mid.escrows.insert(id, with_dispute_timeout(mid.escrows[id], dispute_timeout_seconds)),
                ..mid
            });
        }
        Ok((id, ts))
    }

    /// Creates up to ten escrows for one buyer at once; all of them or none.
    /// Returns the ids in order.
    pub fn create_escrows_batch(
        &mut self,
        buyer: Address,
        escrow_configs: Vec<EscrowBatchConfig>,
        now: u64,
        whitelist_allows: bool,
    ) -> (r: Result<(Vec<u32>, Vec<Transfer>), ContractError>)
        ensures
            match (r, spec_create_batch(old(self)@, buyer, escrow_configs@, now, whitelist_allows)) {
                (Ok((ids, ts)), Ok((post, sts, sids))) => final(self)@ == post && ts@ == sts && ids@
                    == sids,
                (Err(e), Err(se)) => e == se,
                _ => false,
            },
            r is Err ==> final(self)@ == old(self)@,
    {
        if self.paused {
            return Err(ContractError::ContractIsPaused);
        }
        let n = escrow_configs.len();
        if n == 0 {
            return Err(ContractError::BatchMustContainAtLeastOneEscrowConfig);
        }
        if n > MAX_BATCH_ESCROWS as usize {
            return Err(ContractError::BatchSizeExceedsMaximum10Escrows);
        }
        let saved = self.snapshot();
        let ghost pre = self@;
        let mut ids: Vec<u32> = Vec::new();
        let mut ts: Vec<Transfer> = Vec::new();
        let mut i: usize = 0;
        while i < n
            invariant
                0 <= i <= n,
                n == escrow_configs@.len(),
                saved@ == pre,
                pre == old(self)@,
                !pre.paused,
                0 < n <= MAX_BATCH_ESCROWS,
                spec_batch_prefix(pre, buyer, escrow_configs@, now, whitelist_allows, i as int)
                    == Ok::<(ContractView, Seq<Transfer>, Seq<u32>), ContractError>(
                    (self@, ts@, ids@),
                ),
            decreases n - i,
        {
            let c = &escrow_configs[i];
            let req = EscrowCreateRequest {
                seller: c.seller,
                arbiter: c.arbiter,
                amount: c.amount,
                token: c.token,
                deadline: c.deadline,
                metadata_hash: c.metadata_hash,
                sellers: crate::common::copy_vec(&c.sellers),
                auto_renew: c.auto_renew,
                renewal_count: c.renewal_count,
                buyer_inactivity_secs: 0,
                min_lock_until: None,
                release_base: None,
                release_quote: None,
                release_comparison: None,
                release_threshold_price: None,
                arbiter_fee_bps: None,
                dispute_default_winner: None,
                auto_renew_max_renewals: None,
                auto_renew_interval_ledgers: None,
            };
            assert(req@ =~= basic_request(
                c.seller,
                c.arbiter,
                c.amount,
                c.token,
                c.deadline,
                c.metadata_hash,
                c.sellers@,
                c.auto_renew,
                c.renewal_count,
                0,
            ));
            let ghost before = self@;
            let ghost before_ts = ts@;
            let ghost before_ids = ids@;
            match self.create_escrow_core(buyer, req, now, whitelist_allows) {
                Ok((id, t)) => {
                    ids.push(id);
                    let mut t = t;
                    ts.append(&mut t);
                    assert(spec_batch_prefix(pre, buyer, escrow_configs@, now, whitelist_allows, i as int + 1) == Ok::<(ContractView, Seq<Transfer>, Seq<u32>), ContractError>((self@, ts@, ids@)));
                },
                Err(e) => {
                    *self = saved;
                    proof {
                        assert(spec_batch_prefix(pre, buyer, escrow_configs@, now, whitelist_allows, i as int + 1) == Err::<(ContractView, Seq<Transfer>, Seq<u32>), ContractError>(e));
                        lemma_batch_error_sticks(
                            pre,
                            buyer,
                            escrow_configs@,
                            now,
                            whitelist_allows,
                            i as int + 1,
                            n as int,
                        );
                    }
                    return Err(e);
                },
            }
            i = i + 1;
        }
        Ok((ids, ts))
    }

    /// Creates an escrow with an optional inspector quality gate.
    pub fn create_escrow_with_inspector(
        &mut self,
        buyer: Address,
        request: EscrowCreateRequest,
        inspector: Option<Address>,
        now: u64,
        whitelist_allows: bool,
    ) -> (r: Result<(u32, Vec<Transfer>), ContractError>)
        ensures
            spec_create_with_inspector(old(self)@, buyer, request@, inspector, now, whitelist_allows)
                == outcome_with(r, final(self)@),
            r is Err ==> final(self)@ == old(self)@,
    {
        if self.paused {
            return Err(ContractError::ContractIsPaused);
        }
        if let Some(i) = inspector {
            match self.inspector_score_check(i, request.amount) {
                Some(e) => return Err(e),
                None => {},
            }
        }
        let ghost rv = request@;
        let (id, ts) = match self.create_escrow_core(buyer, request, now, whitelist_allows) {
            Ok(v) => v,
            Err(e) => return Err(e),
        };
        if let Some(i) = inspector {
            let ghost mid = self@;
            proof {
                assert(create_refusal(old(self)@, rv, now, whitelist_allows) is None);
                assert(mid.escrows.contains_key(id));
                crate::common::lemma_map_values_lookup(self.escrows@, |e: Escrow| e@);
            }
            let mut e = self.escrows.remove(&id).unwrap();
            e.extensions.inspector = Some(i);
            proof {
                crate::common::lemma_map_values_insert(self.escrows@, id, e, |e: Escrow| e@);
            }
            self.escrows.insert(id, e);
            proof {
                assert(self@ =~= ContractView {
                    escrows: mid.escrows.insert(id, with_inspector(mid.escrows[id], i)),
                    ..mid
                });
            }
        }
        Ok((id, ts))
    }

    pub(crate) fn inspector_score_check(&self, inspector: Address, amount: i128) -> (r: Option<
        ContractError,
    >)
        ensures
            r == inspector_score_refusal(self@, inspector, amount),
    {
        if self.inspector_value_threshold == 0 || amount <= self.inspector_value_threshold {
            return None;
        }
        if self.min_inspector_score_bps == 0 {
            return None;
        }
        let score = match self.inspector_scores.get(&inspector) {
            Some(s) => *s,
            None => return None,
        };
        if score.total_rulings == 0 {
            return None;
        }
        let c = match score.correct_rulings.checked_mul(10000) {
            Some(c) => c,
            None => return Some(ContractError::Overflow),
        };
        if c / score.total_rulings < self.min_inspector_score_bps {
            Some(ContractError::InspectorScoreBelowMinimumThresholdHighValueEscrow)
        } else {
            None
        }
    }
}

proof fn lemma_batch_error_sticks(
    pre: ContractView,
    buyer: Address,
    cfgs: Seq<EscrowBatchConfig>,
    now: u64,
    external_allows: bool,
    i: int,
    n: int,
)
    requires
        1 <= i <= n,
        spec_batch_prefix(pre, buyer, cfgs, now, external_allows, i) is Err,
    ensures
        spec_batch_prefix(pre, buyer, cfgs, now, external_allows, n) is Err,
        spec_batch_prefix(pre, buyer, cfgs, now, external_allows, n)
            == spec_batch_prefix(pre, buyer, cfgs, now, external_allows, i),
    decreases n - i,
{
    if i < n {
        lemma_batch_error_sticks(pre, buyer, cfgs, now, external_allows, i + 1, n);
    }
}

proof fn lemma_bps_running_prefix(s: Seq<(Address, u32)>, i: int, n: int)
    requires
        0 <= i <= n,
        !bps_running_fit(s, i),
    ensures
        !bps_running_fit(s, n),
    decreases n - i,
{
    if i < n {
        lemma_bps_running_prefix(s, i + 1, n);
    }
}

} // verus!
