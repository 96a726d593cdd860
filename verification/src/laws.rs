//! Properties that hold across the contract's operations.

use crate::common::{
    buyer_payout, other_buyer_transfers, other_buyers_total, other_seller_transfers,
    other_sellers_total, payout_to_sellers, seller_payout, share_of, shares_total, tdiv, xfer,
};
use crate::create::{bps_total, spec_create_unpaused};
use crate::model::CreateRequestView;
use crate::model::{Address, EscrowView, Transfer};
use crate::dispute::{accrued_of, spec_execute_verdict, spec_verdict_fees, spec_verdict_settle, verdict_status, verdict_transfers};
use crate::release::{approvals_of, collateral_of, spec_auto_release_expired, spec_release_escrow, spec_release_funds, with_status};
use crate::renew::{history_of, interval_secs, origin_of, renewal_kind, spec_renew, RenewalKind};
use crate::dispute::{spec_dispute_escrow, spec_resolve_dispute};
use crate::multibuyer::{contribution_pulls, contributions_refusal, contributions_total, spec_create_multi_buyer_escrow};
use crate::topup::{spec_approve_partial_release, spec_escalate_partial_release_dispute, spec_top_up_escrow};
use crate::dispute::{spec_enforce_dispute_timeout, timeout_winner, timeouts_of};
use crate::model::DisputeDefaultWinner;
use crate::bounty::{milestone_total, spec_cancel_bounty, spec_create_milestone_bounty};
use crate::model::{BountyMilestoneInput, BountyMilestoneStatus};
use crate::cancel::{back_to_active, cancellation_penalty, spec_accept_cancellation};
use crate::model::{EscrowStatus, PendingVerdict};
use crate::state::ContractView;
use crate::bpsms::{approved_total, spec_approve_proportional_milestone};
use crate::model::{MilestoneStateStatus, MilestoneStateView};
use crate::schedule::{released_index_of, spec_claim_scheduled_release, sweep};
use crate::model::ReleaseTranche;
use vstd::prelude::*;

verus! {

/// The sum of the amounts that a list of token movements moves.
pub open spec fn transfers_total(ts: Seq<Transfer>) -> int
    decreases ts.len(),
{
    if ts.len() == 0 {
        0
    } else {
        transfers_total(ts.drop_last()) + ts.last().amount
    }
}

/// Appending a movement adds its amount.
pub proof fn lemma_transfers_total_push(ts: Seq<Transfer>, t: Transfer)
    ensures
        transfers_total(ts.push(t)) == transfers_total(ts) + t.amount,
{
    assert(ts.push(t).drop_last() =~= ts);
}

/// Concatenated lists move the sum of what each moves.
pub proof fn lemma_transfers_total_concat(a: Seq<Transfer>, b: Seq<Transfer>)
    ensures
        transfers_total(a + b) == transfers_total(a) + transfers_total(b),
    decreases b.len(),
{
    if b.len() == 0 {
        assert(a + b =~= a);
    } else {
        lemma_transfers_total_concat(a, b.drop_last());
        assert((a + b).drop_last() =~= a + b.drop_last());
    }
}

pub(crate) proof fn lemma_floor_share(x: int, d: int)
    requires
        x >= 0,
        d > 0,
    ensures
        0 <= tdiv(x, d),
        d * tdiv(x, d) <= x,
{
    assert(0 <= x / d) by (nonlinear_arith)
        requires
            x >= 0,
            d > 0,
    ;
    assert(d * (x / d) <= x) by (nonlinear_arith)
        requires
            x >= 0,
            d > 0,
    ;
}

pub(crate) proof fn lemma_nonneg_product(a: int, b: int)
    requires
        a >= 0,
        b >= 0,
    ensures
        a * b >= 0,
{
    assert(a * b >= 0) by (nonlinear_arith)
        requires
            a >= 0,
            b >= 0,
    ;
}

proof fn lemma_mul_add(t: int, x: int, y: int)
    ensures
        t * (x + y) == t * x + t * y,
{
    assert(t * (x + y) == t * x + t * y) by (nonlinear_arith);
}

/// The transfers to the sellers at positions `1..n` move the sum of their shares.
proof fn lemma_other_seller_transfers_total(
    me: Address,
    delegates: Map<Address, Address>,
    e: EscrowView,
    total: i128,
    n: int,
)
    requires
        total >= 0,
        n <= e.sellers.len(),
        crate::common::seller_steps_fit(e.sellers, total, n),
    ensures
        transfers_total(other_seller_transfers(me, delegates, e, total, n)) == other_sellers_total(
            e.sellers,
            total,
            n,
        ),
        other_sellers_total(e.sellers, total, n) >= 0,
    decreases n,
{
    if n > 1 {
        lemma_other_seller_transfers_total(me, delegates, e, total, n - 1);
        let b = e.sellers[n - 1].1;
        lemma_nonneg_product(total as int, b as int);
        lemma_floor_share(total * b, 10000);
        let prev = other_seller_transfers(me, delegates, e, total, n - 1);
        let share = tdiv(total * b, 10000);
        if share > 0 {
            lemma_transfers_total_push(
                prev,
                xfer(e.token, me, crate::common::share_recipient(delegates, e.sellers[n - 1].0), share as i128),
            );
        }
    }
}

/// 10 000 times the shares of the sellers at positions `1..n` is at most the
/// total times their bps.
proof fn lemma_other_sellers_bound(s: Seq<(Address, u32)>, total: i128, n: int)
    requires
        total >= 0,
        1 <= n <= s.len(),
    ensures
        10000 * other_sellers_total(s, total, n) <= total * (bps_total(s, n) - bps_total(s, 1)),
    decreases n,
{
    if n > 1 {
        lemma_other_sellers_bound(s, total, n - 1);
        let b = s[n - 1].1;
        lemma_nonneg_product(total as int, b as int);
        lemma_floor_share(total * b, 10000);
        lemma_mul_add(total as int, bps_total(s, n - 1) - bps_total(s, 1), b as int);
    } else {
        assert(total * 0 == 0) by (nonlinear_arith);
    }
}

proof fn lemma_bps_total_nonneg(s: Seq<(Address, u32)>, n: int)
    requires
        0 <= n <= s.len(),
    ensures
        bps_total(s, n) >= 0,
    decreases n,
{
    if n > 0 {
        lemma_bps_total_nonneg(s, n - 1);
    }
}

/// Paying a non-negative total out to an escrow's sellers moves exactly that
/// total, when the sellers' bps add up to at most 10 000: each further seller
/// gets its share rounded toward zero and the first seller the remainder.
pub proof fn law_seller_payout_moves_total(pre: ContractView, id: u32, e: EscrowView, total: i128)
    requires
        total >= 0,
        bps_total(e.sellers, e.sellers.len() as int) <= 10000,
        seller_payout(pre, id, e, total) is Some,
    ensures
        transfers_total(seller_payout(pre, id, e, total)->0) == total,
{
    let n = e.sellers.len() as int;
    if n <= 1 {
        let to = match crate::common::spec_receipt_holder(pre, id) {
            Some(h) => h,
            None => e.seller,
        };
        let t = xfer(e.token, pre.me, to, total);
        lemma_transfers_total_push(Seq::empty(), t);
        assert(seq![t] =~= Seq::<Transfer>::empty().push(t));
    } else {
        let d = crate::common::delegates_of(pre, id);
        lemma_other_seller_transfers_total(pre.me, d, e, total, n);
        lemma_other_sellers_bound(e.sellers, total, n);
        lemma_bps_total_nonneg(e.sellers, 1);
        let others = other_sellers_total(e.sellers, total, n);
        let b = bps_total(e.sellers, n) - bps_total(e.sellers, 1);
        assert(b <= 10000);
        assert(total * b <= total * 10000) by (nonlinear_arith)
            requires
                total >= 0,
                b <= 10000,
        ;
        assert(others <= total);
        let rest = total - others;
        let ts = other_seller_transfers(pre.me, d, e, total, n);
        if rest > 0 {
            lemma_transfers_total_push(
                ts,
                xfer(e.token, pre.me, crate::common::share_recipient(d, e.sellers[0].0), rest as i128),
            );
        }
    }
}

/// Whether every listed buyer's recorded share is non-negative.
pub open spec fn shares_nonneg(buyers: Seq<Address>, shares: Map<Address, i128>) -> bool {
    forall|i: int| 0 <= i < buyers.len() ==> share_of(shares, #[trigger] buyers[i]) >= 0
}

proof fn lemma_other_buyer_transfers_total(
    token: Address,
    me: Address,
    buyers: Seq<Address>,
    shares: Map<Address, i128>,
    total: i128,
    sum: int,
    n: int,
)
    requires
        total >= 0,
        sum > 0,
        n <= buyers.len(),
        shares_nonneg(buyers, shares),
        crate::common::buyer_steps_fit(buyers, shares, total, sum, n),
    ensures
        transfers_total(other_buyer_transfers(token, me, buyers, shares, total, sum, n)) == other_buyers_total(
            buyers,
            shares,
            total,
            sum,
            n,
        ),
        other_buyers_total(buyers, shares, total, sum, n) >= 0,
    decreases n,
{
    if n > 1 {
        lemma_other_buyer_transfers_total(token, me, buyers, shares, total, sum, n - 1);
        let sh = share_of(shares, buyers[n - 1]);
        lemma_nonneg_product(total as int, sh);
        lemma_floor_share(total * sh, sum);
        let prev = other_buyer_transfers(token, me, buyers, shares, total, sum, n - 1);
        let p = tdiv(total * sh, sum);
        if p > 0 {
            lemma_transfers_total_push(prev, xfer(token, me, buyers[n - 1], p as i128));
        }
    }
}

proof fn lemma_other_buyers_bound(buyers: Seq<Address>, shares: Map<Address, i128>, total: i128, sum: int, n: int)
    requires
        total >= 0,
        sum > 0,
        1 <= n <= buyers.len(),
        shares_nonneg(buyers, shares),
    ensures
        sum * other_buyers_total(buyers, shares, total, sum, n) <= total * (shares_total(buyers, shares, n)
            - shares_total(buyers, shares, 1)),
    decreases n,
{
    if n > 1 {
        lemma_other_buyers_bound(buyers, shares, total, sum, n - 1);
        let sh = share_of(shares, buyers[n - 1]);
        lemma_nonneg_product(total as int, sh);
        lemma_floor_share(total * sh, sum);
        let prev = other_buyers_total(buyers, shares, total, sum, n - 1);
        let q = tdiv(total * sh, sum);
        assert(sum * (prev + q) == sum * prev + sum * q) by (nonlinear_arith);
        lemma_mul_add(
            total as int,
            shares_total(buyers, shares, n - 1) - shares_total(buyers, shares, 1),
            sh,
        );
    } else {
        assert(sum * 0 == 0) by (nonlinear_arith);
        assert(total * 0 == 0) by (nonlinear_arith);
    }
}

proof fn lemma_shares_total_mono(buyers: Seq<Address>, shares: Map<Address, i128>, n: int)
    requires
        0 <= n <= buyers.len(),
        shares_nonneg(buyers, shares),
    ensures
        shares_total(buyers, shares, n) >= 0,
    decreases n,
{
    if n > 0 {
        lemma_shares_total_mono(buyers, shares, n - 1);
        assert(share_of(shares, buyers[n - 1]) >= 0);
    }
}

/// Refunding a non-negative total to an escrow's buyers moves exactly that
/// total: to the buyer, or, for an escrow funded by several buyers, each
/// further buyer its pro-rata share rounded toward zero and the first buyer
/// the remainder. It needs every recorded share non-negative and, for a jointly
/// funded escrow, at least one buyer.
pub proof fn law_buyer_payout_moves_total(pre: ContractView, id: u32, e: EscrowView, total: i128)
    requires
        total >= 0,
        pre.multi_buyers.contains_key(id) && pre.buyer_shares.contains_key(id) ==> pre.multi_buyers[id].len() > 0
            && shares_nonneg(pre.multi_buyers[id], pre.buyer_shares[id]),
        buyer_payout(pre, id, e, total) is Some,
    ensures
        transfers_total(buyer_payout(pre, id, e, total)->0) == total,
{
    let single = xfer(e.token, pre.me, e.buyer, total);
    lemma_transfers_total_push(Seq::empty(), single);
    assert(seq![single] =~= Seq::<Transfer>::empty().push(single));
    if pre.multi_buyers.contains_key(id) && pre.buyer_shares.contains_key(id) {
        let buyers = pre.multi_buyers[id];
        let shares = pre.buyer_shares[id];
        let n = buyers.len() as int;
        if total > 0 {
            let sum = shares_total(buyers, shares, n);
            if sum > 0 {
                lemma_other_buyer_transfers_total(e.token, pre.me, buyers, shares, total, sum, n);
                lemma_other_buyers_bound(buyers, shares, total, sum, n);
                lemma_shares_total_mono(buyers, shares, 1);
                let others = other_buyers_total(buyers, shares, total, sum, n);
                let b = shares_total(buyers, shares, n) - shares_total(buyers, shares, 1);
                assert(b <= sum);
                assert(total * b <= total * sum) by (nonlinear_arith)
                    requires
                        total >= 0,
                        b <= sum,
                ;
                assert(others <= total) by (nonlinear_arith)
                    requires
                        sum > 0,
                        sum * others <= total * sum,
                ;
                let ts = other_buyer_transfers(e.token, pre.me, buyers, shares, total, sum, n);
                let rest = total - others;
                if rest > 0 {
                    lemma_transfers_total_push(ts, xfer(e.token, pre.me, buyers[0], rest as i128));
                }
            }
        }
    }
}

/// Whether the buyer side of escrow `id` is well formed for refunds: a jointly
/// funded escrow lists at least one buyer and no negative share.
pub open spec fn buyers_well_formed(pre: ContractView, id: u32) -> bool {
    pre.multi_buyers.contains_key(id) && pre.buyer_shares.contains_key(id) ==> pre.multi_buyers[id].len() > 0
        && shares_nonneg(pre.multi_buyers[id], pre.buyer_shares[id])
}

proof fn lemma_single_total(t: Transfer)
    ensures
        transfers_total(seq![t]) == t.amount,
{
    lemma_transfers_total_push(Seq::empty(), t);
    assert(seq![t] =~= Seq::<Transfer>::empty().push(t));
}

/// Settling a verdict pays out exactly what is left of the escrow after the
/// protocol fee, plus any seller collateral: the arbiter's fee, the buyer
/// side's share, the seller's share, and the collateral split between the
/// seller and the forfeit to the buyer side.
pub proof fn law_verdict_settle_moves_rest(
    pre: ContractView,
    id: u32,
    buyer_percent: u32,
    arbiter: Address,
    afee: i128,
    pfee: i128,
)
    requires
        pre.escrows.contains_key(id),
        buyer_percent <= 100,
        afee >= 0,
        pfee >= 0,
        pre.escrows[id].extensions.collateral_forfeit_bps <= 10000,
        buyers_well_formed(pre, id),
        verdict_transfers(pre, id, buyer_percent, arbiter, afee, pfee) is Ok,
    ensures
        transfers_total(verdict_transfers(pre, id, buyer_percent, arbiter, afee, pfee)->Ok_0) == pre.escrows[id].amount
            - pfee + if collateral_of(pre, id) > 0 {
            collateral_of(pre, id) as int
        } else {
            0int
        },
{
    let e = pre.escrows[id];
    let dist = e.amount - pfee - afee;
    let bprod = dist * buyer_percent;
    lemma_nonneg_product(dist, buyer_percent as int);
    lemma_floor_share(bprod, 100);
    let bamt = tdiv(bprod, 100);
    assert(bprod <= dist * 100) by (nonlinear_arith)
        requires
            dist >= 0,
            buyer_percent <= 100,
            bprod == dist * buyer_percent,
    ;
    assert(bamt <= dist);
    let samt = dist - bamt;
    let fee_ts = if afee > 0 {
        seq![xfer(e.token, pre.me, arbiter, afee)]
    } else {
        Seq::<Transfer>::empty()
    };
    if afee > 0 {
        lemma_single_total(xfer(e.token, pre.me, arbiter, afee));
    }
    let bpay = if bamt > 0 {
        buyer_payout(pre, id, e, bamt as i128)
    } else {
        Some(Seq::<Transfer>::empty())
    };
    if bamt > 0 {
        law_buyer_payout_moves_total(pre, id, e, bamt as i128);
    }
    let sts = if samt > 0 {
        seq![xfer(e.token, pre.me, e.seller, samt as i128)]
    } else {
        Seq::<Transfer>::empty()
    };
    if samt > 0 {
        lemma_single_total(xfer(e.token, pre.me, e.seller, samt as i128));
    }
    let c = collateral_of(pre, id);
    let fprod = c * e.extensions.collateral_forfeit_bps;
    let forfeit = tdiv(fprod, 10000);
    if c > 0 {
        lemma_nonneg_product(c as int, e.extensions.collateral_forfeit_bps as int);
        lemma_floor_share(fprod, 10000);
        assert(fprod <= c * 10000) by (nonlinear_arith)
            requires
                c > 0,
                e.extensions.collateral_forfeit_bps <= 10000,
                fprod == c * e.extensions.collateral_forfeit_bps,
        ;
    }
    let fpay = if c > 0 && buyer_percent > 0 && forfeit > 0 {
        buyer_payout(pre, id, e, forfeit as i128)
    } else {
        Some(Seq::<Transfer>::empty())
    };
    if c > 0 && buyer_percent > 0 && forfeit > 0 {
        law_buyer_payout_moves_total(pre, id, e, forfeit as i128);
    }
    let cts = if c <= 0 {
        Seq::<Transfer>::empty()
    } else if buyer_percent > 0 {
        if c - forfeit > 0 {
            seq![xfer(e.token, pre.me, e.seller, (c - forfeit) as i128)]
        } else {
            Seq::<Transfer>::empty()
        }
    } else {
        seq![xfer(e.token, pre.me, e.seller, c)]
    };
    if c > 0 && buyer_percent > 0 && c - forfeit > 0 {
        lemma_single_total(xfer(e.token, pre.me, e.seller, (c - forfeit) as i128));
    }
    if c > 0 && buyer_percent == 0 {
        lemma_single_total(xfer(e.token, pre.me, e.seller, c));
    }
    lemma_transfers_total_concat(fee_ts, bpay->0);
    lemma_transfers_total_concat(fee_ts + bpay->0, sts);
    lemma_transfers_total_concat(fee_ts + bpay->0 + sts, fpay->0);
    lemma_transfers_total_concat(fee_ts + bpay->0 + sts + fpay->0, cts);
}

/// Carrying out a verdict on an escrow of non-negative amount pays out all of
/// it and its seller collateral, less the protocol fee (the amount times the
/// protocol fee bps over 10 000, rounded toward zero), which stays with the
/// contract as accrued fees in the escrow's token. The escrow is left
/// `Refunded` when the buyer side wins everything, `Released` when it wins
/// nothing and `Resolved` otherwise, and its dispute is marked resolved.
pub proof fn law_verdict_moves_all_but_protocol_fee(pre: ContractView, id: u32, buyer_percent: u32, arbiter: Address)
    requires
        pre.escrows.contains_key(id),
        pre.escrows[id].amount >= 0,
        buyer_percent <= 100,
        pre.escrows[id].extensions.collateral_forfeit_bps <= 10000,
        buyers_well_formed(pre, id),
        spec_execute_verdict(pre, id, buyer_percent, arbiter) is Ok,
    ensures
        ({
            let (post, ts) = spec_execute_verdict(pre, id, buyer_percent, arbiter)->Ok_0;
            let e = pre.escrows[id];
            let pf = tdiv(e.amount * pre.protocol_fee_bps, 10000);
            &&& spec_verdict_fees(pre, id)->Ok_0.2 == pf
            &&& transfers_total(ts) == e.amount - pf + if collateral_of(pre, id) > 0 {
                collateral_of(pre, id) as int
            } else {
                0int
            }
            &&& accrued_of(post, e.token) == accrued_of(pre, e.token) + pf
            &&& post.escrows[id].status == verdict_status(buyer_percent)
            &&& pre.disputes.contains_key(id) ==> post.disputes[id].resolved
        }),
{
    let e = pre.escrows[id];
    let (s3, afee, pfee) = spec_verdict_fees(pre, id)->Ok_0;
    let abps = crate::dispute::arbiter_fee_bps_of(pre, e);
    lemma_nonneg_product(e.amount as int, abps as int);
    lemma_floor_share(e.amount * abps, 10000);
    lemma_nonneg_product(e.amount as int, pre.protocol_fee_bps as int);
    lemma_floor_share(e.amount * pre.protocol_fee_bps, 10000);
    assert(s3.escrows == pre.escrows);
    assert(s3.multi_buyers == pre.multi_buyers);
    assert(s3.buyer_shares == pre.buyer_shares);
    assert(s3.seller_collateral == pre.seller_collateral);
    law_verdict_settle_moves_rest(s3, id, buyer_percent, arbiter, afee, pfee);
}

/// Disputing part of an escrow splits it: what stays in dispute and what is
/// released to the seller at once add up to the escrow's amount.
pub proof fn law_dispute_splits_amount(
    pre: ContractView,
    caller: Address,
    id: u32,
    reason: Seq<char>,
    dispute_amount: i128,
    now: u64,
)
    requires
        spec_dispute_escrow(pre, caller, id, reason, dispute_amount, now) is Ok,
    ensures
        ({
            let (post, ts) = spec_dispute_escrow(pre, caller, id, reason, dispute_amount, now)->Ok_0;
            &&& post.escrows[id].amount == dispute_amount
            &&& post.escrows[id].amount + transfers_total(ts) == pre.escrows[id].amount
            &&& post.disputes[id].dispute_amount == dispute_amount
        }),
{
    let e = pre.escrows[id];
    let released = e.amount - dispute_amount;
    if released > 0 {
        lemma_single_total(xfer(e.token, pre.me, e.seller, released as i128));
    }
}

/// With a cooling-off window configured, a ruling moves no funds: the verdict
/// is recorded and the escrow waits in the cooling-off state.
pub proof fn law_cooling_off_holds_funds(pre: ContractView, arbiter: Address, id: u32, buyer_percent: u32, now: u64)
    requires
        pre.resolution_cooling_off_secs > 0,
        spec_resolve_dispute(pre, arbiter, id, buyer_percent, now) is Ok,
    ensures
        ({
            let (post, ts) = spec_resolve_dispute(pre, arbiter, id, buyer_percent, now)->Ok_0;
            &&& ts.len() == 0
            &&& post.escrows[id].status == EscrowStatus::CoolingOff
            &&& post.pending_verdicts[id] == PendingVerdict { buyer_percent, arbiter, recorded_at: now }
        }),
{
}

proof fn lemma_pulls_total(token: Address, me: Address, b: Seq<(Address, i128)>, n: int)
    requires
        0 <= n <= b.len(),
    ensures
        transfers_total(contribution_pulls(token, me, b, n)) == contributions_total(b, n),
    decreases n,
{
    if n > 0 {
        lemma_pulls_total(token, me, b, n - 1);
        lemma_transfers_total_push(
            contribution_pulls(token, me, b, n - 1),
            crate::common::pull(token, b[n - 1].0, me, b[n - 1].1),
        );
    }
}

proof fn lemma_pulls_each(token: Address, me: Address, b: Seq<(Address, i128)>, n: int)
    requires
        0 <= n <= b.len(),
    ensures
        contribution_pulls(token, me, b, n).len() == n,
        forall|k: int|
            0 <= k < n ==> #[trigger] contribution_pulls(token, me, b, n)[k] == crate::common::pull(
                token,
                b[k].0,
                me,
                b[k].1,
            ),
    decreases n,
{
    if n > 0 {
        lemma_pulls_each(token, me, b, n - 1);
    }
}

proof fn lemma_bad_contribution_refused(b: Seq<(Address, i128)>, k: int, n: int)
    requires
        0 <= k < n <= b.len(),
        b[k].1 <= 0 || crate::multibuyer::listed_before(b, k),
    ensures
        contributions_refusal(b, n) is Some,
    decreases n,
{
    if k < n - 1 {
        lemma_bad_contribution_refused(b, k, n - 1);
    }
}

/// A jointly funded escrow holds exactly what its buyers paid in: it takes
/// the next id, each buyer pays exactly its contribution to the contract from
/// its allowance, in the listed order, and the escrow, active, holds their sum
/// as its amount and original amount, with the first buyer as its buyer and
/// the seller as its only seller.
pub proof fn law_multi_buyer_escrow_holds_contributions(
    pre: ContractView,
    buyers: Seq<(Address, i128)>,
    seller: Address,
    arbiter: Address,
    token: Address,
    deadline: u64,
    now: u64,
    external_allows: bool,
)
    requires
        spec_create_multi_buyer_escrow(pre, buyers, seller, arbiter, token, deadline, now, external_allows) is Ok,
    ensures
        ({
            let (post, ts, id) = spec_create_multi_buyer_escrow(
                pre,
                buyers,
                seller,
                arbiter,
                token,
                deadline,
                now,
                external_allows,
            )->Ok_0;
            let e = post.escrows[id];
            &&& id == pre.escrow_counter
            &&& ts.len() == buyers.len()
            &&& forall|k: int|
                0 <= k < buyers.len() ==> #[trigger] ts[k] == crate::common::pull(
                    token,
                    buyers[k].0,
                    pre.me,
                    buyers[k].1,
                )
            &&& transfers_total(ts) == e.amount
            &&& e.amount == contributions_total(buyers, buyers.len() as int)
            &&& e.original_amount == e.amount
            &&& e.buyer == buyers[0].0
            &&& e.seller == seller
            &&& e.sellers == seq![(seller, 10000u32)]
            &&& e.status == EscrowStatus::Active
        }),
{
    lemma_pulls_total(token, pre.me, buyers, buyers.len() as int);
    lemma_pulls_each(token, pre.me, buyers, buyers.len() as int);
}

/// Creating a jointly funded escrow is refused, moving nothing, when a
/// contribution is not positive or a buyer is listed twice.
pub proof fn law_multi_buyer_escrow_refuses_bad_contributions(
    pre: ContractView,
    buyers: Seq<(Address, i128)>,
    seller: Address,
    arbiter: Address,
    token: Address,
    deadline: u64,
    now: u64,
    external_allows: bool,
    k: int,
)
    requires
        0 <= k < buyers.len(),
        buyers[k].1 <= 0 || crate::multibuyer::listed_before(buyers, k),
    ensures
        spec_create_multi_buyer_escrow(pre, buyers, seller, arbiter, token, deadline, now, external_allows) is Err,
{
    lemma_bad_contribution_refused(buyers, k, buyers.len() as int);
}

/// Approving a partial release moves to the sellers exactly what it takes off
/// the escrow, when the sellers' bps add up to at most 10 000.
pub proof fn law_partial_release_moves_what_it_takes(pre: ContractView, buyer: Address, id: u32, request_id: u64)
    requires
        spec_approve_partial_release(pre, buyer, id, request_id) is Ok,
        pre.pending_partial_release[id].amount >= 0,
        bps_total(pre.escrows[id].sellers, pre.escrows[id].sellers.len() as int) <= 10000,
    ensures
        ({
            let (post, ts) = spec_approve_partial_release(pre, buyer, id, request_id)->Ok_0;
            post.escrows[id].amount + transfers_total(ts) == pre.escrows[id].amount
        }),
{
    law_seller_payout_moves_total(pre, id, pre.escrows[id], pre.pending_partial_release[id].amount);
}

/// Cancelling a bounty refunds to the buyer side exactly what was not yet
/// paid out of it.
pub proof fn law_cancelled_bounty_refunds_rest(pre: ContractView, buyer: Address, id: u32, now: u64)
    requires
        spec_cancel_bounty(pre, buyer, id, now) is Ok,
        buyers_well_formed(pre, id),
        pre.escrows[id].amount >= pre.bounties[id].fees_disbursed,
    ensures
        transfers_total(spec_cancel_bounty(pre, buyer, id, now)->Ok_0.1) == pre.escrows[id].amount
            - pre.bounties[id].fees_disbursed,
{
    let e = pre.escrows[id];
    let refund = e.amount - pre.bounties[id].fees_disbursed;
    if refund > 0 {
        law_buyer_payout_moves_total(pre, id, e, refund as i128);
    }
}

/// Releasing an escrow held by a single buyer pays out exactly its amount to
/// its sellers, plus any seller collateral back to the seller, and leaves the
/// escrow `Released`, when no renewal follows and the sellers' bps add up to at
/// most 10 000.
pub proof fn law_release_pays_out_escrow(pre: ContractView, caller: Address, id: u32, now: u64, funds_available: bool)
    requires
        spec_release_escrow(pre, caller, id, now, funds_available) is Ok,
        !pre.multi_buyers.contains_key(id),
        pre.escrows[id].amount >= 0,
        bps_total(pre.escrows[id].sellers, pre.escrows[id].sellers.len() as int) <= 10000,
        ({
            let k = renewal_kind(pre, id, pre.escrows[id], funds_available);
            k is Nothing || k is Unfunded
        }),
    ensures
        ({
            let (post, ts) = spec_release_escrow(pre, caller, id, now, funds_available)->Ok_0;
            let c = collateral_of(pre, id);
            &&& post.escrows[id] == with_status(pre.escrows[id], EscrowStatus::Released)
            &&& transfers_total(ts) == pre.escrows[id].amount + if c > 0 { c as int } else { 0 }
        }),
{
    let e = pre.escrows[id];
    let s1 = if caller == e.buyer {
        crate::release::note_buyer_action(pre, e, id, now)
    } else {
        pre
    };
    law_seller_payout_moves_total(s1, id, e, e.amount);
    let pay = seller_payout(s1, id, e, e.amount)->0;
    let c = collateral_of(s1, id);
    let coll = if c > 0 {
        seq![xfer(e.token, s1.me, e.seller, c)]
    } else {
        Seq::empty()
    };
    if c > 0 {
        lemma_transfers_total_push(Seq::empty(), xfer(e.token, s1.me, e.seller, c));
        assert(seq![xfer(e.token, s1.me, e.seller, c)] =~= Seq::<Transfer>::empty().push(
            xfer(e.token, s1.me, e.seller, c),
        ));
    }
    lemma_transfers_total_concat(pay, coll);
    lemma_transfers_total_concat(pay + coll, Seq::empty());
    assert(pay + coll + Seq::<Transfer>::empty() =~= pay + coll);
}

/// Refunding an expired escrow returns exactly its amount to the buyer side
/// and leaves it `Refunded`, when its buyer side is well formed.
pub proof fn law_expired_escrow_refunds_amount(pre: ContractView, id: u32, now: u64)
    requires
        spec_auto_release_expired(pre, id, now) is Ok,
        pre.escrows[id].amount >= 0,
        buyers_well_formed(pre, id),
    ensures
        ({
            let (post, ts) = spec_auto_release_expired(pre, id, now)->Ok_0;
            &&& post.escrows[id] == with_status(pre.escrows[id], EscrowStatus::Refunded)
            &&& transfers_total(ts) == pre.escrows[id].amount
        }),
{
    law_buyer_payout_moves_total(pre, id, pre.escrows[id], pre.escrows[id].amount);
}

/// The penalty of a cancellation is between nothing and the whole amount, for
/// a non-negative amount and a penalty of at most 10 000 bps.
pub(crate) proof fn lemma_penalty_bounds(pre: ContractView, amount: i128)
    requires
        amount >= 0,
        pre.cancellation_penalty_bps <= 10000,
        cancellation_penalty(pre, amount) is Some,
    ensures
        0 <= cancellation_penalty(pre, amount)->0 <= amount,
        cancellation_penalty(pre, amount)->0 == (amount * pre.cancellation_penalty_bps) / 10000,
{
    if pre.cancellation_penalty_bps == 0 {
        assert(amount * pre.cancellation_penalty_bps == 0);
    } else {
        let a = amount as u128;
        assert(a == amount);
        let bps = pre.cancellation_penalty_bps;
        let prod = a * bps;
        assert(0 <= prod <= a * 10000) by (nonlinear_arith)
            requires
                prod == a * bps,
                0 <= bps <= 10000,
                a >= 0,
        ;
        let q = (prod as u128) / 10000;
        assert(q <= a) by (nonlinear_arith)
            requires
                q == (prod as u128) / 10000,
                prod as u128 == prod,
                prod <= a * 10000,
        ;
        assert(q as i128 == q);
        assert(q == (amount * bps) / 10000);
    }
}

/// A mutually agreed cancellation pays out exactly the escrow's amount: the
/// buyer side gets it back less the penalty, and the penalty goes to the fee
/// recipient (or also to the buyer side); the escrow is left `Refunded`. An
/// acceptance that comes after the request expired moves nothing and puts the
/// escrow back to active.
pub proof fn law_accepted_cancellation_pays_out_amount(pre: ContractView, caller: Address, id: u32, now: u64)
    requires
        spec_accept_cancellation(pre, caller, id, now) is Ok,
        pre.escrows[id].amount >= 0,
        pre.cancellation_penalty_bps <= 10000,
        buyers_well_formed(pre, id),
    ensures
        ({
            let (post, ts) = spec_accept_cancellation(pre, caller, id, now)->Ok_0;
            &&& now > pre.cancellations[id].expires_at ==> post == back_to_active(pre, id) && ts.len() == 0
            &&& now <= pre.cancellations[id].expires_at ==> post.escrows[id] == with_status(
                pre.escrows[id],
                EscrowStatus::Refunded,
            ) && transfers_total(ts) == pre.escrows[id].amount
        }),
{
    if now <= pre.cancellations[id].expires_at {
        let e = pre.escrows[id];
        lemma_penalty_bounds(pre, e.amount);
        let pen = cancellation_penalty(pre, e.amount)->0;
        let ret = e.amount - pen;
        let back = if ret > 0 {
            buyer_payout(pre, id, e, ret as i128)
        } else {
            Some(Seq::<Transfer>::empty())
        };
        let fee = if pen <= 0 {
            Some(Seq::<Transfer>::empty())
        } else {
            match pre.fee_recipient {
                Some(r) => Some(seq![xfer(e.token, pre.me, r, pen)]),
                None => buyer_payout(pre, id, e, pen),
            }
        };
        if ret > 0 {
            law_buyer_payout_moves_total(pre, id, e, ret as i128);
        }
        assert(transfers_total(back->0) == ret);
        if pen > 0 {
            match pre.fee_recipient {
                Some(r) => lemma_single_total(xfer(e.token, pre.me, r, pen)),
                None => law_buyer_payout_moves_total(pre, id, e, pen),
            }
        }
        assert(transfers_total(fee->0) == pen);
        lemma_transfers_total_concat(back->0, fee->0);
    }
}

/// A top-up adds exactly the deposited amount to the escrow, and the history
/// entry it appends records the escrow's new amount as the running total.
pub proof fn law_top_up_adds_deposit(pre: ContractView, buyer: Address, id: u32, additional: i128, now: u64)
    requires
        spec_top_up_escrow(pre, buyer, id, additional, now) is Ok,
    ensures
        ({
            let (post, ts) = spec_top_up_escrow(pre, buyer, id, additional, now)->Ok_0;
            &&& transfers_total(ts) == additional
            &&& post.escrows[id].amount == pre.escrows[id].amount + additional
            &&& post.escrows[id].top_up_history.last().cumulative_total == post.escrows[id].amount
            &&& post.escrows[id].original_amount == pre.escrows[id].original_amount
        }),
{
    let e = pre.escrows[id];
    lemma_single_total(xfer(e.token, buyer, pre.me, additional));
}

/// Creating an escrow moves exactly its amount from the buyer to the
/// contract and records an active escrow of that amount under the next id;
/// every escrow that existed before stays as it was.
pub proof fn law_created_escrow_holds_deposit(
    pre: ContractView,
    buyer: Address,
    r: CreateRequestView,
    now: u64,
    external_allows: bool,
    other: u32,
)
    requires
        spec_create_unpaused(pre, buyer, r, now, external_allows) is Ok,
        pre.escrows.contains_key(other),
        other != pre.escrow_counter,
    ensures
        ({
            let (post, ts, id) = spec_create_unpaused(pre, buyer, r, now, external_allows)->Ok_0;
            &&& id == pre.escrow_counter
            &&& ts == seq![xfer(r.token, buyer, pre.me, r.amount)]
            &&& transfers_total(ts) == r.amount
            &&& post.escrows[id].amount == r.amount
            &&& post.escrows[id].original_amount == r.amount
            &&& post.escrows[id].buyer == buyer
            &&& post.escrows[id].status == EscrowStatus::Active
            &&& post.escrows[other] == pre.escrows[other]
        }),
{
    lemma_single_total(xfer(r.token, buyer, pre.me, r.amount));
}

/// A partial release escalated into a dispute can be ended once the default
/// dispute timeout has passed since the escalation: the timeout is enforced
/// and the escrow goes to the default winner (refunded to the buyer side, or
/// released to the seller). It needs the arbiter's timeout count below its
/// maximum and the refund to the buyer side free of overflow.
pub proof fn law_escalated_dispute_times_out(pre: ContractView, seller: Address, id: u32, now: u64, later: u64)
    requires
        spec_escalate_partial_release_dispute(pre, seller, id, now) is Ok,
        later >= now + pre.default_dispute_timeout,
        timeouts_of(pre, pre.escrows[id].arbiter) < u32::MAX,
        crate::common::buyer_payout(pre, id, pre.escrows[id], pre.escrows[id].amount) is Some,
    ensures
        ({
            let mid = spec_escalate_partial_release_dispute(pre, seller, id, now)->Ok_0.0;
            let e = pre.escrows[id];
            &&& spec_enforce_dispute_timeout(mid, id, later) is Ok
            &&& spec_enforce_dispute_timeout(mid, id, later)->Ok_0.0.escrows[id].status == if timeout_winner(pre, e)
                == DisputeDefaultWinner::Seller {
                EscrowStatus::Released
            } else {
                EscrowStatus::Refunded
            }
        }),
{
}

/// Whether a tranche is due at `now`: unlocked and not yet claimed.
pub open spec fn due(t: ReleaseTranche, now: u64) -> bool {
    !t.claimed && t.unlock_at <= now
}

/// What the due tranches of a schedule from position `i` on amount to.
pub open spec fn due_total(s: Seq<ReleaseTranche>, i: int, now: u64) -> int
    decreases s.len() - i,
{
    if i < 0 || i >= s.len() {
        0
    } else {
        (if due(s[i], now) {
            s[i].amount as int
        } else {
            0
        }) + due_total(s, i + 1, now)
    }
}

proof fn lemma_due_total_frame(s: Seq<ReleaseTranche>, p: int, x: ReleaseTranche, j: int, now: u64)
    requires
        0 <= p < j,
        p < s.len(),
    ensures
        due_total(s.update(p, x), j, now) == due_total(s, j, now),
    decreases s.len() - j,
{
    if j < s.len() {
        lemma_due_total_frame(s, p, x, j + 1, now);
    }
}

proof fn lemma_sweep(
    s: Seq<ReleaseTranche>,
    i: int,
    now: u64,
    token: Address,
    me: Address,
    to: Address,
    ts: Seq<Transfer>,
    any: bool,
)
    requires
        0 <= i <= s.len(),
    ensures
        ({
            let (ts2, s2, any2) = sweep(s, i, now, token, me, to, ts, any);
            &&& s2.len() == s.len()
            &&& forall|k: int| 0 <= k < i ==> s2[k] == s[k]
            &&& forall|k: int|
                i <= k < s.len() ==> s2[k] == if due(s[k], now) {
                    ReleaseTranche { claimed: true, ..s[k] }
                } else {
                    s[k]
                }
            &&& transfers_total(ts2) == transfers_total(ts) + due_total(s, i, now)
            &&& any2 == (any || exists|k: int| i <= k < s.len() && due(#[trigger] s[k], now))
        }),
    decreases s.len() - i,
{
    if i < s.len() {
        if s[i].claimed || s[i].unlock_at > now {
            lemma_sweep(s, i + 1, now, token, me, to, ts, any);
            let (ts2, s2, any2) = sweep(s, i, now, token, me, to, ts, any);
            assert forall|k: int| i <= k < s.len() implies s2[k] == if due(s[k], now) {
                ReleaseTranche { claimed: true, ..s[k] }
            } else {
                s[k]
            } by {}
            if any2 != (any || exists|k: int| i <= k < s.len() && due(#[trigger] s[k], now)) {
                if exists|k: int| i <= k < s.len() && due(#[trigger] s[k], now) {
                    let k = choose|k: int| i <= k < s.len() && due(#[trigger] s[k], now);
                    assert(k != i);
                }
            }
        } else {
            let t = ReleaseTranche { claimed: true, ..s[i] };
            let s1 = s.update(i, t);
            let x = xfer(token, me, to, s[i].amount);
            lemma_sweep(s1, i + 1, now, token, me, to, ts.push(x), true);
            lemma_transfers_total_push(ts, x);
            lemma_due_total_frame(s, i, t, i + 1, now);
            let (ts2, s2, any2) = sweep(s, i, now, token, me, to, ts, any);
            assert forall|k: int| i <= k < s.len() implies s2[k] == if due(s[k], now) {
                ReleaseTranche { claimed: true, ..s[k] }
            } else {
                s[k]
            } by {
                if k == i {
                } else {
                    assert(s1[k] == s[k]);
                }
            }
            assert(due(s[i], now));
        }
    }
}

/// Claiming scheduled releases pays out every tranche that is due, from the
/// released index on, and nothing else: a claim succeeds only when one is
/// due, those tranches become claimed, all others stay as they were, the transfers move exactly what the due
/// tranches amount to, and the escrow is released once every tranche from the
/// released index on is claimed (partially released before).
#[verifier::spinoff_prover]
#[verifier::rlimit(30)]
pub proof fn law_scheduled_release_pays_every_due_tranche(pre: ContractView, beneficiary: Address, id: u32, now: u64)
    requires
        spec_claim_scheduled_release(pre, beneficiary, id, now) is Ok,
    ensures
        ({
            let (post, ts) = spec_claim_scheduled_release(pre, beneficiary, id, now)->Ok_0;
            let s = pre.schedules[id];
            let start = released_index_of(pre, id) as int;
            let s2 = post.schedules[id];
            &&& s2.len() == s.len()
            &&& forall|k: int| 0 <= k < s.len() && k < start ==> s2[k] == s[k]
            &&& forall|k: int|
                start <= k < s.len() ==> s2[k] == if due(s[k], now) {
                    ReleaseTranche { claimed: true, ..s[k] }
                } else {
                    s[k]
                }
            &&& transfers_total(ts) == due_total(s, start, now)
            &&& exists|k: int| start <= k < s.len() && due(#[trigger] s[k], now)
            &&& post.escrows[id].status == if (forall|k: int| start <= k < s2.len() ==> #[trigger] s2[k].claimed) {
                EscrowStatus::Released
            } else {
                EscrowStatus::PartiallyReleased
            }
        }),
{
    let e = pre.escrows[id];
    let s = pre.schedules[id];
    let start = released_index_of(pre, id) as int;
    if start > s.len() {
        assert(sweep(s, start, now, e.token, pre.me, beneficiary, Seq::empty(), false) == (
            Seq::<Transfer>::empty(),
            s,
            false,
        ));
    } else {
        lemma_sweep(s, start, now, e.token, pre.me, beneficiary, Seq::empty(), false);
    }
    let (ts, s2, any) = sweep(s, start, now, e.token, pre.me, beneficiary, Seq::empty(), false);
    assert(any);
    lemma_claimed_run_end(s2, start);
}

/// The run of claimed tranches from position `i` reaches the end exactly when
/// every tranche from `i` on is claimed.
proof fn lemma_claimed_run_end(s: Seq<ReleaseTranche>, i: int)
    requires
        0 <= i <= s.len(),
    ensures
        (crate::schedule::claimed_run_end(s, i) >= s.len()) == (forall|k: int|
            i <= k < s.len() ==> #[trigger] s[k].claimed),
    decreases s.len() - i,
{
    if i < s.len() && s[i].claimed {
        lemma_claimed_run_end(s, i + 1);
        assert forall|k: int| i <= k < s.len() && (forall|j: int| i + 1 <= j < s.len() ==> #[trigger] s[j].claimed)
            implies #[trigger] s[k].claimed by {
            if k > i {
                assert(s[k].claimed);
            }
        }
    } else if i < s.len() {
        assert(!s[i].claimed);
        assert(crate::schedule::claimed_run_end(s, i) == i);
    }
}

/// Whether every milestone of `ms` is approved.
pub open spec fn all_approved(ms: Seq<MilestoneStateView>) -> bool {
    forall|k: int| 0 <= k < ms.len() ==> #[trigger] ms[k].status == MilestoneStateStatus::Approved
}

/// What approvals of proportional milestones have paid out of `amount`: the
/// whole amount once every milestone is approved, else the approved shares.
pub open spec fn milestones_paid(ms: Seq<MilestoneStateView>, amount: i128) -> int {
    if all_approved(ms) {
        amount as int
    } else {
        approved_total(ms, amount, ms.len() as int)
    }
}

proof fn lemma_approved_total_update(ms: Seq<MilestoneStateView>, amount: i128, index: int, n: int)
    requires
        0 <= index < ms.len(),
        0 <= n <= ms.len(),
        ms[index].status != MilestoneStateStatus::Approved,
    ensures
        approved_total(
            ms.update(index, MilestoneStateView { status: MilestoneStateStatus::Approved, ..ms[index] }),
            amount,
            n,
        ) == approved_total(ms, amount, n) + if index < n {
            tdiv(amount * ms[index].release_bps, 10000)
        } else {
            0
        },
    decreases n,
{
    if n > 0 {
        lemma_approved_total_update(ms, amount, index, n - 1);
    }
}

/// Approving a proportional milestone pays out exactly what it adds to what
/// the milestones have paid: its share, or, when it leaves every milestone
/// approved, the rest of the escrow amount. So, whatever the order of the
/// approvals, the milestones together pay out the escrow amount once all are
/// approved.
pub proof fn law_milestone_approval_pays_its_part(pre: ContractView, caller: Address, id: u32, index: u32)
    requires
        spec_approve_proportional_milestone(pre, caller, id, index) is Ok,
    ensures
        ({
            let (post, ts) = spec_approve_proportional_milestone(pre, caller, id, index)->Ok_0;
            let amount = pre.escrows[id].amount;
            milestones_paid(post.bps_milestones[id], amount) == milestones_paid(pre.bps_milestones[id], amount)
                + transfers_total(ts)
        }),
{
    let e = pre.escrows[id];
    let ms = pre.bps_milestones[id];
    let i = index as int;
    let ms2 = ms.update(i, MilestoneStateView { status: MilestoneStateStatus::Approved, ..ms[i] });
    let amt = crate::bpsms::milestone_release(ms, e.amount, i)->0;
    lemma_single_total(xfer(e.token, pre.me, e.seller, amt));
    assert(!all_approved(ms)) by {
        assert(ms[i].status != MilestoneStateStatus::Approved);
    }
    lemma_approved_total_update(ms, e.amount, i, ms.len() as int);
    if crate::bpsms::others_approved(ms, i) {
        assert(all_approved(ms2)) by {
            assert forall|k: int| 0 <= k < ms2.len() implies #[trigger] ms2[k].status
                == MilestoneStateStatus::Approved by {
                if k != i {
                    assert(ms[k].status == MilestoneStateStatus::Approved);
                }
            }
        }
    } else {
        let k = choose|k: int| 0 <= k < ms.len() && k != i && !(#[trigger] ms[k].status
            == MilestoneStateStatus::Approved);
        assert(!all_approved(ms2)) by {
            assert(ms2[k] == ms[k]);
        }
    }
}

/// Before any approval the milestones have paid nothing.
pub proof fn law_pending_milestones_have_paid_nothing(ms: Seq<MilestoneStateView>, amount: i128)
    requires
        ms.len() > 0,
        forall|k: int| 0 <= k < ms.len() ==> #[trigger] ms[k].status == MilestoneStateStatus::Pending,
    ensures
        milestones_paid(ms, amount) == 0,
{
    assert(ms[0].status == MilestoneStateStatus::Pending);
    lemma_nothing_approved(ms, amount, ms.len() as int);
}

proof fn lemma_nothing_approved(ms: Seq<MilestoneStateView>, amount: i128, n: int)
    requires
        0 <= n <= ms.len(),
        forall|k: int| 0 <= k < ms.len() ==> #[trigger] ms[k].status == MilestoneStateStatus::Pending,
    ensures
        approved_total(ms, amount, n) == 0,
    decreases n,
{
    if n > 0 {
        lemma_nothing_approved(ms, amount, n - 1);
        assert(ms[n - 1].status == MilestoneStateStatus::Pending);
    }
}

/// Posting a bounty paid milestone by milestone: the buyer pays in exactly
/// the sum of the milestone amounts; the bounty escrow, unclaimed, holds that
/// sum until the submission deadline; and its milestones keep the given order,
/// each with its description, verifier and amount, pending and without a
/// deliverable.
pub proof fn law_milestone_bounty_holds_its_milestones(
    pre: ContractView,
    buyer: Address,
    token: Address,
    milestones: Seq<BountyMilestoneInput>,
    claim_deadline: u64,
    submission_deadline: u64,
    now: u64,
    whitelist_allows: bool,
)
    requires
        spec_create_milestone_bounty(pre, buyer, token, milestones, claim_deadline, submission_deadline, now, whitelist_allows) is Ok,
    ensures
        ({
            let (post, ts, id) = spec_create_milestone_bounty(
                pre,
                buyer,
                token,
                milestones,
                claim_deadline,
                submission_deadline,
                now,
                whitelist_allows,
            )->Ok_0;
            let e = post.escrows[id];
            let ms = post.bounty_milestones[id];
            let total = milestone_total(milestones, milestones.len() as int);
            &&& ts == seq![xfer(token, buyer, pre.me, total as i128)]
            &&& transfers_total(ts) == total
            &&& e.amount == total && e.original_amount == total
            &&& e.buyer == buyer
            &&& e.status == EscrowStatus::BountyUnclaimed
            &&& e.deadline == submission_deadline
            &&& ms.len() == milestones.len()
            &&& forall|k: int|
                0 <= k < milestones.len() ==> {
                    &&& #[trigger] ms[k].description_hash == milestones[k].description_hash
                    &&& ms[k].verifier == milestones[k].verifier
                    &&& ms[k].amount == milestones[k].amount
                    &&& ms[k].status == BountyMilestoneStatus::Pending
                    &&& ms[k].deliverable_hash is None
                }
        }),
{
    let total = milestone_total(milestones, milestones.len() as int);
    lemma_single_total(xfer(token, buyer, pre.me, total as i128));
    lemma_milestone_total_fits(milestones, milestones.len() as int);
}

proof fn lemma_milestone_total_fits(ms: Seq<BountyMilestoneInput>, n: int)
    requires
        0 <= n <= ms.len(),
        crate::bounty::milestone_amounts_refusal(ms, n) is None,
    ensures
        n > 0 ==> crate::common::fits_i128(milestone_total(ms, n)),
        milestone_total(ms, n) >= 0,
    decreases n,
{
    if n > 0 {
        lemma_milestone_total_fits(ms, n - 1);
    }
}

/// Releasing a jointly funded escrow takes every listed buyer's approval: a
/// caller who is not listed, or has already approved, is refused; every other
/// approval is recorded, and until it makes the approvals unanimous no token
/// moves and the escrow stays as it was; the unanimous approval pays out.
pub proof fn law_joint_release_needs_every_buyer(pre: ContractView, caller: Address, id: u32, now: u64, funds_available: bool)
    requires
        !pre.paused,
        pre.escrows.contains_key(id),
        crate::common::spec_is_open(pre.escrows[id].status),
        pre.multi_buyers.contains_key(id),
    ensures
        ({
            let buyers = pre.multi_buyers[id];
            let approvals = approvals_of(pre, id);
            let r = spec_release_escrow(pre, caller, id, now, funds_available);
            let mid = ContractView {
                multi_buyer_approvals: pre.multi_buyer_approvals.insert(id, approvals.push(caller)),
                ..pre
            };
            &&& (!buyers.contains(caller) || approvals.contains(caller)) ==> r is Err
            &&& (buyers.contains(caller) && !approvals.contains(caller) && approvals.len() + 1 < buyers.len())
                ==> r == Ok::<(ContractView, Seq<Transfer>), crate::errors::ContractError>((mid, Seq::empty()))
            &&& (buyers.contains(caller) && !approvals.contains(caller) && approvals.len() + 1 >= buyers.len())
                ==> r == spec_release_funds(mid, caller, id, now, funds_available)
        }),
{
}

/// A due renewal configured by an AutoRenewConfig extends the escrow's chain
/// by exactly one escrow: it is stored under the next id (the counter moves on
/// by one), is active from `now` for one interval, keeps the parties, amount,
/// token and sellers of the renewed escrow and counts one renewal more; its id
/// is appended to the history kept under the chain's first escrow, it belongs
/// to that same chain, and the buyer's allowance is pulled once for the amount.
/// No other escrow changes.
pub proof fn law_configured_renewal_extends_chain(
    pre: ContractView,
    id: u32,
    src: EscrowView,
    now: u64,
    funds_available: bool,
)
    requires
        renewal_kind(pre, id, src, funds_available) is Configured,
        spec_renew(pre, id, src, now, funds_available) is Ok,
    ensures
        ({
            let (post, ts) = spec_renew(pre, id, src, now, funds_available)->Ok_0;
            let n = pre.escrow_counter;
            let e = post.escrows[n];
            let origin = origin_of(pre, id);
            &&& post.escrow_counter == n + 1
            &&& post.escrows.dom() == pre.escrows.dom().insert(n)
            &&& forall|k: u32| k != n && pre.escrows.contains_key(k) ==> #[trigger] post.escrows[k] == pre.escrows[k]
            &&& e.id == n && e.status == EscrowStatus::Active && e.created_at == now
            &&& e.deadline == now + interval_secs(src)
            &&& e.buyer == src.buyer && e.seller == src.seller && e.arbiter == src.arbiter
            &&& e.amount == src.amount && e.token == src.token && e.sellers == src.sellers
            &&& e.extensions.renewals_completed == src.extensions.renewals_completed + 1
            &&& post.renewal_history[origin] == history_of(pre, origin).push(n)
            &&& forall|k: u32| k != origin && pre.renewal_history.contains_key(k)
                ==> #[trigger] post.renewal_history[k] == pre.renewal_history[k]
            &&& origin_of(post, n) == origin
            &&& ts == seq![Transfer { token: src.token, from: src.buyer, to: pre.me, amount: src.amount, by_allowance: true }]
        }),
{
    let (post, ts) = spec_renew(pre, id, src, now, funds_available)->Ok_0;
    assert(post.escrows.dom() =~= pre.escrows.dom().insert(pre.escrow_counter));
}

} // verus!
