//! Who receives what: the payouts of the operations that move escrowed funds,
//! stated per recipient.

use crate::admin::spec_claim_insurance;
use crate::approvals::{approvals_so_far, spec_approve_release};
use crate::bounty::spec_verify_bounty_milestone;
use crate::cancel::{cancellation_penalty, spec_accept_cancellation};
use crate::common::{
    buyer_payout, delegates_of, other_buyer_transfers, other_buyers_total, other_seller_transfers, seller_payout,
    share_recipient, shares_prefix_fit, shares_total, spec_receipt_holder, tdiv, xfer,
};
use crate::create::bps_total;
use crate::dispute::{
    arbiter_fee_bps_of, spec_enforce_dispute_timeout, spec_execute_verdict, spec_verdict_fees, timeout_winner,
    timeouts_of, verdict_transfers,
};
use crate::laws::{
    buyers_well_formed, law_buyer_payout_moves_total, lemma_floor_share, lemma_nonneg_product, lemma_penalty_bounds,
    transfers_total,
};
use crate::model::{
    Address, BountyMilestone, BountyMilestoneStatus, DisputeDefaultWinner, EscrowStatus, EscrowView, Transfer,
};
use crate::release::{collateral_of, spec_release_escrow};
use crate::renew::renewal_kind;
use crate::state::ContractView;
use vstd::prelude::*;

verus! {

/// What the movements of `ts` pay into the accounts of `to`.
pub open spec fn paid_into(ts: Seq<Transfer>, to: Set<Address>) -> int
    decreases ts.len(),
{
    if ts.len() == 0 {
        0
    } else {
        paid_into(ts.drop_last(), to) + if to.contains(ts.last().to) {
            ts.last().amount as int
        } else {
            0int
        }
    }
}

/// Whether every movement of `ts` goes to an account of `to`.
pub open spec fn all_into(ts: Seq<Transfer>, to: Set<Address>) -> bool {
    forall|k: int| 0 <= k < ts.len() ==> to.contains(#[trigger] ts[k].to)
}

/// The accounts of the buyer side of escrow `id` (recorded as `e`): its buyer
/// and, for a jointly funded escrow, every listed buyer.
pub open spec fn buyer_side(pre: ContractView, id: u32, e: EscrowView) -> Set<Address> {
    if pre.multi_buyers.contains_key(id) {
        pre.multi_buyers[id].to_set().insert(e.buyer)
    } else {
        set![e.buyer]
    }
}

/// Concatenated movements pay into a set of accounts what each part pays.
pub proof fn lemma_paid_into_concat(a: Seq<Transfer>, b: Seq<Transfer>, to: Set<Address>)
    ensures
        paid_into(a + b, to) == paid_into(a, to) + paid_into(b, to),
    decreases b.len(),
{
    if b.len() == 0 {
        assert(a + b =~= a);
    } else {
        lemma_paid_into_concat(a, b.drop_last(), to);
        assert((a + b).drop_last() =~= a + b.drop_last());
    }
}

/// Movements that all go into `to` pay into it everything they move; movements
/// none of which goes into `to` pay nothing into it.
pub proof fn lemma_paid_into_all_or_none(ts: Seq<Transfer>, to: Set<Address>)
    ensures
        all_into(ts, to) ==> paid_into(ts, to) == transfers_total(ts),
        (forall|k: int| 0 <= k < ts.len() ==> !to.contains(#[trigger] ts[k].to)) ==> paid_into(ts, to) == 0,
    decreases ts.len(),
{
    if ts.len() > 0 {
        let d = ts.drop_last();
        lemma_paid_into_all_or_none(d, to);
        if all_into(ts, to) {
            assert forall|k: int| 0 <= k < d.len() implies to.contains(#[trigger] d[k].to) by {
                assert(d[k] == ts[k]);
            }
            assert(to.contains(ts[ts.len() - 1].to));
        }
        if forall|k: int| 0 <= k < ts.len() ==> !to.contains(#[trigger] ts[k].to) {
            assert forall|k: int| 0 <= k < d.len() implies !to.contains(#[trigger] d[k].to) by {
                assert(d[k] == ts[k]);
            }
            assert(!to.contains(ts[ts.len() - 1].to));
        }
    }
}

/// A single movement pays its amount into `to` if its recipient is there.
pub proof fn lemma_paid_into_single(t: Transfer, to: Set<Address>)
    ensures
        paid_into(seq![t], to) == if to.contains(t.to) {
            t.amount as int
        } else {
            0int
        },
{
    let s = seq![t];
    assert(s.drop_last() =~= Seq::<Transfer>::empty());
    assert(s.last() == t);
    assert(paid_into(Seq::<Transfer>::empty(), to) == 0);
}

/// The pro-rata movements to the listed buyers at positions `1..n` go to
/// listed buyers.
proof fn lemma_other_buyer_transfers_into(
    token: Address,
    me: Address,
    buyers: Seq<Address>,
    shares: Map<Address, i128>,
    total: i128,
    sum: int,
    n: int,
)
    requires
        n <= buyers.len(),
    ensures
        all_into(other_buyer_transfers(token, me, buyers, shares, total, sum, n), buyers.to_set()),
    decreases n,
{
    if n > 1 {
        lemma_other_buyer_transfers_into(token, me, buyers, shares, total, sum, n - 1);
        let prev = other_buyer_transfers(token, me, buyers, shares, total, sum, n - 1);
        let ts = other_buyer_transfers(token, me, buyers, shares, total, sum, n);
        assert(buyers.to_set().contains(buyers[n - 1]));
        assert forall|k: int| 0 <= k < ts.len() implies buyers.to_set().contains(#[trigger] ts[k].to) by {
            if k < prev.len() {
                assert(ts[k] == prev[k]);
            }
        }
    }
}

/// Every movement of a refund to the buyer side of escrow `id` goes to an
/// account of that side.
pub proof fn lemma_buyer_payout_into_buyer_side(pre: ContractView, id: u32, e: EscrowView, total: i128)
    requires
        buyer_payout(pre, id, e, total) is Some,
    ensures
        all_into(buyer_payout(pre, id, e, total)->0, buyer_side(pre, id, e)),
{
    let side = buyer_side(pre, id, e);
    let single = seq![xfer(e.token, pre.me, e.buyer, total)];
    assert(side.contains(e.buyer));
    assert(single[0].to == e.buyer);
    if pre.multi_buyers.contains_key(id) && pre.buyer_shares.contains_key(id) {
        let buyers = pre.multi_buyers[id];
        let shares = pre.buyer_shares[id];
        let n = buyers.len() as int;
        if n > 0 && total > 0 && shares_prefix_fit(buyers, shares, n) {
            let sum = shares_total(buyers, shares, n);
            if sum > 0 {
                lemma_other_buyer_transfers_into(e.token, pre.me, buyers, shares, total, sum, n);
                let others = other_buyer_transfers(e.token, pre.me, buyers, shares, total, sum, n);
                let rest = total - other_buyers_total(buyers, shares, total, sum, n);
                assert(buyers.to_set().contains(buyers[0]));
                let ts = buyer_payout(pre, id, e, total)->0;
                assert forall|k: int| 0 <= k < ts.len() implies side.contains(#[trigger] ts[k].to) by {
                    if k < others.len() {
                        assert(ts[k] == others[k]);
                        assert(buyers.to_set().contains(others[k].to));
                    }
                }
            }
        }
    }
}

/// Movements that all go to the buyer side pay it everything they move and
/// pay nothing to an account outside it.
proof fn lemma_buyer_side_part(ts: Seq<Transfer>, side: Set<Address>, a: Address)
    requires
        all_into(ts, side),
        !side.contains(a),
    ensures
        paid_into(ts, side) == transfers_total(ts),
        paid_into(ts, set![a]) == 0,
{
    lemma_paid_into_all_or_none(ts, side);
    assert forall|k: int| 0 <= k < ts.len() implies !set![a].contains(#[trigger] ts[k].to) by {
        assert(side.contains(ts[k].to));
    }
    lemma_paid_into_all_or_none(ts, set![a]);
}

/// What one movement, or none, pays into the three parties of a verdict.
proof fn lemma_verdict_single(ts: Seq<Transfer>, side: Set<Address>, seller: Address, arbiter: Address)
    requires
        ts.len() <= 1,
    ensures
        ts.len() == 0 ==> paid_into(ts, side) == 0 && paid_into(ts, set![seller]) == 0 && paid_into(
            ts,
            set![arbiter],
        ) == 0,
        ts.len() == 1 ==> paid_into(ts, side) == (if side.contains(ts[0].to) {
            ts[0].amount as int
        } else {
            0int
        }) && paid_into(ts, set![seller]) == (if ts[0].to == seller {
            ts[0].amount as int
        } else {
            0int
        }) && paid_into(ts, set![arbiter]) == (if ts[0].to == arbiter {
            ts[0].amount as int
        } else {
            0int
        }),
{
    if ts.len() == 1 {
        assert(ts =~= seq![ts[0]]);
        lemma_paid_into_single(ts[0], side);
        lemma_paid_into_single(ts[0], set![seller]);
        lemma_paid_into_single(ts[0], set![arbiter]);
    }
}

/// Settling a verdict that gives `buyer_percent` of what is left after the
/// arbiter's fee `afee` and the protocol fee `pfee` pays, to each party:
/// the buyer side its percentage of that rest, rounded toward zero, plus (when
/// it won anything) the forfeit share of the seller's collateral, the
/// collateral times the forfeit bps over 10 000 rounded toward zero; the
/// seller the rest of the remainder plus its collateral less that forfeit;
/// the arbiter its fee. Nothing goes anywhere else. The parties are taken to
/// be distinct accounts.
pub proof fn law_verdict_settle_pays_each_party(
    pre: ContractView,
    id: u32,
    buyer_percent: u32,
    arbiter: Address,
    afee: i128,
    pfee: i128,
)
    requires
        pre.escrows.contains_key(id),
        buyer_percent <= 100,
        afee >= 0,
        pfee >= 0,
        pre.escrows[id].extensions.collateral_forfeit_bps <= 10000,
        buyers_well_formed(pre, id),
        verdict_transfers(pre, id, buyer_percent, arbiter, afee, pfee) is Ok,
        !buyer_side(pre, id, pre.escrows[id]).contains(pre.escrows[id].seller),
        !buyer_side(pre, id, pre.escrows[id]).contains(arbiter),
        arbiter != pre.escrows[id].seller,
    ensures
        ({
            let ts = verdict_transfers(pre, id, buyer_percent, arbiter, afee, pfee)->Ok_0;
            let e = pre.escrows[id];
            let side = buyer_side(pre, id, e);
            let rest = e.amount - afee - pfee;
            let won = tdiv(rest * buyer_percent, 100);
            let c = collateral_of(pre, id) as int;
            let forfeit = tdiv(c * e.extensions.collateral_forfeit_bps, 10000);
            &&& paid_into(ts, side) == won + if c > 0 && buyer_percent > 0 {
                forfeit
            } else {
                0
            }
            &&& paid_into(ts, set![e.seller]) == rest - won + if c <= 0 {
                0
            } else if buyer_percent > 0 {
                c - forfeit
            } else {
                c
            }
            &&& paid_into(ts, set![arbiter]) == afee
            &&& forall|k: int|
                0 <= k < ts.len() ==> side.contains(#[trigger] ts[k].to) || ts[k].to == e.seller || ts[k].to
                    == arbiter
        }),
{
    let e = pre.escrows[id];
    let side = buyer_side(pre, id, e);
    let seller = e.seller;
    let dist = e.amount - pfee - afee;
    let bprod = dist * buyer_percent;
    lemma_nonneg_product(dist, buyer_percent as int);
    lemma_floor_share(bprod, 100);
    let bamt = tdiv(bprod, 100);
    assert(bprod <= dist * 100) by (nonlinear_arith)
        requires
            dist >= 0,
            buyer_percent <= 100,
            bprod == dist * buyer_percent,
    ;
    let samt = dist - bamt;
    let fee_ts = if afee > 0 {
        seq![xfer(e.token, pre.me, arbiter, afee)]
    } else {
        Seq::<Transfer>::empty()
    };
    let bpay = if bamt > 0 {
        buyer_payout(pre, id, e, bamt as i128)
    } else {
        Some(Seq::<Transfer>::empty())
    };
    let sts = if samt > 0 {
        seq![xfer(e.token, pre.me, e.seller, samt as i128)]
    } else {
        Seq::<Transfer>::empty()
    };
    let c = collateral_of(pre, id);
    let fprod = c * e.extensions.collateral_forfeit_bps;
    let forfeit = tdiv(fprod, 10000);
    if c > 0 {
        lemma_nonneg_product(c as int, e.extensions.collateral_forfeit_bps as int);
        lemma_floor_share(fprod, 10000);
        assert(fprod <= c * 10000) by (nonlinear_arith)
            requires
                c > 0,
                e.extensions.collateral_forfeit_bps <= 10000,
                fprod == c * e.extensions.collateral_forfeit_bps,
        ;
    }
    let fpay = if c > 0 && buyer_percent > 0 && forfeit > 0 {
        buyer_payout(pre, id, e, forfeit as i128)
    } else {
        Some(Seq::<Transfer>::empty())
    };
    let cts = if c <= 0 {
        Seq::<Transfer>::empty()
    } else if buyer_percent > 0 {
        if c - forfeit > 0 {
            seq![xfer(e.token, pre.me, e.seller, (c - forfeit) as i128)]
        } else {
            Seq::<Transfer>::empty()
        }
    } else {
        seq![xfer(e.token, pre.me, e.seller, c)]
    };
    // The buyer side's two parts.
    if bamt > 0 {
        law_buyer_payout_moves_total(pre, id, e, bamt as i128);
        lemma_buyer_payout_into_buyer_side(pre, id, e, bamt as i128);
    }
    lemma_buyer_side_part(bpay->0, side, seller);
    lemma_buyer_side_part(bpay->0, side, arbiter);
    if c > 0 && buyer_percent > 0 && forfeit > 0 {
        law_buyer_payout_moves_total(pre, id, e, forfeit as i128);
        lemma_buyer_payout_into_buyer_side(pre, id, e, forfeit as i128);
    }
    lemma_buyer_side_part(fpay->0, side, seller);
    lemma_buyer_side_part(fpay->0, side, arbiter);
    // The single movements to the arbiter and the seller.
    lemma_verdict_single(fee_ts, side, seller, arbiter);
    lemma_verdict_single(sts, side, seller, arbiter);
    lemma_verdict_single(cts, side, seller, arbiter);
    let ts = fee_ts + bpay->0 + sts + fpay->0 + cts;
    assert(ts == verdict_transfers(pre, id, buyer_percent, arbiter, afee, pfee)->Ok_0);
    let a = fee_ts + bpay->0;
    let b = a + sts;
    let d = b + fpay->0;
    lemma_paid_into_concat(fee_ts, bpay->0, side);
    lemma_paid_into_concat(a, sts, side);
    lemma_paid_into_concat(b, fpay->0, side);
    lemma_paid_into_concat(d, cts, side);
    lemma_paid_into_concat(fee_ts, bpay->0, set![seller]);
    lemma_paid_into_concat(a, sts, set![seller]);
    lemma_paid_into_concat(b, fpay->0, set![seller]);
    lemma_paid_into_concat(d, cts, set![seller]);
    lemma_paid_into_concat(fee_ts, bpay->0, set![arbiter]);
    lemma_paid_into_concat(a, sts, set![arbiter]);
    lemma_paid_into_concat(b, fpay->0, set![arbiter]);
    lemma_paid_into_concat(d, cts, set![arbiter]);
    assert forall|k: int| 0 <= k < ts.len() implies side.contains(#[trigger] ts[k].to) || ts[k].to == e.seller
        || ts[k].to == arbiter by {
        let n1 = fee_ts.len() as int;
        let n2 = n1 + bpay->0.len();
        let n3 = n2 + sts.len();
        let n4 = n3 + fpay->0.len();
        if k < n1 {
            assert(ts[k] == fee_ts[k]);
        } else if k < n2 {
            assert(ts[k] == bpay->0[k - n1]);
        } else if k < n3 {
            assert(ts[k] == sts[k - n2]);
        } else if k < n4 {
            assert(ts[k] == fpay->0[k - n3]);
        } else {
            assert(ts[k] == cts[k - n4]);
        }
    }
}

/// Carrying out a verdict that gives `buyer_percent` of an escrow of
/// non-negative amount to the buyer side pays each party: the arbiter its fee
/// (the amount times its fee bps over 10 000, rounded toward zero); the buyer
/// side its percentage, rounded toward zero, of what is left after that fee and
/// the protocol fee (computed the same way from the protocol fee bps), plus,
/// when it won anything, the forfeit share of the seller's collateral; the
/// seller the rest of that remainder and its collateral less the forfeit. The
/// protocol fee stays in the contract. The parties are taken to be distinct
/// accounts.
pub proof fn law_verdict_pays_each_party(pre: ContractView, id: u32, buyer_percent: u32, arbiter: Address)
    requires
        pre.escrows.contains_key(id),
        pre.escrows[id].amount >= 0,
        buyer_percent <= 100,
        pre.escrows[id].extensions.collateral_forfeit_bps <= 10000,
        buyers_well_formed(pre, id),
        spec_execute_verdict(pre, id, buyer_percent, arbiter) is Ok,
        !buyer_side(pre, id, pre.escrows[id]).contains(pre.escrows[id].seller),
        !buyer_side(pre, id, pre.escrows[id]).contains(arbiter),
        arbiter != pre.escrows[id].seller,
    ensures
        ({
            let ts = spec_execute_verdict(pre, id, buyer_percent, arbiter)->Ok_0.1;
            let e = pre.escrows[id];
            let side = buyer_side(pre, id, e);
            let afee = tdiv(e.amount * arbiter_fee_bps_of(pre, e), 10000);
            let pfee = tdiv(e.amount * pre.protocol_fee_bps, 10000);
            let rest = e.amount - afee - pfee;
            let won = tdiv(rest * buyer_percent, 100);
            let c = collateral_of(pre, id) as int;
            let forfeit = tdiv(c * e.extensions.collateral_forfeit_bps, 10000);
            &&& paid_into(ts, side) == won + if c > 0 && buyer_percent > 0 {
                forfeit
            } else {
                0
            }
            &&& paid_into(ts, set![e.seller]) == rest - won + if c <= 0 {
                0
            } else if buyer_percent > 0 {
                c - forfeit
            } else {
                c
            }
            &&& paid_into(ts, set![arbiter]) == afee
            &&& forall|k: int|
                0 <= k < ts.len() ==> side.contains(#[trigger] ts[k].to) || ts[k].to == e.seller || ts[k].to
                    == arbiter
        }),
{
    let e = pre.escrows[id];
    let (s3, afee, pfee) = spec_verdict_fees(pre, id)->Ok_0;
    let abps = arbiter_fee_bps_of(pre, e);
    lemma_nonneg_product(e.amount as int, abps as int);
    lemma_floor_share(e.amount * abps, 10000);
    lemma_nonneg_product(e.amount as int, pre.protocol_fee_bps as int);
    lemma_floor_share(e.amount * pre.protocol_fee_bps, 10000);
    assert(s3.escrows == pre.escrows);
    assert(s3.multi_buyers == pre.multi_buyers);
    assert(s3.buyer_shares == pre.buyer_shares);
    assert(s3.seller_collateral == pre.seller_collateral);
    assert(afee == tdiv(e.amount * abps, 10000));
    assert(pfee == tdiv(e.amount * pre.protocol_fee_bps, 10000));
    law_verdict_settle_pays_each_party(s3, id, buyer_percent, arbiter, afee, pfee);
}

/// Accepting a cancellation request before it expires refunds the buyer side:
/// with no fee recipient configured, every movement goes to the buyer side and
/// together they return the whole amount (the penalty included). With a fee
/// recipient, every movement goes to the buyer side or to that recipient: the
/// buyer side gets the amount less the penalty and the recipient exactly the
/// penalty, the amount times the penalty bps over 10 000, rounded down. In
/// neither case does anything go to another account, the seller's included.
pub proof fn law_accepted_cancellation_refunds_buyer_side(pre: ContractView, caller: Address, id: u32, now: u64)
    requires
        spec_accept_cancellation(pre, caller, id, now) is Ok,
        now <= pre.cancellations[id].expires_at,
        pre.escrows[id].amount >= 0,
        pre.cancellation_penalty_bps <= 10000,
        buyers_well_formed(pre, id),
    ensures
        ({
            let ts = spec_accept_cancellation(pre, caller, id, now)->Ok_0.1;
            let e = pre.escrows[id];
            let side = buyer_side(pre, id, e);
            let penalty = (e.amount * pre.cancellation_penalty_bps) / 10000;
            match pre.fee_recipient {
                None => all_into(ts, side) && paid_into(ts, side) == e.amount,
                Some(r) => (forall|k: int| 0 <= k < ts.len() ==> side.contains(#[trigger] ts[k].to) || ts[k].to == r)
                    && (!side.contains(r) ==> paid_into(ts, side) == e.amount - penalty && paid_into(ts, set![r])
                    == penalty),
            }
        }),
{
    let e = pre.escrows[id];
    let side = buyer_side(pre, id, e);
    lemma_penalty_bounds(pre, e.amount);
    let pen = cancellation_penalty(pre, e.amount)->0;
    let ret = e.amount - pen;
    let back = if ret > 0 {
        buyer_payout(pre, id, e, ret as i128)
    } else {
        Some(Seq::<Transfer>::empty())
    };
    let fee = if pen <= 0 {
        Some(Seq::<Transfer>::empty())
    } else {
        match pre.fee_recipient {
            Some(r) => Some(seq![xfer(e.token, pre.me, r, pen)]),
            None => buyer_payout(pre, id, e, pen),
        }
    };
    if ret > 0 {
        law_buyer_payout_moves_total(pre, id, e, ret as i128);
        lemma_buyer_payout_into_buyer_side(pre, id, e, ret as i128);
    }
    lemma_paid_into_all_or_none(back->0, side);
    let ts = back->0 + fee->0;
    assert(ts == spec_accept_cancellation(pre, caller, id, now)->Ok_0.1);
    lemma_paid_into_concat(back->0, fee->0, side);
    match pre.fee_recipient {
        None => {
            if pen > 0 {
                law_buyer_payout_moves_total(pre, id, e, pen);
                lemma_buyer_payout_into_buyer_side(pre, id, e, pen);
            }
            lemma_paid_into_all_or_none(fee->0, side);
            assert forall|k: int| 0 <= k < ts.len() implies side.contains(#[trigger] ts[k].to) by {
                if k < back->0.len() {
                    assert(ts[k] == back->0[k]);
                } else {
                    assert(ts[k] == fee->0[k - back->0.len()]);
                }
            }
        },
        Some(r) => {
            assert forall|k: int| 0 <= k < ts.len() implies side.contains(#[trigger] ts[k].to) || ts[k].to == r by {
                if k < back->0.len() {
                    assert(ts[k] == back->0[k]);
                } else {
                    assert(ts[k] == fee->0[k - back->0.len()]);
                }
            }
            if !side.contains(r) {
                lemma_buyer_side_part(back->0, side, r);
                lemma_paid_into_concat(back->0, fee->0, set![r]);
                if pen > 0 {
                    lemma_paid_into_single(xfer(e.token, pre.me, r, pen), side);
                    lemma_paid_into_single(xfer(e.token, pre.me, r, pen), set![r]);
                }
            }
        },
    }
}

/// The accounts that a payout to the sellers of escrow `id` (recorded as `e`)
/// may reach: for a single seller, the holder of the escrow's receipt, or the
/// seller when there is none; for several, each seller's delegate where it has
/// named one, else the seller itself.
pub open spec fn seller_side(pre: ContractView, id: u32, e: EscrowView) -> Set<Address> {
    if e.sellers.len() <= 1 {
        set![
            match spec_receipt_holder(pre, id) {
                Some(h) => h,
                None => e.seller,
            },
        ]
    } else {
        Set::new(
            |a: Address|
                exists|k: int|
                    0 <= k < e.sellers.len() && a == #[trigger] share_recipient(delegates_of(pre, id), e.sellers[k].0),
        )
    }
}

/// The movements to the sellers at positions `1..n` go to their recipients.
proof fn lemma_other_seller_transfers_into(
    me: Address,
    delegates: Map<Address, Address>,
    e: EscrowView,
    total: i128,
    n: int,
    side: Set<Address>,
)
    requires
        n <= e.sellers.len(),
        forall|k: int| 0 <= k < e.sellers.len() ==> side.contains(#[trigger] share_recipient(delegates, e.sellers[k].0)),
    ensures
        all_into(other_seller_transfers(me, delegates, e, total, n), side),
    decreases n,
{
    if n > 1 {
        lemma_other_seller_transfers_into(me, delegates, e, total, n - 1, side);
        let prev = other_seller_transfers(me, delegates, e, total, n - 1);
        let ts = other_seller_transfers(me, delegates, e, total, n);
        assert(side.contains(share_recipient(delegates, e.sellers[n - 1].0)));
        assert forall|k: int| 0 <= k < ts.len() implies side.contains(#[trigger] ts[k].to) by {
            if k < prev.len() {
                assert(ts[k] == prev[k]);
            }
        }
    }
}

/// Every movement of a payout to the sellers of escrow `id` goes to an account
/// of its seller side.
pub proof fn lemma_seller_payout_into_seller_side(pre: ContractView, id: u32, e: EscrowView, total: i128)
    requires
        seller_payout(pre, id, e, total) is Some,
    ensures
        all_into(seller_payout(pre, id, e, total)->0, seller_side(pre, id, e)),
{
    let side = seller_side(pre, id, e);
    let ts = seller_payout(pre, id, e, total)->0;
    if e.sellers.len() > 1 {
        let d = delegates_of(pre, id);
        assert forall|k: int| 0 <= k < e.sellers.len() implies side.contains(#[trigger] share_recipient(d, e.sellers[k].0)) by {
        }
        lemma_other_seller_transfers_into(pre.me, d, e, total, e.sellers.len() as int, side);
        let others = other_seller_transfers(pre.me, d, e, total, e.sellers.len() as int);
        assert(side.contains(share_recipient(d, e.sellers[0].0)));
        assert forall|k: int| 0 <= k < ts.len() implies side.contains(#[trigger] ts[k].to) by {
            if k < others.len() {
                assert(ts[k] == others[k]);
            }
        }
    }
}

/// Approving the release of an escrow under multi-party approval records the
/// approval. Until the approvals reach the threshold nothing moves and the
/// escrow stays as it was. The approval that reaches it pays out the escrow,
/// when the sellers' bps add up to at most 10 000: its whole amount goes to the
/// sellers' accounts and then any seller collateral, in one last movement,
/// back to the seller, so that together they move the amount plus the
/// collateral; the escrow is `Released` and a positive collateral's record
/// gone.
pub proof fn law_threshold_approval_pays_out(pre: ContractView, approver: Address, id: u32)
    requires
        spec_approve_release(pre, approver, id) is Ok,
        pre.escrows[id].amount >= 0,
        bps_total(pre.escrows[id].sellers, pre.escrows[id].sellers.len() as int) <= 10000,
    ensures
        ({
            let (post, ts) = spec_approve_release(pre, approver, id)->Ok_0;
            let e = pre.escrows[id];
            let c = collateral_of(pre, id) as int;
            let approvals = approvals_so_far(pre, id).push(approver);
            let sellers = seller_side(pre, id, e);
            &&& post.release_approvals.contains_key(id) && post.release_approvals[id] == approvals
            &&& approvals.len() < pre.approval_threshold[id] ==> ts.len() == 0 && post.escrows == pre.escrows
            &&& approvals.len() >= pre.approval_threshold[id] ==> {
                &&& post.escrows[id] == EscrowView { status: EscrowStatus::Released, ..e }
                &&& c > 0 ==> !post.seller_collateral.contains_key(id)
                &&& transfers_total(ts) == e.amount + if c > 0 {
                    c
                } else {
                    0
                }
                &&& c > 0 ==> ts.last() == Transfer { token: e.token, from: pre.me, to: e.seller, amount: c as i128, by_allowance: false }
                    && all_into(ts.drop_last(), sellers) && transfers_total(ts.drop_last()) == e.amount
                &&& c <= 0 ==> all_into(ts, sellers)
            }
        }),
{
    let e = pre.escrows[id];
    let approvals = approvals_so_far(pre, id).push(approver);
    if approvals.len() >= pre.approval_threshold[id] {
        let pay = seller_payout(pre, id, e, e.amount)->0;
        crate::laws::law_seller_payout_moves_total(pre, id, e, e.amount);
        lemma_seller_payout_into_seller_side(pre, id, e, e.amount);
        let c = collateral_of(pre, id);
        if c > 0 {
            let t = xfer(e.token, pre.me, e.seller, c);
            crate::laws::lemma_transfers_total_push(pay, t);
            assert(pay.push(t).drop_last() =~= pay);
        }
    }
}

/// Releasing an escrow held by a single buyer, when no renewal follows and
/// the sellers' bps add up to at most 10 000, pays its whole amount to the
/// sellers' accounts and then any seller collateral, in one last movement,
/// back to the seller; the escrow is `Released`.
pub proof fn law_release_pays_sellers_then_collateral(
    pre: ContractView,
    caller: Address,
    id: u32,
    now: u64,
    funds_available: bool,
)
    requires
        spec_release_escrow(pre, caller, id, now, funds_available) is Ok,
        !pre.multi_buyers.contains_key(id),
        pre.escrows[id].amount >= 0,
        bps_total(pre.escrows[id].sellers, pre.escrows[id].sellers.len() as int) <= 10000,
        ({
            let k = renewal_kind(pre, id, pre.escrows[id], funds_available);
            k is Nothing || k is Unfunded
        }),
    ensures
        ({
            let (post, ts) = spec_release_escrow(pre, caller, id, now, funds_available)->Ok_0;
            let e = pre.escrows[id];
            let c = collateral_of(pre, id) as int;
            let sellers = seller_side(pre, id, e);
            &&& post.escrows[id] == EscrowView { status: EscrowStatus::Released, ..e }
            &&& c > 0 ==> ts.last() == Transfer { token: e.token, from: pre.me, to: e.seller, amount: c as i128, by_allowance: false }
                && all_into(ts.drop_last(), sellers) && transfers_total(ts.drop_last()) == e.amount
            &&& c <= 0 ==> all_into(ts, sellers) && transfers_total(ts) == e.amount
        }),
{
    let e = pre.escrows[id];
    let s1 = if caller == e.buyer {
        crate::release::note_buyer_action(pre, e, id, now)
    } else {
        pre
    };
    assert(seller_side(s1, id, e) == seller_side(pre, id, e));
    let pay = seller_payout(s1, id, e, e.amount)->0;
    crate::laws::law_seller_payout_moves_total(s1, id, e, e.amount);
    lemma_seller_payout_into_seller_side(s1, id, e, e.amount);
    let c = collateral_of(s1, id);
    let coll = if c > 0 {
        seq![xfer(e.token, s1.me, e.seller, c)]
    } else {
        Seq::<Transfer>::empty()
    };
    assert(pay + coll + Seq::<Transfer>::empty() =~= pay + coll);
    if c > 0 {
        let t = xfer(e.token, s1.me, e.seller, c);
        assert(pay + coll =~= pay.push(t));
        assert(pay.push(t).drop_last() =~= pay);
    } else {
        assert(pay + coll =~= pay);
    }
}

/// Ending a dispute on timeout pays the whole escrow, with no fee, to the
/// winner by default: the escrow's own choice when it made one (1 for the
/// seller, anything else for the buyer), else the contract's default. A
/// seller win is one movement of the amount to the seller and leaves the
/// escrow `Released`; a buyer win sends every movement to the buyer side,
/// together the whole amount, and leaves it `Refunded`. The dispute is
/// resolved and the arbiter's count of timeouts goes up by one.
pub proof fn law_dispute_timeout_pays_default_winner(pre: ContractView, id: u32, now: u64)
    requires
        spec_enforce_dispute_timeout(pre, id, now) is Ok,
        pre.escrows[id].amount >= 0,
        buyers_well_formed(pre, id),
    ensures
        ({
            let (post, ts) = spec_enforce_dispute_timeout(pre, id, now)->Ok_0;
            let e = pre.escrows[id];
            let seller_wins = match e.extensions.dispute_default_winner {
                Some(w) => w == 1,
                None => pre.default_dispute_winner == DisputeDefaultWinner::Seller,
            };
            &&& seller_wins ==> ts == seq![
                Transfer { token: e.token, from: pre.me, to: e.seller, amount: e.amount, by_allowance: false },
            ] && post.escrows[id] == EscrowView { status: EscrowStatus::Released, ..e }
            &&& !seller_wins ==> all_into(ts, buyer_side(pre, id, e)) && paid_into(ts, buyer_side(pre, id, e))
                == e.amount && post.escrows[id] == EscrowView { status: EscrowStatus::Refunded, ..e }
            &&& post.disputes[id].resolved
            &&& post.arbiter_timeouts[e.arbiter] == timeouts_of(pre, e.arbiter) + 1
        }),
{
    let e = pre.escrows[id];
    let s1 = ContractView {
        arbiter_timeouts: pre.arbiter_timeouts.insert(e.arbiter, (timeouts_of(pre, e.arbiter) + 1) as u32),
        ..pre
    };
    if timeout_winner(pre, e) != DisputeDefaultWinner::Seller {
        assert(buyer_side(s1, id, e) == buyer_side(pre, id, e));
        law_buyer_payout_moves_total(s1, id, e, e.amount);
        lemma_buyer_payout_into_buyer_side(s1, id, e, e.amount);
        lemma_paid_into_all_or_none(buyer_payout(s1, id, e, e.amount)->0, buyer_side(pre, id, e));
    }
}

/// Verifying a submitted bounty milestone pays its amount, in one movement
/// out of the contract, to the solver (the bounty's seller) and marks it
/// paid, leaving the other milestones as they were. The verification that
/// leaves every milestone paid settles the bounty: its escrow becomes
/// `Released`; before that the escrow stays as it was, claimed.
pub proof fn law_verified_milestone_pays_solver(pre: ContractView, id: u32, index: u32)
    requires
        spec_verify_bounty_milestone(pre, id, index) is Ok,
    ensures
        ({
            let (post, ts) = spec_verify_bounty_milestone(pre, id, index)->Ok_0;
            let e = pre.escrows[id];
            let ms = pre.bounty_milestones[id];
            let ms2 = post.bounty_milestones[id];
            let all_paid = forall|k: int| 0 <= k < ms2.len() ==> #[trigger] ms2[k].status == BountyMilestoneStatus::Paid;
            &&& e.status == EscrowStatus::BountyClaimed
            &&& index < ms.len() && ms[index as int].status == BountyMilestoneStatus::Submitted
            &&& ms2.len() == ms.len()
            &&& ms2[index as int] == BountyMilestone { status: BountyMilestoneStatus::Paid, ..ms[index as int] }
            &&& forall|k: int| 0 <= k < ms.len() && k != index ==> #[trigger] ms2[k] == ms[k]
            &&& ts == seq![
                Transfer { token: e.token, from: pre.me, to: e.seller, amount: ms[index as int].amount, by_allowance: false },
            ]
            &&& all_paid ==> post.escrows[id] == EscrowView { status: EscrowStatus::Released, ..e }
            &&& !all_paid ==> post.escrows[id] == e
        }),
{
}

/// A successful insurance claim pays, in exactly one movement out of the
/// contract in the escrow's token, to the claimant (the escrow's buyer or
/// seller) half the escrow's amount, rounded toward zero, or what the pool
/// holds if that is less; the pool shrinks by that much and the escrow's claim
/// is recorded.
pub proof fn law_insurance_claim_pays_claimant(pre: ContractView, claimant: Address, id: u32, now: u64)
    requires
        spec_claim_insurance(pre, claimant, id, now) is Ok,
    ensures
        ({
            let (post, ts) = spec_claim_insurance(pre, claimant, id, now)->Ok_0;
            let e = pre.escrows[id];
            let half = tdiv(e.amount as int, 2);
            let claim = if pre.insurance_pool < half {
                pre.insurance_pool as int
            } else {
                half
            };
            &&& claimant == e.buyer || claimant == e.seller
            &&& claim > 0
            &&& ts.len() == 1
            &&& ts[0] == Transfer { token: e.token, from: pre.me, to: claimant, amount: claim as i128, by_allowance: false }
            &&& post.insurance_pool == pre.insurance_pool - claim
            &&& post.insurance_claimed.contains_key(id) && post.insurance_claimed[id]
            &&& post.escrows == pre.escrows
        }),
{
}

} // verus!
