//! Escrows released in proportional milestones, each worth a share in bps.

use crate::common::{fits_i128, lemma_map_values_insert, lemma_map_values_lookup, outcome, outcome_unit, outcome_with, tdiv, xfer, Step, StepWith};
use crate::create::{basic_request, spec_create_core};
use crate::errors::ContractError;
use crate::model::{
    Address, EscrowCreateRequest, EscrowStatus, Hash32, MilestoneInput, MilestoneState, MilestoneStateStatus,
    MilestoneStateView, Transfer,
};
use crate::release::with_status;
use crate::state::{AhjoorEscrowContract, ContractView, MAX_MILESTONES};
use vstd::prelude::*;

verus! {

broadcast use vstd::std_specs::hash::group_hash_axioms;

/// The sum of the first `n` milestones' bps, saturating at the largest u32.
pub open spec fn bps_sum(ms: Seq<MilestoneInput>, n: int) -> u32
    decreases n,
{
    if n <= 0 {
        0
    } else {
        let prev = bps_sum(ms, n - 1);
        if prev + ms[n - 1].release_bps > u32::MAX {
            u32::MAX
        } else {
            (prev + ms[n - 1].release_bps) as u32
        }
    }
}

pub open spec fn has_zero_bps(ms: Seq<MilestoneInput>, n: int) -> bool {
    exists|k: int| 0 <= k < n && #[trigger] ms[k].release_bps == 0
}

pub open spec fn pending_state(m: MilestoneInput) -> MilestoneStateView {
    MilestoneStateView {
        name: m.name@,
        release_bps: m.release_bps,
        description_hash: m.description_hash,
        status: MilestoneStateStatus::Pending,
        delivery_hash: None,
        rejection_hash: None,
    }
}

/// Creating an escrow of `amount` released in up to twenty milestones whose
/// bps sum to 10 000.
pub open spec fn spec_create_bps_milestone_escrow(
    pre: ContractView,
    buyer: Address,
    seller: Address,
    arbiter: Address,
    amount: i128,
    token: Address,
    deadline: u64,
    milestones: Seq<MilestoneInput>,
    now: u64,
    whitelist_allows: bool,
) -> StepWith<u32> {
    let n = milestones.len() as int;
    if n == 0 {
        Err(ContractError::AtLeastOneMilestoneRequired)
    } else if n > MAX_MILESTONES {
        Err(ContractError::TooManyMilestones)
    } else if has_zero_bps(milestones, n) {
        Err(ContractError::ReleaseBpsMustBePositiveEachMilestone)
    } else if bps_sum(milestones, n) != 10000 {
        Err(ContractError::MilestoneReleaseBpsMustSumTo10000)
    } else if amount <= 0 {
        Err(ContractError::EscrowAmountMustBePositive)
    } else {
        match spec_create_core(
            pre,
            buyer,
            basic_request(seller, arbiter, amount, token, deadline, None, Seq::empty(), false, 0, 0),
            now,
            whitelist_allows,
        ) {
            Err(x) => Err(x),
            Ok((s1, ts, id)) => Ok(
                (
                    ContractView {
                        bps_milestones: s1.bps_milestones.insert(
                            id,
                            milestones.map_values(|m: MilestoneInput| pending_state(m)),
                        ),
                        ..s1
                    },
                    ts,
                    id,
                ),
            ),
        }
    }
}

/// The seller of an active escrow delivering a pending or rejected milestone.
pub open spec fn spec_submit_milestone(pre: ContractView, seller: Address, id: u32, index: u32, delivery_hash: Hash32) -> Step {
    if !pre.escrows.contains_key(id) {
        Err(ContractError::EscrowNotFound)
    } else if pre.escrows[id].seller != seller {
        Err(ContractError::OnlyEscrowSellerMaySubmitMilestones)
    } else if pre.escrows[id].status != EscrowStatus::Active {
        Err(ContractError::EscrowIsNotActive)
    } else if !pre.bps_milestones.contains_key(id) {
        Err(ContractError::NoBpsMilestones)
    } else {
        let ms = pre.bps_milestones[id];
        if index >= ms.len() {
            Err(ContractError::MilestoneIndexOutRange)
        } else if ms[index as int].status != MilestoneStateStatus::Pending && ms[index as int].status
            != MilestoneStateStatus::Rejected {
            Err(ContractError::MilestoneMustBePendingOrRejectedToSubmit)
        } else {
            let m2 = MilestoneStateView {
                status: MilestoneStateStatus::Submitted,
                delivery_hash: Some(delivery_hash),
                rejection_hash: None,
                ..ms[index as int]
            };
            Ok(
                (
                    ContractView { bps_milestones: pre.bps_milestones.insert(id, ms.update(index as int, m2)), ..pre },
                    Seq::empty(),
                ),
            )
        }
    }
}

/// What the approved milestones among the first `n` released: each its bps
/// share of `amount`, rounded toward zero.
pub open spec fn approved_total(ms: Seq<MilestoneStateView>, amount: i128, n: int) -> int
    decreases n,
{
    if n <= 0 {
        0
    } else {
        approved_total(ms, amount, n - 1) + if ms[n - 1].status == MilestoneStateStatus::Approved {
            tdiv(amount * ms[n - 1].release_bps, 10000)
        } else {
            0
        }
    }
}

/// Whether every product and running total of [`approved_total`] fits in an i128.
pub open spec fn approved_total_fits(ms: Seq<MilestoneStateView>, amount: i128, n: int) -> bool
    decreases n,
{
    if n <= 0 {
        true
    } else {
        &&& approved_total_fits(ms, amount, n - 1)
        &&& (ms[n - 1].status == MilestoneStateStatus::Approved ==> fits_i128(amount * ms[n - 1].release_bps))
        &&& fits_i128(approved_total(ms, amount, n))
    }
}

pub open spec fn settled_status(s: MilestoneStateStatus) -> bool {
    s != MilestoneStateStatus::Pending && s != MilestoneStateStatus::Submitted
}

pub open spec fn all_settled(ms: Seq<MilestoneStateView>) -> bool {
    forall|k: int| 0 <= k < ms.len() ==> settled_status(#[trigger] ms[k].status)
}

/// Whether every milestone other than `index` is approved.
pub open spec fn others_approved(ms: Seq<MilestoneStateView>, index: int) -> bool {
    forall|k: int| 0 <= k < ms.len() && k != index ==> #[trigger] ms[k].status == MilestoneStateStatus::Approved
}

/// The amount that approving milestone `index` releases: its bps share of the
/// escrow, rounded toward zero; or, for the approval that leaves every
/// milestone approved, whatever the approved ones have not released (its
/// share plus the rounding remainder). `None` on overflow.
pub open spec fn milestone_release(ms: Seq<MilestoneStateView>, amount: i128, index: int) -> Option<i128> {
    if others_approved(ms, index) {
        let n = ms.len() as int;
        if !approved_total_fits(ms, amount, n) || !fits_i128(amount - approved_total(ms, amount, n)) {
            None
        } else {
            Some((amount - approved_total(ms, amount, n)) as i128)
        }
    } else if !fits_i128(amount * ms[index].release_bps) {
        None
    } else {
        Some(tdiv(amount * ms[index].release_bps, 10000) as i128)
    }
}

/// The buyer or the arbiter approving a submitted milestone of an active
/// escrow: its share goes to the seller, and the escrow is released once no
/// milestone is pending or submitted.
pub open spec fn spec_approve_proportional_milestone(pre: ContractView, caller: Address, id: u32, index: u32) -> Step {
    if !pre.escrows.contains_key(id) {
        Err(ContractError::EscrowNotFound)
    } else {
        let e = pre.escrows[id];
        if caller != e.buyer && caller != e.arbiter {
            Err(ContractError::OnlyBuyerOrArbiterCanApproveMilestones)
        } else if e.status != EscrowStatus::Active {
            Err(ContractError::EscrowIsNotActive)
        } else if !pre.bps_milestones.contains_key(id) {
            Err(ContractError::NoBpsMilestones)
        } else {
            let ms = pre.bps_milestones[id];
            if index >= ms.len() {
                Err(ContractError::MilestoneIndexOutRange)
            } else if ms[index as int].status != MilestoneStateStatus::Submitted {
                Err(ContractError::MilestoneMustBeSubmittedBeforeApproval)
            } else {
                match milestone_release(ms, e.amount, index as int) {
                    None => Err(ContractError::Overflow),
                    Some(amt) => {
                        let ms2 = ms.update(
                            index as int,
                            MilestoneStateView { status: MilestoneStateStatus::Approved, ..ms[index as int] },
                        );
                        let s1 = ContractView { bps_milestones: pre.bps_milestones.insert(id, ms2), ..pre };
                        Ok(
                            (
                                if all_settled(ms2) {
                                    ContractView {
                                        escrows: s1.escrows.insert(id, with_status(e, EscrowStatus::Released)),
                                        ..s1
                                    }
                                } else {
                                    s1
                                },
                                seq![xfer(e.token, pre.me, e.seller, amt)],
                            ),
                        )
                    },
                }
            }
        }
    }
}

/// The buyer of an active escrow rejecting a submitted milestone.
pub open spec fn spec_reject_milestone(pre: ContractView, buyer: Address, id: u32, index: u32, rejection_hash: Hash32) -> Step {
    if !pre.escrows.contains_key(id) {
        Err(ContractError::EscrowNotFound)
    } else if pre.escrows[id].buyer != buyer {
        Err(ContractError::OnlyEscrowBuyerMayRejectMilestones)
    } else if pre.escrows[id].status != EscrowStatus::Active {
        Err(ContractError::EscrowIsNotActive)
    } else if !pre.bps_milestones.contains_key(id) {
        Err(ContractError::NoBpsMilestones)
    } else {
        let ms = pre.bps_milestones[id];
        if index >= ms.len() {
            Err(ContractError::MilestoneIndexOutRange)
        } else if ms[index as int].status != MilestoneStateStatus::Submitted {
            Err(ContractError::OnlySubmittedMilestoneCanBeRejected)
        } else {
            let m2 = MilestoneStateView {
                status: MilestoneStateStatus::Rejected,
                rejection_hash: Some(rejection_hash),
                ..ms[index as int]
            };
            Ok(
                (
                    ContractView { bps_milestones: pre.bps_milestones.insert(id, ms.update(index as int, m2)), ..pre },
                    Seq::empty(),
                ),
            )
        }
    }
}

proof fn lemma_approved_fits_prefix(ms: Seq<MilestoneStateView>, amount: i128, i: int, n: int)
    requires
        0 <= i <= n,
        !approved_total_fits(ms, amount, i),
    ensures
        !approved_total_fits(ms, amount, n),
    decreases n - i,
{
    if i < n {
        lemma_approved_fits_prefix(ms, amount, i + 1, n);
    }
}

impl AhjoorEscrowContract {
    /// A copy of the proportional milestones of escrow `id`.
    fn bps_states(&self, id: u32) -> (r: Option<Vec<MilestoneState>>)
        ensures
            match r {
                Some(v) => self@.bps_milestones.contains_key(id) && v@.map_values(|m: MilestoneState| m@)
                    == self@.bps_milestones[id],
                None => !self@.bps_milestones.contains_key(id),
            },
    {
        proof {
            lemma_map_values_lookup(
                self.bps_milestones@,
                |v: Vec<MilestoneState>| v@.map_values(|m: MilestoneState| m@),
            );
        }
        match self.bps_milestones.get(&id) {
            Some(v) => {
                let mut out: Vec<MilestoneState> = Vec::new();
                let mut i: usize = 0;
                while i < v.len()
                    invariant
                        0 <= i <= v@.len(),
                        out@.len() == i,
                        forall|k: int| 0 <= k < i ==> #[trigger] out@[k]@ == v@[k]@,
                    decreases v@.len() - i,
                {
                    out.push(v[i].copy());
                    i = i + 1;
                }
                assert(out@.map_values(|m: MilestoneState| m@) =~= v@.map_values(|m: MilestoneState| m@));
                Some(out)
            },
            None => None,
        }
    }

    fn store_bps_states(&mut self, id: u32, v: Vec<MilestoneState>)
        ensures
            final(self)@ == (ContractView {
                bps_milestones: old(self)@.bps_milestones.insert(id, v@.map_values(|m: MilestoneState| m@)),
                ..old(self)@
            }),
    {
        proof {
            lemma_map_values_insert(
                self.bps_milestones@,
                id,
                v,
                |v: Vec<MilestoneState>| v@.map_values(|m: MilestoneState| m@),
            );
        }
        self.bps_milestones.insert(id, v);
        assert(self@ =~= ContractView {
            bps_milestones: old(self)@.bps_milestones.insert(id, v@.map_values(|m: MilestoneState| m@)),
            ..old(self)@
        });
    }

    /// Creates an escrow of `amount` released in milestones whose bps sum to 10 000.
    #[verifier::loop_isolation(false)]
    pub fn create_bps_milestone_escrow(
        &mut self,
        buyer: Address,
        seller: Address,
        arbiter: Address,
        amount: i128,
        token: Address,
        deadline: u64,
        milestones: Vec<MilestoneInput>,
        now: u64,
        whitelist_allows: bool,
    ) -> (r: Result<(u32, Vec<Transfer>), ContractError>)
        ensures
            spec_create_bps_milestone_escrow(
                old(self)@,
                buyer,
                seller,
                arbiter,
                amount,
                token,
                deadline,
                milestones@,
                now,
                whitelist_allows,
            ) == outcome_with(r, final(self)@),
            r is Err ==> final(self)@ == old(self)@,
    {
        let ghost pre = self@;
        let ghost ms = milestones@;
        let n = milestones.len();
        if n == 0 {
            return Err(ContractError::AtLeastOneMilestoneRequired);
        }
        if n > MAX_MILESTONES as usize {
            return Err(ContractError::TooManyMilestones);
        }
        let mut total: u32 = 0;
        let mut i: usize = 0;
        while i < n
            invariant
                0 <= i <= n,
                n == ms.len(),
                ms == milestones@,
                !has_zero_bps(ms, i as int),
                total == bps_sum(ms, i as int),
            decreases n - i,
        {
            let b = milestones[i].release_bps;
            if b == 0 {
                assert(has_zero_bps(ms, n as int)) by {
                    assert(ms[i as int].release_bps == 0);
                }
                return Err(ContractError::ReleaseBpsMustBePositiveEachMilestone);
            }
            total = match total.checked_add(b) {
                Some(t) => t,
                None => u32::MAX,
            };
            i = i + 1;
        }
        if total != 10000 {
            return Err(ContractError::MilestoneReleaseBpsMustSumTo10000);
        }
        if amount <= 0 {
            return Err(ContractError::EscrowAmountMustBePositive);
        }
        let req = EscrowCreateRequest {
            seller,
            arbiter,
            amount,
            token,
            deadline,
            metadata_hash: None,
            sellers: Vec::new(),
            auto_renew: false,
            renewal_count: 0,
            buyer_inactivity_secs: 0,
            min_lock_until: None,
            release_base: None,
            release_quote: None,
            release_comparison: None,
            release_threshold_price: None,
            arbiter_fee_bps: None,
            dispute_default_winner: None,
            auto_renew_max_renewals: None,
            auto_renew_interval_ledgers: None,
        };
        assert(req@ == basic_request(seller, arbiter, amount, token, deadline, None, Seq::empty(), false, 0, 0));
        let (id, ts) = self.create_escrow_core(buyer, req, now, whitelist_allows)?;
        let mut states: Vec<MilestoneState> = Vec::new();
        let mut j: usize = 0;
        while j < n
            invariant
                0 <= j <= n,
                n == ms.len(),
                ms == milestones@,
                states@.len() == j,
                forall|k: int| 0 <= k < j ==> #[trigger] states@[k]@ == pending_state(ms[k]),
            decreases n - j,
        {
            let m = &milestones[j];
            states.push(
                MilestoneState {
                    name: m.name.clone(),
                    release_bps: m.release_bps,
                    description_hash: m.description_hash,
                    status: MilestoneStateStatus::Pending,
                    delivery_hash: None,
                    rejection_hash: None,
                },
            );
            j = j + 1;
        }
        assert(states@.map_values(|m: MilestoneState| m@) =~= ms.map_values(|m: MilestoneInput| pending_state(m)));
        self.store_bps_states(id, states);
        proof {
            let (sp, st, sid) = spec_create_bps_milestone_escrow(
                pre,
                buyer,
                seller,
                arbiter,
                amount,
                token,
                deadline,
                ms,
                now,
                whitelist_allows,
            )->Ok_0;
            assert(self@ =~= sp);
        }
        Ok((id, ts))
    }

    /// The seller delivers a pending or rejected milestone of an active escrow.
    pub fn submit_milestone(
        &mut self,
        seller: Address,
        escrow_id: u32,
        milestone_index: u32,
        delivery_hash: Hash32,
    ) -> (r: Result<(), ContractError>)
        ensures
            spec_submit_milestone(old(self)@, seller, escrow_id, milestone_index, delivery_hash) == outcome_unit(
                r,
                final(self)@,
            ),
            r is Err ==> final(self)@ == old(self)@,
    {
        let id = escrow_id;
        let e = self.find_escrow(id)?;
        if e.seller != seller {
            return Err(ContractError::OnlyEscrowSellerMaySubmitMilestones);
        }
        if e.status != EscrowStatus::Active {
            return Err(ContractError::EscrowIsNotActive);
        }
        let mut ms = match self.bps_states(id) {
            Some(v) => v,
            None => return Err(ContractError::NoBpsMilestones),
        };
        let k = milestone_index as usize;
        if k >= ms.len() {
            return Err(ContractError::MilestoneIndexOutRange);
        }
        let ghost before = ms@;
        assert(ms@[k as int]@ == self@.bps_milestones[id][k as int]);
        if ms[k].status != MilestoneStateStatus::Pending && ms[k].status != MilestoneStateStatus::Rejected {
            return Err(ContractError::MilestoneMustBePendingOrRejectedToSubmit);
        }
        let mut m = ms[k].copy();
        m.status = MilestoneStateStatus::Submitted;
        m.delivery_hash = Some(delivery_hash);
        m.rejection_hash = None;
        ms.set(k, m);
        let ghost pre = self@;
        self.store_bps_states(id, ms);
        proof {
            let sp = spec_submit_milestone(pre, seller, id, milestone_index, delivery_hash)->Ok_0.0;
            assert(ms@.map_values(|m: MilestoneState| m@) =~= pre.bps_milestones[id].update(
                k as int,
                MilestoneStateView {
                    status: MilestoneStateStatus::Submitted,
                    delivery_hash: Some(delivery_hash),
                    rejection_hash: None,
                    ..pre.bps_milestones[id][k as int]
                },
            ));
            assert(self@ =~= sp);
        }
        Ok(())
    }

    /// What the approved milestones released.
    fn approved_sum(ms: &Vec<MilestoneState>, amount: i128) -> (r: Option<i128>)
        ensures
            match r {
                Some(v) => approved_total_fits(ms@.map_values(|m: MilestoneState| m@), amount, ms@.len() as int)
                    && v == approved_total(ms@.map_values(|m: MilestoneState| m@), amount, ms@.len() as int),
                None => !approved_total_fits(ms@.map_values(|m: MilestoneState| m@), amount, ms@.len() as int),
            },
    {
        let ghost view = ms@.map_values(|m: MilestoneState| m@);
        let n = ms.len();
        let mut sum: i128 = 0;
        let mut i: usize = 0;
        while i < n
            invariant
                0 <= i <= n,
                n == ms@.len(),
                view == ms@.map_values(|m: MilestoneState| m@),
                approved_total_fits(view, amount, i as int),
                sum == approved_total(view, amount, i as int),
            decreases n - i,
        {
            assert(view[i as int] == ms@[i as int]@);
            if ms[i].status == MilestoneStateStatus::Approved {
                let p = match amount.checked_mul(ms[i].release_bps as i128) {
                    Some(p) => p,
                    None => {
                        proof {
                            lemma_approved_fits_prefix(view, amount, i as int + 1, n as int);
                        }
                        return None;
                    },
                };
                sum = match sum.checked_add(p / 10000) {
                    Some(s) => s,
                    None => {
                        proof {
                            lemma_approved_fits_prefix(view, amount, i as int + 1, n as int);
                        }
                        return None;
                    },
                };
            }
            i = i + 1;
        }
        Some(sum)
    }

    fn others_approved(ms: &Vec<MilestoneState>, index: usize) -> (r: bool)
        ensures
            r == others_approved(ms@.map_values(|m: MilestoneState| m@), index as int),
    {
        let ghost view = ms@.map_values(|m: MilestoneState| m@);
        let mut j: usize = 0;
        while j < ms.len()
            invariant
                0 <= j <= ms@.len(),
                view == ms@.map_values(|m: MilestoneState| m@),
                forall|q: int| 0 <= q < j && q != index ==> #[trigger] view[q].status == MilestoneStateStatus::Approved,
            decreases ms@.len() - j,
        {
            assert(view[j as int] == ms@[j as int]@);
            if j != index && ms[j].status != MilestoneStateStatus::Approved {
                assert(!(view[j as int].status == MilestoneStateStatus::Approved));
                return false;
            }
            j = j + 1;
        }
        true
    }

    fn states_settled(ms: &Vec<MilestoneState>) -> (r: bool)
        ensures
            r == all_settled(ms@.map_values(|m: MilestoneState| m@)),
    {
        let ghost view = ms@.map_values(|m: MilestoneState| m@);
        let mut settled = true;
        let mut j: usize = 0;
        while j < ms.len()
            invariant
                0 <= j <= ms@.len(),
                view == ms@.map_values(|m: MilestoneState| m@),
                settled == (forall|q: int| 0 <= q < j ==> settled_status(#[trigger] view[q].status)),
            decreases ms@.len() - j,
        {
            let st = ms[j].status;
            let ok = st != MilestoneStateStatus::Pending && st != MilestoneStateStatus::Submitted;
            proof {
                assert(view[j as int] == ms@[j as int]@);
                assert(settled_status(view[j as int].status) == ok);
                assert((forall|q: int| 0 <= q < j + 1 ==> settled_status(#[trigger] view[q].status)) == ((forall|
                    q: int,
                | 0 <= q < j ==> settled_status(#[trigger] view[q].status)) && settled_status(view[j as int].status)));
            }
            settled = settled && ok;
            j = j + 1;
        }
        settled
    }

    /// The buyer or the arbiter approves a submitted milestone, paying its
    /// share to the seller; the approval that leaves every milestone approved
    /// also pays the rounding remainder.
    #[verifier::rlimit(60)]
    pub fn approve_proportional_milestone(&mut self, caller: Address, escrow_id: u32, milestone_index: u32) -> (r:
        Result<Vec<Transfer>, ContractError>)
        ensures
            spec_approve_proportional_milestone(old(self)@, caller, escrow_id, milestone_index) == outcome(
                r,
                final(self)@,
            ),
            r is Err ==> final(self)@ == old(self)@,
    {
        let id = escrow_id;
        let e = self.find_escrow(id)?;
        if caller != e.buyer && caller != e.arbiter {
            return Err(ContractError::OnlyBuyerOrArbiterCanApproveMilestones);
        }
        if e.status != EscrowStatus::Active {
            return Err(ContractError::EscrowIsNotActive);
        }
        let mut ms = match self.bps_states(id) {
            Some(v) => v,
            None => return Err(ContractError::NoBpsMilestones),
        };
        let k = milestone_index as usize;
        if k >= ms.len() {
            return Err(ContractError::MilestoneIndexOutRange);
        }
        assert(ms@[k as int]@ == self@.bps_milestones[id][k as int]);
        if ms[k].status != MilestoneStateStatus::Submitted {
            return Err(ContractError::MilestoneMustBeSubmittedBeforeApproval);
        }
        let amount = e.amount;
        let amt: i128 = if Self::others_approved(&ms, k) {
            let already = match Self::approved_sum(&ms, amount) {
                Some(v) => v,
                None => return Err(ContractError::Overflow),
            };
            match amount.checked_sub(already) {
                Some(v) => v,
                None => return Err(ContractError::Overflow),
            }
        } else {
            match amount.checked_mul(ms[k].release_bps as i128) {
                Some(p) => p / 10000,
                None => return Err(ContractError::Overflow),
            }
        };
        let ghost pre = self@;
        let mut ts = Vec::new();
        ts.push(Transfer { token: e.token, from: self.me, to: e.seller, amount: amt, by_allowance: false });
        let mut m = ms[k].copy();
        m.status = MilestoneStateStatus::Approved;
        ms.set(k, m);
        let ghost ms2 = ms@.map_values(|m: MilestoneState| m@);
        let settled = Self::states_settled(&ms);
        self.store_bps_states(id, ms);
        if settled {
            let mut e = self.take_escrow(id);
            e.status = EscrowStatus::Released;
            self.put_escrow(id, e);
        }
        proof {
            let (sp, st) = spec_approve_proportional_milestone(pre, caller, id, milestone_index)->Ok_0;
            assert(ms2 =~= pre.bps_milestones[id].update(
                k as int,
                MilestoneStateView { status: MilestoneStateStatus::Approved, ..pre.bps_milestones[id][k as int] },
            ));
            assert(self@ =~= sp);
            assert(ts@ =~= st);
        }
        Ok(ts)
    }

    /// The buyer of an active escrow rejects a submitted milestone.
    pub fn reject_milestone(
        &mut self,
        buyer: Address,
        escrow_id: u32,
        milestone_index: u32,
        rejection_hash: Hash32,
    ) -> (r: Result<(), ContractError>)
        ensures
            spec_reject_milestone(old(self)@, buyer, escrow_id, milestone_index, rejection_hash) == outcome_unit(
                r,
                final(self)@,
            ),
            r is Err ==> final(self)@ == old(self)@,
    {
        let id = escrow_id;
        let e = self.find_escrow(id)?;
        if e.buyer != buyer {
            return Err(ContractError::OnlyEscrowBuyerMayRejectMilestones);
        }
        if e.status != EscrowStatus::Active {
            return Err(ContractError::EscrowIsNotActive);
        }
        let mut ms = match self.bps_states(id) {
            Some(v) => v,
            None => return Err(ContractError::NoBpsMilestones),
        };
        let k = milestone_index as usize;
        if k >= ms.len() {
            return Err(ContractError::MilestoneIndexOutRange);
        }
        assert(ms@[k as int]@ == self@.bps_milestones[id][k as int]);
        if ms[k].status != MilestoneStateStatus::Submitted {
            return Err(ContractError::OnlySubmittedMilestoneCanBeRejected);
        }
        let mut m = ms[k].copy();
        m.status = MilestoneStateStatus::Rejected;
        m.rejection_hash = Some(rejection_hash);
        ms.set(k, m);
        let ghost pre = self@;
        self.store_bps_states(id, ms);
        proof {
            let sp = spec_reject_milestone(pre, buyer, id, milestone_index, rejection_hash)->Ok_0.0;
            assert(ms@.map_values(|m: MilestoneState| m@) =~= pre.bps_milestones[id].update(
                k as int,
                MilestoneStateView {
                    status: MilestoneStateStatus::Rejected,
                    rejection_hash: Some(rejection_hash),
                    ..pre.bps_milestones[id][k as int]
                },
            ));
            assert(self@ =~= sp);
        }
        Ok(())
    }

    /// The proportional milestones of an escrow.
    pub fn get_bps_milestones(&self, escrow_id: u32) -> (r: Result<Vec<MilestoneState>, ContractError>)
        ensures
            match r {
                Ok(v) => self@.bps_milestones.contains_key(escrow_id) && v@.map_values(|m: MilestoneState| m@)
                    == self@.bps_milestones[escrow_id],
                Err(x) => !self@.bps_milestones.contains_key(escrow_id) && x == ContractError::NoBpsMilestones,
            },
    {
        match self.bps_states(escrow_id) {
            Some(v) => Ok(v),
            None => Err(ContractError::NoBpsMilestones),
        }
    }
}

} // verus!
