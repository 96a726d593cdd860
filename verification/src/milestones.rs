//! Escrows paid out milestone by milestone, and time-locked escrows.

use crate::common::{
    buyer_payout, fits_i128, get_vec, lemma_map_values_insert, lemma_map_values_lookup, outcome,
    outcome_with, spec_burn_receipt, spec_receipt_holder, xfer, Step, StepWith,
};
use crate::create::{basic_request, spec_create_core};
use crate::errors::ContractError;
use crate::model::{
    Address, CreateRequestView, EscrowCreateRequest, EscrowStatus, Hash32, Milestone, MilestoneStatus, TimeLockData,
    Transfer,
};
use crate::release::with_status;
use crate::state::{AhjoorEscrowContract, ContractView, MAX_MILESTONES};
use vstd::prelude::*;

verus! {

broadcast use vstd::std_specs::hash::group_hash_axioms;

pub open spec fn milestones_total(ms: Seq<Milestone>, n: int) -> int
    decreases n,
{
    if n <= 0 {
        0
    } else {
        milestones_total(ms, n - 1) + ms[n - 1].amount
    }
}

/// The first refusal met checking the first `n` milestones.
pub open spec fn milestones_refusal(ms: Seq<Milestone>, n: int) -> Option<ContractError>
    decreases n,
{
    if n <= 0 {
        None
    } else {
        match milestones_refusal(ms, n - 1) {
            Some(x) => Some(x),
            None => if ms[n - 1].amount <= 0 {
                Some(ContractError::MilestoneAmountMustBePositive)
            } else if ms[n - 1].status != MilestoneStatus::Pending {
                Some(ContractError::NewMilestonesMustStartAsPending)
            } else if !fits_i128(milestones_total(ms, n)) {
                Some(ContractError::Overflow)
            } else {
                None
            },
        }
    }
}

/// Creating an escrow funded with the sum of up to twenty pending milestones.
pub open spec fn spec_create_milestone_escrow(
    pre: ContractView,
    buyer: Address,
    seller: Address,
    arbiter: Address,
    token: Address,
    deadline: u64,
    milestones: Seq<Milestone>,
    now: u64,
    whitelist_allows: bool,
) -> StepWith<u32> {
    if milestones.len() == 0 {
        Err(ContractError::AtLeastOneMilestoneRequired)
    } else if milestones.len() > MAX_MILESTONES {
        Err(ContractError::TooManyMilestones)
    } else if let Some(x) = milestones_refusal(milestones, milestones.len() as int) {
        Err(x)
    } else {
        let total = milestones_total(milestones, milestones.len() as int) as i128;
        match spec_create_core(
            pre,
            buyer,
            basic_request(seller, arbiter, total, token, deadline, None, Seq::empty(), false, 0, 0),
            now,
            whitelist_allows,
        ) {
            Err(x) => Err(x),
            Ok((s1, ts, id)) => Ok(
                (ContractView { milestones: s1.milestones.insert(id, milestones), ..s1 }, ts, id),
            ),
        }
    }
}

/// Whether no milestone is pending and at least one is approved.
pub open spec fn milestones_complete(ms: Seq<Milestone>) -> bool {
    &&& forall|k: int| 0 <= k < ms.len() ==> #[trigger] ms[k].status != MilestoneStatus::Pending
    &&& exists|k: int| 0 <= k < ms.len() && #[trigger] ms[k].status == MilestoneStatus::Approved
}

/// The buyer or the arbiter approving a pending milestone: its amount goes to
/// the receipt holder (else the seller). An active escrow is released once no
/// milestone is pending and at least one was approved.
pub open spec fn spec_approve_milestone(pre: ContractView, caller: Address, id: u32, index: u32) -> Step {
    if !pre.escrows.contains_key(id) {
        Err(ContractError::EscrowNotFound)
    } else {
        let e = pre.escrows[id];
        if e.status == EscrowStatus::Released || e.status == EscrowStatus::Refunded || e.status
            == EscrowStatus::Resolved {
            Err(ContractError::EscrowAlreadyTerminal)
        } else if caller != e.buyer && caller != e.arbiter {
            Err(ContractError::OnlyBuyerOrArbiterCanApproveMilestones)
        } else if !pre.milestones.contains_key(id) {
            Err(ContractError::EscrowHasNoMilestones)
        } else {
            let ms = pre.milestones[id];
            if index >= ms.len() {
                Err(ContractError::MilestoneIndexOutRange)
            } else if ms[index as int].status != MilestoneStatus::Pending {
                Err(ContractError::MilestoneNotPending)
            } else {
                let m = ms[index as int];
                let to = match spec_receipt_holder(pre, id) {
                    Some(h) => h,
                    None => e.seller,
                };
                let ms2 = ms.update(index as int, Milestone { status: MilestoneStatus::Approved, ..m });
                let s1 = ContractView { milestones: pre.milestones.insert(id, ms2), ..pre };
                let post = if milestones_complete(ms2) && e.status == EscrowStatus::Active {
                    spec_burn_receipt(
                        ContractView { escrows: s1.escrows.insert(id, with_status(e, EscrowStatus::Released)), ..s1 },
                        id,
                    )
                } else {
                    s1
                };
                Ok((post, seq![xfer(e.token, pre.me, to, m.amount)]))
            }
        }
    }
}

/// The request of a time-locked escrow: the beneficiary is the seller and
/// release is locked until `unlock_at`.
pub open spec fn timelocked_request(
    arbiter: Address,
    amount: i128,
    token: Address,
    deadline: u64,
    unlock_at: u64,
    beneficiary: Address,
    metadata_hash: Option<Hash32>,
) -> CreateRequestView {
    CreateRequestView {
        min_lock_until: Some(unlock_at),
        ..basic_request(beneficiary, arbiter, amount, token, deadline, metadata_hash, Seq::empty(), false, 0, 0)
    }
}

/// Creating an escrow that its beneficiary can claim once `unlock_at` passes.
pub open spec fn spec_create_timelocked_escrow(
    pre: ContractView,
    buyer: Address,
    arbiter: Address,
    amount: i128,
    token: Address,
    deadline: u64,
    unlock_at: u64,
    beneficiary: Address,
    metadata_hash: Option<Hash32>,
    now: u64,
    whitelist_allows: bool,
) -> StepWith<u32> {
    if pre.paused {
        Err(ContractError::ContractIsPaused)
    } else if unlock_at <= now {
        Err(ContractError::UnlockAtMustBeFuture)
    } else {
        match spec_create_core(
            pre,
            buyer,
            timelocked_request(arbiter, amount, token, deadline, unlock_at, beneficiary, metadata_hash),
            now,
            whitelist_allows,
        ) {
            Err(x) => Err(x),
            Ok((s1, ts, id)) => Ok(
                (
                    ContractView {
                        timelocks: s1.timelocks.insert(id, TimeLockData { unlock_at, beneficiary, claimed: false }),
                        ..s1
                    },
                    ts,
                    id,
                ),
            ),
        }
    }
}

/// The beneficiary claiming an active time-locked escrow once it unlocked.
pub open spec fn spec_claim_timelocked(pre: ContractView, beneficiary: Address, id: u32, now: u64) -> Step {
    if pre.paused {
        Err(ContractError::ContractIsPaused)
    } else if !pre.timelocks.contains_key(id) {
        Err(ContractError::NotTimeLockedEscrow)
    } else {
        let t = pre.timelocks[id];
        if t.claimed {
            Err(ContractError::AlreadyClaimed)
        } else if beneficiary != t.beneficiary {
            Err(ContractError::OnlyBeneficiaryCanClaim)
        } else if now < t.unlock_at {
            Err(ContractError::UnlockTimeHasNotPassed)
        } else if !pre.escrows.contains_key(id) {
            Err(ContractError::EscrowNotFound)
        } else if pre.escrows[id].status != EscrowStatus::Active {
            Err(ContractError::EscrowNotActive)
        } else {
            let e = pre.escrows[id];
            Ok(
                (
                    ContractView {
                        escrows: pre.escrows.insert(id, with_status(e, EscrowStatus::Released)),
                        timelocks: pre.timelocks.insert(id, TimeLockData { claimed: true, ..t }),
                        ..pre
                    },
                    seq![xfer(e.token, pre.me, beneficiary, e.amount)],
                ),
            )
        }
    }
}

/// The buyer taking back an active time-locked escrow before it unlocks.
pub open spec fn spec_cancel_timelocked(pre: ContractView, buyer: Address, id: u32, now: u64) -> Step {
    if pre.paused {
        Err(ContractError::ContractIsPaused)
    } else if !pre.timelocks.contains_key(id) {
        Err(ContractError::NotTimeLockedEscrow)
    } else {
        let t = pre.timelocks[id];
        if t.claimed {
            Err(ContractError::AlreadyClaimed)
        } else if now >= t.unlock_at {
            Err(ContractError::PastUnlockTimeUseClaimTimelocked)
        } else if !pre.escrows.contains_key(id) {
            Err(ContractError::EscrowNotFound)
        } else {
            let e = pre.escrows[id];
            if e.buyer != buyer {
                Err(ContractError::OnlyBuyerCanCancel)
            } else if e.status == EscrowStatus::Disputed || e.status == EscrowStatus::PartiallyDisputed {
                Err(ContractError::DisputeActive)
            } else if e.status != EscrowStatus::Active {
                Err(ContractError::EscrowNotActive)
            } else {
                match buyer_payout(pre, id, e, e.amount) {
                    None => Err(ContractError::Overflow),
                    Some(ts) => Ok(
                        (
                            ContractView {
                                escrows: pre.escrows.insert(id, with_status(e, EscrowStatus::Refunded)),
                                ..pre
                            },
                            ts,
                        ),
                    ),
                }
            }
        }
    }
}

proof fn lemma_milestones_refusal_stays(ms: Seq<Milestone>, i: int, n: int)
    requires
        0 <= i <= n,
        milestones_refusal(ms, i) is Some,
    ensures
        milestones_refusal(ms, n) == milestones_refusal(ms, i),
    decreases n - i,
{
    if i < n {
        lemma_milestones_refusal_stays(ms, i, n - 1);
    }
}

impl AhjoorEscrowContract {
    /// Creates an escrow funded with the sum of its milestones, each paid out
    /// when approved.
    #[verifier::loop_isolation(false)]
    pub fn create_milestone_escrow(
        &mut self,
        buyer: Address,
        seller: Address,
        arbiter: Address,
        token: Address,
        deadline: u64,
        milestones: Vec<Milestone>,
        now: u64,
        whitelist_allows: bool,
    ) -> (r: Result<(u32, Vec<Transfer>), ContractError>)
        ensures
            spec_create_milestone_escrow(
                old(self)@,
                buyer,
                seller,
                arbiter,
                token,
                deadline,
                milestones@,
                now,
                whitelist_allows,
            ) == outcome_with(r, final(self)@),
            r is Err ==> final(self)@ == old(self)@,
    {
        let ghost pre = self@;
        let ghost ms = milestones@;
        let n = milestones.len();
        if n == 0 {
            return Err(ContractError::AtLeastOneMilestoneRequired);
        }
        if n > MAX_MILESTONES as usize {
            return Err(ContractError::TooManyMilestones);
        }
        let mut total: i128 = 0;
        let mut i: usize = 0;
        while i < n
            invariant
                0 <= i <= n,
                n == ms.len(),
                ms == milestones@,
                milestones_refusal(ms, i as int) is None,
                total == milestones_total(ms, i as int),
                self@ == pre,
            decreases n - i,
        {
            let m = milestones[i];
            if m.amount <= 0 {
                proof {
                    lemma_milestones_refusal_stays(ms, i as int + 1, n as int);
                }
                return Err(ContractError::MilestoneAmountMustBePositive);
            }
            if m.status != MilestoneStatus::Pending {
                proof {
                    lemma_milestones_refusal_stays(ms, i as int + 1, n as int);
                }
                return Err(ContractError::NewMilestonesMustStartAsPending);
            }
            total = match total.checked_add(m.amount) {
                Some(t) => t,
                None => {
                    proof {
                        lemma_milestones_refusal_stays(ms, i as int + 1, n as int);
                    }
                    return Err(ContractError::Overflow);
                },
            };
            i = i + 1;
        }
        let req = EscrowCreateRequest {
            seller,
            arbiter,
            amount: total,
            token,
            deadline,
            metadata_hash: None,
            sellers: Vec::new(),
            auto_renew: false,
            renewal_count: 0,
            buyer_inactivity_secs: 0,
            min_lock_until: None,
            release_base: None,
            release_quote: None,
            release_comparison: None,
            release_threshold_price: None,
            arbiter_fee_bps: None,
            dispute_default_winner: None,
            auto_renew_max_renewals: None,
            auto_renew_interval_ledgers: None,
        };
        assert(req@ == basic_request(seller, arbiter, total, token, deadline, None, Seq::empty(), false, 0, 0));
        let (id, ts) = self.create_escrow_core(buyer, req, now, whitelist_allows)?;
        proof {
            lemma_map_values_insert(self.milestones@, id, milestones, |v: Vec<Milestone>| v@);
        }
        self.milestones.insert(id, milestones);
        proof {
            let (sp, st, sid) = spec_create_milestone_escrow(
                pre,
                buyer,
                seller,
                arbiter,
                token,
                deadline,
                ms,
                now,
                whitelist_allows,
            )->Ok_0;
            assert(self@ =~= sp);
        }
        Ok((id, ts))
    }

    /// The buyer or the arbiter approves a pending milestone, paying it out.
    #[verifier::loop_isolation(false)]
    pub fn approve_milestone(&mut self, caller: Address, escrow_id: u32, milestone_index: u32) -> (r: Result<
        Vec<Transfer>,
        ContractError,
    >)
        ensures
            spec_approve_milestone(old(self)@, caller, escrow_id, milestone_index) == outcome(r, final(self)@),
            r is Err ==> final(self)@ == old(self)@,
    {
        let id = escrow_id;
        let e = self.find_escrow(id)?;
        if e.status == EscrowStatus::Released || e.status == EscrowStatus::Refunded || e.status
            == EscrowStatus::Resolved {
            return Err(ContractError::EscrowAlreadyTerminal);
        }
        if caller != e.buyer && caller != e.arbiter {
            return Err(ContractError::OnlyBuyerOrArbiterCanApproveMilestones);
        }
        proof {
            lemma_map_values_lookup(self.milestones@, |v: Vec<Milestone>| v@);
        }
        let mut ms = match get_vec(&self.milestones, id) {
            Some(v) => v,
            None => return Err(ContractError::EscrowHasNoMilestones),
        };
        if milestone_index as usize >= ms.len() {
            return Err(ContractError::MilestoneIndexOutRange);
        }
        let m = ms[milestone_index as usize];
        if m.status != MilestoneStatus::Pending {
            return Err(ContractError::MilestoneNotPending);
        }
        let ghost pre = self@;
        let to = match self.get_receipt_holder(id) {
            Some(h) => h,
            None => e.seller,
        };
        let mut ts = Vec::new();
        ts.push(Transfer { token: e.token, from: self.me, to, amount: m.amount, by_allowance: false });
        let was_active = e.status == EscrowStatus::Active;
        ms.set(milestone_index as usize, Milestone { status: MilestoneStatus::Approved, ..m });
        let mut all_terminal = true;
        let mut any_approved = false;
        let mut k: usize = 0;
        while k < ms.len()
            invariant
                0 <= k <= ms@.len(),
                all_terminal <==> forall|j: int| 0 <= j < k ==> #[trigger] ms@[j].status != MilestoneStatus::Pending,
                any_approved <==> exists|j: int| 0 <= j < k && #[trigger] ms@[j].status == MilestoneStatus::Approved,
            decreases ms@.len() - k,
        {
            match ms[k].status {
                MilestoneStatus::Pending => {
                    all_terminal = false;
                },
                MilestoneStatus::Approved => {
                    any_approved = true;
                },
                MilestoneStatus::Disputed => {},
            }
            k = k + 1;
        }
        let ghost ms2 = ms@;
        proof {
            lemma_map_values_insert(self.milestones@, id, ms, |v: Vec<Milestone>| v@);
        }
        self.milestones.insert(id, ms);
        if all_terminal && any_approved && was_active {
            let mut e = self.take_escrow(id);
            e.status = EscrowStatus::Released;
            self.put_escrow(id, e);
            self.burn_receipt_if_exists(id);
        }
        proof {
            let (sp, st) = spec_approve_milestone(pre, caller, id, milestone_index)->Ok_0;
            assert(self@ =~= sp);
            assert(ts@ =~= st);
        }
        Ok(ts)
    }

    /// The milestones of a milestone escrow.
    pub fn get_milestones(&self, escrow_id: u32) -> (r: Result<Vec<Milestone>, ContractError>)
        ensures
            match r {
                Ok(v) => self@.milestones.contains_key(escrow_id) && v@ == self@.milestones[escrow_id],
                Err(x) => !self@.milestones.contains_key(escrow_id) && x == ContractError::EscrowHasNoMilestones,
            },
    {
        proof {
            lemma_map_values_lookup(self.milestones@, |v: Vec<Milestone>| v@);
        }
        match get_vec(&self.milestones, escrow_id) {
            Some(v) => Ok(v),
            None => Err(ContractError::EscrowHasNoMilestones),
        }
    }

    /// Creates an escrow that `beneficiary` can claim once `unlock_at` passes.
    pub fn create_timelocked_escrow(
        &mut self,
        buyer: Address,
        arbiter: Address,
        amount: i128,
        token: Address,
        deadline: u64,
        unlock_at: u64,
        beneficiary: Address,
        metadata_hash: Option<Hash32>,
        now: u64,
        whitelist_allows: bool,
    ) -> (r: Result<(u32, Vec<Transfer>), ContractError>)
        ensures
            spec_create_timelocked_escrow(
                old(self)@,
                buyer,
                arbiter,
                amount,
                token,
                deadline,
                unlock_at,
                beneficiary,
                metadata_hash,
                now,
                whitelist_allows,
            ) == outcome_with(r, final(self)@),
            r is Err ==> final(self)@ == old(self)@,
    {
        if self.paused {
            return Err(ContractError::ContractIsPaused);
        }
        if unlock_at <= now {
            return Err(ContractError::UnlockAtMustBeFuture);
        }
        let req = EscrowCreateRequest {
            seller: beneficiary,
            arbiter,
            amount,
            token,
            deadline,
            metadata_hash,
            sellers: Vec::new(),
            auto_renew: false,
            renewal_count: 0,
            buyer_inactivity_secs: 0,
            min_lock_until: Some(unlock_at),
            release_base: None,
            release_quote: None,
            release_comparison: None,
            release_threshold_price: None,
            arbiter_fee_bps: None,
            dispute_default_winner: None,
            auto_renew_max_renewals: None,
            auto_renew_interval_ledgers: None,
        };
        assert(req@ == timelocked_request(arbiter, amount, token, deadline, unlock_at, beneficiary, metadata_hash));
        let (id, ts) = self.create_escrow_core(buyer, req, now, whitelist_allows)?;
        self.timelocks.insert(id, TimeLockData { unlock_at, beneficiary, claimed: false });
        Ok((id, ts))
    }

    /// The beneficiary claims an unlocked, active time-locked escrow.
    pub fn claim_timelocked(&mut self, beneficiary: Address, escrow_id: u32, now: u64) -> (r: Result<
        Vec<Transfer>,
        ContractError,
    >)
        ensures
            spec_claim_timelocked(old(self)@, beneficiary, escrow_id, now) == outcome(r, final(self)@),
            r is Err ==> final(self)@ == old(self)@,
    {
        let id = escrow_id;
        if self.paused {
            return Err(ContractError::ContractIsPaused);
        }
        let t = match self.timelocks.get(&id) {
            Some(t) => *t,
            None => return Err(ContractError::NotTimeLockedEscrow),
        };
        if t.claimed {
            return Err(ContractError::AlreadyClaimed);
        }
        if beneficiary != t.beneficiary {
            return Err(ContractError::OnlyBeneficiaryCanClaim);
        }
        if now < t.unlock_at {
            return Err(ContractError::UnlockTimeHasNotPassed);
        }
        let e = self.find_escrow(id)?;
        if e.status != EscrowStatus::Active {
            return Err(ContractError::EscrowNotActive);
        }
        let ghost pre = self@;
        let mut ts = Vec::new();
        ts.push(Transfer { token: e.token, from: self.me, to: beneficiary, amount: e.amount, by_allowance: false });
        let mut e = self.take_escrow(id);
        e.status = EscrowStatus::Released;
        self.put_escrow(id, e);
        self.timelocks.insert(id, TimeLockData { claimed: true, ..t });
        proof {
            let (sp, st) = spec_claim_timelocked(pre, beneficiary, id, now)->Ok_0;
            assert(self@ =~= sp);
            assert(ts@ =~= st);
        }
        Ok(ts)
    }

    /// The buyer takes back an active time-locked escrow before it unlocks.
    pub fn cancel_timelocked(&mut self, buyer: Address, escrow_id: u32, now: u64) -> (r: Result<
        Vec<Transfer>,
        ContractError,
    >)
        ensures
            spec_cancel_timelocked(old(self)@, buyer, escrow_id, now) == outcome(r, final(self)@),
            r is Err ==> final(self)@ == old(self)@,
    {
        let id = escrow_id;
        if self.paused {
            return Err(ContractError::ContractIsPaused);
        }
        let t = match self.timelocks.get(&id) {
            Some(t) => *t,
            None => return Err(ContractError::NotTimeLockedEscrow),
        };
        if t.claimed {
            return Err(ContractError::AlreadyClaimed);
        }
        if now >= t.unlock_at {
            return Err(ContractError::PastUnlockTimeUseClaimTimelocked);
        }
        let e = self.find_escrow(id)?;
        if e.buyer != buyer {
            return Err(ContractError::OnlyBuyerCanCancel);
        }
        if e.status == EscrowStatus::Disputed || e.status == EscrowStatus::PartiallyDisputed {
            return Err(ContractError::DisputeActive);
        }
        if e.status != EscrowStatus::Active {
            return Err(ContractError::EscrowNotActive);
        }
        let ghost pre = self@;
        let ts = match self.transfer_to_buyers(id, e, e.amount) {
            Some(v) => v,
            None => return Err(ContractError::Overflow),
        };
        let mut e = self.take_escrow(id);
        e.status = EscrowStatus::Refunded;
        self.put_escrow(id, e);
        proof {
            let (sp, st) = spec_cancel_timelocked(pre, buyer, id, now)->Ok_0;
            assert(self@ =~= sp);
        }
        Ok(ts)
    }

    /// The time lock of an escrow, if it has one.
    pub fn get_timelock_data(&self, escrow_id: u32) -> (r: Option<TimeLockData>)
        ensures
            r == (if self@.timelocks.contains_key(escrow_id) {
                Some(self@.timelocks[escrow_id])
            } else {
                None::<TimeLockData>
            }),
    {
        match self.timelocks.get(&escrow_id) {
            Some(t) => Some(*t),
            None => None,
        }
    }
}

} // verus!
