//! Escrows released to the seller in time-locked tranches.

use crate::common::{
    fits_i128, get_vec, lemma_map_values_insert, lemma_map_values_lookup, outcome, outcome_with,
    spec_burn_receipt, spec_is_open, xfer, Step, StepWith,
};
use crate::create::{basic_request, spec_create_core};
use crate::errors::ContractError;
use crate::model::{
    Address, EscrowCreateRequest, EscrowError, EscrowStatus, ReleaseTranche, Transfer,
};
use crate::release::with_status;
use crate::state::{AhjoorEscrowContract, ContractView};
use vstd::prelude::*;

verus! {

broadcast use vstd::std_specs::hash::group_hash_axioms;

/// Sum of the first `n` tranche amounts.
pub open spec fn tranches_total(s: Seq<ReleaseTranche>, n: int) -> int
    decreases n,
{
    if n <= 0 {
        0
    } else {
        tranches_total(s, n - 1) + s[n - 1].amount
    }
}

/// The first refusal met checking the first `n` tranches of a schedule.
pub open spec fn schedule_refusal(s: Seq<ReleaseTranche>, n: int, now: u64) -> Option<ContractError>
    decreases n,
{
    if n <= 0 {
        None
    } else {
        match schedule_refusal(s, n - 1, now) {
            Some(x) => Some(x),
            None => if s[n - 1].amount <= 0 {
                Some(ContractError::EachTrancheAmountMustBePositive)
            } else if s[n - 1].unlock_at <= now {
                Some(ContractError::EachTrancheUnlockAtMustBeFuture)
            } else if !fits_i128(tranches_total(s, n)) {
                Some(ContractError::Overflow)
            } else {
                None
            },
        }
    }
}

pub open spec fn unclaimed(t: ReleaseTranche) -> ReleaseTranche {
    ReleaseTranche { claimed: false, ..t }
}

/// Creating an escrow funded with the sum of the tranches and released to
/// the seller tranche by tranche; no tranche starts out claimed.
pub open spec fn spec_create_escrow_with_schedule(
    pre: ContractView,
    buyer: Address,
    seller: Address,
    arbiter: Address,
    token: Address,
    deadline: u64,
    schedule: Seq<ReleaseTranche>,
    now: u64,
    whitelist_allows: bool,
) -> StepWith<u32> {
    if pre.paused {
        Err(ContractError::ContractIsPaused)
    } else if schedule.len() == 0 {
        Err(ContractError::ReleaseScheduleMustContainAtLeastOneTranche)
    } else if let Some(x) = schedule_refusal(schedule, schedule.len() as int, now) {
        Err(x)
    } else {
        let total = tranches_total(schedule, schedule.len() as int) as i128;
        match spec_create_core(
            pre,
            buyer,
            basic_request(seller, arbiter, total, token, deadline, None, Seq::empty(), false, 0, 0),
            now,
            whitelist_allows,
        ) {
            Err(x) => Err(x),
            Ok((s1, ts, id)) => Ok(
                (
                    ContractView {
                        schedules: s1.schedules.insert(id, schedule.map_values(|t: ReleaseTranche| unclaimed(t))),
                        released_index: s1.released_index.insert(id, 0),
                        ..s1
                    },
                    ts,
                    id,
                ),
            ),
        }
    }
}

/// Sweeping a schedule from position `i` to its end: every tranche that has
/// unlocked by `now` and is not yet claimed is claimed, in order; locked and
/// claimed ones are passed over. `ts` and `any` are what was transferred and
/// whether anything was claimed so far. Gives the transfers, the schedule
/// after, and whether anything was claimed.
pub open spec fn sweep(
    s: Seq<ReleaseTranche>,
    i: int,
    now: u64,
    token: Address,
    me: Address,
    to: Address,
    ts: Seq<Transfer>,
    any: bool,
) -> (Seq<Transfer>, Seq<ReleaseTranche>, bool)
    decreases s.len() - i,
{
    if i < 0 || i >= s.len() {
        (ts, s, any)
    } else if s[i].claimed || s[i].unlock_at > now {
        sweep(s, i + 1, now, token, me, to, ts, any)
    } else {
        sweep(
            s.update(i, ReleaseTranche { claimed: true, ..s[i] }),
            i + 1,
            now,
            token,
            me,
            to,
            ts.push(xfer(token, me, to, s[i].amount)),
            true,
        )
    }
}

/// The first position from `i` on whose tranche is not claimed (the length
/// when all are).
pub open spec fn claimed_run_end(s: Seq<ReleaseTranche>, i: int) -> int
    decreases s.len() - i,
{
    if i < 0 || i >= s.len() || !s[i].claimed {
        i
    } else {
        claimed_run_end(s, i + 1)
    }
}

pub open spec fn released_index_of(pre: ContractView, id: u32) -> u32 {
    if pre.released_index.contains_key(id) {
        pre.released_index[id]
    } else {
        0
    }
}

/// The seller claiming, from the released index on, every tranche that has
/// unlocked and is not yet claimed. The released index then moves past the
/// tranches claimed from it on; the escrow is released once that index reaches
/// the end of the schedule, and partially released before.
pub open spec fn spec_claim_scheduled_release(pre: ContractView, beneficiary: Address, id: u32, now: u64) -> Step {
    if pre.paused {
        Err(ContractError::ContractIsPaused)
    } else if !pre.escrows.contains_key(id) {
        Err(ContractError::EscrowNotFound)
    } else if pre.escrows[id].seller != beneficiary {
        Err(ContractError::OnlyBeneficiarySellerCanClaimScheduledReleases)
    } else if !spec_is_open(pre.escrows[id].status) {
        Err(ContractError::EscrowIsNotClaimableState)
    } else if !pre.schedules.contains_key(id) {
        Err(ContractError::NoReleaseScheduleFound)
    } else {
        let e = pre.escrows[id];
        let s = pre.schedules[id];
        let start = released_index_of(pre, id) as int;
        let (ts, s2, any) = sweep(s, start, now, e.token, pre.me, beneficiary, Seq::empty(), false);
        if !any {
            Err(ContractError::NoTranchesAreCurrentlyClaimable)
        } else {
            let s1 = ContractView {
                released_index: pre.released_index.insert(id, claimed_run_end(s2, start) as u32),
                schedules: pre.schedules.insert(id, s2),
                ..pre
            };
            let post = if claimed_run_end(s2, start) >= s2.len() {
                spec_burn_receipt(
                    ContractView {
                        escrows: s1.escrows.insert(id, with_status(e, EscrowStatus::Released)),
                        ..s1
                    },
                    id,
                )
            } else {
                ContractView {
                    escrows: s1.escrows.insert(id, with_status(e, EscrowStatus::PartiallyReleased)),
                    ..s1
                }
            };
            Ok((post, ts))
        }
    }
}

/// How many of the first `n` tranches are claimed.
pub open spec fn claimed_count(s: Seq<ReleaseTranche>, n: int) -> int
    decreases n,
{
    if n <= 0 {
        0
    } else {
        claimed_count(s, n - 1) + if s[n - 1].claimed {
            1int
        } else {
            0int
        }
    }
}

/// The seller claiming one tranche that has unlocked; the released index
/// becomes the number of claimed tranches.
pub open spec fn spec_claim_scheduled_tranche(
    pre: ContractView,
    beneficiary: Address,
    id: u32,
    index: u32,
    now: u64,
) -> Step {
    if pre.paused {
        Err(ContractError::ContractIsPaused)
    } else if !pre.escrows.contains_key(id) {
        Err(ContractError::EscrowNotFound)
    } else if pre.escrows[id].seller != beneficiary {
        Err(ContractError::OnlyBeneficiarySellerCanClaimScheduledReleases)
    } else if !spec_is_open(pre.escrows[id].status) {
        Err(ContractError::EscrowIsNotClaimableState)
    } else if !pre.schedules.contains_key(id) {
        Err(ContractError::NoReleaseScheduleFound)
    } else {
        let e = pre.escrows[id];
        let s = pre.schedules[id];
        if index >= s.len() {
            Err(ContractError::Code(EscrowError::InvalidTrancheIndex))
        } else if s[index as int].claimed {
            Err(ContractError::Code(EscrowError::TrancheAlreadyClaimed))
        } else if s[index as int].unlock_at > now {
            Err(ContractError::NoTranchesAreCurrentlyClaimable)
        } else {
            let s2 = s.update(index as int, ReleaseTranche { claimed: true, ..s[index as int] });
            let count = claimed_count(s2, s2.len() as int);
            let s1 = ContractView {
                schedules: pre.schedules.insert(id, s2),
                released_index: pre.released_index.insert(id, count as u32),
                ..pre
            };
            let post = if count == s.len() {
                spec_burn_receipt(
                    ContractView {
                        escrows: s1.escrows.insert(id, with_status(e, EscrowStatus::Released)),
                        ..s1
                    },
                    id,
                )
            } else {
                ContractView {
                    escrows: s1.escrows.insert(id, with_status(e, EscrowStatus::PartiallyReleased)),
                    ..s1
                }
            };
            Ok((post, seq![xfer(e.token, pre.me, beneficiary, s[index as int].amount)]))
        }
    }
}

proof fn lemma_schedule_refusal_stays(s: Seq<ReleaseTranche>, i: int, n: int, now: u64)
    requires
        0 <= i <= n,
        schedule_refusal(s, i, now) is Some,
    ensures
        schedule_refusal(s, n, now) == schedule_refusal(s, i, now),
    decreases n - i,
{
    if i < n {
        lemma_schedule_refusal_stays(s, i, n - 1, now);
    }
}

proof fn lemma_claimed_count_bounds(s: Seq<ReleaseTranche>, n: int)
    requires
        0 <= n <= s.len(),
    ensures
        0 <= claimed_count(s, n) <= n,
    decreases n,
{
    if n > 0 {
        lemma_claimed_count_bounds(s, n - 1);
    }
}

impl AhjoorEscrowContract {
    /// Creates an escrow funded with the sum of `schedule`'s tranches, to be
    /// released to the seller tranche by tranche as each unlocks.
    #[verifier::loop_isolation(false)]
    pub fn create_escrow_with_schedule(
        &mut self,
        buyer: Address,
        seller: Address,
        arbiter: Address,
        token: Address,
        deadline: u64,
        schedule: Vec<ReleaseTranche>,
        now: u64,
        whitelist_allows: bool,
    ) -> (r: Result<(u32, Vec<Transfer>), ContractError>)
        ensures
            spec_create_escrow_with_schedule(
                old(self)@,
                buyer,
                seller,
                arbiter,
                token,
                deadline,
                schedule@,
                now,
                whitelist_allows,
            ) == outcome_with(r, final(self)@),
            r is Err ==> final(self)@ == old(self)@,
    {
        let ghost pre = self@;
        let ghost s = schedule@;
        if self.paused {
            return Err(ContractError::ContractIsPaused);
        }
        let n = schedule.len();
        if n == 0 {
            return Err(ContractError::ReleaseScheduleMustContainAtLeastOneTranche);
        }
        let mut total: i128 = 0;
        let mut stored: Vec<ReleaseTranche> = Vec::new();
        let mut i: usize = 0;
        while i < n
            invariant
                0 <= i <= n,
                n == s.len(),
                s == schedule@,
                schedule_refusal(s, i as int, now) is None,
                total == tranches_total(s, i as int),
                stored@ == s.subrange(0, i as int).map_values(|t: ReleaseTranche| unclaimed(t)),
                self@ == pre,
            decreases n - i,
        {
            let t = schedule[i];
            if t.amount <= 0 {
                proof {
                    lemma_schedule_refusal_stays(s, i as int + 1, n as int, now);
                }
                return Err(ContractError::EachTrancheAmountMustBePositive);
            }
            if t.unlock_at <= now {
                proof {
                    lemma_schedule_refusal_stays(s, i as int + 1, n as int, now);
                }
                return Err(ContractError::EachTrancheUnlockAtMustBeFuture);
            }
            total = match total.checked_add(t.amount) {
                Some(v) => v,
                None => {
                    proof {
                        lemma_schedule_refusal_stays(s, i as int + 1, n as int, now);
                    }
                    return Err(ContractError::Overflow);
                },
            };
            stored.push(ReleaseTranche { unlock_at: t.unlock_at, amount: t.amount, claimed: false });
            i = i + 1;
            assert(stored@ =~= s.subrange(0, i as int).map_values(|t: ReleaseTranche| unclaimed(t)));
        }
        assert(s.subrange(0, n as int) =~= s);
        let req = EscrowCreateRequest {
            seller,
            arbiter,
            amount: total,
            token,
            deadline,
            metadata_hash: None,
            sellers: Vec::new(),
            auto_renew: false,
            renewal_count: 0,
            buyer_inactivity_secs: 0,
            min_lock_until: None,
            release_base: None,
            release_quote: None,
            release_comparison: None,
            release_threshold_price: None,
            arbiter_fee_bps: None,
            dispute_default_winner: None,
            auto_renew_max_renewals: None,
            auto_renew_interval_ledgers: None,
        };
        assert(req@ == basic_request(seller, arbiter, total, token, deadline, None, Seq::empty(), false, 0, 0));
        let (id, ts) = self.create_escrow_core(buyer, req, now, whitelist_allows)?;
        proof {
            lemma_map_values_insert(self.schedules@, id, stored, |v: Vec<ReleaseTranche>| v@);
        }
        self.schedules.insert(id, stored);
        self.released_index.insert(id, 0);
        proof {
            let (sp, st, sid) = spec_create_escrow_with_schedule(
                pre,
                buyer,
                seller,
                arbiter,
                token,
                deadline,
                s,
                now,
                whitelist_allows,
            )->Ok_0;
            assert(self@ =~= sp);
        }
        Ok((id, ts))
    }

    fn schedule_of(&self, id: u32) -> (r: Option<Vec<ReleaseTranche>>)
        ensures
            match r {
                Some(v) => self@.schedules.contains_key(id) && v@ == self@.schedules[id],
                None => !self@.schedules.contains_key(id),
            },
    {
        proof {
            lemma_map_values_lookup(self.schedules@, |v: Vec<ReleaseTranche>| v@);
        }
        get_vec(&self.schedules, id)
    }

    fn store_schedule(&mut self, id: u32, v: Vec<ReleaseTranche>)
        ensures
            final(self)@ == (ContractView { schedules: old(self)@.schedules.insert(id, v@), ..old(self)@ }),
    {
        proof {
            lemma_map_values_insert(self.schedules@, id, v, |v: Vec<ReleaseTranche>| v@);
        }
        self.schedules.insert(id, v);
        assert(self@ =~= ContractView { schedules: old(self)@.schedules.insert(id, v@), ..old(self)@ });
    }

    /// The seller claims, from the released index on, every tranche that has
    /// unlocked and is not yet claimed.
    #[verifier::loop_isolation(false)]
    pub fn claim_scheduled_release(&mut self, beneficiary: Address, escrow_id: u32, now: u64) -> (r: Result<
        Vec<Transfer>,
        ContractError,
    >)
        ensures
            spec_claim_scheduled_release(old(self)@, beneficiary, escrow_id, now) == outcome(r, final(self)@),
            r is Err ==> final(self)@ == old(self)@,
    {
        let id = escrow_id;
        if self.paused {
            return Err(ContractError::ContractIsPaused);
        }
        let e = self.find_escrow(id)?;
        if e.seller != beneficiary {
            return Err(ContractError::OnlyBeneficiarySellerCanClaimScheduledReleases);
        }
        if !Self::is_open_escrow_status(e.status) {
            return Err(ContractError::EscrowIsNotClaimableState);
        }
        let token = e.token;
        let mut sched = match self.schedule_of(id) {
            Some(v) => v,
            None => return Err(ContractError::NoReleaseScheduleFound),
        };
        let ghost pre = self@;
        let ghost s0 = sched@;
        let start: u32 = match self.released_index.get(&id) {
            Some(i) => *i,
            None => 0,
        };
        let me = self.me;
        let len = sched.len();
        let mut idx: usize = start as usize;
        let mut ts: Vec<Transfer> = Vec::new();
        let mut any = false;
        while idx < len
            invariant
                len == sched@.len(),
                len == s0.len(),
                start <= idx,
                sweep(sched@, idx as int, now, token, me, beneficiary, ts@, any) == sweep(
                    s0,
                    start as int,
                    now,
                    token,
                    me,
                    beneficiary,
                    Seq::empty(),
                    false,
                ),
            decreases len - idx,
        {
            let t = sched[idx];
            if !t.claimed && t.unlock_at <= now {
                ts.push(Transfer { token, from: me, to: beneficiary, amount: t.amount, by_allowance: false });
                sched.set(idx, ReleaseTranche { claimed: true, ..t });
                any = true;
            }
            idx = idx + 1;
        }
        if !any {
            return Err(ContractError::NoTranchesAreCurrentlyClaimable);
        }
        let mut end: usize = start as usize;
        while end < len && sched[end].claimed
            invariant
                len == sched@.len(),
                start <= end,
                claimed_run_end(sched@, end as int) == claimed_run_end(sched@, start as int),
            decreases len - end,
        {
            end = end + 1;
        }
        let ghost s2 = sched@;
        let ghost s1 = ContractView {
            released_index: pre.released_index.insert(id, end as u32),
            schedules: pre.schedules.insert(id, sched@),
            ..pre
        };
        self.released_index.insert(id, end as u32);
        self.store_schedule(id, sched);
        assert(self@ == s1);
        let mut e = self.take_escrow(id);
        if end >= len {
            e.status = EscrowStatus::Released;
            self.put_escrow(id, e);
            self.burn_receipt_if_exists(id);
        } else {
            e.status = EscrowStatus::PartiallyReleased;
            self.put_escrow(id, e);
        }
        proof {
            let (sp, st) = spec_claim_scheduled_release(pre, beneficiary, id, now)->Ok_0;
            assert(self@ =~= sp);
        }
        Ok(ts)
    }

    /// How many tranches of `v` are claimed.
    fn count_claimed(v: &Vec<ReleaseTranche>) -> (r: u64)
        ensures
            r == claimed_count(v@, v@.len() as int),
    {
        let mut count: u64 = 0;
        let mut k: usize = 0;
        while k < v.len()
            invariant
                0 <= k <= v@.len(),
                count == claimed_count(v@, k as int),
            decreases v@.len() - k,
        {
            proof {
                lemma_claimed_count_bounds(v@, k as int);
            }
            if v[k].claimed {
                count = count + 1;
            }
            k = k + 1;
        }
        count
    }

    /// The seller claims one tranche that has unlocked.
    pub fn claim_scheduled_tranche(&mut self, beneficiary: Address, escrow_id: u32, tranche_index: u32, now: u64) -> (r:
        Result<Vec<Transfer>, ContractError>)
        ensures
            spec_claim_scheduled_tranche(old(self)@, beneficiary, escrow_id, tranche_index, now) == outcome(
                r,
                final(self)@,
            ),
            r is Err ==> final(self)@ == old(self)@,
    {
        let id = escrow_id;
        if self.paused {
            return Err(ContractError::ContractIsPaused);
        }
        let e = self.find_escrow(id)?;
        if e.seller != beneficiary {
            return Err(ContractError::OnlyBeneficiarySellerCanClaimScheduledReleases);
        }
        if !Self::is_open_escrow_status(e.status) {
            return Err(ContractError::EscrowIsNotClaimableState);
        }
        let token = e.token;
        let mut sched = match self.schedule_of(id) {
            Some(v) => v,
            None => return Err(ContractError::NoReleaseScheduleFound),
        };
        let len = sched.len();
        if tranche_index as usize >= len {
            return Err(ContractError::Code(EscrowError::InvalidTrancheIndex));
        }
        let t = sched[tranche_index as usize];
        if t.claimed {
            return Err(ContractError::Code(EscrowError::TrancheAlreadyClaimed));
        }
        if t.unlock_at > now {
            return Err(ContractError::NoTranchesAreCurrentlyClaimable);
        }
        let ghost pre = self@;
        let mut ts = Vec::new();
        ts.push(Transfer { token, from: self.me, to: beneficiary, amount: t.amount, by_allowance: false });
        sched.set(tranche_index as usize, ReleaseTranche { claimed: true, ..t });
        let count = Self::count_claimed(&sched);
        let ghost s2 = sched@;
        self.store_schedule(id, sched);
        self.released_index.insert(id, count as u32);
        let mut e = self.take_escrow(id);
        if count == len as u64 {
            e.status = EscrowStatus::Released;
            self.put_escrow(id, e);
            self.burn_receipt_if_exists(id);
        } else {
            e.status = EscrowStatus::PartiallyReleased;
            self.put_escrow(id, e);
        }
        proof {
            let (sp, st) = spec_claim_scheduled_tranche(pre, beneficiary, id, tranche_index, now)->Ok_0;
            assert(self@ =~= sp);
            assert(ts@ =~= st);
        }
        Ok(ts)
    }

    /// The release schedule of an escrow (empty when it has none).
    pub fn get_release_schedule(&self, escrow_id: u32) -> (r: Vec<ReleaseTranche>)
        ensures
            r@ == (if self@.schedules.contains_key(escrow_id) {
                self@.schedules[escrow_id]
            } else {
                Seq::<ReleaseTranche>::empty()
            }),
    {
        match self.schedule_of(escrow_id) {
            Some(v) => v,
            None => Vec::new(),
        }
    }

    /// How far the claims of an escrow's schedule have got.
    pub fn get_released_index(&self, escrow_id: u32) -> (r: u32)
        ensures
            r == released_index_of(self@, escrow_id),
    {
        match self.released_index.get(&escrow_id) {
            Some(i) => *i,
            None => 0,
        }
    }
}

} // verus!
