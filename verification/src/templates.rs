//! Escrow templates and the pool of arbiters assigned in turn.

use crate::common::{admin_refusal, outcome_unit, outcome_with, spec_is_open, xfer, Step, StepWith};
use crate::create::{basic_request, new_escrow};
use crate::errors::ContractError;
use crate::model::{Address, Escrow, EscrowTemplate, EscrowTemplateConfig, EscrowStatus, Transfer};
use crate::state::{AhjoorEscrowContract, ContractView};
use vstd::prelude::*;

verus! {

broadcast use vstd::std_specs::hash::group_hash_axioms;

/// Whether `token` is on the contract's own token list.
pub open spec fn listed_token(pre: ContractView, token: Address) -> bool {
    pre.allowed_tokens.contains_key(token) && pre.allowed_tokens[token]
}

/// The plain single-seller escrow that templates and the arbiter pool create.
pub open spec fn simple_escrow(
    id: u32,
    buyer: Address,
    seller: Address,
    arbiter: Address,
    amount: i128,
    token: Address,
    deadline: u64,
    now: u64,
) -> crate::model::EscrowView {
    new_escrow(
        id,
        buyer,
        basic_request(seller, arbiter, amount, token, deadline, None, Seq::empty(), false, 0, 0),
        now,
    )
}

/// The state after a plain escrow is stored under the next escrow id.
pub open spec fn with_simple_escrow(
    pre: ContractView,
    buyer: Address,
    seller: Address,
    arbiter: Address,
    amount: i128,
    token: Address,
    deadline: u64,
    now: u64,
) -> ContractView {
    let id = pre.escrow_counter;
    ContractView {
        escrows: pre.escrows.insert(id, simple_escrow(id, buyer, seller, arbiter, amount, token, deadline, now)),
        escrow_counter: (id + 1) as u32,
        ..pre
    }
}

/// Creating a template for escrows in a listed token with a positive duration.
pub open spec fn spec_create_escrow_template(pre: ContractView, creator: Address, config: EscrowTemplateConfig) -> StepWith<
    u32,
> {
    if !listed_token(pre, config.token) {
        Err(ContractError::TokenNotAllowed)
    } else if config.deadline_duration == 0 {
        Err(ContractError::DeadlineDurationMustBePositive)
    } else if pre.template_counter == u32::MAX {
        Err(ContractError::Overflow)
    } else {
        let id = pre.template_counter;
        Ok(
            (
                ContractView {
                    templates: pre.templates.insert(id, EscrowTemplate { id, creator, config, active: true }),
                    template_counter: (id + 1) as u32,
                    ..pre
                },
                Seq::empty(),
                id,
            ),
        )
    }
}

/// Creating an escrow from an active template: its arbiter and token, and a
/// deadline the template's duration from now.
pub open spec fn spec_create_escrow_from_template(
    pre: ContractView,
    buyer: Address,
    seller: Address,
    template_id: u32,
    amount: i128,
    now: u64,
) -> StepWith<u32> {
    if pre.paused {
        Err(ContractError::ContractIsPaused)
    } else if !pre.templates.contains_key(template_id) {
        Err(ContractError::TemplateNotFound)
    } else if !pre.templates[template_id].active {
        Err(ContractError::TemplateIsDeactivated)
    } else if amount <= 0 {
        Err(ContractError::EscrowAmountMustBePositive)
    } else {
        let c = pre.templates[template_id].config;
        if now + c.deadline_duration > u64::MAX || pre.escrow_counter == u32::MAX {
            Err(ContractError::Overflow)
        } else {
            Ok(
                (
                    with_simple_escrow(
                        pre,
                        buyer,
                        seller,
                        c.arbiter,
                        amount,
                        c.token,
                        (now + c.deadline_duration) as u64,
                        now,
                    ),
                    seq![xfer(c.token, buyer, pre.me, amount)],
                    pre.escrow_counter,
                ),
            )
        }
    }
}

/// The template's creator changing its configuration.
pub open spec fn spec_update_escrow_template(
    pre: ContractView,
    creator: Address,
    template_id: u32,
    new_config: EscrowTemplateConfig,
) -> Step {
    if !pre.templates.contains_key(template_id) {
        Err(ContractError::TemplateNotFound)
    } else if pre.templates[template_id].creator != creator {
        Err(ContractError::OnlyTemplateCreatorCanUpdate)
    } else if !pre.templates[template_id].active {
        Err(ContractError::TemplateIsDeactivated)
    } else if !listed_token(pre, new_config.token) {
        Err(ContractError::TokenNotAllowed)
    } else if new_config.deadline_duration == 0 {
        Err(ContractError::DeadlineDurationMustBePositive)
    } else {
        Ok(
            (
                ContractView {
                    templates: pre.templates.insert(
                        template_id,
                        EscrowTemplate { config: new_config, ..pre.templates[template_id] },
                    ),
                    ..pre
                },
                Seq::empty(),
            ),
        )
    }
}

/// The template's creator turning it off for good.
pub open spec fn spec_deactivate_escrow_template(pre: ContractView, creator: Address, template_id: u32) -> Step {
    if !pre.templates.contains_key(template_id) {
        Err(ContractError::TemplateNotFound)
    } else if pre.templates[template_id].creator != creator {
        Err(ContractError::OnlyTemplateCreatorCanDeactivate)
    } else if !pre.templates[template_id].active {
        Err(ContractError::TemplateAlreadyDeactivated)
    } else {
        Ok(
            (
                ContractView {
                    templates: pre.templates.insert(
                        template_id,
                        EscrowTemplate { active: false, ..pre.templates[template_id] },
                    ),
                    ..pre
                },
                Seq::empty(),
            ),
        )
    }
}

pub open spec fn pool_of(pre: ContractView) -> Seq<Address> {
    match pre.arbiter_pool {
        Some(p) => p,
        None => Seq::empty(),
    }
}

/// Admin adding an arbiter that is not yet in the pool.
pub open spec fn spec_add_arbiter(pre: ContractView, admin: Address, arbiter: Address) -> Step {
    if let Some(x) = admin_refusal(pre, admin) {
        Err(x)
    } else if pool_of(pre).contains(arbiter) {
        Err(ContractError::ArbiterAlreadyPool)
    } else {
        Ok((ContractView { arbiter_pool: Some(pool_of(pre).push(arbiter)), ..pre }, Seq::empty()))
    }
}

/// The first `n` members of `s` other than `a`, in order.
pub open spec fn without(s: Seq<Address>, a: Address, n: int) -> Seq<Address>
    decreases n,
{
    if n <= 0 {
        Seq::empty()
    } else if s[n - 1] == a {
        without(s, a, n - 1)
    } else {
        without(s, a, n - 1).push(s[n - 1])
    }
}

/// The replacement flags after the escrows among the first `n` of `ids` that
/// are open and use `arbiter` are flagged.
pub open spec fn flagged(
    escrows: Map<u32, crate::model::EscrowView>,
    flags: Map<u32, bool>,
    arbiter: Address,
    ids: Seq<u32>,
    n: int,
) -> Map<u32, bool>
    decreases n,
{
    if n <= 0 {
        flags
    } else {
        let prev = flagged(escrows, flags, arbiter, ids, n - 1);
        let id = ids[n - 1];
        if escrows.contains_key(id) && escrows[id].arbiter == arbiter && spec_is_open(escrows[id].status) {
            prev.insert(id, true)
        } else {
            prev
        }
    }
}

/// Admin removing an arbiter from the pool; of `escrow_ids`, the open escrows
/// that it arbitrates are flagged as needing another arbiter.
pub open spec fn spec_remove_arbiter(pre: ContractView, admin: Address, arbiter: Address, escrow_ids: Seq<u32>) -> Step {
    if let Some(x) = admin_refusal(pre, admin) {
        Err(x)
    } else if pre.arbiter_pool is None {
        Err(ContractError::ArbiterPoolIsEmpty)
    } else if !pool_of(pre).contains(arbiter) {
        Err(ContractError::ArbiterNotPool)
    } else {
        let p = pool_of(pre);
        let np = without(p, arbiter, p.len() as int);
        Ok(
            (
                ContractView {
                    arbiter_pool: Some(np),
                    next_arbiter_index: if np.len() == 0 || pre.next_arbiter_index >= np.len() {
                        0
                    } else {
                        pre.next_arbiter_index
                    },
                    arbiter_needs_replacement: flagged(
                        pre.escrows,
                        pre.arbiter_needs_replacement,
                        arbiter,
                        escrow_ids,
                        escrow_ids.len() as int,
                    ),
                    ..pre
                },
                Seq::empty(),
            ),
        )
    }
}

/// Creating an escrow arbitrated by the pool's next arbiter in turn.
pub open spec fn spec_create_escrow_with_pool_arbiter(
    pre: ContractView,
    buyer: Address,
    seller: Address,
    amount: i128,
    token: Address,
    deadline: u64,
    now: u64,
) -> StepWith<u32> {
    let p = pool_of(pre);
    let idx = pre.next_arbiter_index;
    if pre.paused {
        Err(ContractError::ContractIsPaused)
    } else if amount <= 0 {
        Err(ContractError::EscrowAmountMustBePositive)
    } else if deadline <= now {
        Err(ContractError::DeadlineMustBeFuture)
    } else if !listed_token(pre, token) {
        Err(ContractError::TokenNotAllowed)
    } else if p.len() == 0 {
        Err(ContractError::ArbiterPoolIsEmpty)
    } else if idx == u32::MAX || pre.escrow_counter == u32::MAX {
        Err(ContractError::Overflow)
    } else {
        let arbiter = p[(idx as int) % (p.len() as int)];
        let s1 = ContractView { next_arbiter_index: ((idx as int + 1) % (p.len() as int)) as u32, ..pre };
        Ok(
            (
                with_simple_escrow(s1, buyer, seller, arbiter, amount, token, deadline, now),
                seq![xfer(token, buyer, pre.me, amount)],
                pre.escrow_counter,
            ),
        )
    }
}

impl AhjoorEscrowContract {
    fn listed_token(&self, token: Address) -> (r: bool)
        ensures
            r == listed_token(self@, token),
    {
        match self.allowed_tokens.get(&token) {
            Some(b) => *b,
            None => false,
        }
    }

    /// Stores a plain escrow under the next escrow id.
    fn store_simple_escrow(
        &mut self,
        buyer: Address,
        seller: Address,
        arbiter: Address,
        amount: i128,
        token: Address,
        deadline: u64,
        now: u64,
    ) -> (id: u32)
        requires
            old(self).escrow_counter < u32::MAX,
        ensures
            id == old(self).escrow_counter,
            final(self)@ == with_simple_escrow(old(self)@, buyer, seller, arbiter, amount, token, deadline, now),
    {
        let id = self.escrow_counter;
        let mut sellers = Vec::new();
        sellers.push((seller, 10000u32));
        let e = Escrow {
            id,
            buyer,
            seller,
            arbiter,
            amount,
            original_amount: amount,
            token,
            status: EscrowStatus::Active,
            created_at: now,
            deadline,
            metadata_hash: None,
            sellers,
            extensions: crate::model::EscrowExtensions {
                auto_renew: false,
                renewal_count: 0,
                renewals_remaining: 0,
                dispute_timeout_seconds: None,
                buyer_inactivity_secs: 0,
                min_lock_until: None,
                release_base: None,
                release_quote: None,
                release_comparison: None,
                release_threshold_price: None,
                arbiter_fee_bps: None,
                dispute_default_winner: None,
                required_collateral_bps: 0,
                collateral_forfeit_bps: 0,
                collateral_deposit_deadline: 0,
                collateral_amount: 0,
                delivery_proof_hash: None,
                inspector: None,
                auto_renew_max_renewals: None,
                auto_renew_interval_ledgers: None,
                renewals_completed: 0,
            },
            top_up_history: Vec::new(),
            top_up_acknowledged: true,
        };
        assert(e@.sellers =~= seq![(seller, 10000u32)]);
        assert(e@ == simple_escrow(id, buyer, seller, arbiter, amount, token, deadline, now));
        self.put_escrow(id, e);
        self.escrow_counter = id + 1;
        assert(self@ =~= with_simple_escrow(old(self)@, buyer, seller, arbiter, amount, token, deadline, now));
        id
    }

    /// Creates a template for escrows in a listed token. Returns its id.
    pub fn create_escrow_template(&mut self, creator: Address, config: EscrowTemplateConfig) -> (r: Result<
        u32,
        ContractError,
    >)
        ensures
            spec_create_escrow_template(old(self)@, creator, config) == match r {
                Ok(v) => Ok((final(self)@, Seq::<Transfer>::empty(), v)),
                Err(x) => Err::<(ContractView, Seq<Transfer>, u32), ContractError>(x),
            },
            r is Err ==> final(self)@ == old(self)@,
    {
        if !self.listed_token(config.token) {
            return Err(ContractError::TokenNotAllowed);
        }
        if config.deadline_duration == 0 {
            return Err(ContractError::DeadlineDurationMustBePositive);
        }
        if self.template_counter == u32::MAX {
            return Err(ContractError::Overflow);
        }
        let id = self.template_counter;
        self.template_counter = id + 1;
        self.templates.insert(id, EscrowTemplate { id, creator, config, active: true });
        Ok(id)
    }

    /// Creates an escrow from an active template; any caller may use any
    /// active template.
    pub fn create_escrow_from_template(
        &mut self,
        buyer: Address,
        seller: Address,
        template_id: u32,
        amount: i128,
        now: u64,
    ) -> (r: Result<(u32, Vec<Transfer>), ContractError>)
        ensures
            spec_create_escrow_from_template(old(self)@, buyer, seller, template_id, amount, now)
                == outcome_with(r, final(self)@),
            r is Err ==> final(self)@ == old(self)@,
    {
        if self.paused {
            return Err(ContractError::ContractIsPaused);
        }
        let t = match self.templates.get(&template_id) {
            Some(t) => *t,
            None => return Err(ContractError::TemplateNotFound),
        };
        if !t.active {
            return Err(ContractError::TemplateIsDeactivated);
        }
        if amount <= 0 {
            return Err(ContractError::EscrowAmountMustBePositive);
        }
        let deadline = match now.checked_add(t.config.deadline_duration) {
            Some(d) => d,
            None => return Err(ContractError::Overflow),
        };
        if self.escrow_counter == u32::MAX {
            return Err(ContractError::Overflow);
        }
        let me = self.me;
        let id = self.store_simple_escrow(buyer, seller, t.config.arbiter, amount, t.config.token, deadline, now);
        let mut ts = Vec::new();
        ts.push(Transfer { token: t.config.token, from: buyer, to: me, amount, by_allowance: false });
        assert(ts@ =~= seq![xfer(t.config.token, buyer, me, amount)]);
        Ok((id, ts))
    }

    /// The template's creator changes its configuration.
    pub fn update_escrow_template(
        &mut self,
        creator: Address,
        template_id: u32,
        new_config: EscrowTemplateConfig,
    ) -> (r: Result<(), ContractError>)
        ensures
            spec_update_escrow_template(old(self)@, creator, template_id, new_config) == outcome_unit(
                r,
                final(self)@,
            ),
            r is Err ==> final(self)@ == old(self)@,
    {
        let t = match self.templates.get(&template_id) {
            Some(t) => *t,
            None => return Err(ContractError::TemplateNotFound),
        };
        if t.creator != creator {
            return Err(ContractError::OnlyTemplateCreatorCanUpdate);
        }
        if !t.active {
            return Err(ContractError::TemplateIsDeactivated);
        }
        if !self.listed_token(new_config.token) {
            return Err(ContractError::TokenNotAllowed);
        }
        if new_config.deadline_duration == 0 {
            return Err(ContractError::DeadlineDurationMustBePositive);
        }
        self.templates.insert(template_id, EscrowTemplate { config: new_config, ..t });
        Ok(())
    }

    /// The template's creator turns it off.
    pub fn deactivate_escrow_template(&mut self, creator: Address, template_id: u32) -> (r: Result<
        (),
        ContractError,
    >)
        ensures
            spec_deactivate_escrow_template(old(self)@, creator, template_id) == outcome_unit(r, final(self)@),
            r is Err ==> final(self)@ == old(self)@,
    {
        let t = match self.templates.get(&template_id) {
            Some(t) => *t,
            None => return Err(ContractError::TemplateNotFound),
        };
        if t.creator != creator {
            return Err(ContractError::OnlyTemplateCreatorCanDeactivate);
        }
        if !t.active {
            return Err(ContractError::TemplateAlreadyDeactivated);
        }
        self.templates.insert(template_id, EscrowTemplate { active: false, ..t });
        Ok(())
    }

    /// A template.
    pub fn get_escrow_template(&self, template_id: u32) -> (r: Result<EscrowTemplate, ContractError>)
        ensures
            match r {
                Ok(t) => self@.templates.contains_key(template_id) && t == self@.templates[template_id],
                Err(x) => !self@.templates.contains_key(template_id) && x == ContractError::TemplateNotFound,
            },
    {
        match self.templates.get(&template_id) {
            Some(t) => Ok(*t),
            None => Err(ContractError::TemplateNotFound),
        }
    }

    fn pool_copy(&self) -> (r: Vec<Address>)
        ensures
            r@ == pool_of(self@),
    {
        match &self.arbiter_pool {
            Some(p) => crate::common::copy_vec(p),
            None => Vec::new(),
        }
    }

    /// Admin adds an arbiter to the pool.
    #[verifier::loop_isolation(false)]
    pub fn add_arbiter(&mut self, admin: Address, arbiter: Address) -> (r: Result<(), ContractError>)
        ensures
            spec_add_arbiter(old(self)@, admin, arbiter) == outcome_unit(r, final(self)@),
            r is Err ==> final(self)@ == old(self)@,
    {
        self.require_admin(admin)?;
        let mut pool = self.pool_copy();
        let mut i: usize = 0;
        while i < pool.len()
            invariant
                0 <= i <= pool@.len(),
                forall|k: int| 0 <= k < i ==> pool@[k] != arbiter,
            decreases pool@.len() - i,
        {
            if pool[i] == arbiter {
                assert(pool@.contains(arbiter)) by {
                    assert(pool@[i as int] == arbiter);
                }
                return Err(ContractError::ArbiterAlreadyPool);
            }
            i = i + 1;
        }
        assert(!pool@.contains(arbiter));
        pool.push(arbiter);
        self.arbiter_pool = Some(pool);
        assert(self@ =~= spec_add_arbiter(old(self)@, admin, arbiter)->Ok_0.0);
        Ok(())
    }

    /// Admin removes an arbiter from the pool; of `escrow_ids`, the open
    /// escrows it arbitrates are flagged as needing another arbiter.
    #[verifier::loop_isolation(false)]
    pub fn remove_arbiter(&mut self, admin: Address, arbiter: Address, escrow_ids: Vec<u32>) -> (r: Result<
        (),
        ContractError,
    >)
        ensures
            spec_remove_arbiter(old(self)@, admin, arbiter, escrow_ids@) == outcome_unit(r, final(self)@),
            r is Err ==> final(self)@ == old(self)@,
    {
        let ghost pre = self@;
        self.require_admin(admin)?;
        if self.arbiter_pool.is_none() {
            return Err(ContractError::ArbiterPoolIsEmpty);
        }
        let pool = self.pool_copy();
        let mut found = false;
        let mut np: Vec<Address> = Vec::new();
        let mut i: usize = 0;
        while i < pool.len()
            invariant
                0 <= i <= pool@.len(),
                pool@ == pool_of(pre),
                found <==> exists|k: int| 0 <= k < i && pool@[k] == arbiter,
                np@ == without(pool@, arbiter, i as int),
            decreases pool@.len() - i,
        {
            let a = pool[i];
            if a == arbiter {
                found = true;
            } else {
                np.push(a);
            }
            i = i + 1;
        }
        if !found {
            return Err(ContractError::ArbiterNotPool);
        }
        if np.len() == 0 || self.next_arbiter_index as usize >= np.len() {
            self.next_arbiter_index = 0;
        }
        self.arbiter_pool = Some(np);
        self.flag_escrows(arbiter, &escrow_ids);
        assert(self@ =~= spec_remove_arbiter(pre, admin, arbiter, escrow_ids@)->Ok_0.0);
        Ok(())
    }

    /// Flags, of `ids`, the open escrows that `arbiter` arbitrates.
    fn flag_escrows(&mut self, arbiter: Address, ids: &Vec<u32>)
        ensures
            final(self)@ == (ContractView {
                arbiter_needs_replacement: flagged(
                    old(self)@.escrows,
                    old(self)@.arbiter_needs_replacement,
                    arbiter,
                    ids@,
                    ids@.len() as int,
                ),
                ..old(self)@
            }),
    {
        let ghost s1 = self@;
        let mut j: usize = 0;
        while j < ids.len()
            invariant
                0 <= j <= ids@.len(),
                self@ == (ContractView {
                    arbiter_needs_replacement: flagged(s1.escrows, s1.arbiter_needs_replacement, arbiter, ids@, j as int),
                    ..s1
                }),
            decreases ids@.len() - j,
        {
            let eid = ids[j];
            let flag = match self.find_escrow(eid) {
                Ok(e) => e.arbiter == arbiter && Self::is_open_escrow_status(e.status),
                Err(_) => false,
            };
            if flag {
                self.arbiter_needs_replacement.insert(eid, true);
            }
            j = j + 1;
            assert(self@ =~= ContractView {
                arbiter_needs_replacement: flagged(s1.escrows, s1.arbiter_needs_replacement, arbiter, ids@, j as int),
                ..s1
            });
        }
    }

    /// Creates an escrow arbitrated by the pool's next arbiter in turn.
    pub fn create_escrow_with_pool_arbiter(
        &mut self,
        buyer: Address,
        seller: Address,
        amount: i128,
        token: Address,
        deadline: u64,
        now: u64,
    ) -> (r: Result<(u32, Vec<Transfer>), ContractError>)
        ensures
            spec_create_escrow_with_pool_arbiter(old(self)@, buyer, seller, amount, token, deadline, now)
                == outcome_with(r, final(self)@),
            r is Err ==> final(self)@ == old(self)@,
    {
        if self.paused {
            return Err(ContractError::ContractIsPaused);
        }
        if amount <= 0 {
            return Err(ContractError::EscrowAmountMustBePositive);
        }
        if deadline <= now {
            return Err(ContractError::DeadlineMustBeFuture);
        }
        if !self.listed_token(token) {
            return Err(ContractError::TokenNotAllowed);
        }
        let pool = self.pool_copy();
        let len = pool.len();
        if len == 0 {
            return Err(ContractError::ArbiterPoolIsEmpty);
        }
        let idx = self.next_arbiter_index;
        if idx == u32::MAX || self.escrow_counter == u32::MAX {
            return Err(ContractError::Overflow);
        }
        let arbiter = pool[(idx as usize) % len];
        let next = ((idx as usize + 1) % len) as u32;
        self.next_arbiter_index = next;
        let me = self.me;
        let id = self.store_simple_escrow(buyer, seller, arbiter, amount, token, deadline, now);
        let mut ts = Vec::new();
        ts.push(Transfer { token, from: buyer, to: me, amount, by_allowance: false });
        assert(ts@ =~= seq![xfer(token, buyer, me, amount)]);
        Ok((id, ts))
    }
}

} // verus!
