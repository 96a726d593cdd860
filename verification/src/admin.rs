//! Administration: initialization, pausing, upgrades, the token list and the
//! protocol-wide settings.

use crate::common::{
    admin_refusal, named_admin_refusal, outcome, outcome_unit, spec_token_allowed, xfer, Step,
};
use crate::errors::ContractError;
use crate::model::{Address, DisputeDefaultWinner, Transfer};
use crate::state::{
    AhjoorEscrowContract, ContractView, DEFAULT_DISPUTE_TIMEOUT_SECONDS,
    DEFAULT_INSURANCE_TRIGGER_DAYS, DEFAULT_MAX_BOUNTY_REJECTION_ROUNDS,
    DEFAULT_MAX_ORACLE_AGE_SECONDS, DEFAULT_MAX_TOPUP_MULTIPLIER,
    DEFAULT_PARTIAL_RELEASE_RESPONSE_DEADLINE, MAX_ARBITER_FEE_BPS, MAX_PROTOCOL_FEE_BPS,
};
use vstd::prelude::*;

verus! {

broadcast use vstd::std_specs::hash::group_hash_axioms;

/// Setting up the contract with its admin and the default settings.
pub open spec fn spec_initialize(pre: ContractView, admin: Address) -> Step {
    if pre.admin is Some {
        Err(ContractError::AlreadyInitialized)
    } else {
        Ok(
            (
                ContractView {
                    admin: Some(admin),
                    version: 1,
                    default_dispute_timeout: DEFAULT_DISPUTE_TIMEOUT_SECONDS,
                    default_arbiter_fee_bps: 0,
                    insurance_pool: 0,
                    insurance_trigger_days: DEFAULT_INSURANCE_TRIGGER_DAYS,
                    max_oracle_age: DEFAULT_MAX_ORACLE_AGE_SECONDS,
                    default_dispute_winner: DisputeDefaultWinner::Buyer,
                    max_topup_multiplier: DEFAULT_MAX_TOPUP_MULTIPLIER,
                    partial_release_response_deadline: DEFAULT_PARTIAL_RELEASE_RESPONSE_DEADLINE,
                    max_bounty_rejection_rounds: DEFAULT_MAX_BOUNTY_REJECTION_ROUNDS,
                    ..pre
                },
                Seq::empty(),
            ),
        )
    }
}

/// An admin check that makes the caller the admin when none is set yet.
pub open spec fn bootstrap_admin(pre: ContractView, admin: Address, not_admin: ContractError) -> Result<
    ContractView,
    ContractError,
> {
    match pre.admin {
        Some(a) => if a != admin {
            Err(not_admin)
        } else {
            Ok(pre)
        },
        None => Ok(ContractView { admin: Some(admin), ..pre }),
    }
}

/// Pausing the contract, with a reason.
pub open spec fn spec_pause_contract(pre: ContractView, admin: Address, reason: Seq<char>) -> Step {
    match bootstrap_admin(pre, admin, ContractError::OnlyAdminCanPauseContract) {
        Err(x) => Err(x),
        Ok(s1) => if s1.paused {
            Err(ContractError::ContractAlreadyPaused)
        } else {
            Ok((ContractView { paused: true, pause_reason: Some(reason), ..s1 }, Seq::empty()))
        },
    }
}

/// Resuming a paused contract.
pub open spec fn spec_resume_contract(pre: ContractView, admin: Address) -> Step {
    if let Some(x) = admin_refusal(pre, admin) {
        Err(x)
    } else if !pre.paused {
        Err(ContractError::ContractIsNotPaused)
    } else {
        Ok((ContractView { paused: false, pause_reason: None, ..pre }, Seq::empty()))
    }
}

/// An admin-only change of settings: refused when the caller is not the
/// admin, or when `invalid` holds (with `why`); else the state becomes `post`.
pub open spec fn admin_setting(pre: ContractView, admin: Address, invalid: bool, why: ContractError, post: ContractView) -> Step {
    if let Some(x) = admin_refusal(pre, admin) {
        Err(x)
    } else if invalid {
        Err(why)
    } else {
        Ok((post, Seq::empty()))
    }
}

/// A change of settings that needs the contract unpaused and the named admin.
pub open spec fn unpaused_admin_setting(
    pre: ContractView,
    admin: Address,
    not_admin: ContractError,
    invalid: bool,
    why: ContractError,
    post: ContractView,
) -> Step {
    if pre.paused {
        Err(ContractError::ContractIsPaused)
    } else if let Some(x) = named_admin_refusal(pre, admin, not_admin) {
        Err(x)
    } else if invalid {
        Err(why)
    } else {
        Ok((post, Seq::empty()))
    }
}

pub open spec fn accrued_fees_of(pre: ContractView, token: Address) -> i128 {
    if pre.accrued_fees.contains_key(token) {
        pre.accrued_fees[token]
    } else {
        0
    }
}

/// Admin withdrawing accrued protocol fees in `token` to `destination`.
pub open spec fn spec_withdraw_fees(pre: ContractView, admin: Address, amount: i128, token: Address, destination: Address) -> Step {
    let acc = accrued_fees_of(pre, token);
    if let Some(x) = admin_refusal(pre, admin) {
        Err(x)
    } else if amount <= 0 {
        Err(ContractError::WithdrawalAmountMustBePositive)
    } else if amount > acc {
        Err(ContractError::InsufficientAccruedFees)
    } else {
        Ok(
            (
                ContractView {
                    accrued_fees: if acc - amount == 0 {
                        pre.accrued_fees.remove(token)
                    } else {
                        pre.accrued_fees.insert(token, (acc - amount) as i128)
                    },
                    ..pre
                },
                seq![xfer(token, pre.me, destination, amount)],
            ),
        )
    }
}

/// Admin setting the insurance token, which must be allowed, and the days
/// of arbiter inactivity (positive) after which insurance may be claimed.
pub open spec fn spec_set_insurance_config(
    pre: ContractView,
    admin: Address,
    token: Address,
    trigger_days: u64,
    external_allows: bool,
) -> Step {
    if let Some(x) = admin_refusal(pre, admin) {
        Err(x)
    } else if trigger_days == 0 {
        Err(ContractError::InsuranceTriggerDaysMustBePositive)
    } else if !spec_token_allowed(pre, token, external_allows) {
        Err(ContractError::TokenNotAllowed)
    } else {
        Ok(
            (
                ContractView { insurance_token: Some(token), insurance_trigger_days: trigger_days, ..pre },
                Seq::empty(),
            ),
        )
    }
}

/// Anyone paying `amount` of the insurance token into the insurance pool.
pub open spec fn spec_contribute_to_insurance(pre: ContractView, contributor: Address, amount: i128) -> Step {
    if pre.paused {
        Err(ContractError::ContractIsPaused)
    } else if amount <= 0 {
        Err(ContractError::InsuranceContributionMustBePositive)
    } else if pre.insurance_token is None {
        Err(ContractError::InsuranceTokenNotConfigured)
    } else if pre.insurance_pool + amount > i128::MAX {
        Err(ContractError::Overflow)
    } else {
        Ok(
            (
                ContractView { insurance_pool: (pre.insurance_pool + amount) as i128, ..pre },
                seq![xfer(pre.insurance_token->0, contributor, pre.me, amount)],
            ),
        )
    }
}

/// `x` seconds counted in whole days, capped at the largest u64.
pub open spec fn days_in_seconds(days: u64) -> u64 {
    if days * 86400 > u64::MAX {
        u64::MAX
    } else {
        (days * 86400) as u64
    }
}

/// The buyer or seller of a disputed escrow claiming from the insurance pool,
/// once the admin confirmed the arbiter's inactivity and the trigger period has
/// passed: half the disputed amount, capped by what the pool holds.
pub open spec fn spec_claim_insurance(pre: ContractView, claimant: Address, id: u32, now: u64) -> Step {
    if pre.paused {
        Err(ContractError::ContractIsPaused)
    } else if !pre.escrows.contains_key(id) {
        Err(ContractError::EscrowNotFound)
    } else {
        let e = pre.escrows[id];
        if claimant != e.buyer && claimant != e.seller {
            Err(ContractError::OnlyBuyerOrSellerCanClaimInsurance)
        } else if e.status != crate::model::EscrowStatus::Disputed && e.status
            != crate::model::EscrowStatus::PartiallyDisputed {
            Err(ContractError::EscrowIsNotDisputed)
        } else if !pre.disputes.contains_key(id) {
            Err(ContractError::DisputeNotFound)
        } else if pre.disputes[id].resolved {
            Err(ContractError::DisputeAlreadyResolved)
        } else if pre.insurance_claimed.contains_key(id) && pre.insurance_claimed[id] {
            Err(ContractError::InsuranceAlreadyClaimed)
        } else if !(pre.insurance_confirmed.contains_key(id) && pre.insurance_confirmed[id]) {
            Err(ContractError::AdminConfirmationRequired)
        } else {
            let created = pre.disputes[id].created_at;
            let elapsed: int = if now >= created {
                now - created
            } else {
                0
            };
            let max_claim = crate::common::tdiv(e.amount as int, 2);
            let claim = if pre.insurance_pool < max_claim {
                pre.insurance_pool as int
            } else {
                max_claim
            };
            if elapsed < days_in_seconds(pre.insurance_trigger_days) {
                Err(ContractError::InsuranceTriggerPeriodNotReached)
            } else if pre.insurance_token is None {
                Err(ContractError::InsuranceTokenNotConfigured)
            } else if pre.insurance_token->0 != e.token {
                Err(ContractError::EscrowTokenNotCoveredByInsurancePool)
            } else if claim <= 0 {
                Err(ContractError::InsurancePoolHasInsufficientBalance)
            } else {
                Ok(
                    (
                        ContractView {
                            insurance_pool: (pre.insurance_pool - claim) as i128,
                            insurance_claimed: pre.insurance_claimed.insert(id, true),
                            ..pre
                        },
                        seq![xfer(e.token, pre.me, claimant, claim as i128)],
                    ),
                )
            }
        }
    }
}

/// Admin raising the version by one; the code itself is replaced by the host.
pub open spec fn spec_upgrade(pre: ContractView, admin: Address) -> Step {
    if let Some(x) = named_admin_refusal(pre, admin, ContractError::OnlyAdminCanUpgradeContract) {
        Err(x)
    } else if pre.version == u32::MAX {
        Err(ContractError::VersionOverflow)
    } else {
        Ok((ContractView { version: (pre.version + 1) as u32, ..pre }, Seq::empty()))
    }
}

/// Admin running the one-time migration of the current version.
pub open spec fn spec_migrate(pre: ContractView, admin: Address) -> Step {
    if let Some(x) = named_admin_refusal(pre, admin, ContractError::OnlyAdminCanMigrateContract) {
        Err(x)
    } else if pre.migrations_done.contains_key(pre.version) && pre.migrations_done[pre.version] {
        Err(ContractError::MigrationAlreadyCompletedVersion)
    } else {
        Ok(
            (
                ContractView { migrations_done: pre.migrations_done.insert(pre.version, true), ..pre },
                Seq::empty(),
            ),
        )
    }
}

/// A settings change that needs the contract unpaused and makes the caller
/// the admin when none is set yet.
pub open spec fn bootstrap_setting(pre: ContractView, admin: Address, invalid: bool, why: ContractError, post: spec_fn(ContractView) -> ContractView) -> Step {
    if pre.paused {
        Err(ContractError::ContractIsPaused)
    } else {
        match bootstrap_admin(pre, admin, ContractError::OnlyAdminCanPauseContract) {
            Err(x) => Err(x),
            Ok(s1) => if invalid {
                Err(why)
            } else {
                Ok((post(s1), Seq::empty()))
            },
        }
    }
}

/// An inspector's record: (total rulings, correct rulings, accuracy in bps,
/// full for a new inspector), or `None` when the accuracy overflows.
pub open spec fn inspector_score_report(pre: ContractView, inspector: Address) -> Option<(u32, u32, u32)> {
    let s = crate::dispute::score_of(pre, inspector);
    if s.total_rulings == 0 {
        Some((0, 0, 10000))
    } else if s.correct_rulings * 10000 > u32::MAX {
        None
    } else {
        Some((s.total_rulings, s.correct_rulings, ((s.correct_rulings * 10000) / (s.total_rulings as int)) as u32))
    }
}

impl AhjoorEscrowContract {
    /// Sets the admin and the default settings; once only.
    pub fn initialize(&mut self, admin: Address) -> (r: Result<(), ContractError>)
        ensures
            spec_initialize(old(self)@, admin) == outcome_unit(r, final(self)@),
            r is Err ==> final(self)@ == old(self)@,
    {
        if self.admin.is_some() {
            return Err(ContractError::AlreadyInitialized);
        }
        self.admin = Some(admin);
        self.version = 1;
        self.default_dispute_timeout = DEFAULT_DISPUTE_TIMEOUT_SECONDS;
        self.default_arbiter_fee_bps = 0;
        self.insurance_pool = 0;
        self.insurance_trigger_days = DEFAULT_INSURANCE_TRIGGER_DAYS;
        self.max_oracle_age = DEFAULT_MAX_ORACLE_AGE_SECONDS;
        self.default_dispute_winner = DisputeDefaultWinner::Buyer;
        self.max_topup_multiplier = DEFAULT_MAX_TOPUP_MULTIPLIER;
        self.partial_release_response_deadline = DEFAULT_PARTIAL_RELEASE_RESPONSE_DEADLINE;
        self.max_bounty_rejection_rounds = DEFAULT_MAX_BOUNTY_REJECTION_ROUNDS;
        Ok(())
    }

    fn require_or_bootstrap_admin(&mut self, admin: Address, not_admin: ContractError) -> (r: Result<(), ContractError>)
        ensures
            match r {
                Ok(()) => bootstrap_admin(old(self)@, admin, not_admin) == Ok::<
                    ContractView,
                    ContractError,
                >(final(self)@),
                Err(x) => bootstrap_admin(old(self)@, admin, not_admin) == Err::<
                    ContractView,
                    ContractError,
                >(x) && final(self)@ == old(self)@,
            },
    {
        match self.admin {
            Some(a) => if a != admin {
                Err(not_admin)
            } else {
                Ok(())
            },
            None => {
                self.admin = Some(admin);
                Ok(())
            },
        }
    }

    /// Pauses the contract; the first caller becomes admin when none is set.
    pub fn pause_contract(&mut self, admin: Address, reason: String) -> (r: Result<(), ContractError>)
        ensures
            spec_pause_contract(old(self)@, admin, reason@) == outcome_unit(r, final(self)@),
            r is Err ==> final(self)@ == old(self)@,
    {
        let ghost pre = self@;
        let had_admin = self.admin;
        self.require_or_bootstrap_admin(admin, ContractError::OnlyAdminCanPauseContract)?;
        if self.paused {
            self.admin = had_admin;
            assert(self@ =~= pre);
            return Err(ContractError::ContractAlreadyPaused);
        }
        self.paused = true;
        self.pause_reason = Some(reason);
        Ok(())
    }

    /// Resumes a paused contract.
    pub fn resume_contract(&mut self, admin: Address) -> (r: Result<(), ContractError>)
        ensures
            spec_resume_contract(old(self)@, admin) == outcome_unit(r, final(self)@),
            r is Err ==> final(self)@ == old(self)@,
    {
        self.require_admin(admin)?;
        if !self.paused {
            return Err(ContractError::ContractIsNotPaused);
        }
        self.paused = false;
        self.pause_reason = None;
        Ok(())
    }

    pub fn is_paused(&self) -> (r: bool)
        ensures
            r == self@.paused,
    {
        self.paused
    }

    /// Why the contract was paused (empty when it is not).
    pub fn get_pause_reason(&self) -> (r: String)
        ensures
            r@ == match self@.pause_reason {
                Some(s) => s,
                None => Seq::<char>::empty(),
            },
    {
        match &self.pause_reason {
            Some(s) => s.clone(),
            None => String::new(),
        }
    }

    /// Admin puts a token on the contract's list and turns the list on.
    pub fn add_allowed_token(&mut self, admin: Address, token: Address) -> (r: Result<(), ContractError>)
        ensures
            admin_setting(
                old(self)@,
                admin,
                false,
                ContractError::TokenNotAllowed,
                ContractView {
                    allowed_tokens: old(self)@.allowed_tokens.insert(token, true),
                    allowlist_activated: true,
                    ..old(self)@
                },
            ) == outcome_unit(r, final(self)@),
            r is Err ==> final(self)@ == old(self)@,
    {
        self.require_admin(admin)?;
        self.allowed_tokens.insert(token, true);
        self.allowlist_activated = true;
        Ok(())
    }

    /// Admin takes a token off the contract's list.
    pub fn remove_allowed_token(&mut self, admin: Address, token: Address) -> (r: Result<(), ContractError>)
        ensures
            admin_setting(
                old(self)@,
                admin,
                false,
                ContractError::TokenNotAllowed,
                ContractView { allowed_tokens: old(self)@.allowed_tokens.remove(token), ..old(self)@ },
            ) == outcome_unit(r, final(self)@),
            r is Err ==> final(self)@ == old(self)@,
    {
        self.require_admin(admin)?;
        self.allowed_tokens.remove(&token);
        Ok(())
    }

    /// Admin names the external token whitelist contract.
    pub fn set_token_whitelist_contract(&mut self, admin: Address, whitelist_contract: Address) -> (r: Result<
        (),
        ContractError,
    >)
        ensures
            unpaused_admin_setting(
                old(self)@,
                admin,
                ContractError::OnlyAdminCanSetTokenWhitelistContract,
                false,
                ContractError::TokenNotAllowed,
                ContractView { token_whitelist_contract: Some(whitelist_contract), ..old(self)@ },
            ) == outcome_unit(r, final(self)@),
            r is Err ==> final(self)@ == old(self)@,
    {
        if self.paused {
            return Err(ContractError::ContractIsPaused);
        }
        self.check_named_admin(admin, ContractError::OnlyAdminCanSetTokenWhitelistContract)?;
        self.token_whitelist_contract = Some(whitelist_contract);
        Ok(())
    }

    pub fn get_token_whitelist_contract(&self) -> (r: Option<Address>)
        ensures
            r == self@.token_whitelist_contract,
    {
        self.token_whitelist_contract
    }

    /// Whether `token` may be used: `whitelist_answer` is the external
    /// whitelist's answer when one is configured; otherwise every token is.
    pub fn is_token_allowed(&self, whitelist_answer: bool) -> (r: bool)
        ensures
            r == (if self@.token_whitelist_contract is Some {
                whitelist_answer
            } else {
                true
            }),
    {
        if self.token_whitelist_contract.is_some() {
            whitelist_answer
        } else {
            true
        }
    }

    /// Admin sets the protocol fee (at most 200 bps) and its recipient.
    pub fn update_protocol_fee(&mut self, admin: Address, fee_bps: u32, fee_recipient: Address) -> (r: Result<
        (),
        ContractError,
    >)
        ensures
            admin_setting(
                old(self)@,
                admin,
                fee_bps > MAX_PROTOCOL_FEE_BPS,
                ContractError::FeeExceedsMaximum200Bps,
                ContractView { protocol_fee_bps: fee_bps, fee_recipient: Some(fee_recipient), ..old(self)@ },
            ) == outcome_unit(r, final(self)@),
            r is Err ==> final(self)@ == old(self)@,
    {
        self.require_admin(admin)?;
        if fee_bps > MAX_PROTOCOL_FEE_BPS {
            return Err(ContractError::FeeExceedsMaximum200Bps);
        }
        self.protocol_fee_bps = fee_bps;
        self.fee_recipient = Some(fee_recipient);
        Ok(())
    }

    pub fn get_protocol_fee(&self) -> (r: (u32, Option<Address>))
        ensures
            r == (self@.protocol_fee_bps, self@.fee_recipient),
    {
        (self.protocol_fee_bps, self.fee_recipient)
    }

    /// Admin withdraws accrued protocol fees in `token` to `destination`.
    pub fn withdraw_fees(&mut self, admin: Address, amount: i128, token: Address, destination: Address) -> (r:
        Result<Vec<Transfer>, ContractError>)
        ensures
            spec_withdraw_fees(old(self)@, admin, amount, token, destination) == outcome(r, final(self)@),
            r is Err ==> final(self)@ == old(self)@,
    {
        self.require_admin(admin)?;
        if amount <= 0 {
            return Err(ContractError::WithdrawalAmountMustBePositive);
        }
        let acc: i128 = match self.accrued_fees.get(&token) {
            Some(a) => *a,
            None => 0,
        };
        if amount > acc {
            return Err(ContractError::InsufficientAccruedFees);
        }
        let rest = acc - amount;
        if rest == 0 {
            self.accrued_fees.remove(&token);
        } else {
            self.accrued_fees.insert(token, rest);
        }
        let mut ts = Vec::new();
        ts.push(Transfer { token, from: self.me, to: destination, amount, by_allowance: false });
        assert(ts@ =~= seq![xfer(token, self.me, destination, amount)]);
        Ok(ts)
    }

    /// Admin sets the default dispute timeout (positive).
    pub fn update_default_dispute_timeout(&mut self, admin: Address, timeout_seconds: u64) -> (r: Result<
        (),
        ContractError,
    >)
        ensures
            admin_setting(
                old(self)@,
                admin,
                timeout_seconds == 0,
                ContractError::TimeoutMustBePositive,
                ContractView { default_dispute_timeout: timeout_seconds, ..old(self)@ },
            ) == outcome_unit(r, final(self)@),
            r is Err ==> final(self)@ == old(self)@,
    {
        self.require_admin(admin)?;
        if timeout_seconds == 0 {
            return Err(ContractError::TimeoutMustBePositive);
        }
        self.default_dispute_timeout = timeout_seconds;
        Ok(())
    }

    pub fn get_default_dispute_timeout(&self) -> (r: u64)
        ensures
            r == self@.default_dispute_timeout,
    {
        self.default_dispute_timeout
    }

    /// Admin sets who wins a dispute that times out, unless the escrow says otherwise.
    pub fn set_default_dispute_winner(&mut self, admin: Address, winner: DisputeDefaultWinner) -> (r: Result<
        (),
        ContractError,
    >)
        ensures
            admin_setting(
                old(self)@,
                admin,
                false,
                ContractError::TimeoutMustBePositive,
                ContractView { default_dispute_winner: winner, ..old(self)@ },
            ) == outcome_unit(r, final(self)@),
            r is Err ==> final(self)@ == old(self)@,
    {
        self.require_admin(admin)?;
        self.default_dispute_winner = winner;
        Ok(())
    }

    pub fn get_default_dispute_winner(&self) -> (r: DisputeDefaultWinner)
        ensures
            r == self@.default_dispute_winner,
    {
        self.default_dispute_winner
    }

    /// Admin sets the top-up limit as a multiple of the original amount (positive).
    pub fn update_max_topup_multiplier(&mut self, admin: Address, multiplier: u32) -> (r: Result<
        (),
        ContractError,
    >)
        ensures
            admin_setting(
                old(self)@,
                admin,
                multiplier == 0,
                ContractError::MultiplierMustBePositive,
                ContractView { max_topup_multiplier: multiplier, ..old(self)@ },
            ) == outcome_unit(r, final(self)@),
            r is Err ==> final(self)@ == old(self)@,
    {
        self.require_admin(admin)?;
        if multiplier == 0 {
            return Err(ContractError::MultiplierMustBePositive);
        }
        self.max_topup_multiplier = multiplier;
        Ok(())
    }

    pub fn get_max_topup_multiplier(&self) -> (r: u32)
        ensures
            r == self@.max_topup_multiplier,
    {
        self.max_topup_multiplier
    }

    /// Admin sets how long a buyer has to answer a partial release request (positive).
    pub fn set_partial_release_deadline(&mut self, admin: Address, deadline: u64) -> (r: Result<
        (),
        ContractError,
    >)
        ensures
            admin_setting(
                old(self)@,
                admin,
                deadline == 0,
                ContractError::DeadlineMustBePositive,
                ContractView { partial_release_response_deadline: deadline, ..old(self)@ },
            ) == outcome_unit(r, final(self)@),
            r is Err ==> final(self)@ == old(self)@,
    {
        self.require_admin(admin)?;
        if deadline == 0 {
            return Err(ContractError::DeadlineMustBePositive);
        }
        self.partial_release_response_deadline = deadline;
        Ok(())
    }

    pub fn get_partial_release_deadline(&self) -> (r: u64)
        ensures
            r == self@.partial_release_response_deadline,
    {
        self.partial_release_response_deadline
    }

    /// Admin sets the default arbiter fee (at most 1000 bps).
    pub fn set_default_arbiter_fee_bps(&mut self, admin: Address, fee_bps: u32) -> (r: Result<
        (),
        ContractError,
    >)
        ensures
            admin_setting(
                old(self)@,
                admin,
                fee_bps > MAX_ARBITER_FEE_BPS,
                ContractError::ArbiterFeeExceedsMaximum1000Bps,
                ContractView { default_arbiter_fee_bps: fee_bps, ..old(self)@ },
            ) == outcome_unit(r, final(self)@),
            r is Err ==> final(self)@ == old(self)@,
    {
        self.require_admin(admin)?;
        if fee_bps > MAX_ARBITER_FEE_BPS {
            return Err(ContractError::ArbiterFeeExceedsMaximum1000Bps);
        }
        self.default_arbiter_fee_bps = fee_bps;
        Ok(())
    }

    pub fn get_default_arbiter_fee_bps(&self) -> (r: u32)
        ensures
            r == self@.default_arbiter_fee_bps,
    {
        self.default_arbiter_fee_bps
    }

    /// Admin names the price oracle and the oldest price accepted (positive).
    pub fn set_oracle(&mut self, admin: Address, oracle: Address, max_oracle_age: u64) -> (r: Result<
        (),
        ContractError,
    >)
        ensures
            admin_setting(
                old(self)@,
                admin,
                max_oracle_age == 0,
                ContractError::MaxOracleAgeMustBePositive,
                ContractView { oracle: Some(oracle), max_oracle_age, ..old(self)@ },
            ) == outcome_unit(r, final(self)@),
            r is Err ==> final(self)@ == old(self)@,
    {
        self.require_admin(admin)?;
        if max_oracle_age == 0 {
            return Err(ContractError::MaxOracleAgeMustBePositive);
        }
        self.oracle = Some(oracle);
        self.max_oracle_age = max_oracle_age;
        Ok(())
    }

    pub fn get_oracle_address(&self) -> (r: Result<Address, ContractError>)
        ensures
            r == match self@.oracle {
                Some(o) => Ok::<Address, ContractError>(o),
                None => Err(ContractError::OracleNotConfigured),
            },
    {
        match self.oracle {
            Some(o) => Ok(o),
            None => Err(ContractError::OracleNotConfigured),
        }
    }

    pub fn get_max_oracle_age(&self) -> (r: u64)
        ensures
            r == self@.max_oracle_age,
    {
        self.max_oracle_age
    }

    /// Admin sets the insurance token and the days of arbiter inactivity after
    /// which insurance may be claimed. `external_allows` is the external token
    /// whitelist's answer for `token`, when one is configured.
    pub fn set_insurance_config(
        &mut self,
        admin: Address,
        token: Address,
        trigger_days: u64,
        external_allows: bool,
    ) -> (r: Result<(), ContractError>)
        ensures
            spec_set_insurance_config(old(self)@, admin, token, trigger_days, external_allows)
                == outcome_unit(r, final(self)@),
            r is Err ==> final(self)@ == old(self)@,
    {
        self.require_admin(admin)?;
        if trigger_days == 0 {
            return Err(ContractError::InsuranceTriggerDaysMustBePositive);
        }
        if !self.token_allowed(token, external_allows) {
            return Err(ContractError::TokenNotAllowed);
        }
        self.insurance_token = Some(token);
        self.insurance_trigger_days = trigger_days;
        Ok(())
    }

    pub fn get_insurance_pool(&self) -> (r: i128)
        ensures
            r == self@.insurance_pool,
    {
        self.insurance_pool
    }

    /// Anyone pays into the insurance pool.
    pub fn contribute_to_insurance(&mut self, contributor: Address, amount: i128) -> (r: Result<
        Vec<Transfer>,
        ContractError,
    >)
        ensures
            spec_contribute_to_insurance(old(self)@, contributor, amount) == outcome(r, final(self)@),
            r is Err ==> final(self)@ == old(self)@,
    {
        if self.paused {
            return Err(ContractError::ContractIsPaused);
        }
        if amount <= 0 {
            return Err(ContractError::InsuranceContributionMustBePositive);
        }
        let token = match self.insurance_token {
            Some(t) => t,
            None => return Err(ContractError::InsuranceTokenNotConfigured),
        };
        let pool = match self.insurance_pool.checked_add(amount) {
            Some(p) => p,
            None => return Err(ContractError::Overflow),
        };
        self.insurance_pool = pool;
        let mut ts = Vec::new();
        ts.push(Transfer { token, from: contributor, to: self.me, amount, by_allowance: false });
        assert(ts@ =~= seq![xfer(token, contributor, self.me, amount)]);
        Ok(ts)
    }

    /// Admin confirms (or clears the confirmation) that a disputed escrow's
    /// arbiter has been inactive.
    pub fn confirm_insurance_inactivity(&mut self, admin: Address, escrow_id: u32, confirmed: bool) -> (r:
        Result<(), ContractError>)
        ensures
            admin_setting(
                old(self)@,
                admin,
                false,
                ContractError::AdminConfirmationRequired,
                ContractView {
                    insurance_confirmed: old(self)@.insurance_confirmed.insert(escrow_id, confirmed),
                    ..old(self)@
                },
            ) == outcome_unit(r, final(self)@),
            r is Err ==> final(self)@ == old(self)@,
    {
        self.require_admin(admin)?;
        self.insurance_confirmed.insert(escrow_id, confirmed);
        Ok(())
    }

    /// The buyer or seller of a disputed escrow claims from the insurance pool.
    pub fn claim_insurance(&mut self, claimant: Address, escrow_id: u32, now: u64) -> (r: Result<
        Vec<Transfer>,
        ContractError,
    >)
        ensures
            spec_claim_insurance(old(self)@, claimant, escrow_id, now) == outcome(r, final(self)@),
            r is Err ==> final(self)@ == old(self)@,
    {
        let id = escrow_id;
        if self.paused {
            return Err(ContractError::ContractIsPaused);
        }
        let e = self.find_escrow(id)?;
        if claimant != e.buyer && claimant != e.seller {
            return Err(ContractError::OnlyBuyerOrSellerCanClaimInsurance);
        }
        if e.status != crate::model::EscrowStatus::Disputed && e.status
            != crate::model::EscrowStatus::PartiallyDisputed {
            return Err(ContractError::EscrowIsNotDisputed);
        }
        proof {
            crate::common::lemma_map_values_lookup(self.disputes@, |d: crate::model::Dispute| d@);
        }
        let d = match self.disputes.get(&id) {
            Some(d) => d,
            None => return Err(ContractError::DisputeNotFound),
        };
        if d.resolved {
            return Err(ContractError::DisputeAlreadyResolved);
        }
        let claimed = match self.insurance_claimed.get(&id) {
            Some(c) => *c,
            None => false,
        };
        if claimed {
            return Err(ContractError::InsuranceAlreadyClaimed);
        }
        let confirmed = match self.insurance_confirmed.get(&id) {
            Some(c) => *c,
            None => false,
        };
        if !confirmed {
            return Err(ContractError::AdminConfirmationRequired);
        }
        let trigger: u64 = match self.insurance_trigger_days.checked_mul(86400) {
            Some(t) => t,
            None => u64::MAX,
        };
        let elapsed = now.saturating_sub(d.created_at);
        if elapsed < trigger {
            return Err(ContractError::InsuranceTriggerPeriodNotReached);
        }
        let itoken = match self.insurance_token {
            Some(t) => t,
            None => return Err(ContractError::InsuranceTokenNotConfigured),
        };
        if itoken != e.token {
            return Err(ContractError::EscrowTokenNotCoveredByInsurancePool);
        }
        let max_claim = e.amount / 2;
        let pool = self.insurance_pool;
        let claim = if pool < max_claim {
            pool
        } else {
            max_claim
        };
        if claim <= 0 {
            return Err(ContractError::InsurancePoolHasInsufficientBalance);
        }
        let mut ts = Vec::new();
        ts.push(Transfer { token: e.token, from: self.me, to: claimant, amount: claim, by_allowance: false });
        self.insurance_pool = pool - claim;
        self.insurance_claimed.insert(id, true);
        proof {
            let (sp, st) = spec_claim_insurance(old(self)@, claimant, id, now)->Ok_0;
            assert(self@ =~= sp);
            assert(ts@ =~= st);
        }
        Ok(ts)
    }

    /// Admin raises the version by one when new code is installed; the host
    /// installs the code.
    pub fn upgrade(&mut self, admin: Address) -> (r: Result<(), ContractError>)
        ensures
            spec_upgrade(old(self)@, admin) == outcome_unit(r, final(self)@),
            r is Err ==> final(self)@ == old(self)@,
    {
        self.check_named_admin(admin, ContractError::OnlyAdminCanUpgradeContract)?;
        if self.version == u32::MAX {
            return Err(ContractError::VersionOverflow);
        }
        self.version = self.version + 1;
        Ok(())
    }

    /// Admin runs the one-time migration of the current version.
    pub fn migrate(&mut self, admin: Address) -> (r: Result<(), ContractError>)
        ensures
            spec_migrate(old(self)@, admin) == outcome_unit(r, final(self)@),
            r is Err ==> final(self)@ == old(self)@,
    {
        self.check_named_admin(admin, ContractError::OnlyAdminCanMigrateContract)?;
        let v = self.version;
        let done = match self.migrations_done.get(&v) {
            Some(d) => *d,
            None => false,
        };
        if done {
            return Err(ContractError::MigrationAlreadyCompletedVersion);
        }
        self.migrations_done.insert(v, true);
        Ok(())
    }

    pub fn get_version(&self) -> (r: u32)
        ensures
            r == self@.version,
    {
        self.version
    }

    pub fn get_escrow_counter(&self) -> (r: u32)
        ensures
            r == self@.escrow_counter,
    {
        self.escrow_counter
    }

    /// Admin sets the top-up limit in bps of the original amount.
    pub fn set_max_top_up_bps(&mut self, admin: Address, max_top_up_bps: u32) -> (r: Result<(), ContractError>)
        ensures
            unpaused_admin_setting(
                old(self)@,
                admin,
                ContractError::OnlyAdminCanSetMaxTopUpBps,
                false,
                ContractError::TopUpLimitExceeded,
                ContractView { max_top_up_bps, ..old(self)@ },
            ) == outcome_unit(r, final(self)@),
            r is Err ==> final(self)@ == old(self)@,
    {
        if self.paused {
            return Err(ContractError::ContractIsPaused);
        }
        self.check_named_admin(admin, ContractError::OnlyAdminCanSetMaxTopUpBps)?;
        self.max_top_up_bps = max_top_up_bps;
        Ok(())
    }

    /// Admin sets how long a seller must wait between vetoes.
    pub fn set_veto_cooldown_seconds(&mut self, admin: Address, seconds: u64) -> (r: Result<(), ContractError>)
        ensures
            admin_setting(
                old(self)@,
                admin,
                false,
                ContractError::VetoCooldownActive,
                ContractView { veto_cooldown_secs: seconds, ..old(self)@ },
            ) == outcome_unit(r, final(self)@),
            r is Err ==> final(self)@ == old(self)@,
    {
        self.require_admin(admin)?;
        self.veto_cooldown_secs = seconds;
        Ok(())
    }

    pub fn get_veto_cooldown_seconds(&self) -> (r: u64)
        ensures
            r == self@.veto_cooldown_secs,
    {
        self.veto_cooldown_secs
    }

    /// Admin sets how long a seller veto stands before the admin may override it (positive).
    pub fn set_veto_override_window(&mut self, admin: Address, window_seconds: u64) -> (r: Result<
        (),
        ContractError,
    >)
        ensures
            unpaused_admin_setting(
                old(self)@,
                admin,
                ContractError::OnlyAdminCanSetVetoOverrideWindow,
                window_seconds == 0,
                ContractError::WindowSecondsMustBePositive,
                ContractView { veto_override_window: window_seconds, ..old(self)@ },
            ) == outcome_unit(r, final(self)@),
            r is Err ==> final(self)@ == old(self)@,
    {
        if self.paused {
            return Err(ContractError::ContractIsPaused);
        }
        self.check_named_admin(admin, ContractError::OnlyAdminCanSetVetoOverrideWindow)?;
        if window_seconds == 0 {
            return Err(ContractError::WindowSecondsMustBePositive);
        }
        self.veto_override_window = window_seconds;
        Ok(())
    }

    /// Admin sets how many ledgers a buyer has to veto a seller transfer.
    pub fn set_seller_transfer_veto_window(&mut self, admin: Address, window_ledgers: u32) -> (r: Result<
        (),
        ContractError,
    >)
        ensures
            unpaused_admin_setting(
                old(self)@,
                admin,
                ContractError::OnlyAdminCanSetVetoWindow,
                false,
                ContractError::WindowSecondsMustBePositive,
                ContractView { seller_transfer_veto_window: window_ledgers, ..old(self)@ },
            ) == outcome_unit(r, final(self)@),
            r is Err ==> final(self)@ == old(self)@,
    {
        if self.paused {
            return Err(ContractError::ContractIsPaused);
        }
        self.check_named_admin(admin, ContractError::OnlyAdminCanSetVetoWindow)?;
        self.seller_transfer_veto_window = window_ledgers;
        Ok(())
    }

    /// Admin sets the penalty, in bps, of a cancellation (at most 10 000).
    pub fn set_cancellation_penalty_bps(&mut self, admin: Address, penalty_bps: u32) -> (r: Result<
        (),
        ContractError,
    >)
        ensures
            bootstrap_setting(
                old(self)@,
                admin,
                penalty_bps > 10000,
                ContractError::PenaltyCannotExceed10000Bps,
                |s: ContractView| ContractView { cancellation_penalty_bps: penalty_bps, ..s },
            ) == outcome_unit(r, final(self)@),
            r is Err ==> final(self)@ == old(self)@,
    {
        if self.paused {
            return Err(ContractError::ContractIsPaused);
        }
        if penalty_bps > 10000 {
            let ghost pre = self@;
            match self.admin {
                Some(a) => if a != admin {
                    return Err(ContractError::OnlyAdminCanPauseContract);
                },
                None => {},
            }
            return Err(ContractError::PenaltyCannotExceed10000Bps);
        }
        self.require_or_bootstrap_admin(admin, ContractError::OnlyAdminCanPauseContract)?;
        self.cancellation_penalty_bps = penalty_bps;
        Ok(())
    }

    /// Admin sets how long the other party has to answer a cancellation request (positive).
    pub fn set_cancellation_response_window(&mut self, admin: Address, window_seconds: u64) -> (r: Result<
        (),
        ContractError,
    >)
        ensures
            bootstrap_setting(
                old(self)@,
                admin,
                window_seconds == 0,
                ContractError::ResponseWindowMustBePositive,
                |s: ContractView| ContractView { cancellation_response_window: window_seconds, ..s },
            ) == outcome_unit(r, final(self)@),
            r is Err ==> final(self)@ == old(self)@,
    {
        if self.paused {
            return Err(ContractError::ContractIsPaused);
        }
        if window_seconds == 0 {
            match self.admin {
                Some(a) => if a != admin {
                    return Err(ContractError::OnlyAdminCanPauseContract);
                },
                None => {},
            }
            return Err(ContractError::ResponseWindowMustBePositive);
        }
        self.require_or_bootstrap_admin(admin, ContractError::OnlyAdminCanPauseContract)?;
        self.cancellation_response_window = window_seconds;
        Ok(())
    }

    /// Admin sets the minimum inspector accuracy (at most 10 000 bps) demanded
    /// on escrows of at least `value_threshold`.
    pub fn set_inspector_score_threshold(&mut self, admin: Address, min_score_bps: u32, value_threshold: i128) -> (r:
        Result<(), ContractError>)
        ensures
            (if let Some(x) = named_admin_refusal(
                old(self)@,
                admin,
                ContractError::OnlyAdminCanSetInspectorScoreThreshold,
            ) {
                Err::<(ContractView, Seq<Transfer>), ContractError>(x)
            } else if min_score_bps > 10000 {
                Err(ContractError::MinScoreBpsExceedsMaximum)
            } else {
                Ok(
                    (
                        ContractView {
                            min_inspector_score_bps: min_score_bps,
                            inspector_value_threshold: value_threshold,
                            ..old(self)@
                        },
                        Seq::empty(),
                    ),
                )
            }) == outcome_unit(r, final(self)@),
            r is Err ==> final(self)@ == old(self)@,
    {
        self.check_named_admin(admin, ContractError::OnlyAdminCanSetInspectorScoreThreshold)?;
        if min_score_bps > 10000 {
            return Err(ContractError::MinScoreBpsExceedsMaximum);
        }
        self.min_inspector_score_bps = min_score_bps;
        self.inspector_value_threshold = value_threshold;
        Ok(())
    }

    /// An inspector's (total rulings, correct rulings, accuracy in bps); a new
    /// inspector has full accuracy.
    pub fn get_inspector_score(&self, inspector: Address) -> (r: Result<(u32, u32, u32), ContractError>)
        ensures
            match inspector_score_report(self@, inspector) {
                Some(v) => r == Ok::<(u32, u32, u32), ContractError>(v),
                None => r == Err::<(u32, u32, u32), ContractError>(ContractError::Overflow),
            },
    {
        let s = match self.inspector_scores.get(&inspector) {
            Some(s) => *s,
            None => crate::model::InspectorScore { total_rulings: 0, correct_rulings: 0 },
        };
        if s.total_rulings == 0 {
            return Ok((0, 0, 10000));
        }
        if s.correct_rulings > u32::MAX / 10000 {
            return Err(ContractError::Overflow);
        }
        Ok((s.total_rulings, s.correct_rulings, (s.correct_rulings * 10000) / s.total_rulings))
    }
}

} // verus!
