use ahjoor_escrow::errors::ContractError;
use ahjoor_escrow::model::{Address, Approval, EscrowBatchConfig, EscrowCreateRequest, EscrowStatus, Hash32, PriceData, Transfer};
use ahjoor_escrow::state::AhjoorEscrowContract;
use std::collections::HashMap;

const ME: Address = 1_000_000;

/// Token balances of the accounts, moved as the contract's operations ask.
struct Ledger {
    bal: HashMap<(Address, Address), i128>,
    allowance: HashMap<(Address, Address, Address), i128>,
    next: Address,
}

impl Ledger {
    fn gen(&mut self) -> Address {
        self.next += 1;
        self.next
    }

    fn mint(&mut self, token: Address, who: Address, amount: i128) {
        *self.bal.entry((token, who)).or_insert(0) += amount;
    }

    fn balance(&self, token: Address, who: Address) -> i128 {
        *self.bal.get(&(token, who)).unwrap_or(&0)
    }

    fn apply(&mut self, ts: &[Transfer]) {
        for t in ts {
            assert!(t.amount >= 0, "negative transfer");
            if t.by_allowance {
                let key = (t.token, t.from, ME);
                let left = *self.allowance.get(&key).unwrap_or(&0);
                assert!(left >= t.amount, "insufficient allowance");
                self.allowance.insert(key, left - t.amount);
            }
            let from = self.balance(t.token, t.from);
            assert!(from >= t.amount, "insufficient balance");
            self.bal.insert((t.token, t.from), from - t.amount);
            self.mint(t.token, t.to, t.amount);
        }
    }

    fn approve(&mut self, a: &Approval) {
        self.allowance.insert((a.token, a.owner, a.spender), a.amount);
    }

    fn ok<T>(&mut self, r: Result<(T, Vec<Transfer>), ContractError>) -> T {
        let (v, ts) = r.unwrap();
        self.apply(&ts);
        v
    }

    fn done(&mut self, r: Result<Vec<Transfer>, ContractError>) {
        let ts = r.unwrap();
        self.apply(&ts);
    }
}

struct S {
    c: AhjoorEscrowContract,
    l: Ledger,
    admin: Address,
    token: Address,
    now: u64,
}

fn setup() -> S {
    let mut l = Ledger { bal: HashMap::new(), allowance: HashMap::new(), next: 0 };
    let mut c = AhjoorEscrowContract::new(ME);
    let admin = l.gen();
    let token = l.gen();
    c.initialize(admin).unwrap();
    c.add_allowed_token(admin, token).unwrap();
    S { c, l, admin, token, now: 0 }
}

impl S {
    fn bal(&self, who: Address) -> i128 {
        self.l.balance(self.token, who)
    }

    fn escrow(&mut self, buyer: Address, seller: Address, arbiter: Address, amount: i128, deadline: u64) -> u32 {
        let r = self.c.create_escrow(
            buyer, seller, arbiter, amount, self.token, deadline, None, Vec::new(), false, 0, self.now, true,
        );
        self.l.ok(r)
    }

    fn parties(&mut self, mint: i128) -> (Address, Address, Address) {
        let buyer = self.l.gen();
        let seller = self.l.gen();
        let arbiter = self.l.gen();
        let token = self.token;
        self.l.mint(token, buyer, mint);
        (buyer, seller, arbiter)
    }

    fn release(&mut self, caller: Address, id: u32) {
        let r = self.c.release_escrow(caller, id, self.now, true);
        self.l.done(r);
    }

    fn dispute(&mut self, caller: Address, id: u32, reason: &str, amount: i128) {
        let r = self.c.dispute_escrow(caller, id, String::from(reason), amount, self.now);
        self.l.done(r);
    }

    fn resolve(&mut self, arbiter: Address, id: u32, pct: u32) {
        let r = self.c.resolve_dispute(arbiter, id, pct, self.now);
        self.l.done(r);
    }
}

fn h(b: u8) -> Hash32 {
    let w = u64::from_ne_bytes([b; 8]);
    Hash32 { w0: w, w1: w, w2: w, w3: w }
}

fn request(seller: Address, arbiter: Address, amount: i128, token: Address, deadline: u64) -> EscrowCreateRequest {
    EscrowCreateRequest {
        seller,
        arbiter,
        amount,
        token,
        deadline,
        metadata_hash: None,
        sellers: Vec::new(),
        auto_renew: false,
        renewal_count: 0,
        buyer_inactivity_secs: 0,
        min_lock_until: None,
        release_base: None,
        release_quote: None,
        release_comparison: None,
        release_threshold_price: None,
        arbiter_fee_bps: None,
        dispute_default_winner: None,
        auto_renew_max_renewals: None,
        auto_renew_interval_ledgers: None,
    }
}

#[test]
fn creation_refusals_in_order() {
    let mut s = setup();
    let (buyer, seller, arbiter) = s.parties(1000);
    let token = s.token;
    let v2 = |s: &mut S, r: EscrowCreateRequest| s.c.create_escrow_v2(buyer, r, 10, true).map(|(id, _)| id);

    let mut r = request(seller, arbiter, 10, token, 100);
    r.min_lock_until = Some(100);
    assert_eq!(v2(&mut s, r).unwrap_err(), ContractError::DeadlineMustBeAfterMinLockUntil);

    let mut r = request(seller, arbiter, 10, token, 100);
    r.arbiter_fee_bps = Some(1001);
    assert_eq!(v2(&mut s, r).unwrap_err(), ContractError::ArbiterFeeExceedsMaximum1000Bps);

    let mut r = request(seller, arbiter, 10, token, 100);
    r.release_base = Some(1);
    assert_eq!(v2(&mut s, r).unwrap_err(), ContractError::IncompleteReleaseCondition);

    let mut r = request(seller, arbiter, 10, token, 100);
    r.release_base = Some(1);
    r.release_quote = Some(2);
    r.release_comparison = Some(0);
    r.release_threshold_price = Some(0);
    assert_eq!(v2(&mut s, r).unwrap_err(), ContractError::ReleaseConditionThresholdMustBePositive);

    let mut r = request(seller, arbiter, 10, token, 100);
    r.release_base = Some(1);
    r.release_quote = Some(2);
    r.release_comparison = Some(2);
    r.release_threshold_price = Some(5);
    assert_eq!(v2(&mut s, r).unwrap_err(), ContractError::InvalidReleaseComparison);

    // The amount is checked first of all.
    let mut r = request(seller, arbiter, 0, token, 5);
    r.arbiter_fee_bps = Some(5000);
    assert_eq!(v2(&mut s, r).unwrap_err(), ContractError::EscrowAmountMustBePositive);
    assert_eq!(s.c.get_escrow_counter(), 0);
}

#[test]
fn whitelist_contract_answer_decides_tokens() {
    let mut s = setup();
    let (buyer, seller, arbiter) = s.parties(1000);
    let wl = s.l.gen();
    let outsider = s.l.gen();
    assert_eq!(
        s.c.set_token_whitelist_contract(outsider, wl).unwrap_err(),
        ContractError::OnlyAdminCanSetTokenWhitelistContract
    );
    s.c.set_token_whitelist_contract(s.admin, wl).unwrap();
    assert_eq!(s.c.get_token_whitelist_contract(), Some(wl));
    assert!(!s.c.is_token_allowed(false));
    assert!(s.c.is_token_allowed(true));

    let r = s.c.create_escrow(buyer, seller, arbiter, 10, s.token, 100, None, Vec::new(), false, 0, 0, false);
    assert_eq!(r.unwrap_err(), ContractError::TokenNotAllowed);
    // With a whitelist contract its answer counts, even for unlisted tokens.
    let other_token = s.l.gen();
    s.l.mint(other_token, buyer, 10);
    let r = s.c.create_escrow(buyer, seller, arbiter, 10, other_token, 100, None, Vec::new(), false, 0, 0, true);
    assert!(r.is_ok());
}

#[test]
fn jointly_funded_escrow_inputs_are_checked() {
    let mut s = setup();
    let b1 = s.l.gen();
    let seller = s.l.gen();
    let arbiter = s.l.gen();
    let token = s.token;
    let make = |s: &mut S, buyers: Vec<(Address, i128)>| {
        s.c.create_multi_buyer_escrow(buyers, seller, arbiter, token, 100, 0, true).map(|(id, _)| id)
    };
    assert_eq!(make(&mut s, Vec::new()).unwrap_err(), ContractError::AtLeastOneBuyerIsRequired);
    assert_eq!(make(&mut s, vec![(b1, 0)]).unwrap_err(), ContractError::BuyerContributionMustBePositive);
    assert_eq!(make(&mut s, vec![(b1, 5), (b1, 6)]).unwrap_err(), ContractError::DuplicateBuyerInList);
}

#[test]
fn admin_only_settings_and_their_bounds() {
    let mut s = setup();
    let outsider = s.l.gen();
    assert_eq!(s.c.initialize(outsider).unwrap_err(), ContractError::AlreadyInitialized);
    assert_eq!(s.c.pause_contract(outsider, String::from("x")).unwrap_err(), ContractError::OnlyAdminCanPauseContract);
    assert_eq!(s.c.resume_contract(s.admin).unwrap_err(), ContractError::ContractIsNotPaused);
    s.c.pause_contract(s.admin, String::from("x")).unwrap();
    assert_eq!(s.c.pause_contract(s.admin, String::from("y")).unwrap_err(), ContractError::ContractAlreadyPaused);
    assert_eq!(s.c.resume_contract(outsider).unwrap_err(), ContractError::OnlyAdminCanResumeContract);
    s.c.resume_contract(s.admin).unwrap();

    assert_eq!(s.c.update_protocol_fee(s.admin, 201, outsider).unwrap_err(), ContractError::FeeExceedsMaximum200Bps);
    assert_eq!(s.c.update_max_topup_multiplier(s.admin, 0).unwrap_err(), ContractError::MultiplierMustBePositive);
    assert_eq!(s.c.set_partial_release_deadline(s.admin, 0).unwrap_err(), ContractError::DeadlineMustBePositive);
    s.c.set_partial_release_deadline(s.admin, 42).unwrap();
    assert_eq!(s.c.get_partial_release_deadline(), 42);
    assert_eq!(s.c.set_oracle(s.admin, 7, 0).unwrap_err(), ContractError::MaxOracleAgeMustBePositive);
    s.c.set_oracle(s.admin, 7, 60).unwrap();
    assert_eq!(s.c.get_oracle_address().unwrap(), 7);
    assert_eq!(s.c.get_max_oracle_age(), 60);
    assert_eq!(s.c.set_insurance_config(s.admin, s.token, 0, true).unwrap_err(), ContractError::InsuranceTriggerDaysMustBePositive);
    assert_eq!(s.c.set_max_top_up_bps(outsider, 5).unwrap_err(), ContractError::OnlyAdminCanSetMaxTopUpBps);
    assert_eq!(s.c.set_cancellation_response_window(s.admin, 0).unwrap_err(), ContractError::ResponseWindowMustBePositive);
    assert_eq!(s.c.set_max_bounty_rejection_rounds(outsider, 5).unwrap_err(), ContractError::OnlyAdminCanSetMaxBountyRejectionRounds);
    assert_eq!(s.c.set_resolution_cooloff_secs(outsider, 5).unwrap_err(), ContractError::OnlyAdminCanConfigureCoolingOffPeriod);
    assert_eq!(s.c.upgrade(outsider).unwrap_err(), ContractError::OnlyAdminCanUpgradeContract);
    assert_eq!(s.c.migrate(outsider).unwrap_err(), ContractError::OnlyAdminCanMigrateContract);
    s.c.migrate(s.admin).unwrap();
    assert_eq!(s.c.migrate(s.admin).unwrap_err(), ContractError::MigrationAlreadyCompletedVersion);
    s.c.update_default_dispute_timeout(s.admin, 99).unwrap();
    assert_eq!(s.c.get_default_dispute_timeout(), 99);
    s.c.set_default_arbiter_fee_bps(s.admin, 150).unwrap();
    assert_eq!(s.c.get_default_arbiter_fee_bps(), 150);
}

#[test]
fn fresh_contract_reports_defaults() {
    let c = AhjoorEscrowContract::new(ME);
    assert_eq!(c.get_version(), 1);
    assert_eq!(c.get_escrow_counter(), 0);
    assert!(!c.is_paused());
    assert_eq!(c.get_pause_reason(), String::new());
    assert_eq!(c.get_protocol_fee(), (0, None));
    assert_eq!(c.get_default_dispute_timeout(), 604_800);
    assert_eq!(c.get_max_topup_multiplier(), 3);
    assert_eq!(c.get_partial_release_deadline(), 86_400);
    assert_eq!(c.get_max_oracle_age(), 300);
    assert_eq!(c.get_insurance_pool(), 0);
    assert_eq!(c.get_oracle_address().unwrap_err(), ContractError::OracleNotConfigured);
    assert_eq!(c.get_token_whitelist_contract(), None);
    assert!(c.is_token_allowed(false));
}

#[test]
fn oracle_release_refusals() {
    let mut s = setup();
    let (buyer, seller, arbiter) = s.parties(1000);
    let mut r = request(seller, arbiter, 100, s.token, 10_000);
    r.release_base = Some(1);
    r.release_quote = Some(2);
    r.release_comparison = Some(1);
    r.release_threshold_price = Some(50);
    let (id, ts) = s.c.create_escrow_v2(buyer, r, 0, true).unwrap();
    s.l.apply(&ts);
    let fresh = Some(PriceData { price: 60, timestamp: 100 });

    assert_eq!(s.c.check_and_release_escrow(id, 100, fresh).unwrap_err(), ContractError::OracleNotConfigured);
    s.c.set_oracle(s.admin, 9, 300).unwrap();
    assert_eq!(s.c.check_and_release_escrow(id, 100, None).unwrap_err(), ContractError::OraclePriceUnavailable);
    assert_eq!(s.c.check_and_release_escrow(id, 401, fresh).unwrap_err(), ContractError::OraclePriceIsStale);
    let zero = Some(PriceData { price: 0, timestamp: 100 });
    assert_eq!(s.c.check_and_release_escrow(id, 100, zero).unwrap_err(), ContractError::InvalidOraclePrice);
    let low = Some(PriceData { price: 49, timestamp: 100 });
    assert_eq!(s.c.check_and_release_escrow(id, 100, low).unwrap_err(), ContractError::ReleaseConditionNotMet);
    let r = s.c.check_and_release_escrow(id, 400, fresh);
    s.l.done(r);
    assert_eq!(s.bal(seller), 100);

    let plain = s.escrow(buyer, seller, arbiter, 10, 10_000);
    assert_eq!(s.c.check_and_release_escrow(plain, 100, fresh).unwrap_err(), ContractError::NoReleaseConditionSet);
    assert_eq!(s.c.check_and_release_escrow(999, 100, fresh).unwrap_err(), ContractError::EscrowNotFound);
}

#[test]
fn batch_refusals() {
    let mut s = setup();
    let buyer = s.l.gen();
    let r = s.c.create_escrows_batch(buyer, Vec::new(), 0, true);
    assert_eq!(r.unwrap_err(), ContractError::BatchMustContainAtLeastOneEscrowConfig);
    let cfg = EscrowBatchConfig {
        seller: 1,
        arbiter: 2,
        amount: 5,
        token: s.token,
        deadline: 10,
        metadata_hash: None,
        sellers: Vec::new(),
        auto_renew: false,
        renewal_count: 0,
    };
    let r = s.c.create_escrows_batch(buyer, vec![cfg.clone(); 11], 0, true);
    assert_eq!(r.unwrap_err(), ContractError::BatchSizeExceedsMaximum10Escrows);
}

#[test]
fn legacy_renewal_needs_an_allowance() {
    let mut s = setup();
    let (buyer, seller, arbiter) = s.parties(1000);
    let r = s.c.create_escrow(buyer, seller, arbiter, 100, s.token, 100, None, Vec::new(), true, 2, 0, true);
    let id = s.l.ok(r);
    assert_eq!(s.c.release_escrow(buyer, id, 0, true).unwrap_err(), ContractError::InsufficientRenewalAllowance);
    assert_eq!(s.c.set_renewal_allowance(seller, id, 2, 0).unwrap_err(), ContractError::OnlyBuyerCanSetRenewalAllowance);
    let plain = s.escrow(buyer, seller, arbiter, 10, 100);
    assert_eq!(s.c.set_renewal_allowance(buyer, plain, 2, 0).unwrap_err(), ContractError::AutoRenewIsNotEnabledEscrow);
    let a = s.c.set_renewal_allowance(buyer, id, 2, 7).unwrap();
    assert_eq!(a, Approval { token: s.token, owner: buyer, spender: ME, amount: 200, expiration_ledger: 100_007 });
}

#[test]
fn party_checks_on_everyday_operations() {
    let mut s = setup();
    let (buyer, seller, arbiter) = s.parties(1000);
    let outsider = s.l.gen();
    let id = s.escrow(buyer, seller, arbiter, 100, 10_000);
    assert_eq!(s.c.top_up_escrow(seller, id, 5, 0).unwrap_err(), ContractError::OnlyBuyerCanTopUpEscrow);
    assert_eq!(s.c.top_up_escrow(buyer, id, 0, 0).unwrap_err(), ContractError::AdditionalAmountMustBePositive);
    assert_eq!(s.c.acknowledge_topup(buyer, id).unwrap_err(), ContractError::OnlySellerCanAcknowledgeTopUp);
    assert_eq!(s.c.partial_release(buyer, id, 0, 0).unwrap_err(), ContractError::ReleaseAmountMustBePositive);
    assert_eq!(s.c.partial_release(buyer, id, 101, 0).unwrap_err(), ContractError::ReleaseAmountExceedsEscrowBalance);
    assert_eq!(
        s.c.request_partial_release(buyer, id, 5, h(1), 0).unwrap_err(),
        ContractError::OnlySellerCanRequestPartialRelease
    );
    assert_eq!(
        s.c.request_partial_release(seller, id, 0, h(1), 0).unwrap_err(),
        ContractError::PartialReleaseAmountMustBePositive
    );
    assert_eq!(
        s.c.request_partial_release(seller, id, 101, h(1), 0).unwrap_err(),
        ContractError::PartialReleaseAmountCannotExceedEscrowAmount
    );
    s.c.request_partial_release(seller, id, 10, h(1), 0).unwrap();
    assert_eq!(s.c.approve_partial_release(seller, id, 1).unwrap_err(), ContractError::OnlyBuyerCanApprovePartialRelease);
    assert_eq!(s.c.approve_partial_release(buyer, id, 2).unwrap_err(), ContractError::InvalidRequestID);
    assert_eq!(s.c.reject_partial_release(seller, id, 1, h(2)).unwrap_err(), ContractError::OnlyBuyerCanRejectPartialRelease);
    assert_eq!(
        s.c.escalate_partial_release_dispute(buyer, id, 100_000).unwrap_err(),
        ContractError::OnlySellerCanEscalatePartialRelease
    );
    assert_eq!(
        s.c.escalate_partial_release_dispute(seller, id, 86_399).unwrap_err(),
        ContractError::ResponseDeadlineNotYetPassed
    );
    assert_eq!(s.c.transfer_buyer_role(buyer, id, buyer).unwrap_err(), ContractError::NewBuyerMustBeDifferentFromCurrentBuyer);
    assert_eq!(s.c.transfer_buyer_role(outsider, id, 5).unwrap_err(), ContractError::OnlyCurrentBuyerCanTransferBuyerRole);
    assert_eq!(
        s.c.propose_deadline_extension(outsider, id, 20_000, 0).unwrap_err(),
        ContractError::OnlyBuyerOrSellerCanProposeDeadlineExtension
    );
    assert_eq!(s.c.accept_deadline_extension(seller, id, 0).unwrap_err(), ContractError::NoDeadlineExtensionProposalFound);
    assert_eq!(s.c.sign_amendment(seller, id, 0, 0).unwrap_err(), ContractError::NoAmendmentProposalFound);
    assert_eq!(s.c.get_dispute(id).unwrap_err(), ContractError::NoDisputeFound);
    assert_eq!(s.c.dispute_escrow(buyer, id, String::from("x"), 0, 0).unwrap_err(), ContractError::DisputeAmountOutOfRange);
    assert_eq!(s.c.resolve_dispute(arbiter, id, 0, 0).unwrap_err(), ContractError::EscrowIsNotDisputed);
    assert_eq!(s.c.get_escrow(id).unwrap().status, EscrowStatus::Active);
}
