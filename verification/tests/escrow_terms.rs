use ahjoor_escrow::errors::ContractError;
use ahjoor_escrow::model::{Address, Approval, EscrowCreateRequest, EscrowStatus, Hash32, Milestone, MilestoneStatus, PriceData, Transfer};
use ahjoor_escrow::state::AhjoorEscrowContract;
use std::collections::HashMap;

const ME: Address = 1_000_000;

/// Token balances of the accounts, moved as the contract's operations ask.
struct Ledger {
    bal: HashMap<(Address, Address), i128>,
    allowance: HashMap<(Address, Address, Address), i128>,
    next: Address,
}

impl Ledger {
    fn gen(&mut self) -> Address {
        self.next += 1;
        self.next
    }

    fn mint(&mut self, token: Address, who: Address, amount: i128) {
        *self.bal.entry((token, who)).or_insert(0) += amount;
    }

    fn balance(&self, token: Address, who: Address) -> i128 {
        *self.bal.get(&(token, who)).unwrap_or(&0)
    }

    fn apply(&mut self, ts: &[Transfer]) {
        for t in ts {
            assert!(t.amount >= 0, "negative transfer");
            if t.by_allowance {
                let key = (t.token, t.from, ME);
                let left = *self.allowance.get(&key).unwrap_or(&0);
                assert!(left >= t.amount, "insufficient allowance");
                self.allowance.insert(key, left - t.amount);
            }
            let from = self.balance(t.token, t.from);
            assert!(from >= t.amount, "insufficient balance");
            self.bal.insert((t.token, t.from), from - t.amount);
            self.mint(t.token, t.to, t.amount);
        }
    }

    fn approve(&mut self, a: &Approval) {
        self.allowance.insert((a.token, a.owner, a.spender), a.amount);
    }

    fn ok<T>(&mut self, r: Result<(T, Vec<Transfer>), ContractError>) -> T {
        let (v, ts) = r.unwrap();
        self.apply(&ts);
        v
    }

    fn done(&mut self, r: Result<Vec<Transfer>, ContractError>) {
        let ts = r.unwrap();
        self.apply(&ts);
    }
}

struct S {
    c: AhjoorEscrowContract,
    l: Ledger,
    admin: Address,
    token: Address,
    now: u64,
}

fn setup() -> S {
    let mut l = Ledger { bal: HashMap::new(), allowance: HashMap::new(), next: 0 };
    let mut c = AhjoorEscrowContract::new(ME);
    let admin = l.gen();
    let token = l.gen();
    c.initialize(admin).unwrap();
    c.add_allowed_token(admin, token).unwrap();
    S { c, l, admin, token, now: 0 }
}

impl S {
    fn bal(&self, who: Address) -> i128 {
        self.l.balance(self.token, who)
    }

    fn escrow(&mut self, buyer: Address, seller: Address, arbiter: Address, amount: i128, deadline: u64) -> u32 {
        let r = self.c.create_escrow(
            buyer, seller, arbiter, amount, self.token, deadline, None, Vec::new(), false, 0, self.now, true,
        );
        self.l.ok(r)
    }

    fn parties(&mut self, mint: i128) -> (Address, Address, Address) {
        let buyer = self.l.gen();
        let seller = self.l.gen();
        let arbiter = self.l.gen();
        let token = self.token;
        self.l.mint(token, buyer, mint);
        (buyer, seller, arbiter)
    }

    fn release(&mut self, caller: Address, id: u32) {
        let r = self.c.release_escrow(caller, id, self.now, true);
        self.l.done(r);
    }

    fn dispute(&mut self, caller: Address, id: u32, reason: &str, amount: i128) {
        let r = self.c.dispute_escrow(caller, id, String::from(reason), amount, self.now);
        self.l.done(r);
    }

    fn resolve(&mut self, arbiter: Address, id: u32, pct: u32) {
        let r = self.c.resolve_dispute(arbiter, id, pct, self.now);
        self.l.done(r);
    }
}

fn h(b: u8) -> Hash32 {
    let w = u64::from_ne_bytes([b; 8]);
    Hash32 { w0: w, w1: w, w2: w, w3: w }
}

fn request(seller: Address, arbiter: Address, amount: i128, token: Address, deadline: u64) -> EscrowCreateRequest {
    EscrowCreateRequest {
        seller,
        arbiter,
        amount,
        token,
        deadline,
        metadata_hash: None,
        sellers: Vec::new(),
        auto_renew: false,
        renewal_count: 0,
        buyer_inactivity_secs: 0,
        min_lock_until: None,
        release_base: None,
        release_quote: None,
        release_comparison: None,
        release_threshold_price: None,
        arbiter_fee_bps: None,
        dispute_default_winner: None,
        auto_renew_max_renewals: None,
        auto_renew_interval_ledgers: None,
    }
}

impl S {
    fn create_v2(&mut self, buyer: Address, req: EscrowCreateRequest) -> Result<u32, ContractError> {
        match self.c.create_escrow_v2(buyer, req, self.now, true) {
            Ok((id, ts)) => {
                self.l.apply(&ts);
                Ok(id)
            },
            Err(e) => Err(e),
        }
    }

    fn milestone_escrow(&mut self, buyer: Address, seller: Address, arbiter: Address, deadline: u64, amounts: &[i128])
        -> Result<u32, ContractError> {
        let ms: Vec<Milestone> = amounts
            .iter()
            .map(|a| Milestone { description_hash: h(0), amount: *a, status: MilestoneStatus::Pending })
            .collect();
        match self.c.create_milestone_escrow(buyer, seller, arbiter, self.token, deadline, ms, self.now, true) {
            Ok((id, ts)) => {
                self.l.apply(&ts);
                Ok(id)
            },
            Err(e) => Err(e),
        }
    }
}

// ---------------------------------------------------------------------------
//  Arbiter fee
// ---------------------------------------------------------------------------

fn fee_escrow(s: &mut S, fee: Option<u32>) -> (Address, Address, Address, u32) {
    let (buyer, seller, arbiter) = s.parties(1000);
    let deadline = s.now + 1000;
    let mut req = request(seller, arbiter, 1000, s.token, deadline);
    req.arbiter_fee_bps = fee;
    let id = s.create_v2(buyer, req).unwrap();
    (buyer, seller, arbiter, id)
}

#[test]
fn test_arbiter_fee_deducted_from_loser_seller_wins() {
    let mut s = setup();
    let (buyer, seller, arbiter, escrow_id) = fee_escrow(&mut s, Some(500));
    s.dispute(buyer, escrow_id, "dispute", 1000);
    s.resolve(arbiter, escrow_id, 0);
    assert_eq!(s.bal(arbiter), 50);
    assert_eq!(s.bal(seller), 950);
    assert_eq!(s.bal(buyer), 0);
}

#[test]
fn test_arbiter_fee_deducted_from_loser_buyer_wins() {
    let mut s = setup();
    let (buyer, seller, arbiter, escrow_id) = fee_escrow(&mut s, Some(500));
    s.dispute(buyer, escrow_id, "dispute", 1000);
    s.resolve(arbiter, escrow_id, 100);
    assert_eq!(s.bal(arbiter), 50);
    assert_eq!(s.bal(buyer), 950);
    assert_eq!(s.bal(seller), 0);
}

#[test]
fn test_arbiter_fee_zero_is_valid() {
    let mut s = setup();
    let (buyer, seller, arbiter, escrow_id) = fee_escrow(&mut s, Some(0));
    s.dispute(buyer, escrow_id, "dispute", 1000);
    s.resolve(arbiter, escrow_id, 0);
    assert_eq!(s.bal(arbiter), 0);
    assert_eq!(s.bal(seller), 1000);
}

#[test]
fn test_arbiter_fee_cap_enforced_at_creation() {
    let mut s = setup();
    let (buyer, seller, arbiter) = s.parties(1000);
    let deadline = s.now + 1000;
    let mut req = request(seller, arbiter, 1000, s.token, deadline);
    req.arbiter_fee_bps = Some(1001);
    let result = s.create_v2(buyer, req);
    assert!(result.is_err());
}

#[test]
fn test_default_arbiter_fee_applies_when_escrow_fee_not_set() {
    let mut s = setup();
    let (buyer, seller, arbiter) = s.parties(1000);
    s.c.set_default_arbiter_fee_bps(s.admin, 200).unwrap();
    let deadline = s.now + 1000;
    let escrow_id = s.escrow(buyer, seller, arbiter, 1000, deadline);
    s.dispute(buyer, escrow_id, "dispute", 1000);
    s.resolve(arbiter, escrow_id, 0);
    assert_eq!(s.bal(arbiter), 20);
    assert_eq!(s.bal(seller), 980);
}

#[test]
fn test_arbiter_fee_emits_event() {
    let mut s = setup();
    let (buyer, seller, arbiter, escrow_id) = fee_escrow(&mut s, Some(300));
    s.dispute(buyer, escrow_id, "dispute", 1000);
    let ts = s.c.resolve_dispute(arbiter, escrow_id, 0, s.now).unwrap();
    assert!(ts.contains(&Transfer { token: s.token, from: ME, to: arbiter, amount: 30, by_allowance: false }));
    assert!(ts.contains(&Transfer { token: s.token, from: ME, to: seller, amount: 970, by_allowance: false }));
}

// ---------------------------------------------------------------------------
//  Minimum lock
// ---------------------------------------------------------------------------

fn locked_escrow(s: &mut S, now: u64, lock_until: u64, deadline: u64) -> (Address, Address, u32) {
    let (buyer, seller, arbiter) = s.parties(1000);
    s.now = now;
    let mut req = request(seller, arbiter, 500, s.token, deadline);
    req.min_lock_until = Some(lock_until);
    let id = s.create_v2(buyer, req).unwrap();
    (buyer, seller, id)
}

#[test]
fn test_release_before_min_lock_until_panics() {
    let mut s = setup();
    let (buyer, _, escrow_id) = locked_escrow(&mut s, 1000, 2000, 3000);
    s.now = 1500;
    let result = s.c.release_escrow(buyer, escrow_id, s.now, true);
    assert!(result.is_err());
}

#[test]
fn test_release_at_min_lock_until_succeeds() {
    let mut s = setup();
    let (buyer, seller, escrow_id) = locked_escrow(&mut s, 1000, 2000, 3000);
    s.now = 2000;
    s.release(buyer, escrow_id);
    assert_eq!(s.c.get_escrow(escrow_id).unwrap().status, EscrowStatus::Released);
    assert_eq!(s.bal(seller), 500);
}

#[test]
fn test_release_after_min_lock_until_succeeds() {
    let mut s = setup();
    let (buyer, seller, escrow_id) = locked_escrow(&mut s, 1000, 2000, 5000);
    s.now = 2500;
    s.release(buyer, escrow_id);
    assert_eq!(s.bal(seller), 500);
}

#[test]
fn test_dispute_not_blocked_by_lock() {
    let mut s = setup();
    let (buyer, _, escrow_id) = locked_escrow(&mut s, 1000, 5000, 6000);
    s.now = 2000;
    s.dispute(buyer, escrow_id, "issue", 500);
    assert_eq!(s.c.get_escrow(escrow_id).unwrap().status, EscrowStatus::Disputed);
}

#[test]
fn test_lock_and_deadline_independently_configurable() {
    let mut s = setup();
    let (_, _, escrow_id) = locked_escrow(&mut s, 100, 500, 1000);
    let escrow = s.c.get_escrow(escrow_id).unwrap();
    assert_eq!(escrow.extensions.min_lock_until, Some(500));
    assert_eq!(escrow.deadline, 1000);
}

#[test]
fn test_time_locked_escrow_emits_event() {
    let mut s = setup();
    let (buyer, _, escrow_id) = locked_escrow(&mut s, 100, 500, 1000);
    assert_eq!(s.c.get_escrow(escrow_id).unwrap().extensions.min_lock_until, Some(500));
    assert_eq!(s.c.release_escrow(buyer, escrow_id, 499, true).unwrap_err(), ContractError::EscrowStillLocked);
}

#[test]
fn test_deadline_must_be_after_lock_until() {
    let mut s = setup();
    let (buyer, seller, arbiter) = s.parties(1000);
    s.now = 100;
    let mut req = request(seller, arbiter, 500, s.token, 500);
    req.min_lock_until = Some(500);
    let result = s.create_v2(buyer, req);
    assert!(result.is_err());
}

// ---------------------------------------------------------------------------
//  Oracle condition
// ---------------------------------------------------------------------------

struct Oracle {
    base: Address,
    quote: Address,
}

fn setup_oracle_escrow() -> (S, Oracle) {
    let mut s = setup();
    let oracle_addr = s.l.gen();
    let base = s.l.gen();
    let quote = s.l.gen();
    s.c.set_oracle(s.admin, oracle_addr, 300).unwrap();
    (s, Oracle { base, quote })
}

fn oracle_escrow(s: &mut S, o: &Oracle, comparison: u32, threshold: i128) -> (Address, Address, u32) {
    let (buyer, seller, arbiter) = s.parties(1000);
    s.now = 100;
    let mut req = request(seller, arbiter, 1000, s.token, 5000);
    req.release_base = Some(o.base);
    req.release_quote = Some(o.quote);
    req.release_comparison = Some(comparison);
    req.release_threshold_price = Some(threshold);
    let id = s.create_v2(buyer, req).unwrap();
    (buyer, seller, id)
}

#[test]
fn test_oracle_release_triggers_when_price_below_threshold() {
    let (mut s, o) = setup_oracle_escrow();
    let (_, seller, escrow_id) = oracle_escrow(&mut s, &o, 0, 500);
    s.now = 200;
    let r = s.c.check_and_release_escrow(escrow_id, s.now, Some(PriceData { price: 400, timestamp: 200 }));
    s.l.done(r);
    assert_eq!(s.c.get_escrow(escrow_id).unwrap().status, EscrowStatus::Released);
    assert_eq!(s.bal(seller), 1000);
}

#[test]
fn test_oracle_release_does_not_trigger_when_price_above_threshold() {
    let (mut s, o) = setup_oracle_escrow();
    let (_, _, escrow_id) = oracle_escrow(&mut s, &o, 0, 500);
    s.now = 200;
    let result = s.c.check_and_release_escrow(escrow_id, s.now, Some(PriceData { price: 600, timestamp: 200 }));
    assert!(result.is_err());
    assert_eq!(s.c.get_escrow(escrow_id).unwrap().status, EscrowStatus::Active);
}

#[test]
fn test_oracle_release_triggers_when_price_at_threshold() {
    let (mut s, o) = setup_oracle_escrow();
    let (_, _, escrow_id) = oracle_escrow(&mut s, &o, 0, 500);
    s.now = 200;
    let r = s.c.check_and_release_escrow(escrow_id, s.now, Some(PriceData { price: 500, timestamp: 200 }));
    s.l.done(r);
    assert_eq!(s.c.get_escrow(escrow_id).unwrap().status, EscrowStatus::Released);
}

#[test]
fn test_oracle_release_greater_or_equal_condition() {
    let (mut s, o) = setup_oracle_escrow();
    let (_, _, escrow_id) = oracle_escrow(&mut s, &o, 1, 1000);
    s.now = 200;
    let r = s.c.check_and_release_escrow(escrow_id, s.now, Some(PriceData { price: 1200, timestamp: 200 }));
    s.l.done(r);
    assert_eq!(s.c.get_escrow(escrow_id).unwrap().status, EscrowStatus::Released);
}

#[test]
fn test_oracle_stale_price_blocks_release() {
    let (mut s, o) = setup_oracle_escrow();
    let (_, _, escrow_id) = oracle_escrow(&mut s, &o, 0, 500);
    s.now = 500;
    let result = s.c.check_and_release_escrow(escrow_id, s.now, Some(PriceData { price: 400, timestamp: 0 }));
    assert!(result.is_err());
}

#[test]
fn test_manual_release_works_regardless_of_oracle_condition() {
    let (mut s, o) = setup_oracle_escrow();
    let (buyer, seller, escrow_id) = oracle_escrow(&mut s, &o, 0, 500);
    s.release(buyer, escrow_id);
    assert_eq!(s.c.get_escrow(escrow_id).unwrap().status, EscrowStatus::Released);
    assert_eq!(s.bal(seller), 1000);
}

#[test]
fn test_oracle_release_emits_event() {
    let (mut s, o) = setup_oracle_escrow();
    let (_, seller, escrow_id) = oracle_escrow(&mut s, &o, 0, 500);
    s.now = 200;
    let ts = s.c.check_and_release_escrow(escrow_id, s.now, Some(PriceData { price: 300, timestamp: 200 })).unwrap();
    assert_eq!(ts, vec![Transfer { token: s.token, from: ME, to: seller, amount: 1000, by_allowance: false }]);
}

// ---------------------------------------------------------------------------
//  Milestones
// ---------------------------------------------------------------------------

#[test]
fn test_mid_milestone_transfer_rejection() {
    let mut s = setup();
    let (buyer, seller, arbiter) = s.parties(1000);
    let deadline = s.now + 1000;
    let escrow_id = s.milestone_escrow(buyer, seller, arbiter, deadline, &[100, 100]).unwrap();

    let receipt = s.c.get_escrow_receipt(escrow_id).expect("receipt exists");
    let other = s.l.gen();
    let r = s.c.transfer_escrow_receipt(seller, receipt.receipt_id, other);
    assert_eq!(r.unwrap_err(), ContractError::ActiveMilestoneInProgress);
}

#[test]
fn test_create_milestone_escrow_locks_total() {
    let mut s = setup();
    let (buyer, seller, arbiter) = s.parties(1000);
    let deadline = s.now + 1000;
    let escrow_id = s.milestone_escrow(buyer, seller, arbiter, deadline, &[100, 200, 300]).unwrap();
    assert_eq!(s.bal(buyer), 400);
    let milestones = s.c.get_milestones(escrow_id).unwrap();
    assert_eq!(milestones.len(), 3);
    assert_eq!(milestones[0].amount, 100);
    assert_eq!(milestones[1].status, MilestoneStatus::Pending);
}

#[test]
fn test_milestone_partial_release_pays_seller() {
    let mut s = setup();
    let (buyer, seller, arbiter) = s.parties(1000);
    let deadline = s.now + 1000;
    let escrow_id = s.milestone_escrow(buyer, seller, arbiter, deadline, &[100, 200, 300]).unwrap();
    let r = s.c.approve_milestone(buyer, escrow_id, 0);
    s.l.done(r);
    assert_eq!(s.bal(seller), 100);
    let m = s.c.get_milestones(escrow_id).unwrap();
    assert_eq!(m[0].status, MilestoneStatus::Approved);
    assert_eq!(m[1].status, MilestoneStatus::Pending);
    assert_eq!(s.c.get_escrow(escrow_id).unwrap().status, EscrowStatus::Active);
}

#[test]
fn test_milestone_full_release_transitions_to_released() {
    let mut s = setup();
    let (buyer, seller, arbiter) = s.parties(1000);
    let deadline = s.now + 1000;
    let escrow_id = s.milestone_escrow(buyer, seller, arbiter, deadline, &[100, 200, 300]).unwrap();
    for (who, i) in [(buyer, 0u32), (buyer, 1), (arbiter, 2)] {
        let r = s.c.approve_milestone(who, escrow_id, i);
        s.l.done(r);
    }
    assert_eq!(s.bal(seller), 600);
    assert_eq!(s.bal(ME), 0);
    assert_eq!(s.c.get_escrow(escrow_id).unwrap().status, EscrowStatus::Released);
}

#[test]
fn test_double_approve_milestone_panics() {
    let mut s = setup();
    let (buyer, seller, arbiter) = s.parties(1000);
    let deadline = s.now + 1000;
    let escrow_id = s.milestone_escrow(buyer, seller, arbiter, deadline, &[100, 200, 300]).unwrap();
    let r = s.c.approve_milestone(buyer, escrow_id, 0);
    s.l.done(r);
    let r = s.c.approve_milestone(buyer, escrow_id, 0);
    assert_eq!(r.unwrap_err(), ContractError::MilestoneNotPending);
}

#[test]
fn test_seller_cannot_approve_own_milestone() {
    let mut s = setup();
    let (buyer, seller, arbiter) = s.parties(1000);
    let deadline = s.now + 1000;
    let escrow_id = s.milestone_escrow(buyer, seller, arbiter, deadline, &[100, 200, 300]).unwrap();
    let r = s.c.approve_milestone(seller, escrow_id, 0);
    assert_eq!(r.unwrap_err(), ContractError::OnlyBuyerOrArbiterCanApproveMilestones);
}

#[test]
fn test_zero_milestone_amount_rejected() {
    let mut s = setup();
    let (buyer, seller, arbiter) = s.parties(1000);
    let deadline = s.now + 1000;
    let r = s.milestone_escrow(buyer, seller, arbiter, deadline, &[0, 100]);
    assert_eq!(r.unwrap_err(), ContractError::MilestoneAmountMustBePositive);
}

#[test]
fn test_empty_milestones_rejected() {
    let mut s = setup();
    let (buyer, seller, arbiter) = s.parties(1000);
    let deadline = s.now + 1000;
    let r = s.milestone_escrow(buyer, seller, arbiter, deadline, &[]);
    assert_eq!(r.unwrap_err(), ContractError::AtLeastOneMilestoneRequired);
}

#[test]
fn test_milestone_out_of_range_rejected() {
    let mut s = setup();
    let (buyer, seller, arbiter) = s.parties(1000);
    let deadline = s.now + 1000;
    let escrow_id = s.milestone_escrow(buyer, seller, arbiter, deadline, &[100, 200]).unwrap();
    let r = s.c.approve_milestone(buyer, escrow_id, 5);
    assert_eq!(r.unwrap_err(), ContractError::MilestoneIndexOutRange);
}

// ---------------------------------------------------------------------------
//  Top-ups
// ---------------------------------------------------------------------------

impl S {
    fn top_up(&mut self, buyer: Address, id: u32, amount: i128) -> Result<(), ContractError> {
        match self.c.top_up_escrow(buyer, id, amount, self.now) {
            Ok(ts) => {
                self.l.apply(&ts);
                Ok(())
            },
            Err(e) => Err(e),
        }
    }
}

#[test]
fn test_single_top_up() {
    let mut s = setup();
    let (buyer, seller, arbiter) = s.parties(1000);
    let deadline = s.now + 1000;
    let escrow_id = s.escrow(buyer, seller, arbiter, 250, deadline);

    let escrow = s.c.get_escrow(escrow_id).unwrap();
    assert_eq!(escrow.amount, 250);
    assert_eq!(escrow.original_amount, 250);
    assert!(escrow.top_up_history.is_empty());
    assert!(escrow.top_up_acknowledged);

    s.top_up(buyer, escrow_id, 150).unwrap();

    let escrow = s.c.get_escrow(escrow_id).unwrap();
    assert_eq!(escrow.amount, 400);
    assert_eq!(escrow.original_amount, 250);
    assert_eq!(escrow.top_up_history.len(), 1);
    assert_eq!(escrow.top_up_history[0].amount, 150);
    assert_eq!(escrow.top_up_history[0].cumulative_total, 400);
    assert!(!escrow.top_up_acknowledged);
    assert_eq!(s.bal(buyer), 600);
    assert_eq!(s.bal(ME), 400);
}

#[test]
fn test_multiple_top_ups() {
    let mut s = setup();
    let (buyer, seller, arbiter) = s.parties(2000);
    let deadline = s.now + 1000;
    let escrow_id = s.escrow(buyer, seller, arbiter, 200, deadline);
    s.top_up(buyer, escrow_id, 100).unwrap();
    s.top_up(buyer, escrow_id, 200).unwrap();
    let escrow = s.c.get_escrow(escrow_id).unwrap();
    assert_eq!(escrow.amount, 500);
    assert_eq!(escrow.top_up_history.len(), 2);
    assert_eq!(escrow.top_up_history[0].cumulative_total, 300);
    assert_eq!(escrow.top_up_history[1].cumulative_total, 500);
}

#[test]
fn test_top_up_limit_exceeded() {
    let mut s = setup();
    let (buyer, seller, arbiter) = s.parties(2000);
    let deadline = s.now + 1000;
    let escrow_id = s.escrow(buyer, seller, arbiter, 200, deadline);
    let r = s.top_up(buyer, escrow_id, 450);
    assert_eq!(r.unwrap_err(), ContractError::TopUpLimitExceeded);
}

#[test]
fn test_top_up_after_release_rejected() {
    let mut s = setup();
    let (buyer, seller, arbiter) = s.parties(1000);
    let deadline = s.now + 1000;
    let escrow_id = s.escrow(buyer, seller, arbiter, 250, deadline);
    s.release(buyer, escrow_id);
    let r = s.top_up(buyer, escrow_id, 100);
    assert_eq!(r.unwrap_err(), ContractError::EscrowIsNotActiveOrAwaitingInspection);
}

#[test]
fn test_seller_acknowledge_topup() {
    let mut s = setup();
    let (buyer, seller, arbiter) = s.parties(1000);
    let deadline = s.now + 1000;
    let escrow_id = s.escrow(buyer, seller, arbiter, 250, deadline);
    s.top_up(buyer, escrow_id, 150).unwrap();
    assert!(!s.c.get_escrow(escrow_id).unwrap().top_up_acknowledged);
    s.c.acknowledge_topup(seller, escrow_id).unwrap();
    assert!(s.c.get_escrow(escrow_id).unwrap().top_up_acknowledged);
}

#[test]
fn test_admin_update_topup_multiplier() {
    let mut s = setup();
    assert_eq!(s.c.get_max_topup_multiplier(), 3);
    s.c.update_max_topup_multiplier(s.admin, 5).unwrap();
    assert_eq!(s.c.get_max_topup_multiplier(), 5);
}

// ---------------------------------------------------------------------------
//  Requested partial releases
// ---------------------------------------------------------------------------

fn requested(s: &mut S) -> (Address, Address, u32) {
    let (buyer, seller, arbiter) = s.parties(1000);
    let deadline = s.now + 1000;
    let escrow_id = s.escrow(buyer, seller, arbiter, 250, deadline);
    s.c.request_partial_release(seller, escrow_id, 100, h(1), s.now).unwrap();
    (buyer, seller, escrow_id)
}

#[test]
fn test_partial_release_request() {
    let mut s = setup();
    let (_, _, escrow_id) = requested(&mut s);
    assert_eq!(s.c.get_escrow(escrow_id).unwrap().amount, 250);
}

#[test]
fn test_partial_release_approve() {
    let mut s = setup();
    let (buyer, seller, escrow_id) = requested(&mut s);
    let r = s.c.approve_partial_release(buyer, escrow_id, 1);
    s.l.done(r);
    assert_eq!(s.c.get_escrow(escrow_id).unwrap().amount, 150);
    assert_eq!(s.bal(seller), 100);
}

#[test]
fn test_partial_release_reject() {
    let mut s = setup();
    let (buyer, seller, escrow_id) = requested(&mut s);
    s.c.reject_partial_release(buyer, escrow_id, 1, h(2)).unwrap();
    // Nothing is pending any more.
    let r = s.c.approve_partial_release(buyer, escrow_id, 1);
    assert_eq!(r.unwrap_err(), ContractError::NoPendingPartialReleaseRequest);
    assert_eq!(s.bal(seller), 0);
}

#[test]
fn test_duplicate_partial_release() {
    let mut s = setup();
    let (_, seller, escrow_id) = requested(&mut s);
    let r = s.c.request_partial_release(seller, escrow_id, 100, h(1), s.now);
    assert_eq!(r.unwrap_err(), ContractError::RequestAlreadyPending);
}

#[test]
fn test_partial_release_escalate() {
    let mut s = setup();
    let (_, seller, escrow_id) = requested(&mut s);
    s.now += 86401;
    s.c.escalate_partial_release_dispute(seller, escrow_id, s.now).unwrap();
    assert_eq!(s.c.get_escrow(escrow_id).unwrap().status, EscrowStatus::Disputed);
}

#[test]
fn test_partial_release_non_active() {
    let mut s = setup();
    let (buyer, seller, arbiter) = s.parties(1000);
    let deadline = s.now + 1000;
    let escrow_id = s.escrow(buyer, seller, arbiter, 250, deadline);
    s.release(buyer, escrow_id);
    let r = s.c.request_partial_release(seller, escrow_id, 100, h(1), s.now);
    assert_eq!(r.unwrap_err(), ContractError::PartialReleaseOnlyAllowedActiveEscrow);
}

// ---------------------------------------------------------------------------
//  Fee withdrawal
// ---------------------------------------------------------------------------

#[test]
fn test_withdraw_fees_happy_path() {
    let mut s = setup();
    let (buyer, seller, arbiter) = s.parties(1000);
    let fee_recipient = s.l.gen();
    s.c.update_protocol_fee(s.admin, 200, fee_recipient).unwrap();
    let deadline = s.now + 1000;
    let escrow_id = s.escrow(buyer, seller, arbiter, 500, deadline);
    s.dispute(buyer, escrow_id, "d", 500);
    s.resolve(arbiter, escrow_id, 0);

    let destination = s.l.gen();
    assert_eq!(s.bal(ME), 10);
    let r = s.c.withdraw_fees(s.admin, 10, s.token, destination);
    s.l.done(r);
    assert_eq!(s.bal(destination), 10);
    assert_eq!(s.bal(ME), 0);
}

#[test]
fn test_withdraw_fees_zero_amount_rejected() {
    let mut s = setup();
    let to = s.l.gen();
    let result = s.c.withdraw_fees(s.admin, 0, s.token, to);
    assert!(result.is_err());
}

#[test]
fn test_withdraw_fees_exceeds_accrued_rejected() {
    let mut s = setup();
    let (buyer, seller, arbiter) = s.parties(1000);
    let fee_recipient = s.l.gen();
    s.c.update_protocol_fee(s.admin, 100, fee_recipient).unwrap();
    let deadline = s.now + 1000;
    let escrow_id = s.escrow(buyer, seller, arbiter, 100, deadline);
    s.dispute(seller, escrow_id, "d", 100);
    s.resolve(arbiter, escrow_id, 100);
    let to = s.l.gen();
    let result = s.c.withdraw_fees(s.admin, 2, s.token, to);
    assert!(result.is_err());
}

#[test]
fn test_withdraw_fees_non_admin_rejected() {
    let mut s = setup();
    let non_admin = s.l.gen();
    let to = s.l.gen();
    let result = s.c.withdraw_fees(non_admin, 100, s.token, to);
    assert!(result.is_err());
}

#[test]
fn test_withdraw_fees_zero_balance_on_fresh_contract_rejected() {
    let mut s = setup();
    let to = s.l.gen();
    let result = s.c.withdraw_fees(s.admin, 1, s.token, to);
    assert!(result.is_err());
}
