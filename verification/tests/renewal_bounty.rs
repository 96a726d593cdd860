use ahjoor_escrow::errors::ContractError;
use ahjoor_escrow::model::{Address, Approval, AutoRenewConfig, BountyMilestoneInput, EscrowStatus, Hash32, Transfer};
use ahjoor_escrow::state::AhjoorEscrowContract;
use std::collections::HashMap;

const ME: Address = 1_000_000;

/// Token balances of the accounts, moved as the contract's operations ask.
struct Ledger {
    bal: HashMap<(Address, Address), i128>,
    allowance: HashMap<(Address, Address, Address), i128>,
    next: Address,
}

impl Ledger {
    fn gen(&mut self) -> Address {
        self.next += 1;
        self.next
    }

    fn mint(&mut self, token: Address, who: Address, amount: i128) {
        *self.bal.entry((token, who)).or_insert(0) += amount;
    }

    fn balance(&self, token: Address, who: Address) -> i128 {
        *self.bal.get(&(token, who)).unwrap_or(&0)
    }

    fn apply(&mut self, ts: &[Transfer]) {
        for t in ts {
            assert!(t.amount >= 0, "negative transfer");
            if t.by_allowance {
                let key = (t.token, t.from, ME);
                let left = *self.allowance.get(&key).unwrap_or(&0);
                assert!(left >= t.amount, "insufficient allowance");
                self.allowance.insert(key, left - t.amount);
            }
            let from = self.balance(t.token, t.from);
            assert!(from >= t.amount, "insufficient balance");
            self.bal.insert((t.token, t.from), from - t.amount);
            self.mint(t.token, t.to, t.amount);
        }
    }

    fn approve(&mut self, a: &Approval) {
        self.allowance.insert((a.token, a.owner, a.spender), a.amount);
    }

    fn ok<T>(&mut self, r: Result<(T, Vec<Transfer>), ContractError>) -> T {
        let (v, ts) = r.unwrap();
        self.apply(&ts);
        v
    }

    fn done(&mut self, r: Result<Vec<Transfer>, ContractError>) {
        let ts = r.unwrap();
        self.apply(&ts);
    }
}

struct S {
    c: AhjoorEscrowContract,
    l: Ledger,
    admin: Address,
    token: Address,
    now: u64,
}

fn setup() -> S {
    let mut l = Ledger { bal: HashMap::new(), allowance: HashMap::new(), next: 0 };
    let mut c = AhjoorEscrowContract::new(ME);
    let admin = l.gen();
    let token = l.gen();
    c.initialize(admin).unwrap();
    c.add_allowed_token(admin, token).unwrap();
    S { c, l, admin, token, now: 0 }
}

impl S {
    fn bal(&self, who: Address) -> i128 {
        self.l.balance(self.token, who)
    }

    fn escrow(&mut self, buyer: Address, seller: Address, arbiter: Address, amount: i128, deadline: u64) -> u32 {
        let r = self.c.create_escrow(
            buyer, seller, arbiter, amount, self.token, deadline, None, Vec::new(), false, 0, self.now, true,
        );
        self.l.ok(r)
    }

    fn parties(&mut self, mint: i128) -> (Address, Address, Address) {
        let buyer = self.l.gen();
        let seller = self.l.gen();
        let arbiter = self.l.gen();
        let token = self.token;
        self.l.mint(token, buyer, mint);
        (buyer, seller, arbiter)
    }

    fn release(&mut self, caller: Address, id: u32) {
        let r = self.c.release_escrow(caller, id, self.now, true);
        self.l.done(r);
    }

    fn dispute(&mut self, caller: Address, id: u32, reason: &str, amount: i128) {
        let r = self.c.dispute_escrow(caller, id, String::from(reason), amount, self.now);
        self.l.done(r);
    }

    fn resolve(&mut self, arbiter: Address, id: u32, pct: u32) {
        let r = self.c.resolve_dispute(arbiter, id, pct, self.now);
        self.l.done(r);
    }
}

fn h(b: u8) -> Hash32 {
    let w = u64::from_ne_bytes([b; 8]);
    Hash32 { w0: w, w1: w, w2: w, w3: w }
}

impl S {
    /// Releases, telling the contract whether the buyer's allowance would cover a renewal pull.
    fn release_funded(&mut self, caller: Address, id: u32) {
        let e = self.c.get_escrow(id).unwrap();
        let left = *self.l.allowance.get(&(e.token, e.buyer, ME)).unwrap_or(&0);
        let funds = left >= e.amount && self.l.balance(e.token, e.buyer) >= e.amount;
        let r = self.c.release_escrow(caller, id, self.now, funds);
        self.l.done(r);
    }

    fn approve_allowance(&mut self, buyer: Address, amount: i128) {
        let a = Approval { token: self.token, owner: buyer, spender: ME, amount, expiration_ledger: 200_000 };
        self.l.approve(&a);
    }

    fn auto_renew_escrow(&mut self, mint: i128, max_renewals: u32) -> (Address, Address, u32) {
        let (buyer, seller, arbiter) = self.parties(mint);
        self.now = 1_000;
        let deadline = self.now + 500;
        let cfg = AutoRenewConfig { max_renewals, renewal_interval_ledgers: 100 };
        let r = self.c.create_escrow_with_auto_renew(buyer, seller, arbiter, 200, self.token, deadline, None, cfg, self.now, true);
        let id = self.l.ok(r);
        (buyer, seller, id)
    }
}

// ---------------------------------------------------------------------------
//  AutoRenewConfig renewals
// ---------------------------------------------------------------------------

#[test]
fn test_create_stores_auto_renew_config() {
    let mut s = setup();
    let (_, _, escrow_id) = s.auto_renew_escrow(1_000, 3);
    let escrow = s.c.get_escrow(escrow_id).unwrap();
    assert_eq!(escrow.status, EscrowStatus::Active);
    assert_eq!(escrow.extensions.renewals_completed, 0);
    assert_eq!(escrow.extensions.auto_renew_max_renewals.expect("AutoRenewConfig should be stored"), 3);
    assert_eq!(escrow.extensions.auto_renew_interval_ledgers.unwrap(), 100);
}

#[test]
fn test_release_triggers_renewal() {
    let mut s = setup();
    let (buyer, seller, escrow_id) = s.auto_renew_escrow(1_000, 3);
    s.approve_allowance(buyer, 200 * 3);

    s.release_funded(buyer, escrow_id);

    assert_eq!(s.c.get_escrow(escrow_id).unwrap().status, EscrowStatus::Released);
    assert_eq!(s.bal(seller), 200);
    let renewed = s.c.get_escrow(1).unwrap();
    assert_eq!(renewed.status, EscrowStatus::Active);
    assert_eq!(renewed.amount, 200);
    assert_eq!(renewed.buyer, buyer);
    assert_eq!(renewed.seller, seller);
    assert_eq!(renewed.extensions.renewals_completed, 1);
    assert_eq!(renewed.deadline, 1_000 + 500);
    assert_eq!(s.bal(ME), 200);
    assert_eq!(s.c.get_renewal_history(escrow_id), vec![1]);
}

#[test]
fn test_full_renewal_chain_respects_max() {
    let mut s = setup();
    let (buyer, _, escrow_id) = s.auto_renew_escrow(2_000, 3);
    s.approve_allowance(buyer, 200 * 3);

    let mut current_id = escrow_id;
    for expected_renewal_index in 1u32..=3 {
        s.release_funded(buyer, current_id);
        let next_id = current_id + 1;
        let renewed = s.c.get_escrow(next_id).unwrap();
        assert_eq!(renewed.extensions.renewals_completed, expected_renewal_index);
        current_id = next_id;
    }

    assert_eq!(s.c.get_escrow(current_id).unwrap().extensions.renewals_completed, 3);
    s.release_funded(buyer, current_id);
    assert!(s.c.get_escrow(current_id + 1).is_err(), "No escrow should be created after max_renewals");
    assert_eq!(s.c.get_renewal_history(escrow_id).len(), 3);
}

#[test]
fn test_renewal_failed_on_insufficient_allowance() {
    let mut s = setup();
    let (buyer, seller, escrow_id) = s.auto_renew_escrow(500, 2);

    s.release_funded(buyer, escrow_id);

    assert_eq!(s.c.get_escrow(escrow_id).unwrap().status, EscrowStatus::Released);
    assert_eq!(s.bal(seller), 200);
    assert!(s.c.get_escrow(1).is_err(), "No renewal should occur without allowance");
    assert_eq!(s.c.get_renewal_history(escrow_id).len(), 0);
}

#[test]
fn test_cancel_auto_renewal_prevents_renewal() {
    let mut s = setup();
    let (buyer, _, escrow_id) = s.auto_renew_escrow(1_000, 3);
    s.approve_allowance(buyer, 200 * 3);

    s.c.cancel_auto_renewal(buyer, escrow_id).unwrap();
    s.release_funded(buyer, escrow_id);

    assert_eq!(s.c.get_escrow(escrow_id).unwrap().status, EscrowStatus::Released);
    assert!(s.c.get_escrow(1).is_err(), "Renewal should be cancelled");
    assert_eq!(s.c.get_renewal_history(escrow_id).len(), 0);
}

#[test]
fn test_mid_chain_cancellation() {
    let mut s = setup();
    let (buyer, _, escrow_id) = s.auto_renew_escrow(2_000, 3);
    s.approve_allowance(buyer, 200 * 3);

    s.release_funded(buyer, escrow_id);
    assert_eq!(s.c.get_escrow(1).unwrap().extensions.renewals_completed, 1);

    s.c.cancel_auto_renewal(buyer, 1).unwrap();
    s.release_funded(buyer, 1);

    assert!(s.c.get_escrow(2).is_err(), "Renewal should be cancelled after mid-chain cancel");
    assert_eq!(s.c.get_renewal_history(escrow_id), vec![1]);
}

#[test]
fn test_get_renewal_history_ordered() {
    let mut s = setup();
    let (buyer, _, escrow_id) = s.auto_renew_escrow(2_000, 2);
    s.approve_allowance(buyer, 200 * 2);

    s.release_funded(buyer, escrow_id);
    s.release_funded(buyer, 1);

    assert_eq!(s.c.get_renewal_history(escrow_id), vec![1, 2]);
}

#[test]
fn test_cancel_auto_renewal_non_buyer_panics() {
    let mut s = setup();
    let (_, seller, escrow_id) = s.auto_renew_escrow(500, 2);
    let r = s.c.cancel_auto_renewal(seller, escrow_id);
    assert_eq!(r.unwrap_err(), ContractError::OnlyBuyerCanCancelAutoRenewal);
}

#[test]
fn test_cancel_auto_renewal_no_config_panics() {
    let mut s = setup();
    let (buyer, seller, arbiter) = s.parties(500);
    let deadline = s.now + 500;
    let escrow_id = s.escrow(buyer, seller, arbiter, 200, deadline);
    let r = s.c.cancel_auto_renewal(buyer, escrow_id);
    assert_eq!(r.unwrap_err(), ContractError::NoAutoRenewConfigSetEscrow);
}

#[test]
fn test_max_renewals_cap_enforced() {
    let mut s = setup();
    let (buyer, _, escrow_id) = s.auto_renew_escrow(2_000, 1);
    s.approve_allowance(buyer, 200 * 2);

    s.release_funded(buyer, escrow_id);
    assert_eq!(s.c.get_escrow(1).unwrap().extensions.renewals_completed, 1);

    s.release_funded(buyer, 1);
    assert!(s.c.get_escrow(2).is_err(), "No renewal after max_renewals reached");
}

// ---------------------------------------------------------------------------
//  Bounties
// ---------------------------------------------------------------------------

/// A fresh contract (no token allowlist) and a bounty of 500 from a funded buyer.
fn bounty() -> (S, Address, u32) {
    let mut l = Ledger { bal: HashMap::new(), allowance: HashMap::new(), next: 0 };
    let mut c = AhjoorEscrowContract::new(ME);
    let admin = l.gen();
    let token = l.gen();
    c.initialize(admin).unwrap();
    let mut s = S { c, l, admin, token, now: 0 };
    let buyer = s.l.gen();
    s.l.mint(token, buyer, 1000);
    let r = s.c.create_bounty(buyer, token, 500, h(1), s.now + 86400, s.now + 172800, s.now, true);
    let id = s.l.ok(r);
    (s, buyer, id)
}

impl S {
    fn claim_and_submit(&mut self, solver: Address, id: u32, work: u8) {
        self.c.claim_bounty(solver, id, self.now).unwrap();
        self.c.submit_bounty_work(solver, id, h(work), self.now).unwrap();
    }
}

#[test]
fn test_create_bounty_success() {
    let (s, buyer, escrow_id) = bounty();
    assert_eq!(escrow_id, 1);
    let escrow = s.c.get_escrow(escrow_id).unwrap();
    assert_eq!(escrow.buyer, buyer);
    assert_eq!(escrow.amount, 500);
    assert_eq!(escrow.status, EscrowStatus::BountyUnclaimed);

    let data = s.c.get_bounty_data(escrow_id).unwrap();
    assert_eq!(data.description_hash, h(1));
    assert_eq!(data.claim_deadline_ledger, 86400);
    assert_eq!(data.submission_deadline_ledger, 172800);
    assert_eq!(data.solver, None);
    assert_eq!(data.rejection_count, 0);
}

#[test]
fn test_create_bounty_zero_amount() {
    let (mut s, buyer, _) = bounty();
    let r = s.c.create_bounty(buyer, s.token, 0, h(1), s.now + 86400, s.now + 172800, s.now, true);
    assert_eq!(r.unwrap_err(), ContractError::BountyAmountMustBePositive);
}

#[test]
fn test_create_bounty_past_claim_deadline() {
    let (mut s, buyer, _) = bounty();
    s.now += 1000;
    let r = s.c.create_bounty(buyer, s.token, 500, h(1), s.now - 100, s.now + 172800, s.now, true);
    assert_eq!(r.unwrap_err(), ContractError::ClaimDeadlineMustBeFuture);
}

#[test]
fn test_create_bounty_invalid_deadlines() {
    let (mut s, buyer, _) = bounty();
    let r = s.c.create_bounty(buyer, s.token, 500, h(1), s.now + 172800, s.now + 86400, s.now, true);
    assert_eq!(r.unwrap_err(), ContractError::SubmissionDeadlineMustBeAfterClaimDeadline);
}

#[test]
fn test_claim_bounty_success() {
    let (mut s, _, escrow_id) = bounty();
    let solver = s.l.gen();
    s.c.claim_bounty(solver, escrow_id, s.now).unwrap();
    let escrow = s.c.get_escrow(escrow_id).unwrap();
    assert_eq!(escrow.seller, solver);
    assert_eq!(escrow.status, EscrowStatus::BountyClaimed);
    assert_eq!(s.c.get_bounty_data(escrow_id).unwrap().solver, Some(solver));
}

#[test]
fn test_claim_bounty_duplicate() {
    let (mut s, _, escrow_id) = bounty();
    let solver1 = s.l.gen();
    let solver2 = s.l.gen();
    s.c.claim_bounty(solver1, escrow_id, s.now).unwrap();
    let r = s.c.claim_bounty(solver2, escrow_id, s.now);
    assert_eq!(r.unwrap_err(), ContractError::BountyIsNotAvailableClaiming);
}

#[test]
fn test_claim_bounty_after_deadline() {
    let (mut s, _, escrow_id) = bounty();
    let solver = s.l.gen();
    s.now += 86401;
    let r = s.c.claim_bounty(solver, escrow_id, s.now);
    assert_eq!(r.unwrap_err(), ContractError::ClaimDeadlineHasPassed);
}

#[test]
fn test_submit_bounty_work_success() {
    let (mut s, _, escrow_id) = bounty();
    let solver = s.l.gen();
    s.claim_and_submit(solver, escrow_id, 2);
    assert_eq!(s.c.get_bounty_data(escrow_id).unwrap().submission_hash, Some(h(2)));
}

#[test]
fn test_submit_bounty_work_wrong_solver() {
    let (mut s, _, escrow_id) = bounty();
    let solver = s.l.gen();
    let wrong_solver = s.l.gen();
    s.c.claim_bounty(solver, escrow_id, s.now).unwrap();
    let r = s.c.submit_bounty_work(wrong_solver, escrow_id, h(2), s.now);
    assert_eq!(r.unwrap_err(), ContractError::OnlyAssignedSolverCanSubmitWork);
}

#[test]
fn test_submit_bounty_work_after_deadline() {
    let (mut s, _, escrow_id) = bounty();
    let solver = s.l.gen();
    s.c.claim_bounty(solver, escrow_id, s.now).unwrap();
    s.now += 172801;
    let r = s.c.submit_bounty_work(solver, escrow_id, h(2), s.now);
    assert_eq!(r.unwrap_err(), ContractError::SubmissionDeadlineHasPassed);
}

#[test]
fn test_approve_bounty_submission_success() {
    let (mut s, buyer, escrow_id) = bounty();
    let solver = s.l.gen();
    s.claim_and_submit(solver, escrow_id, 2);
    let before = s.bal(solver);
    let r = s.c.approve_bounty_submission(buyer, escrow_id);
    s.l.done(r);
    assert_eq!(s.c.get_escrow(escrow_id).unwrap().status, EscrowStatus::Released);
    assert_eq!(s.bal(solver) - before, 500);
}

#[test]
fn test_approve_bounty_without_submission() {
    let (mut s, buyer, escrow_id) = bounty();
    let solver = s.l.gen();
    s.c.claim_bounty(solver, escrow_id, s.now).unwrap();
    let r = s.c.approve_bounty_submission(buyer, escrow_id);
    assert_eq!(r.unwrap_err(), ContractError::NoSubmissionHasBeenMade);
}

#[test]
fn test_reject_bounty_submission_and_reclaim() {
    let (mut s, buyer, escrow_id) = bounty();
    let solver1 = s.l.gen();
    let solver2 = s.l.gen();
    s.claim_and_submit(solver1, escrow_id, 2);
    s.c.reject_bounty_submission(buyer, escrow_id).unwrap();

    assert_eq!(s.c.get_escrow(escrow_id).unwrap().status, EscrowStatus::BountyUnclaimed);
    let data = s.c.get_bounty_data(escrow_id).unwrap();
    assert_eq!(data.solver, None);
    assert_eq!(data.submission_hash, None);
    assert_eq!(data.rejection_count, 1);

    s.c.claim_bounty(solver2, escrow_id, s.now).unwrap();
    let escrow = s.c.get_escrow(escrow_id).unwrap();
    assert_eq!(escrow.seller, solver2);
    assert_eq!(escrow.status, EscrowStatus::BountyClaimed);
}

#[test]
fn test_reject_bounty_max_rejections() {
    let (mut s, buyer, escrow_id) = bounty();
    let solver = s.l.gen();
    for _ in 0..3 {
        s.claim_and_submit(solver, escrow_id, 2);
        s.c.reject_bounty_submission(buyer, escrow_id).unwrap();
    }
    s.claim_and_submit(solver, escrow_id, 2);
    let r = s.c.reject_bounty_submission(buyer, escrow_id);
    assert_eq!(r.unwrap_err(), ContractError::MaximumRejectionRoundsReached);
}

#[test]
fn test_cancel_bounty_unclaimed() {
    let (mut s, buyer, escrow_id) = bounty();
    let before = s.bal(buyer);
    let r = s.c.cancel_bounty(buyer, escrow_id, s.now);
    s.l.done(r);
    assert_eq!(s.c.get_escrow(escrow_id).unwrap().status, EscrowStatus::Refunded);
    assert_eq!(s.bal(buyer) - before, 500);
}

#[test]
fn test_cancel_bounty_after_inspection_fee() {
    let (mut s, _, _) = bounty();
    let buyer = s.l.gen();
    let solver = s.l.gen();
    let inspector = s.l.gen();
    let verifier = s.l.gen();
    let token = s.token;
    s.l.mint(token, buyer, 1000);
    let contract_before = s.bal(ME);
    let milestones = vec![
        BountyMilestoneInput { description_hash: h(1), verifier: inspector, amount: 50 },
        BountyMilestoneInput { description_hash: h(2), verifier, amount: 450 },
    ];
    let r = s.c.create_milestone_bounty(buyer, token, milestones, s.now + 86400, s.now + 172800, s.now, true);
    let escrow_id = s.l.ok(r);

    s.c.claim_bounty(solver, escrow_id, s.now).unwrap();
    s.c.submit_bounty_milestone(solver, escrow_id, 0, h(3), s.now).unwrap();
    let r = s.c.verify_bounty_milestone(escrow_id, 0);
    s.l.done(r);
    assert_eq!(s.bal(ME) - contract_before, 450);
    assert_eq!(s.bal(solver), 50);

    s.now += 86401;
    let before = s.bal(buyer);
    let r = s.c.cancel_bounty(buyer, escrow_id, s.now);
    s.l.done(r);
    assert_eq!(s.c.get_escrow(escrow_id).unwrap().status, EscrowStatus::Refunded);
    assert_eq!(s.bal(buyer) - before, 450);
    assert_eq!(s.bal(ME), contract_before);
}

#[test]
fn test_cancel_bounty_claimed() {
    let (mut s, buyer, escrow_id) = bounty();
    let solver = s.l.gen();
    s.c.claim_bounty(solver, escrow_id, s.now).unwrap();
    let r = s.c.cancel_bounty(buyer, escrow_id, s.now);
    assert_eq!(r.unwrap_err(), ContractError::CannotCancelBountyCurrentState);
}

#[test]
fn test_full_bounty_award_flow() {
    let (mut s, buyer, escrow_id) = bounty();
    let solver = s.l.gen();
    assert_eq!(s.c.get_escrow(escrow_id).unwrap().status, EscrowStatus::BountyUnclaimed);

    s.c.claim_bounty(solver, escrow_id, s.now).unwrap();
    let escrow = s.c.get_escrow(escrow_id).unwrap();
    assert_eq!(escrow.status, EscrowStatus::BountyClaimed);
    assert_eq!(escrow.seller, solver);

    s.c.submit_bounty_work(solver, escrow_id, h(2), s.now).unwrap();
    assert_eq!(s.c.get_bounty_data(escrow_id).unwrap().submission_hash, Some(h(2)));

    let before = s.bal(solver);
    let r = s.c.approve_bounty_submission(buyer, escrow_id);
    s.l.done(r);
    assert_eq!(s.c.get_escrow(escrow_id).unwrap().status, EscrowStatus::Released);
    assert_eq!(s.bal(solver) - before, 500);
}

#[test]
fn test_set_max_bounty_rejection_rounds() {
    let (mut s, buyer, escrow_id) = bounty();
    s.c.set_max_bounty_rejection_rounds(s.admin, 5).unwrap();
    let solver = s.l.gen();
    for i in 0..5u32 {
        s.claim_and_submit(solver, escrow_id, 2);
        s.c.reject_bounty_submission(buyer, escrow_id).unwrap();
        assert_eq!(s.c.get_bounty_data(escrow_id).unwrap().rejection_count, i + 1);
    }
}

#[test]
fn configured_renewal_adds_one_escrow_and_pulls_allowance_once() {
    let mut s = setup();
    let (buyer, seller, escrow_id) = s.auto_renew_escrow(1_000, 3);
    s.approve_allowance(buyer, 200 * 3);
    let before = s.c.get_escrow_counter();
    let ts = s.c.release_escrow(buyer, escrow_id, s.now, true).unwrap();
    let pulls: Vec<&Transfer> = ts.iter().filter(|t| t.by_allowance).collect();
    assert_eq!(pulls.len(), 1);
    assert_eq!(*pulls[0], Transfer { token: s.token, from: buyer, to: ME, amount: 200, by_allowance: true });
    assert_eq!(s.c.get_escrow_counter(), before + 1);
    let renewed = s.c.get_escrow(before).unwrap();
    assert_eq!(renewed.id, before);
    assert_eq!(renewed.seller, seller);
    assert_eq!(renewed.created_at, s.now);
    assert_eq!(renewed.deadline, s.now + 500);
    assert_eq!(s.c.get_renewal_history(escrow_id), vec![before]);
}
