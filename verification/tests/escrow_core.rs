use ahjoor_escrow::errors::ContractError;
use ahjoor_escrow::model::{Address, EscrowError, EscrowStatus, Hash32, ReleaseTranche, Transfer};
use ahjoor_escrow::state::AhjoorEscrowContract;
use std::collections::HashMap;

const ME: Address = 1_000_000;

/// Token balances of the accounts, moved as the contract's operations ask.
struct Ledger {
    bal: HashMap<(Address, Address), i128>,
    next: Address,
}

impl Ledger {
    fn gen(&mut self) -> Address {
        self.next += 1;
        self.next
    }

    fn mint(&mut self, token: Address, who: Address, amount: i128) {
        *self.bal.entry((token, who)).or_insert(0) += amount;
    }

    fn balance(&self, token: Address, who: Address) -> i128 {
        *self.bal.get(&(token, who)).unwrap_or(&0)
    }

    fn apply(&mut self, ts: &[Transfer]) {
        for t in ts {
            assert!(t.amount >= 0, "negative transfer");
            let from = self.balance(t.token, t.from);
            assert!(from >= t.amount, "insufficient balance");
            self.bal.insert((t.token, t.from), from - t.amount);
            self.mint(t.token, t.to, t.amount);
        }
    }

    fn ok<T>(&mut self, r: Result<(T, Vec<Transfer>), ContractError>) -> T {
        let (v, ts) = r.unwrap();
        self.apply(&ts);
        v
    }

    fn done(&mut self, r: Result<Vec<Transfer>, ContractError>) {
        let ts = r.unwrap();
        self.apply(&ts);
    }
}

struct S {
    c: AhjoorEscrowContract,
    l: Ledger,
    admin: Address,
    token: Address,
    now: u64,
}

fn setup() -> S {
    let mut l = Ledger { bal: HashMap::new(), next: 0 };
    let mut c = AhjoorEscrowContract::new(ME);
    let admin = l.gen();
    let token = l.gen();
    c.initialize(admin).unwrap();
    c.add_allowed_token(admin, token).unwrap();
    S { c, l, admin, token, now: 0 }
}

impl S {
    fn bal(&self, who: Address) -> i128 {
        self.l.balance(self.token, who)
    }

    fn escrow(&mut self, buyer: Address, seller: Address, arbiter: Address, amount: i128, deadline: u64) -> u32 {
        let r = self.c.create_escrow(
            buyer, seller, arbiter, amount, self.token, deadline, None, Vec::new(), false, 0, self.now, true,
        );
        self.l.ok(r)
    }

    fn parties(&mut self, mint: i128) -> (Address, Address, Address) {
        let buyer = self.l.gen();
        let seller = self.l.gen();
        let arbiter = self.l.gen();
        let token = self.token;
        self.l.mint(token, buyer, mint);
        (buyer, seller, arbiter)
    }

    fn release(&mut self, caller: Address, id: u32) {
        let r = self.c.release_escrow(caller, id, self.now, true);
        self.l.done(r);
    }

    fn dispute(&mut self, caller: Address, id: u32, reason: &str, amount: i128) {
        let r = self.c.dispute_escrow(caller, id, String::from(reason), amount, self.now);
        self.l.done(r);
    }

    fn resolve(&mut self, arbiter: Address, id: u32, pct: u32) {
        let r = self.c.resolve_dispute(arbiter, id, pct, self.now);
        self.l.done(r);
    }
}

fn zero_hash() -> Hash32 {
    Hash32 { w0: 0, w1: 0, w2: 0, w3: 0 }
}

// ---------------------------------------------------------------------------
//  Create escrow
// ---------------------------------------------------------------------------

#[test]
fn test_create_escrow() {
    let mut s = setup();
    let (buyer, seller, arbiter) = s.parties(1000);
    let deadline = s.now + 1000;
    let escrow_id = s.escrow(buyer, seller, arbiter, 250, deadline);

    assert_eq!(escrow_id, 0);
    assert_eq!(s.bal(buyer), 750);
    assert_eq!(s.bal(ME), 250);

    let escrow = s.c.get_escrow(escrow_id).unwrap();
    assert_eq!(escrow.status, EscrowStatus::Active);
    assert_eq!(escrow.amount, 250);
    assert_eq!(escrow.buyer, buyer);
    assert_eq!(escrow.seller, seller);
    assert_eq!(escrow.arbiter, arbiter);
}

#[test]
fn test_receipt_transfer_and_release_to_new_holder() {
    let mut s = setup();
    let (buyer, seller, arbiter) = s.parties(1000);
    let new_holder = s.l.gen();
    let deadline = s.now + 1000;
    let escrow_id = s.escrow(buyer, seller, arbiter, 250, deadline);

    let receipt = s.c.get_escrow_receipt(escrow_id).expect("receipt exists");
    s.c.transfer_escrow_receipt(seller, receipt.receipt_id, new_holder).unwrap();

    s.release(buyer, escrow_id);

    assert_eq!(s.bal(new_holder), 250);
    assert!(s.c.get_escrow_receipt(escrow_id).is_none());
}

#[test]
fn test_non_holder_transfer_rejected() {
    let mut s = setup();
    let (buyer, seller, arbiter) = s.parties(1000);
    let deadline = s.now + 1000;
    let escrow_id = s.escrow(buyer, seller, arbiter, 250, deadline);

    let receipt = s.c.get_escrow_receipt(escrow_id).expect("receipt exists");
    let other = s.l.gen();
    let r = s.c.transfer_escrow_receipt(arbiter, receipt.receipt_id, other);
    assert_eq!(r.unwrap_err(), ContractError::OnlyCurrentHolderCanTransferReceipt);
}

#[test]
fn test_burn_on_cancel() {
    let mut s = setup();
    let (buyer, seller, arbiter) = s.parties(1000);
    let deadline = s.now + 1000;
    let escrow_id = s.escrow(buyer, seller, arbiter, 250, deadline);

    s.c.request_cancellation(seller, escrow_id, zero_hash(), s.now).unwrap();
    let r = s.c.accept_cancellation(buyer, escrow_id, s.now);
    s.l.done(r);

    assert!(s.c.get_escrow_receipt(escrow_id).is_none());
}

#[test]
fn test_create_escrow_zero_amount_panics() {
    let mut s = setup();
    let (buyer, seller, arbiter) = s.parties(1000);
    let deadline = s.now + 1000;
    let r = s.c.create_escrow(buyer, seller, arbiter, 0, s.token, deadline, None, Vec::new(), false, 0, s.now, true);
    assert_eq!(r.unwrap_err(), ContractError::EscrowAmountMustBePositive);
}

#[test]
fn test_create_escrow_past_deadline_panics() {
    let mut s = setup();
    let (buyer, seller, arbiter) = s.parties(1000);
    let deadline = s.now;
    let r = s.c.create_escrow(buyer, seller, arbiter, 250, s.token, deadline, None, Vec::new(), false, 0, s.now, true);
    assert_eq!(r.unwrap_err(), ContractError::DeadlineMustBeFuture);
}

// ---------------------------------------------------------------------------
//  Release
// ---------------------------------------------------------------------------

#[test]
fn test_release_escrow_by_buyer() {
    let mut s = setup();
    let (buyer, seller, arbiter) = s.parties(1000);
    let deadline = s.now + 1000;
    let escrow_id = s.escrow(buyer, seller, arbiter, 250, deadline);

    s.release(buyer, escrow_id);

    let escrow = s.c.get_escrow(escrow_id).unwrap();
    assert_eq!(escrow.status, EscrowStatus::Released);
    assert_eq!(s.bal(seller), 250);
    assert_eq!(s.bal(ME), 0);
}

#[test]
fn test_amendment_past_deadline_rejected() {
    let mut s = setup();
    s.now = 1_000;
    let (buyer, seller, arbiter) = s.parties(2_000);
    let deadline = s.now + 1_000;
    let escrow_id = s.escrow(buyer, seller, arbiter, 500, deadline);

    let amended_deadline = s.now + 100;
    let nonce = s.c.propose_amendment(buyer, escrow_id, None, Some(amended_deadline), None, s.now).unwrap();

    s.now = amended_deadline;
    let result = s.c.sign_amendment(seller, escrow_id, nonce, s.now);
    assert_eq!(result.unwrap_err(), ContractError::Code(EscrowError::InvalidDeadline));

    let escrow = s.c.get_escrow(escrow_id).unwrap();
    assert_eq!(escrow.deadline, deadline);
}

#[test]
fn test_future_deadline_amendment_applies() {
    let mut s = setup();
    s.now = 1_000;
    let (buyer, seller, arbiter) = s.parties(2_000);
    let deadline = s.now + 1_000;
    let escrow_id = s.escrow(buyer, seller, arbiter, 500, deadline);

    let amended_deadline = s.now + 2_000;
    let nonce = s.c.propose_amendment(buyer, escrow_id, None, Some(amended_deadline), None, s.now).unwrap();
    let r = s.c.sign_amendment(seller, escrow_id, nonce, s.now);
    s.l.done(r);

    let escrow = s.c.get_escrow(escrow_id).unwrap();
    assert_eq!(escrow.amount, 500);
    assert_eq!(escrow.deadline, amended_deadline);
}

#[test]
fn test_tranche_index_bounds_check() {
    let mut s = setup();
    s.now = 1_000;
    let (buyer, seller, arbiter) = s.parties(1_000);

    let schedule = vec![
        ReleaseTranche { unlock_at: 1_100, amount: 100, claimed: false },
        ReleaseTranche { unlock_at: 1_200, amount: 150, claimed: false },
        ReleaseTranche { unlock_at: 1_300, amount: 250, claimed: false },
    ];
    let r = s.c.create_escrow_with_schedule(buyer, seller, arbiter, s.token, 2_000, schedule, s.now, true);
    let escrow_id = s.l.ok(r);

    let bad_index = s.c.claim_scheduled_tranche(seller, escrow_id, 99, s.now);
    assert_eq!(bad_index.unwrap_err(), ContractError::Code(EscrowError::InvalidTrancheIndex));

    s.now = 1_250;
    let r = s.c.claim_scheduled_tranche(seller, escrow_id, 1, s.now);
    s.l.done(r);
    assert_eq!(s.bal(seller), 150);

    let duplicate = s.c.claim_scheduled_tranche(seller, escrow_id, 1, s.now);
    assert_eq!(duplicate.unwrap_err(), ContractError::Code(EscrowError::TrancheAlreadyClaimed));
}

#[test]
fn test_release_escrow_by_arbiter() {
    let mut s = setup();
    let (buyer, seller, arbiter) = s.parties(1000);
    let deadline = s.now + 1000;
    let escrow_id = s.escrow(buyer, seller, arbiter, 250, deadline);

    s.release(arbiter, escrow_id);

    let escrow = s.c.get_escrow(escrow_id).unwrap();
    assert_eq!(escrow.status, EscrowStatus::Released);
    assert_eq!(s.bal(seller), 250);
}

#[test]
fn test_partial_release_by_buyer() {
    let mut s = setup();
    let (buyer, seller, arbiter) = s.parties(1000);
    let deadline = s.now + 1000;
    let escrow_id = s.escrow(buyer, seller, arbiter, 250, deadline);

    let r = s.c.partial_release(buyer, escrow_id, 150, s.now);
    s.l.done(r);

    let escrow = s.c.get_escrow(escrow_id).unwrap();
    assert_eq!(escrow.status, EscrowStatus::PartiallyReleased);
    assert_eq!(escrow.amount, 100);
    assert_eq!(s.bal(seller), 150);
    assert_eq!(s.bal(ME), 100);
}

#[test]
fn test_double_partial_release_then_full_release_remaining() {
    let mut s = setup();
    let (buyer, seller, arbiter) = s.parties(1000);
    let deadline = s.now + 1000;
    let escrow_id = s.escrow(buyer, seller, arbiter, 250, deadline);

    let r = s.c.partial_release(buyer, escrow_id, 100, s.now);
    s.l.done(r);
    let r = s.c.partial_release(arbiter, escrow_id, 75, s.now);
    s.l.done(r);

    let escrow = s.c.get_escrow(escrow_id).unwrap();
    assert_eq!(escrow.status, EscrowStatus::PartiallyReleased);
    assert_eq!(escrow.amount, 75);
    assert_eq!(s.bal(seller), 175);
    assert_eq!(s.bal(ME), 75);

    s.release(buyer, escrow_id);

    let escrow = s.c.get_escrow(escrow_id).unwrap();
    assert_eq!(escrow.status, EscrowStatus::Released);
    assert_eq!(escrow.amount, 75);
    assert_eq!(s.bal(seller), 250);
    assert_eq!(s.bal(ME), 0);
}

#[test]
fn test_partial_release_over_release_attempt_rejected() {
    let mut s = setup();
    let (buyer, seller, arbiter) = s.parties(1000);
    let deadline = s.now + 1000;
    let escrow_id = s.escrow(buyer, seller, arbiter, 250, deadline);

    let result = s.c.partial_release(buyer, escrow_id, 251, s.now);
    assert!(result.is_err());

    let escrow = s.c.get_escrow(escrow_id).unwrap();
    assert_eq!(escrow.status, EscrowStatus::Active);
    assert_eq!(escrow.amount, 250);
    assert_eq!(s.bal(seller), 0);
    assert_eq!(s.bal(ME), 250);
}

#[test]
fn test_release_escrow_by_seller_panics() {
    let mut s = setup();
    let (buyer, seller, arbiter) = s.parties(1000);
    let deadline = s.now + 1000;
    let escrow_id = s.escrow(buyer, seller, arbiter, 250, deadline);
    let r = s.c.release_escrow(seller, escrow_id, s.now, true);
    assert_eq!(r.unwrap_err(), ContractError::OnlyBuyerOrArbiterCanReleaseEscrow);
}

#[test]
fn test_release_escrow_already_released_panics() {
    let mut s = setup();
    let (buyer, seller, arbiter) = s.parties(1000);
    let deadline = s.now + 1000;
    let escrow_id = s.escrow(buyer, seller, arbiter, 250, deadline);

    s.release(buyer, escrow_id);
    let r = s.c.release_escrow(buyer, escrow_id, s.now, true);
    assert_eq!(r.unwrap_err(), ContractError::EscrowIsNotActive);
}

// ---------------------------------------------------------------------------
//  Disputes
// ---------------------------------------------------------------------------

#[test]
fn test_dispute_escrow_by_buyer() {
    let mut s = setup();
    let (buyer, seller, arbiter) = s.parties(1000);
    let deadline = s.now + 1000;
    let escrow_id = s.escrow(buyer, seller, arbiter, 250, deadline);

    s.dispute(buyer, escrow_id, "Item not received", 250);

    let escrow = s.c.get_escrow(escrow_id).unwrap();
    assert_eq!(escrow.status, EscrowStatus::Disputed);
    let dispute = s.c.get_dispute(escrow_id).unwrap();
    assert_eq!(dispute.resolved, false);
}

#[test]
fn test_dispute_escrow_by_seller() {
    let mut s = setup();
    let (buyer, seller, arbiter) = s.parties(1000);
    let deadline = s.now + 1000;
    let escrow_id = s.escrow(buyer, seller, arbiter, 250, deadline);

    s.dispute(seller, escrow_id, "Payment not received", 250);

    let escrow = s.c.get_escrow(escrow_id).unwrap();
    assert_eq!(escrow.status, EscrowStatus::Disputed);
}

#[test]
fn test_dispute_escrow_by_arbiter_panics() {
    let mut s = setup();
    let (buyer, seller, arbiter) = s.parties(1000);
    let deadline = s.now + 1000;
    let escrow_id = s.escrow(buyer, seller, arbiter, 250, deadline);
    let r = s.c.dispute_escrow(arbiter, escrow_id, String::from("Invalid"), 250, s.now);
    assert_eq!(r.unwrap_err(), ContractError::OnlyBuyerOrSellerCanDisputeEscrow);
}

#[test]
fn test_check_escalation_uses_custom_timeout() {
    let mut s = setup();
    let (buyer, seller, arbiter) = s.parties(1000);
    s.now = 1000;
    let deadline = s.now + 1000;
    let r = s.c.create_escrow_w_timeout(
        buyer, seller, arbiter, 250, s.token, deadline, None, Vec::new(), 0, 300, s.now, true,
    );
    let escrow_id = s.l.ok(r);

    s.dispute(buyer, escrow_id, "custom-timeout", 250);

    assert!(!s.c.check_escalation(escrow_id, 1250).unwrap());
    assert!(s.c.check_escalation(escrow_id, 1401).unwrap());
}

#[test]
fn test_check_escalation_uses_default_timeout_when_missing() {
    let mut s = setup();
    let (buyer, seller, arbiter) = s.parties(1000);
    s.c.update_default_dispute_timeout(s.admin, 200).unwrap();

    s.now = 500;
    let deadline = s.now + 1000;
    let escrow_id = s.escrow(buyer, seller, arbiter, 250, deadline);

    s.dispute(buyer, escrow_id, "default-timeout", 250);

    assert!(!s.c.check_escalation(escrow_id, 650).unwrap());
    assert!(s.c.check_escalation(escrow_id, 710).unwrap());
}

#[test]
fn test_escalation_emits_event_with_effective_timeout() {
    let mut s = setup();
    let (buyer, seller, arbiter) = s.parties(1000);
    s.now = 100;
    let deadline = s.now + 1000;
    let r = s.c.create_escrow_w_timeout(
        buyer, seller, arbiter, 250, s.token, deadline, None, Vec::new(), 0, 180, s.now, true,
    );
    let escrow_id = s.l.ok(r);

    s.dispute(seller, escrow_id, "event-check", 250);

    // The effective timeout is the escrow's own 180 seconds.
    assert!(!s.c.check_escalation(escrow_id, 280).unwrap());
    assert!(s.c.check_escalation(escrow_id, 290).unwrap());
    assert_eq!(s.c.get_escrow(escrow_id).unwrap().extensions.dispute_timeout_seconds, Some(180));
}

#[test]
fn test_create_escrow_with_zero_dispute_timeout_panics() {
    let mut s = setup();
    let (buyer, seller, arbiter) = s.parties(1000);
    let deadline = s.now + 1000;
    let r = s.c.create_escrow_w_timeout(
        buyer, seller, arbiter, 250, s.token, deadline, None, Vec::new(), 0, 0, s.now, true,
    );
    assert_eq!(r.unwrap_err(), ContractError::DisputeTimeoutSecondsMustBePositive);
}

#[test]
fn test_update_default_dispute_timeout_zero_panics() {
    let mut s = setup();
    let r = s.c.update_default_dispute_timeout(s.admin, 0);
    assert_eq!(r.unwrap_err(), ContractError::TimeoutMustBePositive);
}

#[test]
fn test_partial_dispute_50_50_split() {
    let mut s = setup();
    let (buyer, seller, arbiter) = s.parties(1000);
    let deadline = s.now + 1000;
    let escrow_id = s.escrow(buyer, seller, arbiter, 200, deadline);

    s.dispute(buyer, escrow_id, "Half disputed", 100);

    let escrow = s.c.get_escrow(escrow_id).unwrap();
    assert_eq!(escrow.status, EscrowStatus::PartiallyDisputed);
    assert_eq!(escrow.amount, 100);
    assert_eq!(s.bal(seller), 100);
    assert_eq!(s.bal(ME), 100);

    let dispute = s.c.get_dispute(escrow_id).unwrap();
    assert_eq!(dispute.dispute_amount, 100);
    assert_eq!(dispute.resolved, false);

    s.resolve(arbiter, escrow_id, 0);
    assert_eq!(s.bal(seller), 200);
    assert_eq!(s.bal(ME), 0);
}

#[test]
fn test_partial_dispute_80_20_split() {
    let mut s = setup();
    let (buyer, seller, arbiter) = s.parties(1000);
    let deadline = s.now + 1000;
    let escrow_id = s.escrow(buyer, seller, arbiter, 100, deadline);

    s.dispute(buyer, escrow_id, "Minor issue", 20);

    let escrow = s.c.get_escrow(escrow_id).unwrap();
    assert_eq!(escrow.status, EscrowStatus::PartiallyDisputed);
    assert_eq!(escrow.amount, 20);
    assert_eq!(s.bal(seller), 80);
    assert_eq!(s.bal(ME), 20);

    s.resolve(arbiter, escrow_id, 100);
    assert_eq!(s.bal(buyer), 920);
    assert_eq!(s.bal(ME), 0);
}

#[test]
fn test_full_dispute_still_works() {
    let mut s = setup();
    let (buyer, seller, arbiter) = s.parties(1000);
    let deadline = s.now + 1000;
    let escrow_id = s.escrow(buyer, seller, arbiter, 250, deadline);

    s.dispute(buyer, escrow_id, "Full dispute", 250);

    let escrow = s.c.get_escrow(escrow_id).unwrap();
    assert_eq!(escrow.status, EscrowStatus::Disputed);
    assert_eq!(escrow.amount, 250);
    assert_eq!(s.bal(seller), 0);
    assert_eq!(s.bal(ME), 250);
}

#[test]
fn test_partial_dispute_amount_exceeds_escrow_rejected() {
    let mut s = setup();
    let (buyer, seller, arbiter) = s.parties(1000);
    let deadline = s.now + 1000;
    let escrow_id = s.escrow(buyer, seller, arbiter, 100, deadline);

    let result = s.c.dispute_escrow(buyer, escrow_id, String::from("Over dispute"), 101, s.now);
    assert!(result.is_err());

    let escrow = s.c.get_escrow(escrow_id).unwrap();
    assert_eq!(escrow.status, EscrowStatus::Active);
}

#[test]
fn test_partial_dispute_emits_partial_dispute_raised_event() {
    let mut s = setup();
    let (buyer, seller, arbiter) = s.parties(1000);
    let deadline = s.now + 1000;
    let escrow_id = s.escrow(buyer, seller, arbiter, 200, deadline);

    s.dispute(buyer, escrow_id, "Partial", 120);

    // 120 stays disputed, 80 goes to the seller at once.
    let dispute = s.c.get_dispute(escrow_id).unwrap();
    assert_eq!(dispute.dispute_amount, 120);
    assert_eq!(s.bal(seller), 80);
}

#[test]
fn test_resolve_dispute_to_seller() {
    let mut s = setup();
    let (buyer, seller, arbiter) = s.parties(1000);
    let deadline = s.now + 1000;
    let escrow_id = s.escrow(buyer, seller, arbiter, 250, deadline);

    s.dispute(buyer, escrow_id, "Item not received", 250);
    s.resolve(arbiter, escrow_id, 0);

    let escrow = s.c.get_escrow(escrow_id).unwrap();
    assert_eq!(escrow.status, EscrowStatus::Released);
    assert_eq!(s.bal(seller), 250);
    assert_eq!(s.bal(ME), 0);
    let dispute = s.c.get_dispute(escrow_id).unwrap();
    assert_eq!(dispute.resolved, true);
}

#[test]
fn test_resolve_dispute_to_buyer() {
    let mut s = setup();
    let (buyer, seller, arbiter) = s.parties(1000);
    let deadline = s.now + 1000;
    let escrow_id = s.escrow(buyer, seller, arbiter, 250, deadline);

    s.dispute(seller, escrow_id, "Payment not received", 250);
    s.resolve(arbiter, escrow_id, 100);

    let escrow = s.c.get_escrow(escrow_id).unwrap();
    assert_eq!(escrow.status, EscrowStatus::Refunded);
    assert_eq!(s.bal(buyer), 1000);
    assert_eq!(s.bal(ME), 0);
}

#[test]
fn test_resolve_dispute_by_buyer_panics() {
    let mut s = setup();
    let (buyer, seller, arbiter) = s.parties(1000);
    let deadline = s.now + 1000;
    let escrow_id = s.escrow(buyer, seller, arbiter, 250, deadline);

    s.dispute(buyer, escrow_id, "Item not received", 250);
    let r = s.c.resolve_dispute(buyer, escrow_id, 0, s.now);
    assert_eq!(r.unwrap_err(), ContractError::OnlyArbiterCanResolveDispute);
}

#[test]
fn test_resolve_dispute_50_50_split() {
    let mut s = setup();
    let (buyer, seller, arbiter) = s.parties(1000);
    let deadline = s.now + 1000;
    let escrow_id = s.escrow(buyer, seller, arbiter, 1000, deadline);

    s.dispute(buyer, escrow_id, "Partial issue", 1000);
    s.resolve(arbiter, escrow_id, 50);

    assert_eq!(s.bal(buyer), 500);
    assert_eq!(s.bal(seller), 500);
    assert_eq!(s.bal(ME), 0);
    let escrow = s.c.get_escrow(escrow_id).unwrap();
    assert_eq!(escrow.status, EscrowStatus::Resolved);
}

#[test]
fn test_resolve_dispute_split_with_fee() {
    let mut s = setup();
    let (buyer, seller, arbiter) = s.parties(1000);
    let fee_recipient = s.l.gen();
    s.c.update_protocol_fee(s.admin, 100, fee_recipient).unwrap();

    let deadline = s.now + 1000;
    let escrow_id = s.escrow(buyer, seller, arbiter, 1000, deadline);

    s.dispute(buyer, escrow_id, "Partial issue", 1000);
    s.resolve(arbiter, escrow_id, 50);

    assert_eq!(s.bal(fee_recipient), 0);
    assert_eq!(s.bal(buyer), 495);
    assert_eq!(s.bal(seller), 495);
    assert_eq!(s.bal(ME), 10);
}

#[test]
fn test_resolve_dispute_100_0_is_full_buyer_win() {
    let mut s = setup();
    let (buyer, seller, arbiter) = s.parties(1000);
    let deadline = s.now + 1000;
    let escrow_id = s.escrow(buyer, seller, arbiter, 500, deadline);

    s.dispute(buyer, escrow_id, "d", 500);
    s.resolve(arbiter, escrow_id, 100);

    let escrow = s.c.get_escrow(escrow_id).unwrap();
    assert_eq!(escrow.status, EscrowStatus::Refunded);
    assert_eq!(s.bal(buyer), 1000);
    assert_eq!(s.bal(seller), 0);
}

#[test]
fn test_resolve_dispute_0_100_is_full_seller_win() {
    let mut s = setup();
    let (buyer, seller, arbiter) = s.parties(1000);
    let deadline = s.now + 1000;
    let escrow_id = s.escrow(buyer, seller, arbiter, 500, deadline);

    s.dispute(buyer, escrow_id, "d", 500);
    s.resolve(arbiter, escrow_id, 0);

    let escrow = s.c.get_escrow(escrow_id).unwrap();
    assert_eq!(escrow.status, EscrowStatus::Released);
    assert_eq!(s.bal(seller), 500);
    assert_eq!(s.bal(buyer), 500);
}

#[test]
fn test_resolve_dispute_invalid_percent_panics() {
    let mut s = setup();
    let (buyer, seller, arbiter) = s.parties(1000);
    let deadline = s.now + 1000;
    let escrow_id = s.escrow(buyer, seller, arbiter, 500, deadline);

    s.dispute(buyer, escrow_id, "d", 500);
    let r = s.c.resolve_dispute(arbiter, escrow_id, 101, s.now);
    assert_eq!(r.unwrap_err(), ContractError::BuyerPercentMustBeBetween0And100);
}

#[test]
fn test_protocol_fee_deducted_on_resolve_to_seller() {
    let mut s = setup();
    let (buyer, seller, arbiter) = s.parties(1000);
    let fee_recipient = s.l.gen();
    s.c.update_protocol_fee(s.admin, 100, fee_recipient).unwrap();

    let deadline = s.now + 1000;
    let escrow_id = s.escrow(buyer, seller, arbiter, 1000, deadline);

    s.dispute(buyer, escrow_id, "Dispute", 1000);
    s.resolve(arbiter, escrow_id, 0);

    assert_eq!(s.bal(seller), 990);
    assert_eq!(s.bal(fee_recipient), 0);
    assert_eq!(s.bal(ME), 10);
}

fn h(b: u8) -> Hash32 {
    let w = u64::from_ne_bytes([b; 8]);
    Hash32 { w0: w, w1: w, w2: w, w3: w }
}

#[test]
fn test_protocol_fee_deducted_on_resolve_to_buyer() {
    let mut s = setup();
    let (buyer, seller, arbiter) = s.parties(1000);
    let fee_recipient = s.l.gen();
    s.c.update_protocol_fee(s.admin, 200, fee_recipient).unwrap();

    let deadline = s.now + 1000;
    let escrow_id = s.escrow(buyer, seller, arbiter, 500, deadline);

    s.dispute(seller, escrow_id, "Dispute", 500);
    s.resolve(arbiter, escrow_id, 100);

    assert_eq!(s.bal(buyer), 990);
    assert_eq!(s.bal(fee_recipient), 0);
    assert_eq!(s.bal(ME), 10);
}

#[test]
fn test_zero_protocol_fee_skips_fee_transfer() {
    let mut s = setup();
    let (buyer, seller, arbiter) = s.parties(1000);
    let fee_recipient = s.l.gen();
    s.c.update_protocol_fee(s.admin, 0, fee_recipient).unwrap();

    let deadline = s.now + 1000;
    let escrow_id = s.escrow(buyer, seller, arbiter, 250, deadline);

    s.dispute(buyer, escrow_id, "Dispute", 250);
    s.resolve(arbiter, escrow_id, 0);

    assert_eq!(s.bal(seller), 250);
    assert_eq!(s.bal(fee_recipient), 0);
    assert_eq!(s.bal(ME), 0);
}

#[test]
fn test_protocol_fee_cap_enforced() {
    let mut s = setup();
    let fee_recipient = s.l.gen();

    let result = s.c.update_protocol_fee(s.admin, 201, fee_recipient);
    assert!(result.is_err());

    s.c.update_protocol_fee(s.admin, 200, fee_recipient).unwrap();
    let (fee_bps, _) = s.c.get_protocol_fee();
    assert_eq!(fee_bps, 200);
}

#[test]
fn test_non_admin_cannot_update_protocol_fee() {
    let mut s = setup();
    let non_admin = s.l.gen();
    let fee_recipient = s.l.gen();
    let result = s.c.update_protocol_fee(non_admin, 100, fee_recipient);
    assert!(result.is_err());
}

#[test]
fn test_protocol_fee_emits_event() {
    let mut s = setup();
    let (buyer, seller, arbiter) = s.parties(1000);
    let fee_recipient = s.l.gen();
    s.c.update_protocol_fee(s.admin, 100, fee_recipient).unwrap();

    let deadline = s.now + 1000;
    let escrow_id = s.escrow(buyer, seller, arbiter, 1000, deadline);

    s.dispute(buyer, escrow_id, "Dispute", 1000);
    s.resolve(arbiter, escrow_id, 0);

    // The protocol fee of 10 stays in the contract as accrued fees.
    assert_eq!(s.bal(ME), 10);
    let r = s.c.withdraw_fees(s.admin, 11, s.token, fee_recipient);
    assert_eq!(r.unwrap_err(), ContractError::InsufficientAccruedFees);
    let r = s.c.withdraw_fees(s.admin, 10, s.token, fee_recipient);
    s.l.done(r);
    assert_eq!(s.bal(fee_recipient), 10);
}

#[test]
fn test_auto_release_expired() {
    let mut s = setup();
    let (buyer, seller, arbiter) = s.parties(1000);
    let deadline = s.now + 1000;
    let escrow_id = s.escrow(buyer, seller, arbiter, 250, deadline);

    s.now = deadline + 1;
    let r = s.c.auto_release_expired(escrow_id, s.now);
    s.l.done(r);

    let escrow = s.c.get_escrow(escrow_id).unwrap();
    assert_eq!(escrow.status, EscrowStatus::Refunded);
    assert_eq!(s.bal(buyer), 1000);
    assert_eq!(s.bal(ME), 0);
}

#[test]
fn test_auto_release_not_expired_panics() {
    let mut s = setup();
    let (buyer, seller, arbiter) = s.parties(1000);
    let deadline = s.now + 1000;
    let escrow_id = s.escrow(buyer, seller, arbiter, 250, deadline);
    let r = s.c.auto_release_expired(escrow_id, s.now);
    assert_eq!(r.unwrap_err(), ContractError::EscrowHasNotExpiredYet);
}

#[test]
fn test_auto_release_disputed_panics() {
    let mut s = setup();
    let (buyer, seller, arbiter) = s.parties(1000);
    let deadline = s.now + 1000;
    let escrow_id = s.escrow(buyer, seller, arbiter, 250, deadline);

    s.dispute(buyer, escrow_id, "Item not received", 250);

    s.now = deadline + 1;
    let r = s.c.auto_release_expired(escrow_id, s.now);
    assert_eq!(r.unwrap_err(), ContractError::EscrowIsNotActive);
}

#[test]
fn test_escrow_created_emits_event() {
    let mut s = setup();
    let (buyer, seller, arbiter) = s.parties(1000);
    let deadline = s.now + 1000;
    let r = s.c.create_escrow(buyer, seller, arbiter, 250, s.token, deadline, None, Vec::new(), false, 0, s.now, true);
    let (id, ts) = r.unwrap();
    assert_eq!(id, 0);
    assert_eq!(ts, vec![Transfer { token: s.token, from: buyer, to: ME, amount: 250, by_allowance: false }]);
}

#[test]
fn test_escrow_released_emits_event() {
    let mut s = setup();
    let (buyer, seller, arbiter) = s.parties(1000);
    let deadline = s.now + 1000;
    let escrow_id = s.escrow(buyer, seller, arbiter, 250, deadline);

    let ts = s.c.release_escrow(buyer, escrow_id, s.now, true).unwrap();
    assert_eq!(ts, vec![Transfer { token: s.token, from: ME, to: seller, amount: 250, by_allowance: false }]);
}

#[test]
fn test_partial_release_emits_event() {
    let mut s = setup();
    let (buyer, seller, arbiter) = s.parties(1000);
    let deadline = s.now + 1000;
    let escrow_id = s.escrow(buyer, seller, arbiter, 250, deadline);

    let r = s.c.partial_release(buyer, escrow_id, 150, s.now);
    s.l.done(r);

    let escrow = s.c.get_escrow(escrow_id).unwrap();
    assert_eq!(escrow.id, escrow_id);
    assert_eq!(s.bal(seller), 150);
    assert_eq!(escrow.amount, 100);
}

#[test]
fn test_escrow_counter_increments() {
    let mut s = setup();
    let (buyer, seller, arbiter) = s.parties(1000);
    let deadline = s.now + 1000;
    s.escrow(buyer, seller, arbiter, 100, deadline);
    s.escrow(buyer, seller, arbiter, 200, deadline);
    assert_eq!(s.c.get_escrow_counter(), 2);
}

#[test]
fn test_boundary_amount_i128_max_rejected_without_balance() {
    let mut s = setup();
    let (buyer, seller, arbiter) = s.parties(1);
    let deadline = s.now + 10;
    let (_, ts) = s
        .c
        .create_escrow(buyer, seller, arbiter, i128::MAX, s.token, deadline, None, Vec::new(), false, 0, s.now, true)
        .unwrap();
    // The ledger refuses the deposit: the buyer holds 1 token.
    assert_eq!(ts.len(), 1);
    assert_eq!(ts[0].amount, i128::MAX);
    assert!(ts[0].amount > s.bal(buyer));
}

#[test]
fn test_admin_can_upgrade_and_version_increments() {
    let mut s = setup();
    assert_eq!(s.c.get_version(), 1);
    s.c.upgrade(s.admin).unwrap();
    assert_eq!(s.c.get_version(), 2);
}

#[test]
fn test_unauthorized_upgrade_fails() {
    let mut s = setup();
    let intruder = s.l.gen();
    let result = s.c.upgrade(intruder);
    assert!(result.is_err());
    assert_eq!(s.c.get_version(), 1);
}

#[test]
fn test_migration_runs_once_per_version() {
    let mut s = setup();
    s.c.migrate(s.admin).unwrap();
    let second = s.c.migrate(s.admin);
    assert!(second.is_err());
}

#[test]
fn test_deadline_extension_two_party_flow() {
    let mut s = setup();
    let (buyer, seller, arbiter) = s.parties(1);
    let deadline = s.now + 10;
    let (_, ts) = s
        .c
        .create_escrow(buyer, seller, arbiter, i128::MAX, s.token, deadline, None, Vec::new(), false, 0, s.now, true)
        .unwrap();
    assert!(ts[0].amount > s.bal(buyer));
}

#[test]
fn test_boundary_payment_id_u64_max_cast_not_found() {
    let s = setup();
    let id = u64::MAX as u32;
    assert!(s.c.get_escrow(id).is_err());
}

#[test]
fn test_auth_required_for_release_path() {
    let mut c = AhjoorEscrowContract::new(ME);
    let res = c.release_escrow(7, 0, 0, true);
    assert!(res.is_err());
}

#[test]
fn test_deadline_extension_buyer_proposes_seller_accepts() {
    let mut s = setup();
    let (buyer, seller, arbiter) = s.parties(1000);
    let initial_deadline = s.now + 1000;
    let escrow_id = s.escrow(buyer, seller, arbiter, 250, initial_deadline);

    let extended_deadline = initial_deadline + 3600;
    s.c.propose_deadline_extension(buyer, escrow_id, extended_deadline, s.now).unwrap();
    s.c.accept_deadline_extension(seller, escrow_id, s.now).unwrap();

    let escrow = s.c.get_escrow(escrow_id).unwrap();
    assert_eq!(escrow.deadline, extended_deadline);
}

#[test]
fn test_deadline_extension_seller_can_propose_buyer_accepts() {
    let mut s = setup();
    let (buyer, seller, arbiter) = s.parties(1000);
    let initial_deadline = s.now + 1000;
    let escrow_id = s.escrow(buyer, seller, arbiter, 250, initial_deadline);

    let extended_deadline = initial_deadline + 7200;
    s.c.propose_deadline_extension(seller, escrow_id, extended_deadline, s.now).unwrap();
    s.c.accept_deadline_extension(buyer, escrow_id, s.now).unwrap();

    let escrow = s.c.get_escrow(escrow_id).unwrap();
    assert_eq!(escrow.deadline, extended_deadline);
}

#[test]
fn test_deadline_extension_invalid_deadline_rejected() {
    let mut s = setup();
    let (buyer, seller, arbiter) = s.parties(1000);
    let initial_deadline = s.now + 1000;
    let escrow_id = s.escrow(buyer, seller, arbiter, 250, initial_deadline);
    let r = s.c.propose_deadline_extension(buyer, escrow_id, initial_deadline - 1, s.now);
    assert_eq!(r.unwrap_err(), ContractError::NewDeadlineMustBeGreaterThanCurrentDeadline);
}

#[test]
fn test_admin_can_pause_and_resume_contract() {
    let mut s = setup();
    let reason = String::from("Emergency maintenance");

    s.c.pause_contract(s.admin, reason.clone()).unwrap();
    assert_eq!(s.c.is_paused(), true);
    assert_eq!(s.c.get_pause_reason(), reason);

    s.c.resume_contract(s.admin).unwrap();
    assert_eq!(s.c.is_paused(), false);
    assert_eq!(s.c.get_pause_reason(), String::from(""));
}

#[test]
fn test_non_admin_cannot_resume_contract() {
    let mut s = setup();
    let non_admin = s.l.gen();
    s.c.pause_contract(s.admin, String::from("Incident")).unwrap();
    let res = s.c.resume_contract(non_admin);
    assert!(res.is_err());
}

#[test]
fn test_write_functions_blocked_when_paused_reads_still_work() {
    let mut s = setup();
    let (buyer, seller, arbiter) = s.parties(1000);
    let deadline = s.now + 500;
    let escrow_id = s.escrow(buyer, seller, arbiter, 200, deadline);

    s.dispute(buyer, escrow_id, "snapshot", 200);

    s.c.pause_contract(s.admin, String::from("snapshot")).unwrap();
    let r = s.c.create_escrow(buyer, seller, arbiter, 100, s.token, deadline, None, Vec::new(), false, 0, s.now, true);
    assert_eq!(r.unwrap_err(), ContractError::ContractIsPaused);
    assert_eq!(s.c.get_escrow(escrow_id).unwrap().status, EscrowStatus::Disputed);
    assert!(s.c.get_dispute(escrow_id).is_ok());
}

#[test]
fn test_fuzz_like_create_inputs_100_cases() {
    let mut s = setup();
    let (buyer, seller, arbiter) = s.parties(10_000_000);

    let mut seed: u64 = 0xA11CE73;
    for _ in 0..100 {
        seed = seed.wrapping_mul(6364136223846793005).wrapping_add(1);
        let amount = ((seed % 5000) as i128) + 1;
        let deadline = s.now + 1 + (seed % 1000);
        let r = s.c.create_escrow(buyer, seller, arbiter, amount, s.token, deadline, None, Vec::new(), false, 0, s.now, true);
        if let Ok((_, ts)) = r {
            s.l.apply(&ts);
        }
    }

    assert!(s.c.get_escrow_counter() <= 100);
}

#[test]
fn test_deadline_extension_cannot_be_same_as_current() {
    let mut s = setup();
    let (buyer, seller, arbiter) = s.parties(1000);
    let initial_deadline = s.now + 1000;
    let escrow_id = s.escrow(buyer, seller, arbiter, 250, initial_deadline);
    let result = s.c.propose_deadline_extension(buyer, escrow_id, initial_deadline, s.now);
    assert!(result.is_err());
}

#[test]
fn test_deadline_extension_same_party_accept_rejected() {
    let mut s = setup();
    let (buyer, seller, arbiter) = s.parties(1000);
    let initial_deadline = s.now + 1000;
    let token = s.token;
    s.l.mint(token, buyer, 1000);
    let escrow_id = s.escrow(buyer, seller, arbiter, 250, initial_deadline);

    let extended_deadline = initial_deadline + 1800;
    s.c.propose_deadline_extension(buyer, escrow_id, extended_deadline, s.now).unwrap();
    let result = s.c.accept_deadline_extension(buyer, escrow_id, s.now);
    assert!(result.is_err());
}

#[test]
fn test_deadline_extension_proposal_expiry_rejected() {
    let mut s = setup();
    let (buyer, seller, arbiter) = s.parties(1000);
    let initial_deadline = s.now + 1000;
    let escrow_id = s.escrow(buyer, seller, arbiter, 250, initial_deadline);

    let extended_deadline = initial_deadline + 1800;
    s.c.propose_deadline_extension(buyer, escrow_id, extended_deadline, s.now).unwrap();

    s.now = s.now + 24 * 60 * 60 + 1;
    let result = s.c.accept_deadline_extension(seller, escrow_id, s.now);
    assert!(result.is_err());

    let escrow = s.c.get_escrow(escrow_id).unwrap();
    assert_eq!(escrow.deadline, initial_deadline);
}

#[test]
fn test_dispute_blocks_deadline_extension() {
    let mut s = setup();
    let (buyer, seller, arbiter) = s.parties(1000);
    let initial_deadline = s.now + 1000;
    let escrow_id = s.escrow(buyer, seller, arbiter, 250, initial_deadline);

    s.dispute(buyer, escrow_id, "Need review", 250);

    let result = s.c.propose_deadline_extension(buyer, escrow_id, initial_deadline + 3600, s.now);
    assert!(result.is_err());
}

#[test]
fn test_recovery_after_resume() {
    let mut s = setup();
    let (buyer, seller, arbiter) = s.parties(1000);
    let deadline = s.now + 1000;
    let escrow_id = s.escrow(buyer, seller, arbiter, 100, deadline);

    s.c.pause_contract(s.admin, String::from("Emergency")).unwrap();

    let create_res = s.c.create_escrow(buyer, seller, arbiter, 100, s.token, deadline, None, Vec::new(), false, 0, s.now, true);
    assert!(create_res.is_err());

    let release_res = s.c.release_escrow(buyer, escrow_id, s.now, true);
    assert!(release_res.is_err());

    s.c.resume_contract(s.admin).unwrap();

    s.release(buyer, escrow_id);
    let escrow = s.c.get_escrow(escrow_id).unwrap();
    assert_eq!(escrow.status, EscrowStatus::Released);
}

#[test]
fn test_admin_can_add_and_remove_allowed_token() {
    let mut s = setup();
    let new_token = s.l.gen();

    s.c.add_allowed_token(s.admin, new_token).unwrap();
    s.c.remove_allowed_token(s.admin, new_token).unwrap();

    let buyer = s.l.gen();
    let seller = s.l.gen();
    let arbiter = s.l.gen();
    let deadline = s.now + 1000;
    let res = s.c.create_escrow(buyer, seller, arbiter, 100, new_token, deadline, None, Vec::new(), false, 0, s.now, true);
    assert!(res.is_err());
}

#[test]
fn test_non_admin_cannot_add_or_remove_allowed_token() {
    let mut s = setup();
    let non_admin = s.l.gen();
    let new_token = s.l.gen();

    let res = s.c.add_allowed_token(non_admin, new_token);
    assert!(res.is_err());

    let res = s.c.remove_allowed_token(non_admin, s.token);
    assert!(res.is_err());
}

#[test]
fn test_create_escrow_with_disallowed_token_panics_token_not_allowed() {
    let mut s = setup();
    let unallowed_token = s.l.gen();
    let (buyer, seller, arbiter) = s.parties(1000);
    let deadline = s.now + 1000;
    let r = s.c.create_escrow(buyer, seller, arbiter, 250, unallowed_token, deadline, None, Vec::new(), false, 0, s.now, true);
    assert_eq!(r.unwrap_err(), ContractError::TokenNotAllowed);
}

#[test]
fn test_create_escrow_with_metadata_hash() {
    let mut s = setup();
    let (buyer, seller, arbiter) = s.parties(1000);
    let hash = h(1);
    let deadline = s.now + 1000;
    let r = s.c.create_escrow(buyer, seller, arbiter, 250, s.token, deadline, Some(hash), Vec::new(), false, 0, s.now, true);
    let escrow_id = s.l.ok(r);

    let stored = s.c.get_metadata_hash(escrow_id).unwrap();
    assert_eq!(stored, Some(hash));
}

#[test]
fn test_create_escrow_without_metadata_hash() {
    let mut s = setup();
    let (buyer, seller, arbiter) = s.parties(1000);
    let deadline = s.now + 1000;
    let escrow_id = s.escrow(buyer, seller, arbiter, 250, deadline);
    let stored = s.c.get_metadata_hash(escrow_id).unwrap();
    assert_eq!(stored, None);
}

#[test]
fn test_update_metadata_by_buyer() {
    let mut s = setup();
    let (buyer, seller, arbiter) = s.parties(1000);
    let deadline = s.now + 1000;
    let escrow_id = s.escrow(buyer, seller, arbiter, 250, deadline);

    let new_hash = h(2);
    s.c.update_metadata(buyer, escrow_id, new_hash, s.now).unwrap();
    assert_eq!(s.c.get_metadata_hash(escrow_id).unwrap(), Some(new_hash));
}

#[test]
fn test_update_metadata_by_seller() {
    let mut s = setup();
    let (buyer, seller, arbiter) = s.parties(1000);
    let deadline = s.now + 1000;
    let escrow_id = s.escrow(buyer, seller, arbiter, 250, deadline);

    let new_hash = h(3);
    s.c.update_metadata(seller, escrow_id, new_hash, s.now).unwrap();
    assert_eq!(s.c.get_metadata_hash(escrow_id).unwrap(), Some(new_hash));
}

#[test]
fn test_update_metadata_multiple_times_only_latest_stored() {
    let mut s = setup();
    let (buyer, seller, arbiter) = s.parties(1000);
    let deadline = s.now + 1000;
    let escrow_id = s.escrow(buyer, seller, arbiter, 250, deadline);

    let hash1 = h(4);
    let hash2 = h(5);
    s.c.update_metadata(buyer, escrow_id, hash1, s.now).unwrap();
    s.c.update_metadata(seller, escrow_id, hash2, s.now).unwrap();
    assert_eq!(s.c.get_metadata_hash(escrow_id).unwrap(), Some(hash2));
}

#[test]
fn test_update_metadata_unauthorized_panics() {
    let mut s = setup();
    let (buyer, seller, arbiter) = s.parties(1000);
    let outsider = s.l.gen();
    let deadline = s.now + 1000;
    let escrow_id = s.escrow(buyer, seller, arbiter, 250, deadline);

    let r = s.c.update_metadata(outsider, escrow_id, h(6), s.now);
    assert_eq!(r.unwrap_err(), ContractError::OnlyBuyerOrSellerCanUpdateMetadata);
}

#[test]
fn test_event_snapshot_for_dispute() {
    let mut s = setup();
    let (buyer, seller, arbiter) = s.parties(1000);
    let deadline = s.now + 1000;
    let escrow_id = s.escrow(buyer, seller, arbiter, 250, deadline);
    s.now = 42;
    s.dispute(seller, escrow_id, "snapshot", 250);
    let d = s.c.get_dispute(escrow_id).unwrap();
    assert_eq!(d.escrow_id, escrow_id);
    assert_eq!(d.created_at, 42);
    assert_eq!(d.reason, String::from("snapshot"));
    assert_eq!(d.dispute_amount, 250);
    assert!(!d.resolved);
}
