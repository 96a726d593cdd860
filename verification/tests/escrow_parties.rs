use ahjoor_escrow::errors::ContractError;
use ahjoor_escrow::model::{Address, Approval, EscrowBatchConfig, EscrowStatus, Hash32, Transfer};
use ahjoor_escrow::state::AhjoorEscrowContract;
use std::collections::HashMap;

const ME: Address = 1_000_000;

/// Token balances of the accounts, moved as the contract's operations ask.
struct Ledger {
    bal: HashMap<(Address, Address), i128>,
    allowance: HashMap<(Address, Address, Address), i128>,
    next: Address,
}

impl Ledger {
    fn gen(&mut self) -> Address {
        self.next += 1;
        self.next
    }

    fn mint(&mut self, token: Address, who: Address, amount: i128) {
        *self.bal.entry((token, who)).or_insert(0) += amount;
    }

    fn balance(&self, token: Address, who: Address) -> i128 {
        *self.bal.get(&(token, who)).unwrap_or(&0)
    }

    fn apply(&mut self, ts: &[Transfer]) {
        for t in ts {
            assert!(t.amount >= 0, "negative transfer");
            if t.by_allowance {
                let key = (t.token, t.from, ME);
                let left = *self.allowance.get(&key).unwrap_or(&0);
                assert!(left >= t.amount, "insufficient allowance");
                self.allowance.insert(key, left - t.amount);
            }
            let from = self.balance(t.token, t.from);
            assert!(from >= t.amount, "insufficient balance");
            self.bal.insert((t.token, t.from), from - t.amount);
            self.mint(t.token, t.to, t.amount);
        }
    }

    fn approve(&mut self, a: &Approval) {
        self.allowance.insert((a.token, a.owner, a.spender), a.amount);
    }

    fn ok<T>(&mut self, r: Result<(T, Vec<Transfer>), ContractError>) -> T {
        let (v, ts) = r.unwrap();
        self.apply(&ts);
        v
    }

    fn done(&mut self, r: Result<Vec<Transfer>, ContractError>) {
        let ts = r.unwrap();
        self.apply(&ts);
    }
}

struct S {
    c: AhjoorEscrowContract,
    l: Ledger,
    admin: Address,
    token: Address,
    now: u64,
}

fn setup() -> S {
    let mut l = Ledger { bal: HashMap::new(), allowance: HashMap::new(), next: 0 };
    let mut c = AhjoorEscrowContract::new(ME);
    let admin = l.gen();
    let token = l.gen();
    c.initialize(admin).unwrap();
    c.add_allowed_token(admin, token).unwrap();
    S { c, l, admin, token, now: 0 }
}

impl S {
    fn bal(&self, who: Address) -> i128 {
        self.l.balance(self.token, who)
    }

    fn escrow(&mut self, buyer: Address, seller: Address, arbiter: Address, amount: i128, deadline: u64) -> u32 {
        let r = self.c.create_escrow(
            buyer, seller, arbiter, amount, self.token, deadline, None, Vec::new(), false, 0, self.now, true,
        );
        self.l.ok(r)
    }

    fn parties(&mut self, mint: i128) -> (Address, Address, Address) {
        let buyer = self.l.gen();
        let seller = self.l.gen();
        let arbiter = self.l.gen();
        let token = self.token;
        self.l.mint(token, buyer, mint);
        (buyer, seller, arbiter)
    }

    fn release(&mut self, caller: Address, id: u32) {
        let r = self.c.release_escrow(caller, id, self.now, true);
        self.l.done(r);
    }

    fn dispute(&mut self, caller: Address, id: u32, reason: &str, amount: i128) {
        let r = self.c.dispute_escrow(caller, id, String::from(reason), amount, self.now);
        self.l.done(r);
    }

    fn resolve(&mut self, arbiter: Address, id: u32, pct: u32) {
        let r = self.c.resolve_dispute(arbiter, id, pct, self.now);
        self.l.done(r);
    }
}

fn h(b: u8) -> Hash32 {
    let w = u64::from_ne_bytes([b; 8]);
    Hash32 { w0: w, w1: w, w2: w, w3: w }
}

impl S {
    fn escrow_with(&mut self, buyer: Address, seller: Address, arbiter: Address, amount: i128, deadline: u64,
        sellers: Vec<(Address, u32)>, auto_renew: bool, renewal_count: u32) -> Result<u32, ContractError> {
        let r = self.c.create_escrow(
            buyer, seller, arbiter, amount, self.token, deadline, None, sellers, auto_renew, renewal_count, self.now, true,
        );
        match r {
            Ok((id, ts)) => {
                self.l.apply(&ts);
                Ok(id)
            },
            Err(e) => Err(e),
        }
    }

    fn allow_renewals(&mut self, buyer: Address, id: u32, total: u32) {
        let a = self.c.set_renewal_allowance(buyer, id, total, 0).unwrap();
        self.l.approve(&a);
    }
}

fn batch_config(seller: Address, arbiter: Address, amount: i128, token: Address, deadline: u64) -> EscrowBatchConfig {
    EscrowBatchConfig {
        seller,
        arbiter,
        amount,
        token,
        deadline,
        metadata_hash: None,
        sellers: Vec::new(),
        auto_renew: false,
        renewal_count: 0,
    }
}

// ---------------------------------------------------------------------------
//  Several sellers
// ---------------------------------------------------------------------------

#[test]
fn test_create_multi_party_escrow_two_sellers() {
    let mut s = setup();
    let (buyer, seller1, arbiter) = s.parties(1000);
    let seller2 = s.l.gen();
    let deadline = s.now + 1000;
    let escrow_id = s
        .escrow_with(buyer, seller1, arbiter, 1000, deadline, vec![(seller1, 6000), (seller2, 4000)], false, 0)
        .unwrap();
    let escrow = s.c.get_escrow(escrow_id).unwrap();
    assert_eq!(escrow.amount, 1000);
    assert_eq!(escrow.sellers.len(), 2);
}

#[test]
fn test_release_multi_party_escrow_two_sellers_proportional() {
    let mut s = setup();
    let (buyer, seller1, arbiter) = s.parties(1000);
    let seller2 = s.l.gen();
    let deadline = s.now + 1000;
    let escrow_id = s
        .escrow_with(buyer, seller1, arbiter, 1000, deadline, vec![(seller1, 6000), (seller2, 4000)], false, 0)
        .unwrap();
    s.release(buyer, escrow_id);
    assert_eq!(s.bal(seller1), 600);
    assert_eq!(s.bal(seller2), 400);
}

#[test]
fn test_release_multi_party_escrow_five_sellers() {
    let mut s = setup();
    let (buyer, s1, arbiter) = s.parties(10000);
    let s2 = s.l.gen();
    let s3 = s.l.gen();
    let s4 = s.l.gen();
    let s5 = s.l.gen();
    let sellers = vec![(s1, 2000), (s2, 2000), (s3, 2000), (s4, 2000), (s5, 2000)];
    let deadline = s.now + 1000;
    let escrow_id = s.escrow_with(buyer, s1, arbiter, 10000, deadline, sellers, false, 0).unwrap();
    s.release(buyer, escrow_id);
    for who in [s1, s2, s3, s4, s5] {
        assert_eq!(s.bal(who), 2000);
    }
}

#[test]
fn test_release_multi_party_dust_goes_to_first_seller() {
    let mut s = setup();
    let (buyer, seller1, arbiter) = s.parties(1001);
    let seller2 = s.l.gen();
    let deadline = s.now + 1000;
    let escrow_id = s
        .escrow_with(buyer, seller1, arbiter, 1001, deadline, vec![(seller1, 5000), (seller2, 5000)], false, 0)
        .unwrap();
    s.release(buyer, escrow_id);
    assert_eq!(s.bal(seller2), 500);
    assert_eq!(s.bal(seller1), 501);
}

#[test]
fn test_create_multi_party_escrow_invalid_bps_panics() {
    let mut s = setup();
    let (buyer, seller1, arbiter) = s.parties(1000);
    let seller2 = s.l.gen();
    let deadline = s.now + 1000;
    let r = s.escrow_with(buyer, seller1, arbiter, 1000, deadline, vec![(seller1, 5000), (seller2, 3000)], false, 0);
    assert_eq!(r.unwrap_err(), ContractError::SellerAllocationsMustSumTo10000Bps);
}

#[test]
fn test_create_multi_party_escrow_too_many_sellers_panics() {
    let mut s = setup();
    let (buyer, seller, arbiter) = s.parties(1000);
    let mut sellers = Vec::new();
    for bps in [2000u32, 2000, 2000, 2000, 1000, 1000] {
        sellers.push((s.l.gen(), bps));
    }
    let deadline = s.now + 1000;
    let r = s.escrow_with(buyer, seller, arbiter, 1000, deadline, sellers, false, 0);
    assert_eq!(r.unwrap_err(), ContractError::Maximum5SellersAllowed);
}

// ---------------------------------------------------------------------------
//  Evidence
// ---------------------------------------------------------------------------

#[test]
fn test_submit_and_retrieve_evidence_hashes() {
    let mut s = setup();
    let (buyer, seller, arbiter) = s.parties(1000);
    let deadline = s.now + 1000;
    let escrow_id = s.escrow(buyer, seller, arbiter, 250, deadline);

    let evidence_hash = h(7);
    let uri_hash = h(8);
    s.c.submit_evidence(buyer, escrow_id, evidence_hash, uri_hash, s.now).unwrap();

    let all = s.c.get_evidence(escrow_id).unwrap();
    assert_eq!(all.len(), 1);
    let (party, entries) = &all[0];
    assert_eq!(*party, buyer);
    assert_eq!(entries.len(), 1);
    assert_eq!(entries[0].evidence_hash, evidence_hash);
    assert_eq!(entries[0].evidence_uri_hash, uri_hash);
}

#[test]
fn test_evidence_over_limit_rejected() {
    let mut s = setup();
    let (buyer, seller, arbiter) = s.parties(1000);
    let deadline = s.now + 1000;
    let escrow_id = s.escrow(buyer, seller, arbiter, 250, deadline);

    for i in 0..5u8 {
        s.c.submit_evidence(buyer, escrow_id, h(i), h(i + 1), s.now).unwrap();
    }
    let result = s.c.submit_evidence(buyer, escrow_id, h(9), h(10), s.now);
    assert!(result.is_err());
}

#[test]
fn test_only_parties_can_submit_evidence() {
    let mut s = setup();
    let (buyer, seller, arbiter) = s.parties(1000);
    let outsider = s.l.gen();
    let deadline = s.now + 1000;
    let escrow_id = s.escrow(buyer, seller, arbiter, 250, deadline);
    let result = s.c.submit_evidence(outsider, escrow_id, h(11), h(12), s.now);
    assert!(result.is_err());
}

// ---------------------------------------------------------------------------
//  Renewal
// ---------------------------------------------------------------------------

#[test]
fn test_auto_renew_creates_next_escrow_on_release() {
    let mut s = setup();
    let (buyer, seller, arbiter) = s.parties(10_000);
    let deadline = s.now + 1000;
    let escrow_id = s.escrow_with(buyer, seller, arbiter, 500, deadline, Vec::new(), true, 2).unwrap();

    s.allow_renewals(buyer, escrow_id, 2);
    s.release(buyer, escrow_id);

    let renewed = s.c.get_escrow(escrow_id + 1).unwrap();
    assert_eq!(renewed.status, EscrowStatus::Active);
    assert_eq!(renewed.amount, 500);
    assert_eq!(renewed.extensions.renewals_remaining, 1);
}

#[test]
fn test_auto_renew_stops_when_count_exhausted() {
    let mut s = setup();
    let (buyer, seller, arbiter) = s.parties(10_000);
    let deadline = s.now + 1000;
    let escrow_id = s.escrow_with(buyer, seller, arbiter, 500, deadline, Vec::new(), true, 1).unwrap();

    s.allow_renewals(buyer, escrow_id, 1);
    s.release(buyer, escrow_id);
    s.release(buyer, escrow_id + 1);

    assert!(s.c.get_escrow(escrow_id + 2).is_err());
}

#[test]
fn test_buyer_can_cancel_auto_renew() {
    let mut s = setup();
    let (buyer, seller, arbiter) = s.parties(10_000);
    let deadline = s.now + 1000;
    let escrow_id = s.escrow_with(buyer, seller, arbiter, 500, deadline, Vec::new(), true, 2).unwrap();

    s.allow_renewals(buyer, escrow_id, 2);
    s.c.cancel_auto_renew(buyer, escrow_id).unwrap();
    s.release(buyer, escrow_id);

    assert!(s.c.get_escrow(escrow_id + 1).is_err());
}

#[test]
fn test_auto_renew_fails_with_insufficient_allowance() {
    let mut s = setup();
    let (buyer, seller, arbiter) = s.parties(10_000);
    let deadline = s.now + 1000;
    let escrow_id = s.escrow_with(buyer, seller, arbiter, 500, deadline, Vec::new(), true, 2).unwrap();

    s.allow_renewals(buyer, escrow_id, 1);
    s.release(buyer, escrow_id);

    let result = s.c.release_escrow(buyer, escrow_id + 1, s.now, true);
    assert!(result.is_err());
}

// ---------------------------------------------------------------------------
//  Buyer role
// ---------------------------------------------------------------------------

#[test]
fn test_transfer_buyer_role_requires_current_buyer_authorization() {
    let mut s = setup();
    let (buyer, seller, arbiter) = s.parties(1000);
    let outsider = s.l.gen();
    let new_buyer = s.l.gen();
    let deadline = s.now + 1000;
    let escrow_id = s.escrow(buyer, seller, arbiter, 250, deadline);

    let result = s.c.transfer_buyer_role(outsider, escrow_id, new_buyer);
    assert!(result.is_err());
    assert_eq!(s.c.get_escrow(escrow_id).unwrap().buyer, buyer);
}

#[test]
fn test_transfer_buyer_role_rejected_during_dispute() {
    let mut s = setup();
    let (buyer, seller, arbiter) = s.parties(1000);
    let new_buyer = s.l.gen();
    let deadline = s.now + 1000;
    let escrow_id = s.escrow(buyer, seller, arbiter, 250, deadline);

    s.dispute(buyer, escrow_id, "dispute", 250);
    let result = s.c.transfer_buyer_role(buyer, escrow_id, new_buyer);
    assert!(result.is_err());
    assert_eq!(s.c.get_escrow(escrow_id).unwrap().buyer, buyer);
}

#[test]
fn test_transfer_buyer_role_new_buyer_inherits_rights_old_buyer_loses_them() {
    let mut s = setup();
    let (buyer, seller, arbiter) = s.parties(1000);
    let new_buyer = s.l.gen();
    let deadline = s.now + 1000;
    let escrow_id = s.escrow(buyer, seller, arbiter, 250, deadline);

    s.c.transfer_buyer_role(buyer, escrow_id, new_buyer).unwrap();
    assert_eq!(s.c.get_escrow(escrow_id).unwrap().buyer, new_buyer);

    let old_buyer_release = s.c.release_escrow(buyer, escrow_id, s.now, true);
    assert!(old_buyer_release.is_err());

    s.release(new_buyer, escrow_id);
    assert_eq!(s.c.get_escrow(escrow_id).unwrap().status, EscrowStatus::Released);
}

// ---------------------------------------------------------------------------
//  Batches
// ---------------------------------------------------------------------------

#[test]
fn test_create_escrows_batch_max_size_contiguous_and_events() {
    let mut s = setup();
    let buyer = s.l.gen();
    let token = s.token;
    s.l.mint(token, buyer, 20_000);
    let deadline = s.now + 1000;
    let mut configs = Vec::new();
    for _ in 0..10 {
        let seller = s.l.gen();
        let arbiter = s.l.gen();
        configs.push(batch_config(seller, arbiter, 100, token, deadline));
    }
    let r = s.c.create_escrows_batch(buyer, configs, s.now, true);
    let ids = s.l.ok(r);
    assert_eq!(ids.len(), 10);
    for (i, id) in ids.iter().enumerate() {
        assert_eq!(*id as usize, i);
    }
    assert_eq!(ids[0], 0);
    assert_eq!(ids[9], 9);
    assert_eq!(s.bal(buyer), 19_000);
}

#[test]
fn test_create_escrows_batch_rejects_above_cap() {
    let mut s = setup();
    let buyer = s.l.gen();
    let token = s.token;
    s.l.mint(token, buyer, 20_000);
    let deadline = s.now + 1000;
    let mut configs = Vec::new();
    for _ in 0..11 {
        let seller = s.l.gen();
        let arbiter = s.l.gen();
        configs.push(batch_config(seller, arbiter, 50, token, deadline));
    }
    let res = s.c.create_escrows_batch(buyer, configs, s.now, true);
    assert!(res.is_err());
    assert_eq!(s.c.get_escrow_counter(), 0);
    assert_eq!(s.bal(buyer), 20_000);
}

#[test]
fn test_create_escrows_batch_invalid_config_reverts_entire_batch() {
    let mut s = setup();
    let buyer = s.l.gen();
    let token = s.token;
    s.l.mint(token, buyer, 20_000);
    let deadline = s.now + 1000;
    let mut configs = Vec::new();
    for amount in [100i128, 0, 100] {
        let seller = s.l.gen();
        let arbiter = s.l.gen();
        configs.push(batch_config(seller, arbiter, amount, token, deadline));
    }
    let res = s.c.create_escrows_batch(buyer, configs, s.now, true);
    assert!(res.is_err());
    assert_eq!(s.c.get_escrow_counter(), 0);
    assert_eq!(s.bal(buyer), 20_000);
    assert!(s.c.get_escrow(0).is_err());
}

#[test]
fn test_create_escrows_batch_single_item() {
    let mut s = setup();
    let buyer = s.l.gen();
    let token = s.token;
    s.l.mint(token, buyer, 1000);
    let deadline = s.now + 1000;
    let seller = s.l.gen();
    let arbiter = s.l.gen();
    let configs = vec![batch_config(seller, arbiter, 250, token, deadline)];
    let r = s.c.create_escrows_batch(buyer, configs, s.now, true);
    let ids = s.l.ok(r);
    assert_eq!(ids, vec![0]);
}

// ---------------------------------------------------------------------------
//  Insurance
// ---------------------------------------------------------------------------

fn setup_insurance(s: &mut S) {
    s.c.set_insurance_config(s.admin, s.token, 7, true).unwrap();
}

fn contribute(s: &mut S, amount: i128) {
    let contributor = s.l.gen();
    let token = s.token;
    s.l.mint(token, contributor, amount);
    let r = s.c.contribute_to_insurance(contributor, amount);
    s.l.done(r);
}

/// A disputed escrow of `amount` created at time 1000, with the clock moved on by `elapsed`.
fn stuck_escrow(s: &mut S, amount: i128, elapsed: u64) -> (Address, u32) {
    let (buyer, seller, arbiter) = s.parties(amount);
    s.now = 1000;
    let deadline = s.now + 10_000;
    let escrow_id = s.escrow(buyer, seller, arbiter, amount, deadline);
    s.dispute(buyer, escrow_id, "stuck", amount);
    s.now = 1000 + elapsed;
    (buyer, escrow_id)
}

#[test]
fn test_insurance_contribute_and_pool_balance() {
    let mut s = setup();
    setup_insurance(&mut s);
    let contributor = s.l.gen();
    let token = s.token;
    s.l.mint(token, contributor, 1000);
    let r = s.c.contribute_to_insurance(contributor, 500);
    s.l.done(r);
    assert_eq!(s.c.get_insurance_pool(), 500);
    let r = s.c.contribute_to_insurance(contributor, 300);
    s.l.done(r);
    assert_eq!(s.c.get_insurance_pool(), 800);
}

#[test]
fn test_insurance_claim_after_trigger_period() {
    let mut s = setup();
    setup_insurance(&mut s);
    contribute(&mut s, 10_000);
    let (buyer, escrow_id) = stuck_escrow(&mut s, 1000, 604_801);
    s.c.confirm_insurance_inactivity(s.admin, escrow_id, true).unwrap();
    let r = s.c.claim_insurance(buyer, escrow_id, s.now);
    s.l.done(r);
    assert_eq!(s.bal(buyer), 500);
    assert_eq!(s.c.get_insurance_pool(), 9_500);
}

#[test]
fn test_insurance_claim_capped_at_50_percent() {
    let mut s = setup();
    setup_insurance(&mut s);
    contribute(&mut s, 10_000);
    let (buyer, escrow_id) = stuck_escrow(&mut s, 2000, 604_801);
    s.c.confirm_insurance_inactivity(s.admin, escrow_id, true).unwrap();
    let r = s.c.claim_insurance(buyer, escrow_id, s.now);
    s.l.done(r);
    assert_eq!(s.bal(buyer), 1000);
}

#[test]
fn test_insurance_claim_before_trigger_period_panics() {
    let mut s = setup();
    setup_insurance(&mut s);
    contribute(&mut s, 10_000);
    let (buyer, escrow_id) = stuck_escrow(&mut s, 1000, 86_400);
    s.c.confirm_insurance_inactivity(s.admin, escrow_id, true).unwrap();
    let result = s.c.claim_insurance(buyer, escrow_id, s.now);
    assert!(result.is_err());
}

#[test]
fn test_insurance_claim_requires_admin_confirmation() {
    let mut s = setup();
    setup_insurance(&mut s);
    contribute(&mut s, 10_000);
    let (buyer, escrow_id) = stuck_escrow(&mut s, 1000, 604_801);
    let result = s.c.claim_insurance(buyer, escrow_id, s.now);
    assert!(result.is_err());
}

#[test]
fn test_insurance_claim_emits_event() {
    let mut s = setup();
    setup_insurance(&mut s);
    contribute(&mut s, 10_000);
    let (buyer, escrow_id) = stuck_escrow(&mut s, 1000, 604_801);
    s.c.confirm_insurance_inactivity(s.admin, escrow_id, true).unwrap();
    let ts = s.c.claim_insurance(buyer, escrow_id, s.now).unwrap();
    assert_eq!(ts, vec![Transfer { token: s.token, from: ME, to: buyer, amount: 500, by_allowance: false }]);
    // A second claim on the same escrow is refused.
    assert_eq!(s.c.claim_insurance(buyer, escrow_id, s.now).unwrap_err(), ContractError::InsuranceAlreadyClaimed);
}

#[test]
fn test_insurance_pool_capped_by_pool_balance() {
    let mut s = setup();
    setup_insurance(&mut s);
    contribute(&mut s, 100);
    let (buyer, escrow_id) = stuck_escrow(&mut s, 1000, 604_801);
    s.c.confirm_insurance_inactivity(s.admin, escrow_id, true).unwrap();
    let r = s.c.claim_insurance(buyer, escrow_id, s.now);
    s.l.done(r);
    assert_eq!(s.bal(buyer), 100);
    assert_eq!(s.c.get_insurance_pool(), 0);
}
