use ahjoor_escrow::errors::ContractError;
use ahjoor_escrow::model::{Address, Approval, DisputeDefaultWinner, EscrowCreateRequest, EscrowStatus, EscrowTemplateConfig, Hash32, MilestoneInput, MilestoneStateStatus, PriceData, ReleaseTranche, Transfer};
use ahjoor_escrow::state::AhjoorEscrowContract;
use std::collections::HashMap;

const ME: Address = 1_000_000;

/// Token balances of the accounts, moved as the contract's operations ask.
struct Ledger {
    bal: HashMap<(Address, Address), i128>,
    allowance: HashMap<(Address, Address, Address), i128>,
    next: Address,
}

impl Ledger {
    fn gen(&mut self) -> Address {
        self.next += 1;
        self.next
    }

    fn mint(&mut self, token: Address, who: Address, amount: i128) {
        *self.bal.entry((token, who)).or_insert(0) += amount;
    }

    fn balance(&self, token: Address, who: Address) -> i128 {
        *self.bal.get(&(token, who)).unwrap_or(&0)
    }

    fn apply(&mut self, ts: &[Transfer]) {
        for t in ts {
            assert!(t.amount >= 0, "negative transfer");
            if t.by_allowance {
                let key = (t.token, t.from, ME);
                let left = *self.allowance.get(&key).unwrap_or(&0);
                assert!(left >= t.amount, "insufficient allowance");
                self.allowance.insert(key, left - t.amount);
            }
            let from = self.balance(t.token, t.from);
            assert!(from >= t.amount, "insufficient balance");
            self.bal.insert((t.token, t.from), from - t.amount);
            self.mint(t.token, t.to, t.amount);
        }
    }

    fn approve(&mut self, a: &Approval) {
        self.allowance.insert((a.token, a.owner, a.spender), a.amount);
    }

    fn ok<T>(&mut self, r: Result<(T, Vec<Transfer>), ContractError>) -> T {
        let (v, ts) = r.unwrap();
        self.apply(&ts);
        v
    }

    fn done(&mut self, r: Result<Vec<Transfer>, ContractError>) {
        let ts = r.unwrap();
        self.apply(&ts);
    }
}

struct S {
    c: AhjoorEscrowContract,
    l: Ledger,
    admin: Address,
    token: Address,
    now: u64,
}

fn setup() -> S {
    let mut l = Ledger { bal: HashMap::new(), allowance: HashMap::new(), next: 0 };
    let mut c = AhjoorEscrowContract::new(ME);
    let admin = l.gen();
    let token = l.gen();
    c.initialize(admin).unwrap();
    c.add_allowed_token(admin, token).unwrap();
    S { c, l, admin, token, now: 0 }
}

impl S {
    fn bal(&self, who: Address) -> i128 {
        self.l.balance(self.token, who)
    }

    fn escrow(&mut self, buyer: Address, seller: Address, arbiter: Address, amount: i128, deadline: u64) -> u32 {
        let r = self.c.create_escrow(
            buyer, seller, arbiter, amount, self.token, deadline, None, Vec::new(), false, 0, self.now, true,
        );
        self.l.ok(r)
    }

    fn parties(&mut self, mint: i128) -> (Address, Address, Address) {
        let buyer = self.l.gen();
        let seller = self.l.gen();
        let arbiter = self.l.gen();
        let token = self.token;
        self.l.mint(token, buyer, mint);
        (buyer, seller, arbiter)
    }

    fn release(&mut self, caller: Address, id: u32) {
        let r = self.c.release_escrow(caller, id, self.now, true);
        self.l.done(r);
    }

    fn dispute(&mut self, caller: Address, id: u32, reason: &str, amount: i128) {
        let r = self.c.dispute_escrow(caller, id, String::from(reason), amount, self.now);
        self.l.done(r);
    }

    fn resolve(&mut self, arbiter: Address, id: u32, pct: u32) {
        let r = self.c.resolve_dispute(arbiter, id, pct, self.now);
        self.l.done(r);
    }
}

fn h(b: u8) -> Hash32 {
    let w = u64::from_ne_bytes([b; 8]);
    Hash32 { w0: w, w1: w, w2: w, w3: w }
}

fn request(seller: Address, arbiter: Address, amount: i128, token: Address, deadline: u64) -> EscrowCreateRequest {
    EscrowCreateRequest {
        seller,
        arbiter,
        amount,
        token,
        deadline,
        metadata_hash: None,
        sellers: Vec::new(),
        auto_renew: false,
        renewal_count: 0,
        buyer_inactivity_secs: 0,
        min_lock_until: None,
        release_base: None,
        release_quote: None,
        release_comparison: None,
        release_threshold_price: None,
        arbiter_fee_bps: None,
        dispute_default_winner: None,
        auto_renew_max_renewals: None,
        auto_renew_interval_ledgers: None,
    }
}

// ---------------------------------------------------------------------------
//  Templates and the arbiter pool
// ---------------------------------------------------------------------------

#[test]
fn template_sets_arbiter_token_and_deadline() {
    let mut s = setup();
    let creator = s.l.gen();
    let arbiter = s.l.gen();
    let cfg = EscrowTemplateConfig { arbiter, token: s.token, deadline_duration: 600 };
    let tid = s.c.create_escrow_template(creator, cfg).unwrap();
    assert_eq!(tid, 0);
    let t = s.c.get_escrow_template(tid).unwrap();
    assert!(t.active);
    assert_eq!(t.creator, creator);

    let (buyer, seller, _) = s.parties(1000);
    s.now = 50;
    let r = s.c.create_escrow_from_template(buyer, seller, tid, 300, s.now);
    let id = s.l.ok(r);
    let e = s.c.get_escrow(id).unwrap();
    assert_eq!(e.arbiter, arbiter);
    assert_eq!(e.token, s.token);
    assert_eq!(e.deadline, 650);
    assert_eq!(e.amount, 300);
    assert_eq!(s.bal(ME), 300);
}

#[test]
fn template_update_and_deactivation_rules() {
    let mut s = setup();
    let creator = s.l.gen();
    let other = s.l.gen();
    let arbiter = s.l.gen();
    let cfg = EscrowTemplateConfig { arbiter, token: s.token, deadline_duration: 600 };
    let tid = s.c.create_escrow_template(creator, cfg).unwrap();

    let bad = EscrowTemplateConfig { arbiter, token: s.token, deadline_duration: 0 };
    assert_eq!(s.c.create_escrow_template(creator, bad).unwrap_err(), ContractError::DeadlineDurationMustBePositive);
    let unlisted = EscrowTemplateConfig { arbiter, token: 9_999, deadline_duration: 5 };
    assert_eq!(s.c.create_escrow_template(creator, unlisted).unwrap_err(), ContractError::TokenNotAllowed);

    let new_cfg = EscrowTemplateConfig { arbiter, token: s.token, deadline_duration: 60 };
    assert_eq!(s.c.update_escrow_template(other, tid, new_cfg).unwrap_err(), ContractError::OnlyTemplateCreatorCanUpdate);
    s.c.update_escrow_template(creator, tid, new_cfg).unwrap();
    assert_eq!(s.c.get_escrow_template(tid).unwrap().config.deadline_duration, 60);

    assert_eq!(s.c.deactivate_escrow_template(other, tid).unwrap_err(), ContractError::OnlyTemplateCreatorCanDeactivate);
    s.c.deactivate_escrow_template(creator, tid).unwrap();
    assert_eq!(s.c.deactivate_escrow_template(creator, tid).unwrap_err(), ContractError::TemplateAlreadyDeactivated);
    assert_eq!(s.c.update_escrow_template(creator, tid, new_cfg).unwrap_err(), ContractError::TemplateIsDeactivated);

    let (buyer, seller, _) = s.parties(1000);
    let r = s.c.create_escrow_from_template(buyer, seller, tid, 10, s.now);
    assert_eq!(r.unwrap_err(), ContractError::TemplateIsDeactivated);
    let r = s.c.create_escrow_from_template(buyer, seller, 77, 10, s.now);
    assert_eq!(r.unwrap_err(), ContractError::TemplateNotFound);
    assert_eq!(s.c.get_escrow_template(77).unwrap_err(), ContractError::TemplateNotFound);
}

#[test]
fn pool_arbiters_are_assigned_in_turn() {
    let mut s = setup();
    let a1 = s.l.gen();
    let a2 = s.l.gen();
    let (buyer, seller, _) = s.parties(1000);

    let r = s.c.create_escrow_with_pool_arbiter(buyer, seller, 10, s.token, 100, s.now);
    assert_eq!(r.unwrap_err(), ContractError::ArbiterPoolIsEmpty);

    s.c.add_arbiter(s.admin, a1).unwrap();
    s.c.add_arbiter(s.admin, a2).unwrap();
    assert_eq!(s.c.add_arbiter(s.admin, a1).unwrap_err(), ContractError::ArbiterAlreadyPool);

    let mut got = Vec::new();
    for _ in 0..3 {
        let r = s.c.create_escrow_with_pool_arbiter(buyer, seller, 10, s.token, 100, s.now);
        let id = s.l.ok(r);
        got.push(s.c.get_escrow(id).unwrap().arbiter);
    }
    assert_eq!(got, vec![a1, a2, a1]);

    let stranger = s.l.gen();
    assert_eq!(s.c.remove_arbiter(s.admin, stranger, Vec::new()).unwrap_err(), ContractError::ArbiterNotPool);
    s.c.remove_arbiter(s.admin, a1, vec![0, 1, 2]).unwrap();
    let r = s.c.create_escrow_with_pool_arbiter(buyer, seller, 10, s.token, 100, s.now);
    let id = s.l.ok(r);
    assert_eq!(s.c.get_escrow(id).unwrap().arbiter, a2);
}

// ---------------------------------------------------------------------------
//  Inspection
// ---------------------------------------------------------------------------

fn inspected(s: &mut S) -> (Address, Address, Address, Address, u32) {
    let (buyer, seller, arbiter) = s.parties(1000);
    let inspector = s.l.gen();
    let req = request(seller, arbiter, 400, s.token, s.now + 1000);
    let r = s.c.create_escrow_with_inspector(buyer, req, Some(inspector), s.now, true);
    let id = s.l.ok(r);
    (buyer, seller, arbiter, inspector, id)
}

#[test]
fn inspection_pass_then_release() {
    let mut s = setup();
    let (buyer, seller, _, inspector, id) = inspected(&mut s);

    assert_eq!(s.c.seller_mark_complete(buyer, id).unwrap_err(), ContractError::OnlySellerCanMarkComplete);
    s.c.seller_mark_complete(seller, id).unwrap();
    assert_eq!(s.c.get_escrow(id).unwrap().status, EscrowStatus::AwaitingInspection);
    assert_eq!(s.c.release_escrow(buyer, id, s.now, true).unwrap_err(), ContractError::InspectionPending);

    assert_eq!(
        s.c.submit_inspection_report(seller, id, true, h(3), 5).unwrap_err(),
        ContractError::OnlyAssignedInspectorCanSubmitReport
    );
    s.c.submit_inspection_report(inspector, id, true, h(3), 5).unwrap();
    let rep = s.c.get_inspector_report(id).unwrap();
    assert!(rep.approved);
    assert_eq!(rep.submitted_at, 5);
    assert_eq!(rep.report_hash, h(3));
    assert_eq!(s.c.get_escrow(id).unwrap().status, EscrowStatus::InspectionPassed);
    assert_eq!(
        s.c.submit_inspection_result(inspector, id, false, h(4), 6).unwrap_err(),
        ContractError::EscrowIsNotAwaitingInspection
    );

    s.release(buyer, id);
    assert_eq!(s.bal(seller), 400);
}

#[test]
fn inspection_needs_an_inspector() {
    let mut s = setup();
    let (buyer, seller, arbiter) = s.parties(1000);
    let id = s.escrow(buyer, seller, arbiter, 100, 100);
    assert_eq!(s.c.seller_mark_complete(seller, id).unwrap_err(), ContractError::NoInspectorSetUseReleaseEscrowDirectly);
    assert_eq!(s.c.replace_inspector(buyer, id, 5).unwrap_err(), ContractError::NoInspectorSetEscrow);
    assert_eq!(s.c.appeal_inspector_ruling(s.admin, id).unwrap_err(), ContractError::NoInspectorOnEscrow);
}

#[test]
fn failed_inspection_and_replacement_by_both_parties() {
    let mut s = setup();
    let (buyer, seller, arbiter, inspector, id) = inspected(&mut s);
    s.c.seller_mark_complete(seller, id).unwrap();
    s.c.submit_inspection_result(inspector, id, false, h(8), 1).unwrap();
    assert_eq!(s.c.get_escrow(id).unwrap().status, EscrowStatus::InspectionFailed);

    let fresh = s.l.gen();
    assert_eq!(
        s.c.replace_inspector(arbiter, id, fresh).unwrap_err(),
        ContractError::OnlyBuyerOrSellerCanProposeInspectorReplacement
    );
    s.c.replace_inspector(buyer, id, fresh).unwrap();
    // One signature is not enough.
    assert_eq!(s.c.get_escrow(id).unwrap().extensions.inspector, Some(inspector));
    s.c.update_inspector(seller, id, fresh).unwrap();
    let e = s.c.get_escrow(id).unwrap();
    assert_eq!(e.extensions.inspector, Some(fresh));
    assert_eq!(e.status, EscrowStatus::Active);
    // The replaced inspector is charged an incomplete ruling.
    assert_eq!(s.c.get_inspector_score(inspector).unwrap(), (1, 0, 0));
}

#[test]
fn appeal_lowers_inspector_accuracy_once() {
    let mut s = setup();
    let (_, _, _, inspector, id) = inspected(&mut s);
    assert_eq!(s.c.get_inspector_score(inspector).unwrap(), (0, 0, 10_000));
    let outsider = s.l.gen();
    assert_eq!(s.c.appeal_inspector_ruling(outsider, id).unwrap_err(), ContractError::OnlyAdminCanAppealInspectorRuling);
    s.c.appeal_inspector_ruling(s.admin, id).unwrap();
    assert_eq!(s.c.get_inspector_score(inspector).unwrap(), (1, 0, 0));
    assert_eq!(s.c.appeal_inspector_ruling(s.admin, id).unwrap_err(), ContractError::InspectorRulingAlreadyAppealedEscrow);
}

#[test]
fn low_scoring_inspector_is_refused_for_high_value_escrows() {
    let mut s = setup();
    let (_, _, _, inspector, id) = inspected(&mut s);
    s.c.appeal_inspector_ruling(s.admin, id).unwrap();
    let outsider = s.l.gen();
    assert_eq!(
        s.c.set_inspector_score_threshold(outsider, 5000, 100).unwrap_err(),
        ContractError::OnlyAdminCanSetInspectorScoreThreshold
    );
    assert_eq!(s.c.set_inspector_score_threshold(s.admin, 10_001, 100).unwrap_err(), ContractError::MinScoreBpsExceedsMaximum);
    s.c.set_inspector_score_threshold(s.admin, 5000, 100).unwrap();

    let (buyer, seller, arbiter) = s.parties(1000);
    let big = request(seller, arbiter, 101, s.token, s.now + 10);
    let r = s.c.create_escrow_with_inspector(buyer, big, Some(inspector), s.now, true);
    assert_eq!(r.unwrap_err(), ContractError::InspectorScoreBelowMinimumThresholdHighValueEscrow);
    let small = request(seller, arbiter, 100, s.token, s.now + 10);
    let r = s.c.create_escrow_with_inspector(buyer, small, Some(inspector), s.now, true);
    assert!(r.is_ok());
}

// ---------------------------------------------------------------------------
//  Time-locked escrows
// ---------------------------------------------------------------------------

#[test]
fn timelocked_escrow_claim_and_cancel() {
    let mut s = setup();
    let (buyer, beneficiary, arbiter) = s.parties(1000);
    s.now = 10;
    let r = s.c.create_timelocked_escrow(buyer, arbiter, 200, s.token, 500, 10, beneficiary, None, s.now, true);
    assert_eq!(r.unwrap_err(), ContractError::UnlockAtMustBeFuture);

    let r = s.c.create_timelocked_escrow(buyer, arbiter, 200, s.token, 500, 100, beneficiary, None, s.now, true);
    let id = s.l.ok(r);
    let t = s.c.get_timelock_data(id).unwrap();
    assert_eq!(t.unlock_at, 100);
    assert!(!t.claimed);

    assert_eq!(s.c.claim_timelocked(beneficiary, id, 99).unwrap_err(), ContractError::UnlockTimeHasNotPassed);
    assert_eq!(s.c.claim_timelocked(buyer, id, 100).unwrap_err(), ContractError::OnlyBeneficiaryCanClaim);
    let r = s.c.claim_timelocked(beneficiary, id, 100);
    s.l.done(r);
    assert_eq!(s.bal(beneficiary), 200);
    assert_eq!(s.c.claim_timelocked(beneficiary, id, 101).unwrap_err(), ContractError::AlreadyClaimed);
    assert!(s.c.get_timelock_data(id).unwrap().claimed);

    let r = s.c.create_timelocked_escrow(buyer, arbiter, 300, s.token, 500, 100, beneficiary, None, s.now, true);
    let id2 = s.l.ok(r);
    assert_eq!(s.c.cancel_timelocked(beneficiary, id2, 20).unwrap_err(), ContractError::OnlyBuyerCanCancel);
    assert_eq!(s.c.cancel_timelocked(buyer, id2, 100).unwrap_err(), ContractError::PastUnlockTimeUseClaimTimelocked);
    let r = s.c.cancel_timelocked(buyer, id2, 20);
    s.l.done(r);
    assert_eq!(s.bal(buyer), 1000 - 200);
    assert_eq!(s.c.get_escrow(id2).unwrap().status, EscrowStatus::Refunded);

    let plain = s.escrow(buyer, beneficiary, arbiter, 1, 500);
    assert_eq!(s.c.claim_timelocked(beneficiary, plain, 200).unwrap_err(), ContractError::NotTimeLockedEscrow);
    assert!(s.c.get_timelock_data(plain).is_none());
}

// ---------------------------------------------------------------------------
//  Milestones released in bps shares
// ---------------------------------------------------------------------------

fn bps_input(name: &str, bps: u32) -> MilestoneInput {
    MilestoneInput { name: String::from(name), release_bps: bps, description_hash: h(1) }
}

#[test]
fn bps_milestones_pay_shares_and_last_takes_the_rest() {
    let mut s = setup();
    let (buyer, seller, arbiter) = s.parties(1000);
    let ms = vec![bps_input("a", 3333), bps_input("b", 3333), bps_input("c", 3334)];
    let r = s.c.create_bps_milestone_escrow(buyer, seller, arbiter, 1000, s.token, 100, ms, s.now, true);
    let id = s.l.ok(r);

    assert_eq!(
        s.c.approve_proportional_milestone(buyer, id, 0).unwrap_err(),
        ContractError::MilestoneMustBeSubmittedBeforeApproval
    );
    s.c.submit_milestone(seller, id, 0, h(5)).unwrap();
    s.c.reject_milestone(buyer, id, 0, h(6)).unwrap();
    assert_eq!(s.c.get_bps_milestones(id).unwrap()[0].status, MilestoneStateStatus::Rejected);
    s.c.submit_milestone(seller, id, 0, h(7)).unwrap();
    for i in 0..3u32 {
        if i > 0 {
            s.c.submit_milestone(seller, id, i, h(7)).unwrap();
        }
        let r = s.c.approve_proportional_milestone(arbiter, id, i);
        s.l.done(r);
    }
    assert_eq!(s.bal(seller), 1000);
    assert_eq!(s.bal(ME), 0);
    assert_eq!(s.c.get_escrow(id).unwrap().status, EscrowStatus::Released);
}

#[test]
fn bps_milestone_inputs_are_checked() {
    let mut s = setup();
    let (buyer, seller, arbiter) = s.parties(1000);
    let token = s.token;
    let create = |s: &mut S, ms: Vec<MilestoneInput>| {
        s.c.create_bps_milestone_escrow(buyer, seller, arbiter, 1000, token, 100, ms, 0, true).map(|(id, _)| id)
    };
    assert_eq!(create(&mut s, Vec::new()).unwrap_err(), ContractError::AtLeastOneMilestoneRequired);
    assert_eq!(
        create(&mut s, vec![bps_input("a", 0), bps_input("b", 10000)]).unwrap_err(),
        ContractError::ReleaseBpsMustBePositiveEachMilestone
    );
    assert_eq!(
        create(&mut s, vec![bps_input("a", 5000), bps_input("b", 4000)]).unwrap_err(),
        ContractError::MilestoneReleaseBpsMustSumTo10000
    );
    let many: Vec<MilestoneInput> = (0..21).map(|_| bps_input("x", 1)).collect();
    assert_eq!(create(&mut s, many).unwrap_err(), ContractError::TooManyMilestones);
}

// ---------------------------------------------------------------------------
//  Several sellers with collateral, ratings, vetoes, seller transfer
// ---------------------------------------------------------------------------

#[test]
fn seller_collateral_is_deposited_and_returned_on_release() {
    let mut s = setup();
    let (buyer, s1, arbiter) = s.parties(1000);
    let s2 = s.l.gen();
    let token = s.token;
    s.l.mint(token, s1, 500);
    let sellers = vec![(s1, 5000), (s2, 5000)];
    let r = s.c.create_multi_seller_escrow(buyer, sellers.clone(), arbiter, 1000, token, 500, None, 2000, 0, 100, s.now, true);
    let id = s.l.ok(r);
    let e = s.c.get_escrow(id).unwrap();
    assert_eq!(e.status, EscrowStatus::AwaitingCollateral);
    assert_eq!(e.extensions.collateral_amount, 200);
    assert_eq!(s.c.get_escrow_sellers(id).unwrap(), sellers);

    assert_eq!(s.c.deposit_collateral(s2, id, 50).unwrap_err(), ContractError::OnlySellerCanDepositCollateral);
    assert_eq!(s.c.deposit_collateral(s1, id, 101).unwrap_err(), ContractError::CollateralDepositWindowHasExpired);
    let r = s.c.deposit_collateral(s1, id, 50);
    s.l.done(r);
    assert_eq!(s.c.get_escrow(id).unwrap().status, EscrowStatus::Active);
    assert_eq!(s.c.deposit_collateral(s1, id, 60).unwrap_err(), ContractError::EscrowIsNotAwaitingCollateral);
    assert_eq!(s.bal(s1), 300);

    s.release(buyer, id);
    assert_eq!(s.bal(s1), 300 + 500 + 200);
    assert_eq!(s.bal(s2), 500);
    assert_eq!(s.bal(ME), 0);
}

#[test]
fn multi_seller_inputs_are_checked() {
    let mut s = setup();
    let (buyer, s1, arbiter) = s.parties(1000);
    let token = s.token;
    let r = s.c.create_multi_seller_escrow(buyer, Vec::new(), arbiter, 10, token, 500, None, 0, 0, 0, s.now, true);
    assert_eq!(r.unwrap_err(), ContractError::AtLeastOneSellerRequired);
    let r = s.c.create_multi_seller_escrow(buyer, vec![(s1, 10000)], arbiter, 10, token, 500, None, 0, 10_001, 0, s.now, true);
    assert_eq!(r.unwrap_err(), ContractError::CollateralForfeitBpsCannotExceed10000);
}

#[test]
fn ratings_once_per_party_after_release() {
    let mut s = setup();
    let (buyer, seller, arbiter) = s.parties(1000);
    let id = s.escrow(buyer, seller, arbiter, 100, 100);
    assert_eq!(
        s.c.submit_rating(buyer, id, 5, None).unwrap_err(),
        ContractError::RatingOnlyAllowedAfterEscrowIsReleasedOrResolved
    );
    s.release(buyer, id);
    assert_eq!(s.c.submit_rating(buyer, id, 0, None).unwrap_err(), ContractError::RatingMustBeBetween1And5);
    assert_eq!(s.c.submit_rating(arbiter, id, 3, None).unwrap_err(), ContractError::OnlyBuyerOrSellerCanSubmitRating);
    s.c.submit_rating(buyer, id, 4, None).unwrap();
    assert_eq!(s.c.submit_rating(buyer, id, 4, None).unwrap_err(), ContractError::RatingAlreadySubmittedEscrow);
    s.c.submit_rating(seller, id, 5, Some(h(1))).unwrap();

    let id2 = s.escrow(buyer, seller, arbiter, 100, 100);
    s.release(arbiter, id2);
    s.c.submit_rating(buyer, id2, 5, None).unwrap();
    // The seller holds ratings 4 and 5: an average of 4.50.
    assert_eq!(s.c.get_reputation(seller).unwrap(), (450, 2));
    assert_eq!(s.c.get_reputation(buyer).unwrap(), (500, 1));
    assert_eq!(s.c.get_reputation(arbiter).unwrap(), (0, 0));
}

#[test]
fn seller_veto_blocks_release_for_the_cooldown() {
    let mut s = setup();
    let (buyer, seller, arbiter) = s.parties(1000);
    s.c.set_veto_cooldown_seconds(s.admin, 100).unwrap();
    assert_eq!(s.c.get_veto_cooldown_seconds(), 100);
    let id = s.escrow(buyer, seller, arbiter, 100, 10_000);
    assert_eq!(s.c.raise_seller_veto(buyer, id, 10).unwrap_err(), ContractError::OnlyEscrowSellerCanRaiseVeto);
    s.c.raise_seller_veto(seller, id, 10).unwrap();
    assert_eq!(s.c.raise_seller_veto(seller, id, 50).unwrap_err(), ContractError::VetoCooldownActive);
    assert_eq!(s.c.release_escrow(buyer, id, 50, true).unwrap_err(), ContractError::SellerVetoActive);
    // The admin lifts it by restarting the cooldown; it has run out at 160.
    s.c.admin_override_veto(s.admin, id, 60).unwrap();
    assert_eq!(s.c.release_escrow(buyer, id, 159, true).unwrap_err(), ContractError::SellerVetoActive);
    let r = s.c.release_escrow(buyer, id, 160, true);
    s.l.done(r);
    assert_eq!(s.bal(seller), 100);
}

#[test]
fn veto_cancel_and_override_need_a_recorded_veto() {
    let mut s = setup();
    let (buyer, seller, arbiter) = s.parties(1000);
    let id = s.escrow(buyer, seller, arbiter, 100, 10_000);
    assert_eq!(s.c.cancel_seller_veto(seller, id, 0).unwrap_err(), ContractError::NoActiveVetoToCancel);
    assert_eq!(s.c.cancel_seller_veto(buyer, id, 0).unwrap_err(), ContractError::OnlyEscrowSellerCanCancelVeto);
    assert_eq!(s.c.override_veto(s.admin, id, h(1), 0).unwrap_err(), ContractError::NoActiveVetoToOverride);
    let outsider = s.l.gen();
    assert_eq!(s.c.override_veto(outsider, id, h(1), 0).unwrap_err(), ContractError::OnlyAdminCanOverrideSellerVeto);
    assert_eq!(s.c.set_veto_override_window(s.admin, 0).unwrap_err(), ContractError::WindowSecondsMustBePositive);
    assert_eq!(s.c.set_veto_override_window(outsider, 5).unwrap_err(), ContractError::OnlyAdminCanSetVetoOverrideWindow);
}

#[test]
fn seller_role_transfer_approved_vetoed_or_expired() {
    let mut s = setup();
    let (buyer, seller, arbiter) = s.parties(1000);
    let heir = s.l.gen();
    s.c.set_seller_transfer_veto_window(s.admin, 10).unwrap();

    // Approved by the buyer.
    let id = s.escrow(buyer, seller, arbiter, 100, 10_000);
    assert_eq!(s.c.transfer_seller_role(buyer, id, heir, 5).unwrap_err(), ContractError::OnlyCurrentSellerCanInitiateTransfer);
    s.c.transfer_seller_role(seller, id, heir, 5).unwrap();
    assert_eq!(s.c.get_escrow(id).unwrap().status, EscrowStatus::AwaitingBuyerVetoDecision);
    assert_eq!(s.c.approve_seller_transfer(seller, id).unwrap_err(), ContractError::OnlyBuyerCanApprove);
    s.c.approve_seller_transfer(buyer, id).unwrap();
    let e = s.c.get_escrow(id).unwrap();
    assert_eq!(e.seller, heir);
    assert_eq!(e.status, EscrowStatus::Active);

    // Vetoed: the escrow is refunded.
    let id2 = s.escrow(buyer, seller, arbiter, 100, 10_000);
    s.c.transfer_seller_role(seller, id2, heir, 5).unwrap();
    assert_eq!(s.c.veto_seller_transfer(seller, id2).unwrap_err(), ContractError::OnlyBuyerCanVeto);
    let r = s.c.veto_seller_transfer(buyer, id2);
    s.l.done(r);
    assert_eq!(s.c.get_escrow(id2).unwrap().status, EscrowStatus::Refunded);
    assert_eq!(s.bal(buyer), 1000 - 100);

    // Expired: anyone completes it once the window has passed.
    let id3 = s.escrow(buyer, seller, arbiter, 100, 10_000);
    s.c.transfer_seller_role(seller, id3, heir, 5).unwrap();
    assert_eq!(s.c.expire_seller_transfer_veto(id3, 15).unwrap_err(), ContractError::VetoWindowHasNotExpiredYet);
    s.c.finalize_seller_transfer(id3, 16).unwrap();
    assert_eq!(s.c.get_escrow(id3).unwrap().seller, heir);
    assert_eq!(s.c.finalize_seller_transfer(id3, 17).unwrap_err(), ContractError::NoPendingSellerTransfer);
}

// ---------------------------------------------------------------------------
//  Approvals by several parties, collateral health
// ---------------------------------------------------------------------------

#[test]
fn release_after_threshold_of_approvers() {
    let mut s = setup();
    let (buyer, seller, arbiter) = s.parties(1000);
    let a1 = s.l.gen();
    let a2 = s.l.gen();
    let a3 = s.l.gen();
    let id = s.escrow(buyer, seller, arbiter, 300, 10_000);
    assert_eq!(
        s.c.set_multiparty_approval(buyer, id, vec![a1], 1).unwrap_err(),
        ContractError::ApproversCountMustBeBetween2And10
    );
    assert_eq!(
        s.c.set_multiparty_approval(buyer, id, vec![a1, a2, a3], 4).unwrap_err(),
        ContractError::ThresholdMustBeBetween1AndApproversCount
    );
    assert_eq!(
        s.c.set_multiparty_approval(seller, id, vec![a1, a2, a3], 2).unwrap_err(),
        ContractError::OnlyBuyerCanConfigureMultiPartyApproval
    );
    assert_eq!(s.c.approve_release(a1, id).unwrap_err(), ContractError::MultiPartyApprovalNotConfigured);
    s.c.set_multiparty_approval(buyer, id, vec![a1, a2, a3], 2).unwrap();

    assert_eq!(s.c.approve_release(seller, id).unwrap_err(), ContractError::CallerIsNotAuthorizedApproverEscrow);
    assert!(s.c.approve_release(a2, id).unwrap().is_empty());
    assert_eq!(s.c.approve_release(a2, id).unwrap_err(), ContractError::ApproverHasAlreadyApprovedEscrow);
    assert_eq!(
        s.c.set_multiparty_approval(buyer, id, vec![a1, a2], 1).unwrap_err(),
        ContractError::CannotReconfigureApprovalsAlreadyProgress
    );
    assert_eq!(s.c.get_release_approvals(id), vec![a2]);
    let r = s.c.approve_release(a3, id);
    s.l.done(r);
    assert_eq!(s.bal(seller), 300);
    assert_eq!(s.c.get_escrow(id).unwrap().status, EscrowStatus::Released);
}

#[test]
fn collateral_health_flags_and_restores() {
    let mut s = setup();
    let (buyer, seller, arbiter) = s.parties(1000);
    let oracle = s.l.gen();
    let id = s.escrow(buyer, seller, arbiter, 1000, 10_000);
    assert_eq!(s.c.check_collateral_health(id, None).unwrap_err(), ContractError::CollateralHealthNotConfigured);
    assert_eq!(
        s.c.set_collateral_health_config(buyer, id, 0, oracle).unwrap_err(),
        ContractError::MinCollateralRatioBpsOutOfRange
    );
    s.c.set_collateral_health_config(buyer, id, 5000, oracle).unwrap();

    // No collateral at all: ratio 0, flagged.
    assert_eq!(s.c.check_collateral_health(id, None).unwrap(), 0);
    assert_eq!(s.c.get_escrow(id).unwrap().status, EscrowStatus::UnderCollateralized);

    let provider = s.l.gen();
    let token = s.token;
    s.l.mint(token, provider, 600);
    assert_eq!(s.c.top_up_collateral(provider, id, 0).unwrap_err(), ContractError::TopUpAmountMustBePositive);
    let r = s.c.top_up_collateral(provider, id, 600);
    s.l.done(r);
    assert_eq!(s.c.get_escrow(id).unwrap().status, EscrowStatus::Active);
    // At a price of 0.5 (7 decimals) the 600 are worth 300: 3000 bps.
    let half = Some(PriceData { price: 5_000_000, timestamp: 0 });
    assert_eq!(s.c.check_collateral_health(id, half).unwrap(), 3000);
    assert_eq!(s.c.get_escrow(id).unwrap().status, EscrowStatus::UnderCollateralized);
    let double = Some(PriceData { price: 20_000_000, timestamp: 0 });
    assert_eq!(s.c.check_collateral_health(id, double).unwrap(), 12000);
    assert_eq!(s.c.get_escrow(id).unwrap().status, EscrowStatus::Active);
}

// ---------------------------------------------------------------------------
//  Release schedules
// ---------------------------------------------------------------------------

#[test]
fn scheduled_release_claims_every_unlocked_tranche() {
    let mut s = setup();
    let (buyer, seller, arbiter) = s.parties(1000);
    s.now = 100;
    let schedule = vec![
        ReleaseTranche { unlock_at: 200, amount: 100, claimed: false },
        ReleaseTranche { unlock_at: 300, amount: 200, claimed: false },
        ReleaseTranche { unlock_at: 400, amount: 300, claimed: false },
    ];
    let r = s.c.create_escrow_with_schedule(buyer, seller, arbiter, s.token, 1000, schedule, s.now, true);
    let id = s.l.ok(r);
    assert_eq!(s.c.get_escrow(id).unwrap().amount, 600);

    assert_eq!(s.c.claim_scheduled_release(seller, id, 150).unwrap_err(), ContractError::NoTranchesAreCurrentlyClaimable);
    assert_eq!(
        s.c.claim_scheduled_release(buyer, id, 350).unwrap_err(),
        ContractError::OnlyBeneficiarySellerCanClaimScheduledReleases
    );
    let r = s.c.claim_scheduled_release(seller, id, 350);
    s.l.done(r);
    assert_eq!(s.bal(seller), 300);
    assert_eq!(s.c.get_released_index(id), 2);
    assert_eq!(s.c.get_escrow(id).unwrap().status, EscrowStatus::PartiallyReleased);
    assert!(s.c.get_release_schedule(id)[1].claimed);

    let r = s.c.claim_scheduled_release(seller, id, 400);
    s.l.done(r);
    assert_eq!(s.bal(seller), 600);
    assert_eq!(s.c.get_escrow(id).unwrap().status, EscrowStatus::Released);
}

#[test]
fn schedule_inputs_are_checked() {
    let mut s = setup();
    let (buyer, seller, arbiter) = s.parties(1000);
    s.now = 100;
    let token = s.token;
    let r = s.c.create_escrow_with_schedule(buyer, seller, arbiter, token, 1000, Vec::new(), s.now, true);
    assert_eq!(r.unwrap_err(), ContractError::ReleaseScheduleMustContainAtLeastOneTranche);
    let bad = vec![ReleaseTranche { unlock_at: 200, amount: 0, claimed: false }];
    let r = s.c.create_escrow_with_schedule(buyer, seller, arbiter, token, 1000, bad, s.now, true);
    assert_eq!(r.unwrap_err(), ContractError::EachTrancheAmountMustBePositive);
    let past = vec![ReleaseTranche { unlock_at: 100, amount: 5, claimed: false }];
    let r = s.c.create_escrow_with_schedule(buyer, seller, arbiter, token, 1000, past, s.now, true);
    assert_eq!(r.unwrap_err(), ContractError::EachTrancheUnlockAtMustBeFuture);
}

// ---------------------------------------------------------------------------
//  Amendments of the amount
// ---------------------------------------------------------------------------

#[test]
fn amendment_raising_and_lowering_the_amount() {
    let mut s = setup();
    let (buyer, seller, arbiter) = s.parties(1000);
    let id = s.escrow(buyer, seller, arbiter, 500, 10_000);

    let nonce = s.c.propose_amendment(seller, id, Some(800), None, Some(h(4)), s.now).unwrap();
    assert_eq!(s.c.sign_amendment(buyer, id, nonce + 1, s.now).unwrap_err(), ContractError::AmendmentNonceMismatch);
    let r = s.c.sign_amendment(buyer, id, nonce, s.now);
    s.l.done(r);
    let e = s.c.get_escrow(id).unwrap();
    assert_eq!(e.amount, 800);
    assert_eq!(e.metadata_hash, Some(h(4)));
    assert_eq!(s.bal(ME), 800);

    let nonce = s.c.propose_amendment(buyer, id, Some(300), None, None, s.now).unwrap();
    assert_eq!(s.c.apply_amendment(id, nonce, s.now).unwrap_err(), ContractError::AmendmentRequiresBuyerAndSellerSignatures);
    let r = s.c.sign_amendment(seller, id, nonce, s.now);
    s.l.done(r);
    assert_eq!(s.c.get_escrow(id).unwrap().amount, 300);
    assert_eq!(s.bal(buyer), 700);

    let outsider = s.l.gen();
    assert_eq!(
        s.c.propose_amendment(outsider, id, Some(1), None, None, s.now).unwrap_err(),
        ContractError::OnlyBuyerOrSellerCanProposeAmendment
    );
    assert_eq!(s.c.propose_amendment(buyer, id, Some(0), None, None, s.now).unwrap_err(), ContractError::NewAmountMustBePositive);
}

// ---------------------------------------------------------------------------
//  Buyer inactivity, cancellations, resolution flags, dispute timeouts
// ---------------------------------------------------------------------------

#[test]
fn seller_claims_after_buyer_inactivity() {
    let mut s = setup();
    let (buyer, seller, arbiter) = s.parties(1000);
    let r = s.c.create_escrow_with_inactivity(buyer, seller, arbiter, 250, s.token, 10_000, None, Vec::new(), 0, 100, s.now, true);
    let id = s.l.ok(r);
    assert_eq!(
        s.c.claim_inactivity_release(seller, id, 99).unwrap_err(),
        ContractError::BuyerInactivityWindowHasNotElapsed
    );
    assert_eq!(
        s.c.claim_inactivity_release(buyer, id, 100).unwrap_err(),
        ContractError::OnlyEscrowSellerCanClaimInactivityRelease
    );
    let r = s.c.claim_inactivity_release(seller, id, 100);
    s.l.done(r);
    assert_eq!(s.bal(seller), 250);

    let plain = s.escrow(buyer, seller, arbiter, 10, 10_000);
    assert_eq!(
        s.c.claim_inactivity_release(seller, plain, 1_000).unwrap_err(),
        ContractError::InactivityReleaseIsNotEnabledEscrow
    );
}

#[test]
fn cancellation_rejected_or_expired() {
    let mut s = setup();
    let (buyer, seller, arbiter) = s.parties(1000);
    let id = s.escrow(buyer, seller, arbiter, 100, 10_000_000);
    let outsider = s.l.gen();
    assert_eq!(
        s.c.request_cancellation(outsider, id, h(1), 0).unwrap_err(),
        ContractError::OnlyBuyerOrSellerCanRequestCancellation
    );
    s.c.request_cancellation(buyer, id, h(1), 0).unwrap();
    assert_eq!(s.c.get_escrow(id).unwrap().status, EscrowStatus::CancellationPending);
    assert_eq!(
        s.c.accept_cancellation(buyer, id, 0).unwrap_err(),
        ContractError::InitiatorCannotAcceptTheirOwnCancellationRequest
    );
    assert_eq!(
        s.c.reject_cancellation(buyer, id).unwrap_err(),
        ContractError::InitiatorCannotRejectTheirOwnCancellationRequest
    );
    s.c.reject_cancellation(seller, id).unwrap();
    assert_eq!(s.c.get_escrow(id).unwrap().status, EscrowStatus::Active);
    assert_eq!(s.c.reject_cancellation(seller, id).unwrap_err(), ContractError::NoPendingCancellationEscrow);

    s.c.request_cancellation(seller, id, h(2), 0).unwrap();
    assert_eq!(s.c.expire_cancellation(id, 604_800).unwrap_err(), ContractError::ResponseWindowHasNotElapsed);
    s.c.expire_cancellation(id, 604_801).unwrap();
    assert_eq!(s.c.get_escrow(id).unwrap().status, EscrowStatus::Active);
}

#[test]
fn flagged_resolution_waits_for_the_admin() {
    let mut s = setup();
    let (buyer, seller, arbiter) = s.parties(1000);
    s.c.set_resolution_cooloff_secs(s.admin, 100).unwrap();
    let id = s.escrow(buyer, seller, arbiter, 1000, 10_000);
    s.dispute(buyer, id, "x", 1000);
    s.c.resolve_dispute(arbiter, id, 0, 10).unwrap();

    let outsider = s.l.gen();
    assert_eq!(
        s.c.flag_resolution_error(outsider, id, h(1), 20).unwrap_err(),
        ContractError::OnlyBuyerOrSellerCanFlagResolutionError
    );
    s.c.flag_resolution_error(buyer, id, h(1), 20).unwrap();
    assert_eq!(s.c.flag_resolution_error(seller, id, h(2), 30).unwrap_err(), ContractError::ResolutionAlreadyFlagged);
    assert_eq!(
        s.c.finalize_resolution(id, 200).unwrap_err(),
        ContractError::ResolutionIsFlaggedAdminMustReviewBeforeFinalization
    );
    assert_eq!(s.c.clear_resolution_flag(outsider, id).unwrap_err(), ContractError::OnlyAdminCanClearResolutionFlags);
    s.c.clear_resolution_flag(s.admin, id).unwrap();
    assert_eq!(s.c.clear_resolution_flag(s.admin, id).unwrap_err(), ContractError::NoFlagToClear);
    let r = s.c.finalize_resolution(id, 200);
    s.l.done(r);
    assert_eq!(s.bal(seller), 1000);
    assert_eq!(s.c.flag_resolution_error(buyer, id, h(1), 300).unwrap_err(), ContractError::EscrowIsNotCoolingOffState);
}

#[test]
fn dispute_timeout_pays_the_default_winner_and_counts_the_arbiter() {
    let mut s = setup();
    let (buyer, seller, arbiter) = s.parties(1000);
    let id = s.escrow(buyer, seller, arbiter, 400, 10_000_000);
    assert_eq!(s.c.enforce_dispute_timeout(id, 0).unwrap_err(), ContractError::EscrowIsNotDisputed);
    s.dispute(seller, id, "slow", 400);
    assert_eq!(
        s.c.enforce_dispute_timeout(id, 604_799).unwrap_err(),
        ContractError::DisputeTimeoutDeadlineHasNotPassedYet
    );
    let r = s.c.enforce_dispute_timeout(id, 604_800);
    s.l.done(r);
    assert_eq!(s.bal(buyer), 1000);
    assert_eq!(s.c.get_arbiter_timeout_count(arbiter), 1);
    assert_eq!(s.c.enforce_dispute_timeout(id, 604_900).unwrap_err(), ContractError::DisputeAlreadyResolved);

    s.c.set_default_dispute_winner(s.admin, DisputeDefaultWinner::Seller).unwrap();
    assert_eq!(s.c.get_default_dispute_winner(), DisputeDefaultWinner::Seller);
    let id2 = s.escrow(buyer, seller, arbiter, 300, 10_000_000);
    s.dispute(buyer, id2, "slow", 300);
    let r = s.c.enforce_dispute_timeout(id2, 604_800);
    s.l.done(r);
    assert_eq!(s.bal(seller), 300);
    assert_eq!(s.c.get_arbiter_timeout_count(arbiter), 2);
}

#[test]
fn share_delegation_redirects_a_sellers_payout() {
    let mut s = setup();
    let (buyer, s1, arbiter) = s.parties(1000);
    let s2 = s.l.gen();
    let delegate = s.l.gen();
    let r = s.c.create_escrow(buyer, s1, arbiter, 1000, s.token, 100, None, vec![(s1, 5000), (s2, 5000)], false, 0, s.now, true);
    let id = s.l.ok(r);
    assert_eq!(s.c.delegate_escrow_share(s2, id, s2).unwrap_err(), ContractError::DelegateMustBeDifferentFromSeller);
    let outsider = s.l.gen();
    assert_eq!(s.c.delegate_escrow_share(outsider, id, delegate).unwrap_err(), ContractError::SellerNotPartOfEscrow);
    s.c.delegate_escrow_share(s2, id, delegate).unwrap();
    s.release(buyer, id);
    assert_eq!(s.bal(delegate), 500);
    assert_eq!(s.bal(s2), 0);
    assert_eq!(s.bal(s1), 500);
}

#[test]
fn escalated_partial_release_dispute_times_out_to_the_buyer() {
    let mut s = setup();
    let (buyer, seller, arbiter) = s.parties(1000);
    let id = s.escrow(buyer, seller, arbiter, 250, s.now + 1000);
    s.c.request_partial_release(seller, id, 100, h(1), s.now).unwrap();
    s.now += 86_401;
    s.c.escalate_partial_release_dispute(seller, id, s.now).unwrap();
    s.now += 604_801;
    let r = s.c.enforce_dispute_timeout(id, s.now);
    s.l.done(r);
    assert_eq!(s.c.get_escrow(id).unwrap().status, EscrowStatus::Refunded);
    assert_eq!(s.bal(buyer), 1000);
    assert!(s.c.get_dispute(id).unwrap().resolved);
}

#[test]
fn scheduled_release_claims_unlocked_tranches_behind_a_locked_one() {
    let mut s = setup();
    let (buyer, seller, arbiter) = s.parties(1000);
    s.now = 1_000;
    let schedule = vec![
        ReleaseTranche { unlock_at: 2_000, amount: 100, claimed: false },
        ReleaseTranche { unlock_at: 1_100, amount: 200, claimed: false },
    ];
    let r = s.c.create_escrow_with_schedule(buyer, seller, arbiter, s.token, 5_000, schedule, s.now, true);
    let id = s.l.ok(r);
    let r = s.c.claim_scheduled_release(seller, id, 1_500);
    s.l.done(r);
    assert_eq!(s.bal(seller), 200);
    let sched = s.c.get_release_schedule(id);
    assert!(!sched[0].claimed);
    assert!(sched[1].claimed);
    assert_eq!(s.c.get_released_index(id), 0);
    assert_eq!(s.c.get_escrow(id).unwrap().status, EscrowStatus::PartiallyReleased);
    assert_eq!(s.c.claim_scheduled_release(seller, id, 1_600).unwrap_err(), ContractError::NoTranchesAreCurrentlyClaimable);
    let r = s.c.claim_scheduled_release(seller, id, 2_000);
    s.l.done(r);
    assert_eq!(s.bal(seller), 300);
    assert_eq!(s.c.get_released_index(id), 2);
    assert_eq!(s.c.get_escrow(id).unwrap().status, EscrowStatus::Released);
}

#[test]
fn bps_milestones_pay_the_whole_amount_in_any_order() {
    let mut s = setup();
    let (buyer, seller, arbiter) = s.parties(3000);
    let ms = vec![bps_input("a", 5000), bps_input("b", 5000)];
    let r = s.c.create_bps_milestone_escrow(buyer, seller, arbiter, 1000, s.token, 100, ms, s.now, true);
    let id = s.l.ok(r);
    s.c.submit_milestone(seller, id, 0, h(1)).unwrap();
    s.c.submit_milestone(seller, id, 1, h(2)).unwrap();
    let r = s.c.approve_proportional_milestone(buyer, id, 1);
    s.l.done(r);
    assert_eq!(s.bal(seller), 500);
    let r = s.c.approve_proportional_milestone(buyer, id, 0);
    s.l.done(r);
    assert_eq!(s.bal(seller), 1000);
    assert_eq!(s.bal(ME), 0);
    assert_eq!(s.c.get_escrow(id).unwrap().status, EscrowStatus::Released);

    // With rounding: 1001 in thirds, the last approval takes the remainder.
    let ms = vec![bps_input("a", 3333), bps_input("b", 3333), bps_input("c", 3334)];
    let r = s.c.create_bps_milestone_escrow(buyer, seller, arbiter, 1001, s.token, 100, ms, s.now, true);
    let id = s.l.ok(r);
    let mut paid = Vec::new();
    for i in [2u32, 0, 1] {
        s.c.submit_milestone(seller, id, i, h(3)).unwrap();
        let ts = s.c.approve_proportional_milestone(arbiter, id, i).unwrap();
        paid.push(ts[0].amount);
        s.l.apply(&ts);
    }
    assert_eq!(paid, vec![333, 333, 335]);
    assert_eq!(paid.iter().sum::<i128>(), 1001);
}

#[test]
fn scheduled_release_after_out_of_order_claim_releases_at_end_of_index() {
    let mut s = setup();
    let (buyer, seller, arbiter) = s.parties(1000);
    s.now = 1_000;
    let schedule = vec![
        ReleaseTranche { unlock_at: 1_100, amount: 100, claimed: false },
        ReleaseTranche { unlock_at: 1_100, amount: 200, claimed: false },
        ReleaseTranche { unlock_at: 1_100, amount: 300, claimed: false },
    ];
    let r = s.c.create_escrow_with_schedule(buyer, seller, arbiter, s.token, 5_000, schedule, s.now, true);
    let id = s.l.ok(r);
    // Claiming the last tranche alone sets the released index to the claim count.
    let r = s.c.claim_scheduled_tranche(seller, id, 2, 1_200);
    s.l.done(r);
    assert_eq!(s.c.get_released_index(id), 1);
    // The sweep starts at that index: the second tranche is paid, the index
    // reaches the end, and the escrow is released with the first still unclaimed.
    let r = s.c.claim_scheduled_release(seller, id, 1_200);
    s.l.done(r);
    assert_eq!(s.bal(seller), 500);
    assert_eq!(s.c.get_released_index(id), 3);
    assert!(!s.c.get_release_schedule(id)[0].claimed);
    assert_eq!(s.c.get_escrow(id).unwrap().status, EscrowStatus::Released);
}
