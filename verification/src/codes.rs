//! Global error-code namespace registry.
//!
//! Each protocol contract owns a non-overlapping numeric range so that
//! off-chain parsers can decode errors across contracts without
//! per-contract decode tables:
//!
//! | Contract               | Range       |
//! |------------------------|-------------|
//! | ahjoor-rosca           | 1000 – 1299 |
//! | ahjoor-payments        | 2000 – 2299 |
//! | ahjoor-escrow          | 3000 – 3299 |
//! | ahjoor-refund          | 4000 – 4099 |
//! | ahjoor-token-whitelist | 5000 – 5099 |

pub mod escrow;
pub mod payments;
pub mod refund;
pub mod rosca;
pub mod whitelist;

use vstd::prelude::*;

verus! {

/// Compact descriptor for one registered error code.
pub struct ErrorEntry {
    pub code: u32,
    pub name: &'static str,
    pub contract: &'static str,
}

/// The contract that owns the range a code falls in.
pub open spec fn spec_contract_of(code: u32) -> Option<Seq<char>> {
    if 1000 <= code <= 1299 {
        Some("ahjoor-rosca"@)
    } else if 2000 <= code <= 2299 {
        Some("ahjoor-payments"@)
    } else if 3000 <= code <= 3299 {
        Some("ahjoor-escrow"@)
    } else if 4000 <= code <= 4099 {
        Some("ahjoor-refund"@)
    } else if 5000 <= code <= 5099 {
        Some("ahjoor-token-whitelist"@)
    } else {
        None
    }
}

/// The registered name of a code, looked up in the table of the contract that
/// owns the code's range.
pub open spec fn spec_name_of(code: u32) -> Option<Seq<char>> {
    if 1000 <= code <= 1299 {
        rosca::spec_name(code)
    } else if 2000 <= code <= 2299 {
        payments::spec_name(code)
    } else if 3000 <= code <= 3299 {
        escrow::spec_name(code)
    } else if 4000 <= code <= 4099 {
        refund::spec_name(code)
    } else if 5000 <= code <= 5099 {
        whitelist::spec_name(code)
    } else {
        None
    }
}

/// A code that the registry holds an entry for.
pub open spec fn is_registered(code: u32) -> bool {
    spec_name_of(code) is Some
}

/// The entry `e` is the registry's entry for its own code.
pub open spec fn is_entry_for(e: ErrorEntry, code: u32) -> bool {
    &&& e.code == code
    &&& is_registered(code)
    &&& e.name@ == spec_name_of(code)->0
    &&& e.contract@ == spec_contract_of(code)->0
}

/// The numeric range that a contract tag declares for itself.
pub open spec fn declared_range(contract: Seq<char>) -> Option<(int, int)> {
    if contract == "ahjoor-rosca"@ {
        Some((1000, 1299))
    } else if contract == "ahjoor-payments"@ {
        Some((2000, 2299))
    } else if contract == "ahjoor-escrow"@ {
        Some((3000, 3299))
    } else if contract == "ahjoor-refund"@ {
        Some((4000, 4099))
    } else if contract == "ahjoor-token-whitelist"@ {
        Some((5000, 5099))
    } else {
        None
    }
}

/// Looks up the entry registered for `code`.
pub fn error_name_from_code(code: u32) -> (r: Option<ErrorEntry>)
    ensures
        r is Some <==> is_registered(code),
        r matches Some(e) ==> is_entry_for(e, code),
{
    if 1000 <= code && code <= 1299 {
        match rosca::name(code) {
            Some(n) => Some(ErrorEntry { code, name: n, contract: "ahjoor-rosca" }),
            None => None,
        }
    } else if 2000 <= code && code <= 2299 {
        match payments::name(code) {
            Some(n) => Some(ErrorEntry { code, name: n, contract: "ahjoor-payments" }),
            None => None,
        }
    } else if 3000 <= code && code <= 3299 {
        match escrow::name(code) {
            Some(n) => Some(ErrorEntry { code, name: n, contract: "ahjoor-escrow" }),
            None => None,
        }
    } else if 4000 <= code && code <= 4099 {
        match refund::name(code) {
            Some(n) => Some(ErrorEntry { code, name: n, contract: "ahjoor-refund" }),
            None => None,
        }
    } else if 5000 <= code && code <= 5099 {
        match whitelist::name(code) {
            Some(n) => Some(ErrorEntry { code, name: n, contract: "ahjoor-token-whitelist" }),
            None => None,
        }
    } else {
        None
    }
}

/// Every entry of the registry, in ascending order of code.
pub fn all_errors() -> (r: Vec<ErrorEntry>)
    ensures
        forall|i: int| 0 <= i < r@.len() ==> is_entry_for(#[trigger] r@[i], r@[i].code),
        forall|i: int, j: int| 0 <= i < j < r@.len() ==> r@[i].code < r@[j].code,
        forall|c: u32| is_registered(c) ==> exists|i: int| 0 <= i < r@.len() && #[trigger] r@[i].code == c,
{
    let mut r: Vec<ErrorEntry> = Vec::new();
    let mut code: u32 = 1000;
    while code <= 5099
        invariant
            1000 <= code <= 5100,
            forall|i: int| 0 <= i < r@.len() ==> is_entry_for(#[trigger] r@[i], r@[i].code),
            forall|i: int| 0 <= i < r@.len() ==> #[trigger] r@[i].code < code,
            forall|i: int, j: int| 0 <= i < j < r@.len() ==> r@[i].code < r@[j].code,
            forall|c: u32|
                1000 <= c < code && is_registered(c) ==> exists|i: int|
                    0 <= i < r@.len() && #[trigger] r@[i].code == c,
        decreases 5100 - code,
    {
        let ghost old_r = r@;
        match error_name_from_code(code) {
            Some(e) => {
                r.push(e);
                assert forall|c: u32|
                    1000 <= c < code + 1 && is_registered(c) implies exists|i: int|
                        0 <= i < r@.len() && #[trigger] r@[i].code == c by {
                    if c < code {
                        let i = choose|i: int| 0 <= i < old_r.len() && #[trigger] old_r[i].code == c;
                        assert(r@[i].code == c);
                    } else {
                        assert(r@[r@.len() - 1].code == c);
                    }
                }
            },
            None => {},
        }
        code = code + 1;
    }
    r
}

/// Every registered code lies inside the range that its contract tag declares.
pub proof fn lemma_codes_within_contract_ranges(code: u32)
    requires
        is_registered(code),
    ensures
        declared_range(spec_contract_of(code)->0) matches Some((lo, hi)) && lo <= code <= hi,
{
    reveal_strlit("ahjoor-rosca");
    reveal_strlit("ahjoor-payments");
    reveal_strlit("ahjoor-escrow");
    reveal_strlit("ahjoor-refund");
    reveal_strlit("ahjoor-token-whitelist");
    let r = "ahjoor-rosca"@;
    let p = "ahjoor-payments"@;
    let e = "ahjoor-escrow"@;
    let f = "ahjoor-refund"@;
    let w = "ahjoor-token-whitelist"@;
    assert(p.len() != r.len());
    assert(e.len() != r.len() && e.len() != p.len());
    assert(f.len() != r.len() && f.len() != p.len() && e[7] != f[7]);
    assert(w.len() != r.len() && w.len() != p.len() && w.len() != e.len() && w.len() != f.len());
}


/// How many of the `n` codes from `lo` on the registry holds an entry for.
pub open spec fn registered_count(lo: int, n: nat) -> nat
    decreases n,
{
    if n == 0 {
        0
    } else {
        registered_count(lo, (n - 1) as nat) + if is_registered((lo + n - 1) as u32) {
            1nat
        } else {
            0nat
        }
    }
}

proof fn lemma_registered_count_split(lo: int, a: nat, b: nat)
    ensures
        registered_count(lo, a + b) == registered_count(lo, a) + registered_count(lo + a, b),
    decreases b,
{
    if b > 0 {
        lemma_registered_count_split(lo, a, (b - 1) as nat);
        assert((a + b - 1) as nat == a + (b - 1));
    }
}
proof fn lemma_rosca_blocks()
    ensures
        registered_count(1000, 10) == 9,
        registered_count(1010, 10) == 10,
        registered_count(1020, 10) == 10,
        registered_count(1030, 10) == 10,
        registered_count(1040, 10) == 10,
        registered_count(1050, 10) == 10,
        registered_count(1060, 10) == 10,
        registered_count(1070, 10) == 10,
        registered_count(1080, 10) == 10,
        registered_count(1090, 10) == 3,
        registered_count(1100, 10) == 9,
        registered_count(1110, 10) == 9,
        registered_count(1120, 10) == 0,
        registered_count(1130, 10) == 0,
        registered_count(1140, 10) == 0,
        registered_count(1150, 10) == 0,
        registered_count(1160, 10) == 0,
        registered_count(1170, 10) == 0,
        registered_count(1180, 10) == 0,
        registered_count(1190, 10) == 0,
        registered_count(1200, 10) == 0,
        registered_count(1210, 10) == 0,
        registered_count(1220, 10) == 0,
        registered_count(1230, 10) == 0,
        registered_count(1240, 10) == 0,
        registered_count(1250, 10) == 0,
        registered_count(1260, 10) == 0,
        registered_count(1270, 10) == 0,
        registered_count(1280, 10) == 0,
        registered_count(1290, 10) == 0,
{
    reveal_with_fuel(registered_count, 11);
}

proof fn lemma_rosca_count()
    ensures
        registered_count(1000, 300) == rosca::COUNT,
{
    lemma_rosca_blocks();
    lemma_registered_count_split(1000, 10, 10);
    lemma_registered_count_split(1000, 20, 10);
    lemma_registered_count_split(1000, 30, 10);
    lemma_registered_count_split(1000, 40, 10);
    lemma_registered_count_split(1000, 50, 10);
    lemma_registered_count_split(1000, 60, 10);
    lemma_registered_count_split(1000, 70, 10);
    lemma_registered_count_split(1000, 80, 10);
    lemma_registered_count_split(1000, 90, 10);
    lemma_registered_count_split(1000, 100, 10);
    lemma_registered_count_split(1000, 110, 10);
    lemma_registered_count_split(1000, 120, 10);
    lemma_registered_count_split(1000, 130, 10);
    lemma_registered_count_split(1000, 140, 10);
    lemma_registered_count_split(1000, 150, 10);
    lemma_registered_count_split(1000, 160, 10);
    lemma_registered_count_split(1000, 170, 10);
    lemma_registered_count_split(1000, 180, 10);
    lemma_registered_count_split(1000, 190, 10);
    lemma_registered_count_split(1000, 200, 10);
    lemma_registered_count_split(1000, 210, 10);
    lemma_registered_count_split(1000, 220, 10);
    lemma_registered_count_split(1000, 230, 10);
    lemma_registered_count_split(1000, 240, 10);
    lemma_registered_count_split(1000, 250, 10);
    lemma_registered_count_split(1000, 260, 10);
    lemma_registered_count_split(1000, 270, 10);
    lemma_registered_count_split(1000, 280, 10);
    lemma_registered_count_split(1000, 290, 10);
}

proof fn lemma_payments_blocks()
    ensures
        registered_count(2000, 10) == 9,
        registered_count(2010, 10) == 10,
        registered_count(2020, 10) == 10,
        registered_count(2030, 10) == 10,
        registered_count(2040, 10) == 1,
        registered_count(2050, 10) == 7,
        registered_count(2060, 10) == 0,
        registered_count(2070, 10) == 0,
        registered_count(2080, 10) == 0,
        registered_count(2090, 10) == 0,
        registered_count(2100, 10) == 0,
        registered_count(2110, 10) == 0,
        registered_count(2120, 10) == 0,
        registered_count(2130, 10) == 0,
        registered_count(2140, 10) == 0,
        registered_count(2150, 10) == 0,
        registered_count(2160, 10) == 0,
        registered_count(2170, 10) == 0,
        registered_count(2180, 10) == 0,
        registered_count(2190, 10) == 0,
        registered_count(2200, 10) == 0,
        registered_count(2210, 10) == 0,
        registered_count(2220, 10) == 0,
        registered_count(2230, 10) == 0,
        registered_count(2240, 10) == 0,
        registered_count(2250, 10) == 0,
        registered_count(2260, 10) == 0,
        registered_count(2270, 10) == 0,
        registered_count(2280, 10) == 0,
        registered_count(2290, 10) == 0,
{
    reveal_with_fuel(registered_count, 11);
}

proof fn lemma_payments_count()
    ensures
        registered_count(2000, 300) == payments::COUNT,
{
    lemma_payments_blocks();
    lemma_registered_count_split(2000, 10, 10);
    lemma_registered_count_split(2000, 20, 10);
    lemma_registered_count_split(2000, 30, 10);
    lemma_registered_count_split(2000, 40, 10);
    lemma_registered_count_split(2000, 50, 10);
    lemma_registered_count_split(2000, 60, 10);
    lemma_registered_count_split(2000, 70, 10);
    lemma_registered_count_split(2000, 80, 10);
    lemma_registered_count_split(2000, 90, 10);
    lemma_registered_count_split(2000, 100, 10);
    lemma_registered_count_split(2000, 110, 10);
    lemma_registered_count_split(2000, 120, 10);
    lemma_registered_count_split(2000, 130, 10);
    lemma_registered_count_split(2000, 140, 10);
    lemma_registered_count_split(2000, 150, 10);
    lemma_registered_count_split(2000, 160, 10);
    lemma_registered_count_split(2000, 170, 10);
    lemma_registered_count_split(2000, 180, 10);
    lemma_registered_count_split(2000, 190, 10);
    lemma_registered_count_split(2000, 200, 10);
    lemma_registered_count_split(2000, 210, 10);
    lemma_registered_count_split(2000, 220, 10);
    lemma_registered_count_split(2000, 230, 10);
    lemma_registered_count_split(2000, 240, 10);
    lemma_registered_count_split(2000, 250, 10);
    lemma_registered_count_split(2000, 260, 10);
    lemma_registered_count_split(2000, 270, 10);
    lemma_registered_count_split(2000, 280, 10);
    lemma_registered_count_split(2000, 290, 10);
}

proof fn lemma_escrow_blocks()
    ensures
        registered_count(3000, 10) == 9,
        registered_count(3010, 10) == 10,
        registered_count(3020, 10) == 10,
        registered_count(3030, 10) == 10,
        registered_count(3040, 10) == 10,
        registered_count(3050, 10) == 10,
        registered_count(3060, 10) == 10,
        registered_count(3070, 10) == 10,
        registered_count(3080, 10) == 10,
        registered_count(3090, 10) == 10,
        registered_count(3100, 10) == 10,
        registered_count(3110, 10) == 10,
        registered_count(3120, 10) == 10,
        registered_count(3130, 10) == 10,
        registered_count(3140, 10) == 10,
        registered_count(3150, 10) == 10,
        registered_count(3160, 10) == 10,
        registered_count(3170, 10) == 10,
        registered_count(3180, 10) == 10,
        registered_count(3190, 10) == 10,
        registered_count(3200, 10) == 10,
        registered_count(3210, 10) == 10,
        registered_count(3220, 10) == 10,
        registered_count(3230, 10) == 10,
        registered_count(3240, 10) == 10,
        registered_count(3250, 10) == 0,
        registered_count(3260, 10) == 0,
        registered_count(3270, 10) == 0,
        registered_count(3280, 10) == 0,
        registered_count(3290, 10) == 0,
{
    reveal_with_fuel(registered_count, 11);
}

proof fn lemma_escrow_count()
    ensures
        registered_count(3000, 300) == escrow::COUNT,
{
    lemma_escrow_blocks();
    lemma_registered_count_split(3000, 10, 10);
    lemma_registered_count_split(3000, 20, 10);
    lemma_registered_count_split(3000, 30, 10);
    lemma_registered_count_split(3000, 40, 10);
    lemma_registered_count_split(3000, 50, 10);
    lemma_registered_count_split(3000, 60, 10);
    lemma_registered_count_split(3000, 70, 10);
    lemma_registered_count_split(3000, 80, 10);
    lemma_registered_count_split(3000, 90, 10);
    lemma_registered_count_split(3000, 100, 10);
    lemma_registered_count_split(3000, 110, 10);
    lemma_registered_count_split(3000, 120, 10);
    lemma_registered_count_split(3000, 130, 10);
    lemma_registered_count_split(3000, 140, 10);
    lemma_registered_count_split(3000, 150, 10);
    lemma_registered_count_split(3000, 160, 10);
    lemma_registered_count_split(3000, 170, 10);
    lemma_registered_count_split(3000, 180, 10);
    lemma_registered_count_split(3000, 190, 10);
    lemma_registered_count_split(3000, 200, 10);
    lemma_registered_count_split(3000, 210, 10);
    lemma_registered_count_split(3000, 220, 10);
    lemma_registered_count_split(3000, 230, 10);
    lemma_registered_count_split(3000, 240, 10);
    lemma_registered_count_split(3000, 250, 10);
    lemma_registered_count_split(3000, 260, 10);
    lemma_registered_count_split(3000, 270, 10);
    lemma_registered_count_split(3000, 280, 10);
    lemma_registered_count_split(3000, 290, 10);
}

proof fn lemma_refund_blocks()
    ensures
        registered_count(4000, 10) == 8,
        registered_count(4010, 10) == 0,
        registered_count(4020, 10) == 0,
        registered_count(4030, 10) == 0,
        registered_count(4040, 10) == 0,
        registered_count(4050, 10) == 0,
        registered_count(4060, 10) == 0,
        registered_count(4070, 10) == 0,
        registered_count(4080, 10) == 0,
        registered_count(4090, 10) == 0,
{
    reveal_with_fuel(registered_count, 11);
}

proof fn lemma_refund_count()
    ensures
        registered_count(4000, 100) == refund::COUNT,
{
    lemma_refund_blocks();
    lemma_registered_count_split(4000, 10, 10);
    lemma_registered_count_split(4000, 20, 10);
    lemma_registered_count_split(4000, 30, 10);
    lemma_registered_count_split(4000, 40, 10);
    lemma_registered_count_split(4000, 50, 10);
    lemma_registered_count_split(4000, 60, 10);
    lemma_registered_count_split(4000, 70, 10);
    lemma_registered_count_split(4000, 80, 10);
    lemma_registered_count_split(4000, 90, 10);
}

proof fn lemma_whitelist_blocks()
    ensures
        registered_count(5000, 10) == 9,
        registered_count(5010, 10) == 0,
        registered_count(5020, 10) == 0,
        registered_count(5030, 10) == 0,
        registered_count(5040, 10) == 0,
        registered_count(5050, 10) == 0,
        registered_count(5060, 10) == 0,
        registered_count(5070, 10) == 0,
        registered_count(5080, 10) == 0,
        registered_count(5090, 10) == 0,
{
    reveal_with_fuel(registered_count, 11);
}

proof fn lemma_whitelist_count()
    ensures
        registered_count(5000, 100) == whitelist::COUNT,
{
    lemma_whitelist_blocks();
    lemma_registered_count_split(5000, 10, 10);
    lemma_registered_count_split(5000, 20, 10);
    lemma_registered_count_split(5000, 30, 10);
    lemma_registered_count_split(5000, 40, 10);
    lemma_registered_count_split(5000, 50, 10);
    lemma_registered_count_split(5000, 60, 10);
    lemma_registered_count_split(5000, 70, 10);
    lemma_registered_count_split(5000, 80, 10);
    lemma_registered_count_split(5000, 90, 10);
}

/// Each error module's constants are registered codes.
pub open spec fn module_constants_registered() -> bool {
    &&& is_registered(rosca::ALREADY_INITIALIZED)
    &&& is_registered(rosca::TOKEN_NOT_APPROVED)
    &&& is_registered(rosca::CUSTOM_ORDER_LENGTH_MISMATCH)
    &&& is_registered(rosca::CUSTOM_ORDER_NON_MEMBER)
    &&& is_registered(rosca::AMOUNT_MUST_BE_POSITIVE)
    &&& is_registered(rosca::ROUND_DEADLINE_PASSED)
    &&& is_registered(rosca::MEMBER_HAS_EXITED)
    &&& is_registered(rosca::NOT_A_MEMBER)
    &&& is_registered(rosca::ALREADY_CONTRIBUTED)
    &&& is_registered(rosca::INVALID_EXCHANGE_RATE)
    &&& is_registered(rosca::EXCEEDS_TOKEN_LIMIT)
    &&& is_registered(rosca::EXCEEDS_REMAINING_CONTRIBUTION)
    &&& is_registered(rosca::DEADLINE_NOT_PASSED)
    &&& is_registered(rosca::PENALTY_DISABLED)
    &&& is_registered(rosca::NOT_A_DEFAULTER)
    &&& is_registered(rosca::CANNOT_CHANGE_MID_ROUND)
    &&& is_registered(rosca::ALREADY_A_MEMBER)
    &&& is_registered(rosca::NO_REWARDS_TO_CLAIM)
    &&& is_registered(rosca::ONLY_MEMBERS_ALLOWED)
    &&& is_registered(rosca::PROPOSAL_NOT_FOUND)
    &&& is_registered(rosca::VOTING_DEADLINE_PASSED)
    &&& is_registered(rosca::PROPOSAL_NOT_PENDING)
    &&& is_registered(rosca::ALREADY_VOTED)
    &&& is_registered(rosca::VOTING_NOT_ENDED)
    &&& is_registered(rosca::CONTRACT_PAUSED)
    &&& is_registered(rosca::ALL_MEMBERS_SUSPENDED)
    &&& is_registered(rosca::ALREADY_PAUSED)
    &&& is_registered(rosca::NOT_PAUSED)
    &&& is_registered(rosca::MEMBER_ALREADY_EXITED)
    &&& is_registered(rosca::EXIT_REQUEST_PENDING)
    &&& is_registered(rosca::NO_EXIT_REQUEST_FOUND)
    &&& is_registered(rosca::EXIT_NOT_ALLOWED_MID_ROUND)
    &&& is_registered(rosca::CONTRIBUTION_WINDOW_CLOSED)
    &&& is_registered(rosca::FEE_EXCEEDS_MAXIMUM)
    &&& is_registered(rosca::INVALID_MAX_DEFAULTS)
    &&& is_registered(rosca::GROUP_FULL)
    &&& is_registered(rosca::INVALID_MAX_MEMBERS)
    &&& is_registered(rosca::DELEGATION_ALREADY_EXISTS)
    &&& is_registered(rosca::NO_DELEGATION_FOUND)
    &&& is_registered(rosca::CANNOT_VOTE_WITH_ACTIVE_DELEGATION)
    &&& is_registered(rosca::CANNOT_SUB_DELEGATE)
    &&& is_registered(rosca::INVITE_NOT_FOUND)
    &&& is_registered(rosca::INVITE_ALREADY_REDEEMED)
    &&& is_registered(rosca::INVITE_WRONG_RECIPIENT)
    &&& is_registered(rosca::ADMIN_ACTION_NOT_FOUND)
    &&& is_registered(rosca::ADMIN_ACTION_ALREADY_EXECUTED)
    &&& is_registered(rosca::ADMIN_ACTION_EXPIRED)
    &&& is_registered(rosca::ADMIN_ALREADY_APPROVED)
    &&& is_registered(rosca::INSUFFICIENT_APPROVALS)
    &&& is_registered(rosca::NOT_A_CO_ADMIN)
    &&& is_registered(rosca::INVALID_TIER)
    &&& is_registered(rosca::INSURANCE_POOL_NEGATIVE)
    &&& is_registered(rosca::INVALID_INSURANCE_CONTRIBUTION)
    &&& is_registered(rosca::SKIP_LIMIT_REACHED)
    &&& is_registered(rosca::ALREADY_SKIPPED)
    &&& is_registered(rosca::INSUFFICIENT_WEIGHT)
    &&& is_registered(rosca::EMERGENCY_PAYOUT_REQUESTED)
    &&& is_registered(rosca::EMERGENCY_PAYOUT_QUORUM_NOT_MET)
    &&& is_registered(rosca::EMERGENCY_PAYOUT_VOTE_EXPIRED)
    &&& is_registered(rosca::EMERGENCY_PAYOUT_ALREADY_EXECUTED)
    &&& is_registered(rosca::EMERGENCY_PAYOUT_LIMIT_REACHED)
    &&& is_registered(rosca::GROUP_ALREADY_DISSOLVED)
    &&& is_registered(rosca::DISSOLUTION_VOTE_IN_PROGRESS)
    &&& is_registered(rosca::DISSOLUTION_QUORUM_NOT_MET)
    &&& is_registered(rosca::DISSOLUTION_VOTE_EXPIRED)
    &&& is_registered(rosca::NO_FUNDS_TO_DISTRIBUTE)
    &&& is_registered(rosca::INVALID_EMERGENCY_CONFIG)
    &&& is_registered(rosca::INVALID_DISSOLUTION_CONFIG)
    &&& is_registered(rosca::GROUP_NOT_YET_ACTIVE)
    &&& is_registered(rosca::ONLY_ADMIN_ALLOWED)
    &&& is_registered(rosca::INVALID_AMOUNT)
    &&& is_registered(rosca::CO_SIGNER_ALREADY_SET)
    &&& is_registered(rosca::NO_CO_SIGNER_FOUND)
    &&& is_registered(rosca::CO_SIGNER_NOT_ACCEPTED)
    &&& is_registered(rosca::NOT_THE_CO_SIGNER)
    &&& is_registered(rosca::CO_SIGNER_WINDOW_NOT_OPEN)
    &&& is_registered(rosca::CO_SIGNER_WINDOW_EXPIRED)
    &&& is_registered(rosca::GROUP_FROZEN)
    &&& is_registered(rosca::GROUP_NOT_FROZEN)
    &&& is_registered(rosca::SNAPSHOT_TOO_SOON)
    &&& is_registered(rosca::TIER_NOT_FOUND)
    &&& is_registered(rosca::INVALID_TIER_DEFINITION)
    &&& is_registered(rosca::INSUFFICIENT_CREDIT_SCORE)
    &&& is_registered(rosca::ROUND_DURATION_OUT_OF_BOUNDS)
    &&& is_registered(rosca::DELEGATION_EXPIRED)
    &&& is_registered(rosca::NOT_CONTRIB_DELEGATE)
    &&& is_registered(rosca::SPLIT_PROPOSAL_NOT_FOUND)
    &&& is_registered(rosca::SPLIT_MEMBERS_INVALID)
    &&& is_registered(rosca::SPLIT_CONFIRMATION_WINDOW_CLOSED)
    &&& is_registered(rosca::SOURCE_GROUP_ALREADY_SPLIT)
    &&& is_registered(rosca::SPLIT_ALREADY_CONFIRMED)
    &&& is_registered(rosca::SPLIT_NOT_FULLY_CONFIRMED)
    &&& is_registered(rosca::AUCTION_NOT_ENABLED)
    &&& is_registered(rosca::AUCTION_NOT_OPEN)
    &&& is_registered(rosca::AUCTION_WINDOW_CLOSED)
    &&& is_registered(rosca::INCORRECT_CONTRIBUTION_AMOUNT)
    &&& is_registered(rosca::INVALID_SLOT_INDEX)
    &&& is_registered(rosca::MIGRATION_ALREADY_EXECUTED)
    &&& is_registered(rosca::MIGRATION_ALREADY_PENDING)
    &&& is_registered(rosca::MIGRATION_NOT_APPROVED)
    &&& is_registered(rosca::MIGRATION_NOT_FOUND)
    &&& is_registered(rosca::NO_BID_FOUND)
    &&& is_registered(rosca::SLOT_OCCUPIED)
    &&& is_registered(rosca::TOKEN_MISMATCH)
    &&& is_registered(rosca::OUTSTANDING_LOAN_EXISTS)
    &&& is_registered(rosca::NO_COPAYERS_REGISTERED)
    &&& is_registered(rosca::COPAYER_AMOUNTS_MISMATCH)
    &&& is_registered(rosca::RECEIPT_NOT_FOUND)
    &&& is_registered(rosca::COPAYER_SPLITS_ALREADY_SET)
    &&& is_registered(rosca::PROXY_ROUNDS_EXHAUSTED)
    &&& is_registered(payments::RATE_LIMIT_EXCEEDED)
    &&& is_registered(payments::SUBSCRIPTION_PAUSED)
    &&& is_registered(payments::ORACLE_CONDITION_NOT_MET)
    &&& is_registered(payments::SUBSCRIPTION_IN_TRIAL)
    &&& is_registered(payments::TOKEN_NOT_ALLOWED)
    &&& is_registered(payments::DUPLICATE_EXTERNAL_ID)
    &&& is_registered(payments::MULTISIG_NOT_REQUIRED)
    &&& is_registered(payments::ALREADY_APPROVED)
    &&& is_registered(payments::NOT_A_SIGNER)
    &&& is_registered(payments::VOUCHER_EXPIRED)
    &&& is_registered(payments::VOUCHER_EXHAUSTED)
    &&& is_registered(payments::VOUCHER_REVOKED)
    &&& is_registered(payments::VOUCHER_NOT_FOUND)
    &&& is_registered(payments::WITHDRAWAL_RATE_LIMIT_EXCEEDED)
    &&& is_registered(payments::REFERRAL_ALREADY_EXISTS)
    &&& is_registered(payments::NO_COMMISSION_TO_CLAIM)
    &&& is_registered(payments::DYNAMIC_PAYMENT_EXPIRED)
    &&& is_registered(payments::TIPPING_NOT_ENABLED)
    &&& is_registered(payments::TIP_EXCEEDS_MAX_BPS)
    &&& is_registered(payments::MERCHANT_VOLUME_CAPPED)
    &&& is_registered(payments::SLIPPAGE_EXCEEDED)
    &&& is_registered(payments::ORACLE_NOT_WHITELISTED)
    &&& is_registered(payments::CUSTOMER_SPEND_LIMIT_EXCEEDED)
    &&& is_registered(payments::CAPTURE_PAST_DEADLINE)
    &&& is_registered(payments::EVIDENCE_WINDOW_CLOSED)
    &&& is_registered(payments::EVIDENCE_LIMIT_REACHED)
    &&& is_registered(payments::COOLING_OFF_EXPIRED)
    &&& is_registered(payments::NOT_IN_COOLING_OFF)
    &&& is_registered(payments::COOLING_OFF_EXCEEDS_MAX)
    &&& is_registered(payments::PAUSE_COUNT_EXCEEDED)
    &&& is_registered(payments::UNAUTHORIZED_PAUSE)
    &&& is_registered(payments::INSUFFICIENT_MERCHANT_RESERVE)
    &&& is_registered(payments::KYB_VERIFICATION_REQUIRED)
    &&& is_registered(payments::RETRY_NOT_DUE)
    &&& is_registered(payments::DEBIT_RECORD_NOT_FOUND)
    &&& is_registered(payments::DEBIT_ALREADY_ABANDONED)
    &&& is_registered(payments::DEBIT_ALREADY_SUCCEEDED)
    &&& is_registered(payments::INVALID_PAYMENT_STATUS)
    &&& is_registered(payments::MAX_EXTENSIONS_REACHED)
    &&& is_registered(payments::MAX_EXTENSION_LEDGERS_EXCEEDED)
    &&& is_registered(payments::CUSTOMER_BLOCKED)
    &&& is_registered(payments::DAO_NOT_CONFIGURED)
    &&& is_registered(payments::NOT_A_DAO_MEMBER)
    &&& is_registered(payments::DAO_ALREADY_ESCALATED)
    &&& is_registered(payments::DAO_VOTE_WINDOW_OPEN)
    &&& is_registered(payments::DAO_VOTE_WINDOW_CLOSED)
    &&& is_registered(payments::DAO_ALREADY_VOTED)
    &&& is_registered(escrow::INVALID_DEADLINE)
    &&& is_registered(escrow::INVALID_TRANCHE_INDEX)
    &&& is_registered(escrow::TRANCHE_ALREADY_CLAIMED)
    &&& is_registered(escrow::ALREADY_INITIALIZED)
    &&& is_registered(escrow::AT_LEAST_ONE_BUYER_IS_REQUIRED)
    &&& is_registered(escrow::DEADLINE_MUST_BE_FUTURE)
    &&& is_registered(escrow::BUYER_CONTRIBUTION_MUST_BE_POSITIVE)
    &&& is_registered(escrow::DUPLICATE_BUYER_IN_LIST)
    &&& is_registered(escrow::BATCH_MUST_CONTAIN_AT_LEAST_ONE_ESCROW_CONFIG)
    &&& is_registered(escrow::BATCH_SIZE_EXCEEDS_MAXIMUM_10_ESCROWS)
    &&& is_registered(escrow::ONLY_SELLER_CAN_MARK_COMPLETE)
    &&& is_registered(escrow::ESCROW_IS_NOT_ACTIVE)
    &&& is_registered(escrow::NO_INSPECTOR_SET_USE_RELEASE_ESCROW_DIRECTLY)
    &&& is_registered(escrow::ESCROW_IS_NOT_AWAITING_INSPECTION)
    &&& is_registered(escrow::ONLY_ASSIGNED_INSPECTOR_CAN_SUBMIT_REPORT)
    &&& is_registered(escrow::ONLY_BUYER_OR_SELLER_CAN_PROPOSE_INSPECTOR_REPLACEMENT)
    &&& is_registered(escrow::NO_INSPECTOR_SET_ESCROW)
    &&& is_registered(escrow::ONLY_ADMIN_CAN_SET_INSPECTOR_SCORE_THRESHOLD)
    &&& is_registered(escrow::MIN_SCORE_BPS_EXCEEDS_MAXIMUM)
    &&& is_registered(escrow::ONLY_ADMIN_CAN_APPEAL_INSPECTOR_RULING)
    &&& is_registered(escrow::INSPECTOR_RULING_ALREADY_APPEALED_ESCROW)
    &&& is_registered(escrow::INSPECTOR_SCORE_BELOW_MINIMUM_THRESHOLD_HIGH_VALUE_ESCROW)
    &&& is_registered(escrow::ESCROW_AMOUNT_MUST_BE_POSITIVE)
    &&& is_registered(escrow::DEADLINE_MUST_BE_AFTER_MIN_LOCK_UNTIL)
    &&& is_registered(escrow::ARBITER_FEE_EXCEEDS_MAXIMUM_1000_BPS)
    &&& is_registered(escrow::INCOMPLETE_RELEASE_CONDITION)
    &&& is_registered(escrow::RELEASE_CONDITION_THRESHOLD_MUST_BE_POSITIVE)
    &&& is_registered(escrow::INVALID_RELEASE_COMPARISON)
    &&& is_registered(escrow::MAXIMUM_5_SELLERS_ALLOWED)
    &&& is_registered(escrow::SELLER_ALLOCATIONS_MUST_SUM_TO_10000_BPS)
    &&& is_registered(escrow::DISPUTE_TIMEOUT_SECONDS_MUST_BE_POSITIVE)
    &&& is_registered(escrow::ONLY_CURRENT_HOLDER_CAN_TRANSFER_RECEIPT)
    &&& is_registered(escrow::ACTIVE_MILESTONE_IN_PROGRESS)
    &&& is_registered(escrow::INSPECTION_PENDING)
    &&& is_registered(escrow::ONLY_LISTED_BUYER_CAN_APPROVE_MULTI_BUYER_RELEASE)
    &&& is_registered(escrow::BUYER_HAS_ALREADY_APPROVED_RELEASE)
    &&& is_registered(escrow::ONLY_BUYER_OR_ARBITER_CAN_RELEASE_ESCROW)
    &&& is_registered(escrow::SELLER_VETO_ACTIVE)
    &&& is_registered(escrow::SELLER_VETO_ACTIVE_2)
    &&& is_registered(escrow::CONDITION_NOT_MET)
    &&& is_registered(escrow::ONLY_BUYER_OR_SELLER_CAN_WAIVE_CONDITION)
    &&& is_registered(escrow::NO_CONDITIONAL_RELEASE_SET_ESCROW)
    &&& is_registered(escrow::ONLY_BUYER_OR_SELLER_CAN_SUBMIT_EVIDENCE)
    &&& is_registered(escrow::MAXIMUM_EVIDENCE_ENTRIES_REACHED_PARTY)
    &&& is_registered(escrow::ONLY_BUYER_CAN_SET_RENEWAL_ALLOWANCE)
    &&& is_registered(escrow::AUTO_RENEW_IS_NOT_ENABLED_ESCROW)
    &&& is_registered(escrow::ONLY_BUYER_CAN_CANCEL_AUTO_RENEW)
    &&& is_registered(escrow::ONLY_BUYER_CAN_CANCEL_AUTO_RENEWAL)
    &&& is_registered(escrow::NO_AUTO_RENEW_CONFIG_SET_ESCROW)
    &&& is_registered(escrow::RELEASE_AMOUNT_MUST_BE_POSITIVE)
    &&& is_registered(escrow::RELEASE_AMOUNT_EXCEEDS_ESCROW_BALANCE)
    &&& is_registered(escrow::AT_LEAST_ONE_MILESTONE_REQUIRED)
    &&& is_registered(escrow::TOO_MANY_MILESTONES)
    &&& is_registered(escrow::MILESTONE_AMOUNT_MUST_BE_POSITIVE)
    &&& is_registered(escrow::NEW_MILESTONES_MUST_START_AS_PENDING)
    &&& is_registered(escrow::ESCROW_ALREADY_TERMINAL)
    &&& is_registered(escrow::ONLY_BUYER_OR_ARBITER_CAN_APPROVE_MILESTONES)
    &&& is_registered(escrow::MILESTONE_INDEX_OUT_RANGE)
    &&& is_registered(escrow::MILESTONE_NOT_PENDING)
    &&& is_registered(escrow::ONLY_BUYER_OR_SELLER_CAN_DISPUTE_ESCROW)
    &&& is_registered(escrow::DISPUTE_AMOUNT_OUT_OF_RANGE)
    &&& is_registered(escrow::BUYER_PERCENT_MUST_BE_BETWEEN_0_AND_100)
    &&& is_registered(escrow::ESCROW_IS_NOT_DISPUTED)
    &&& is_registered(escrow::ONLY_ARBITER_CAN_RESOLVE_DISPUTE)
    &&& is_registered(escrow::ESCROW_IS_NOT_COOLING_OFF_STATE)
    &&& is_registered(escrow::ONLY_BUYER_OR_SELLER_CAN_FLAG_RESOLUTION_ERROR)
    &&& is_registered(escrow::COOLING_OFF_WINDOW_HAS_EXPIRED)
    &&& is_registered(escrow::RESOLUTION_ALREADY_FLAGGED)
    &&& is_registered(escrow::COOLING_OFF_WINDOW_HAS_NOT_ELAPSED)
    &&& is_registered(escrow::RESOLUTION_IS_FLAGGED_ADMIN_MUST_REVIEW_BEFORE_FINALIZATION)
    &&& is_registered(escrow::ONLY_ADMIN_CAN_CLEAR_RESOLUTION_FLAGS)
    &&& is_registered(escrow::NO_FLAG_TO_CLEAR)
    &&& is_registered(escrow::ONLY_ADMIN_CAN_CONFIGURE_COOLING_OFF_PERIOD)
    &&& is_registered(escrow::FEE_CONFIGURATION_EXCEEDS_ESCROW_AMOUNT)
    &&& is_registered(escrow::TIMEOUT_MUST_BE_POSITIVE)
    &&& is_registered(escrow::MULTIPLIER_MUST_BE_POSITIVE)
    &&& is_registered(escrow::DEADLINE_MUST_BE_POSITIVE)
    &&& is_registered(escrow::DISPUTE_ALREADY_RESOLVED)
    &&& is_registered(escrow::DISPUTE_TIMEOUT_DEADLINE_HAS_NOT_PASSED_YET)
    &&& is_registered(escrow::MAX_ORACLE_AGE_MUST_BE_POSITIVE)
    &&& is_registered(escrow::INSURANCE_TRIGGER_DAYS_MUST_BE_POSITIVE)
    &&& is_registered(escrow::INSURANCE_CONTRIBUTION_MUST_BE_POSITIVE)
    &&& is_registered(escrow::ONLY_BUYER_OR_SELLER_CAN_CLAIM_INSURANCE)
    &&& is_registered(escrow::INSURANCE_ALREADY_CLAIMED)
    &&& is_registered(escrow::ADMIN_CONFIRMATION_REQUIRED)
    &&& is_registered(escrow::INSURANCE_TRIGGER_PERIOD_NOT_REACHED)
    &&& is_registered(escrow::ESCROW_TOKEN_NOT_COVERED_BY_INSURANCE_POOL)
    &&& is_registered(escrow::INSURANCE_POOL_HAS_INSUFFICIENT_BALANCE)
    &&& is_registered(escrow::FEE_EXCEEDS_MAXIMUM_200_BPS)
    &&& is_registered(escrow::WITHDRAWAL_AMOUNT_MUST_BE_POSITIVE)
    &&& is_registered(escrow::INSUFFICIENT_ACCRUED_FEES)
    &&& is_registered(escrow::RELEASE_CONDITION_NOT_MET)
    &&& is_registered(escrow::ESCROW_HAS_NOT_EXPIRED_YET)
    &&& is_registered(escrow::ONLY_BUYER_OR_SELLER_CAN_PROPOSE_DEADLINE_EXTENSION)
    &&& is_registered(escrow::CANNOT_EXTEND_DEADLINE_WHILE_ESCROW_IS_DISPUTED)
    &&& is_registered(escrow::NEW_DEADLINE_MUST_BE_GREATER_THAN_CURRENT_DEADLINE)
    &&& is_registered(escrow::ONLY_BUYER_OR_SELLER_CAN_ACCEPT_DEADLINE_EXTENSION)
    &&& is_registered(escrow::PROPOSER_CANNOT_ACCEPT_THEIR_OWN_DEADLINE_EXTENSION)
    &&& is_registered(escrow::DEADLINE_EXTENSION_PROPOSAL_HAS_EXPIRED)
    &&& is_registered(escrow::ONLY_BUYER_OR_SELLER_CAN_PROPOSE_AMENDMENT)
    &&& is_registered(escrow::CANNOT_AMEND_TERMINAL_ESCROW)
    &&& is_registered(escrow::NEW_AMOUNT_MUST_BE_POSITIVE)
    &&& is_registered(escrow::ONLY_BUYER_OR_SELLER_CAN_SIGN_AMENDMENT)
    &&& is_registered(escrow::AMENDMENT_NONCE_MISMATCH)
    &&& is_registered(escrow::AMENDMENT_PROPOSAL_HAS_EXPIRED)
    &&& is_registered(escrow::AMENDMENT_REQUIRES_BUYER_AND_SELLER_SIGNATURES)
    &&& is_registered(escrow::ONLY_BUYER_CAN_TOP_UP_ESCROW)
    &&& is_registered(escrow::ESCROW_IS_NOT_ACTIVE_OR_AWAITING_INSPECTION)
    &&& is_registered(escrow::ADDITIONAL_AMOUNT_MUST_BE_POSITIVE)
    &&& is_registered(escrow::TOP_UP_LIMIT_EXCEEDED)
    &&& is_registered(escrow::ONLY_SELLER_CAN_ACKNOWLEDGE_TOP_UP)
    &&& is_registered(escrow::ONLY_SELLER_CAN_REQUEST_PARTIAL_RELEASE)
    &&& is_registered(escrow::PARTIAL_RELEASE_ONLY_ALLOWED_ACTIVE_ESCROW)
    &&& is_registered(escrow::PARTIAL_RELEASE_AMOUNT_MUST_BE_POSITIVE)
    &&& is_registered(escrow::PARTIAL_RELEASE_AMOUNT_CANNOT_EXCEED_ESCROW_AMOUNT)
    &&& is_registered(escrow::REQUEST_ALREADY_PENDING)
    &&& is_registered(escrow::ONLY_BUYER_CAN_APPROVE_PARTIAL_RELEASE)
    &&& is_registered(escrow::INVALID_REQUEST_ID)
    &&& is_registered(escrow::DELEGATE_MUST_BE_DIFFERENT_FROM_SELLER)
    &&& is_registered(escrow::SELLER_NOT_PART_OF_ESCROW)
    &&& is_registered(escrow::CAN_ONLY_DELEGATE_BEFORE_ESCROW_IS_RELEASED)
    &&& is_registered(escrow::ONLY_BUYER_CAN_REJECT_PARTIAL_RELEASE)
    &&& is_registered(escrow::ONLY_SELLER_CAN_ESCALATE_PARTIAL_RELEASE)
    &&& is_registered(escrow::RESPONSE_DEADLINE_NOT_YET_PASSED)
    &&& is_registered(escrow::NEW_BUYER_MUST_BE_DIFFERENT_FROM_CURRENT_BUYER)
    &&& is_registered(escrow::BUYER_TRANSFER_ONLY_ALLOWED_ACTIVE_ESCROWS)
    &&& is_registered(escrow::ONLY_CURRENT_BUYER_CAN_TRANSFER_BUYER_ROLE)
    &&& is_registered(escrow::ONLY_BUYER_OR_SELLER_CAN_UPDATE_METADATA)
    &&& is_registered(escrow::ONLY_ADMIN_CAN_UPGRADE_CONTRACT)
    &&& is_registered(escrow::ONLY_ADMIN_CAN_MIGRATE_CONTRACT)
    &&& is_registered(escrow::MIGRATION_ALREADY_COMPLETED_VERSION)
    &&& is_registered(escrow::UNLOCK_AT_MUST_BE_FUTURE)
    &&& is_registered(escrow::ALREADY_CLAIMED)
    &&& is_registered(escrow::ONLY_BENEFICIARY_CAN_CLAIM)
    &&& is_registered(escrow::UNLOCK_TIME_HAS_NOT_PASSED)
    &&& is_registered(escrow::ESCROW_NOT_ACTIVE)
    &&& is_registered(escrow::PAST_UNLOCK_TIME_USE_CLAIM_TIMELOCKED)
    &&& is_registered(escrow::ONLY_BUYER_CAN_CANCEL)
    &&& is_registered(escrow::DISPUTE_ACTIVE)
    &&& is_registered(escrow::ONLY_ADMIN_CAN_SET_TOKEN_WHITELIST_CONTRACT)
    &&& is_registered(escrow::CONTRACT_ALREADY_PAUSED)
    &&& is_registered(escrow::CONTRACT_IS_NOT_PAUSED)
    &&& is_registered(escrow::TOKEN_NOT_ALLOWED)
    &&& is_registered(escrow::DEADLINE_DURATION_MUST_BE_POSITIVE)
    &&& is_registered(escrow::TEMPLATE_IS_DEACTIVATED)
    &&& is_registered(escrow::ARBITER_ALREADY_POOL)
    &&& is_registered(escrow::ARBITER_NOT_POOL)
    &&& is_registered(escrow::ARBITER_POOL_IS_EMPTY)
    &&& is_registered(escrow::ONLY_TEMPLATE_CREATOR_CAN_UPDATE)
    &&& is_registered(escrow::ONLY_TEMPLATE_CREATOR_CAN_DEACTIVATE)
    &&& is_registered(escrow::TEMPLATE_ALREADY_DEACTIVATED)
    &&& is_registered(escrow::INACTIVITY_RELEASE_IS_NOT_ENABLED_ESCROW)
    &&& is_registered(escrow::ONLY_ESCROW_SELLER_CAN_CLAIM_INACTIVITY_RELEASE)
    &&& is_registered(escrow::BUYER_INACTIVITY_WINDOW_HAS_NOT_ELAPSED)
    &&& is_registered(escrow::PENALTY_CANNOT_EXCEED_10000_BPS)
    &&& is_registered(escrow::RESPONSE_WINDOW_MUST_BE_POSITIVE)
    &&& is_registered(escrow::ONLY_BUYER_OR_SELLER_CAN_REQUEST_CANCELLATION)
    &&& is_registered(escrow::NO_PENDING_CANCELLATION_ESCROW)
    &&& is_registered(escrow::INITIATOR_CANNOT_ACCEPT_THEIR_OWN_CANCELLATION_REQUEST)
    &&& is_registered(escrow::ONLY_BUYER_OR_SELLER_CAN_ACCEPT_CANCELLATION)
    &&& is_registered(escrow::INITIATOR_CANNOT_REJECT_THEIR_OWN_CANCELLATION_REQUEST)
    &&& is_registered(escrow::ONLY_BUYER_OR_SELLER_CAN_REJECT_CANCELLATION)
    &&& is_registered(escrow::RESPONSE_WINDOW_HAS_NOT_ELAPSED)
    &&& is_registered(escrow::BOUNTY_AMOUNT_MUST_BE_POSITIVE)
    &&& is_registered(escrow::CLAIM_DEADLINE_MUST_BE_FUTURE)
    &&& is_registered(escrow::SUBMISSION_DEADLINE_MUST_BE_AFTER_CLAIM_DEADLINE)
    &&& is_registered(escrow::TOKEN_NOT_WHITELISTED)
    &&& is_registered(escrow::BOUNTY_IS_NOT_AVAILABLE_CLAIMING)
    &&& is_registered(escrow::CLAIM_DEADLINE_HAS_PASSED)
    &&& is_registered(escrow::BOUNTY_IS_NOT_CLAIMED_STATUS)
    &&& is_registered(escrow::ONLY_ASSIGNED_SOLVER_CAN_SUBMIT_WORK)
    &&& is_registered(escrow::SUBMISSION_DEADLINE_HAS_PASSED)
    &&& is_registered(escrow::ONLY_BUYER_CAN_APPROVE_SUBMISSION)
    &&& is_registered(escrow::NO_SUBMISSION_HAS_BEEN_MADE)
    &&& is_registered(escrow::ONLY_BUYER_CAN_REJECT_SUBMISSION)
    &&& is_registered(escrow::MAXIMUM_REJECTION_ROUNDS_REACHED)
    &&& is_registered(escrow::ONLY_BUYER_CAN_CANCEL_BOUNTY)
    &&& is_registered(escrow::CANNOT_CANCEL_BOUNTY_CURRENT_STATE)
    &&& is_registered(escrow::ONLY_ADMIN_CAN_SET_MAX_BOUNTY_REJECTION_ROUNDS)
    &&& is_registered(escrow::BOUNTY_MUST_HAVE_AT_LEAST_ONE_MILESTONE)
    &&& is_registered(escrow::BOUNTY_MUST_BE_CLAIMED_BEFORE_SUBMITTING_MILESTONES)
    &&& is_registered(escrow::ONLY_SOLVER_CAN_SUBMIT_MILESTONES)
    &&& is_registered(escrow::MILESTONE_INDEX_OUT_BOUNDS)
    &&& is_registered(escrow::PREVIOUS_MILESTONE_NOT_YET_VERIFIED)
    &&& is_registered(escrow::MILESTONE_IS_NOT_AWAITING_SUBMISSION)
    &&& is_registered(escrow::MILESTONE_IS_NOT_AWAITING_VERIFICATION)
    &&& is_registered(escrow::ONLY_BOUNTY_CREATOR_CAN_REPLACE_VERIFIER)
    &&& is_registered(escrow::VERIFIER_CAN_ONLY_BE_REPLACED_BEFORE_MILESTONE_IS_SUBMITTED)
    &&& is_registered(escrow::ONLY_BUYER_CAN_CONFIGURE_COLLATERAL_HEALTH)
    &&& is_registered(escrow::MIN_COLLATERAL_RATIO_BPS_OUT_OF_RANGE)
    &&& is_registered(escrow::TOP_UP_AMOUNT_MUST_BE_POSITIVE)
    &&& is_registered(escrow::ESCROW_IS_NOT_ACTIVE_OR_UNDER_COLLATERALIZED)
    &&& is_registered(escrow::ONLY_BUYER_CAN_CONFIGURE_MULTI_PARTY_APPROVAL)
    &&& is_registered(escrow::APPROVERS_COUNT_MUST_BE_BETWEEN_2_AND_10)
    &&& is_registered(escrow::THRESHOLD_MUST_BE_BETWEEN_1_AND_APPROVERS_COUNT)
    &&& is_registered(escrow::CANNOT_RECONFIGURE_APPROVALS_ALREADY_PROGRESS)
    &&& is_registered(escrow::CALLER_IS_NOT_AUTHORIZED_APPROVER_ESCROW)
    &&& is_registered(escrow::APPROVER_HAS_ALREADY_APPROVED_ESCROW)
    &&& is_registered(escrow::RELEASE_SCHEDULE_MUST_CONTAIN_AT_LEAST_ONE_TRANCHE)
    &&& is_registered(escrow::EACH_TRANCHE_AMOUNT_MUST_BE_POSITIVE)
    &&& is_registered(escrow::EACH_TRANCHE_UNLOCK_AT_MUST_BE_FUTURE)
    &&& is_registered(escrow::ONLY_BENEFICIARY_SELLER_CAN_CLAIM_SCHEDULED_RELEASES)
    &&& is_registered(escrow::ESCROW_IS_NOT_CLAIMABLE_STATE)
    &&& is_registered(escrow::NO_TRANCHES_ARE_CURRENTLY_CLAIMABLE)
    &&& is_registered(escrow::CONTRACT_IS_PAUSED)
    &&& is_registered(escrow::ONLY_ADMIN_CAN_PAUSE_CONTRACT)
    &&& is_registered(escrow::ONLY_ADMIN_CAN_RESUME_CONTRACT)
    &&& is_registered(escrow::ESCROW_STILL_LOCKED)
    &&& is_registered(escrow::ORACLE_PRICE_IS_STALE)
    &&& is_registered(escrow::INVALID_ORACLE_PRICE)
    &&& is_registered(escrow::INSUFFICIENT_RENEWAL_ALLOWANCE)
    &&& is_registered(escrow::ESCROW_RENEWAL_DURATION_MUST_BE_POSITIVE)
    &&& is_registered(escrow::ONLY_ADMIN_CAN_SET_MAX_TOP_UP_BPS)
    &&& is_registered(escrow::COLLATERAL_FORFEIT_BPS_CANNOT_EXCEED_10000)
    &&& is_registered(escrow::AT_LEAST_ONE_SELLER_REQUIRED)
    &&& is_registered(escrow::ONLY_SELLER_CAN_DEPOSIT_COLLATERAL)
    &&& is_registered(escrow::ESCROW_IS_NOT_AWAITING_COLLATERAL)
    &&& is_registered(escrow::COLLATERAL_DEPOSIT_WINDOW_HAS_EXPIRED)
    &&& is_registered(escrow::RATING_MUST_BE_BETWEEN_1_AND_5)
    &&& is_registered(escrow::RATING_ONLY_ALLOWED_AFTER_ESCROW_IS_RELEASED_OR_RESOLVED)
    &&& is_registered(escrow::ONLY_BUYER_OR_SELLER_CAN_SUBMIT_RATING)
    &&& is_registered(escrow::RATING_ALREADY_SUBMITTED_ESCROW)
    &&& is_registered(escrow::ONLY_SELLER_CAN_SUBMIT_DELIVERY_PROOF)
    &&& is_registered(escrow::PROOF_SUBMISSION_LOCKED_ESCROW_IS_UNDER_DISPUTE)
    &&& is_registered(escrow::INVALID_DELIVERY_PROOF)
    &&& is_registered(escrow::ONLY_ESCROW_SELLER_CAN_RAISE_VETO)
    &&& is_registered(escrow::VETO_COOLDOWN_ACTIVE)
    &&& is_registered(escrow::ONLY_BUYER_CAN_APPROVE)
    &&& is_registered(escrow::NO_PENDING_SELLER_TRANSFER)
    &&& is_registered(escrow::ONLY_ADMIN_CAN_SET_VETO_OVERRIDE_WINDOW)
    &&& is_registered(escrow::WINDOW_SECONDS_MUST_BE_POSITIVE)
    &&& is_registered(escrow::ONLY_ESCROW_SELLER_CAN_CANCEL_VETO)
    &&& is_registered(escrow::VETO_WINDOW_ELAPSED)
    &&& is_registered(escrow::ONLY_ADMIN_CAN_OVERRIDE_SELLER_VETO)
    &&& is_registered(escrow::ACTIVE_DISPUTE_EXISTS)
    &&& is_registered(escrow::VETO_WINDOW_NOT_ELAPSED)
    &&& is_registered(escrow::VETO_WINDOW_HAS_NOT_EXPIRED_YET)
    &&& is_registered(escrow::ONLY_CURRENT_SELLER_CAN_INITIATE_TRANSFER)
    &&& is_registered(escrow::ESCROW_MUST_BE_ACTIVE_TO_TRANSFER_SELLER_ROLE)
    &&& is_registered(escrow::ONLY_BUYER_CAN_VETO)
    &&& is_registered(escrow::ONLY_ADMIN_CAN_SET_VETO_WINDOW)
    &&& is_registered(escrow::RELEASE_BPS_MUST_BE_POSITIVE_EACH_MILESTONE)
    &&& is_registered(escrow::MILESTONE_RELEASE_BPS_MUST_SUM_TO_10000)
    &&& is_registered(escrow::ONLY_ESCROW_SELLER_MAY_SUBMIT_MILESTONES)
    &&& is_registered(escrow::MILESTONE_MUST_BE_PENDING_OR_REJECTED_TO_SUBMIT)
    &&& is_registered(escrow::MILESTONE_MUST_BE_SUBMITTED_BEFORE_APPROVAL)
    &&& is_registered(escrow::ONLY_ESCROW_BUYER_MAY_REJECT_MILESTONES)
    &&& is_registered(escrow::ONLY_SUBMITTED_MILESTONE_CAN_BE_REJECTED)
    &&& is_registered(escrow::ONLY_LOSING_PARTY_CAN_FLAG_RESOLUTION_ERROR)
    &&& is_registered(refund::ALREADY_INITIALIZED)
    &&& is_registered(refund::FEE_EXCEEDS_MAXIMUM)
    &&& is_registered(refund::AMOUNT_MUST_BE_POSITIVE)
    &&& is_registered(refund::INVALID_REASON_CODE)
    &&& is_registered(refund::REFUND_COOLDOWN_ACTIVE)
    &&& is_registered(refund::PAYMENT_NOT_FOUND)
    &&& is_registered(refund::PAYMENT_NOT_COMPLETED)
    &&& is_registered(refund::EXCEEDS_REFUNDABLE_AMOUNT)
    &&& is_registered(whitelist::NOT_INITIALIZED)
    &&& is_registered(whitelist::ALREADY_INITIALIZED)
    &&& is_registered(whitelist::UNAUTHORIZED)
    &&& is_registered(whitelist::TOKEN_ALREADY_WHITELISTED)
    &&& is_registered(whitelist::TOKEN_NOT_WHITELISTED)
    &&& is_registered(whitelist::QUOTA_EXCEEDED)
    &&& is_registered(whitelist::TOKEN_ALREADY_HAS_QUOTA)
    &&& is_registered(whitelist::TOKEN_HAS_NO_QUOTA)
    &&& is_registered(whitelist::RISK_TIER_NOT_DEFINED)
}

/// The registry holds exactly as many codes for each contract as that
/// contract's error module declares in its `COUNT`, every code it holds lies
/// in the contract's range, and every error constant of each module is among
/// them.
pub proof fn law_registry_matches_module_counts()
    ensures
        registered_count(1000, 300) == rosca::COUNT,
        registered_count(2000, 300) == payments::COUNT,
        registered_count(3000, 300) == escrow::COUNT,
        registered_count(4000, 100) == refund::COUNT,
        registered_count(5000, 100) == whitelist::COUNT,
        forall|c: u32| #[trigger] is_registered(c) ==> spec_contract_of(c) is Some,
        module_constants_registered(),
{
    lemma_rosca_count();
    lemma_payments_count();
    lemma_escrow_count();
    lemma_refund_count();
    lemma_whitelist_count();
}

} // verus!
