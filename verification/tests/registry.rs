use ahjoor_escrow::codes::{all_errors, error_name_from_code, escrow, payments, refund, rosca, whitelist};

#[test]
fn error_name_from_code_returns_known_entries() {
    let entry = error_name_from_code(rosca::ALREADY_INITIALIZED).expect("known code");
    assert_eq!(entry.name, "AlreadyInitialized");
    assert_eq!(entry.contract, "ahjoor-rosca");

    let entry = error_name_from_code(payments::RATE_LIMIT_EXCEEDED).expect("known code");
    assert_eq!(entry.name, "RateLimitExceeded");
    assert_eq!(entry.contract, "ahjoor-payments");

    let entry = error_name_from_code(escrow::INVALID_DEADLINE).expect("known code");
    assert_eq!(entry.name, "InvalidDeadline");
    assert_eq!(entry.contract, "ahjoor-escrow");

    let entry = error_name_from_code(refund::ALREADY_INITIALIZED).expect("known code");
    assert_eq!(entry.name, "AlreadyInitialized");
    assert_eq!(entry.contract, "ahjoor-refund");

    let entry = error_name_from_code(whitelist::NOT_INITIALIZED).expect("known code");
    assert_eq!(entry.name, "NotInitialized");
    assert_eq!(entry.contract, "ahjoor-token-whitelist");
}

#[test]
fn error_name_from_code_returns_none_for_unrecognized_code() {
    assert!(error_name_from_code(9_999_999).is_none());
}

#[test]
fn no_duplicate_codes() {
    let mut seen = std::vec::Vec::new();
    for entry in all_errors() {
        assert!(
            !seen.contains(&entry.code),
            "Duplicate error code {} ({}::{})",
            entry.code,
            entry.contract,
            entry.name,
        );
        seen.push(entry.code);
    }
}

#[test]
fn all_errors_covers_every_module_const() {
    let expected: &[(&str, usize)] = &[
        ("ahjoor-rosca", rosca::COUNT),
        ("ahjoor-payments", payments::COUNT),
        ("ahjoor-escrow", escrow::COUNT),
        ("ahjoor-refund", refund::COUNT),
        ("ahjoor-token-whitelist", whitelist::COUNT),
    ];
    let all = all_errors();
    for (contract, count) in expected {
        let actual = all.iter().filter(|e| &e.contract == contract).count();
        assert_eq!(
            actual, *count,
            "{contract}: the registry has {actual} entries but the module declares COUNT = {count}.",
        );
    }
    let total_expected: usize = expected.iter().map(|(_, c)| c).sum();
    assert_eq!(all.len(), total_expected);
}

#[test]
fn codes_within_contract_ranges() {
    for entry in all_errors() {
        let in_range = match entry.contract {
            "ahjoor-rosca" => (1000..=1299).contains(&entry.code),
            "ahjoor-payments" => (2000..=2299).contains(&entry.code),
            "ahjoor-escrow" => (3000..=3299).contains(&entry.code),
            "ahjoor-refund" => (4000..=4099).contains(&entry.code),
            "ahjoor-token-whitelist" => (5000..=5099).contains(&entry.code),
            _ => false,
        };
        assert!(in_range, "Error code {} ({}) is outside the expected range for {}", entry.code, entry.name, entry.contract);
    }
}

#[test]
fn registry_lookup_matches_listing() {
    for entry in all_errors() {
        let found = error_name_from_code(entry.code).expect("listed code is known");
        assert_eq!(found.name, entry.name);
        assert_eq!(found.contract, entry.contract);
    }
    assert!(error_name_from_code(0).is_none());
    assert!(error_name_from_code(3299).is_none() || error_name_from_code(3299).unwrap().contract == "ahjoor-escrow");
}
