use mint_watch::classifier::InstructionKind;
use mint_watch::filter::{evaluate, is_watched, WatchTarget, MINT_POSITION, MINT_SUFFIX};

fn keys(items: &[&str]) -> Vec<String> {
    items.iter().map(|s| s.to_string()).collect()
}

#[test]
fn conventions_are_second_account_and_pump_suffix() {
    assert_eq!(MINT_POSITION, 1);
    assert_eq!(MINT_SUFFIX, "pump");
}

#[test]
fn any_creation_reports_the_second_address() {
    let target = WatchTarget::AnyCreation;
    assert_eq!(evaluate(&keys(&["payer", "mintAddr"]), &target), Some("mintAddr".to_string()));
    assert_eq!(
        evaluate(&keys(&["payer", "mintAddr", "third", "fourth"]), &target),
        Some("mintAddr".to_string())
    );
}

#[test]
fn any_creation_reports_nothing_for_a_short_list() {
    let target = WatchTarget::AnyCreation;
    assert_eq!(evaluate(&keys(&[]), &target), None);
    assert_eq!(evaluate(&keys(&["payer"]), &target), None);
}

#[test]
fn specific_token_reports_a_matching_candidate() {
    let target = WatchTarget::Token("Mint123".to_string());
    assert_eq!(evaluate(&keys(&["payer", "Mint123", "x"]), &target), Some("Mint123".to_string()));
}

#[test]
fn specific_token_reports_nothing_for_another_candidate() {
    let target = WatchTarget::Token("Mint123".to_string());
    assert_eq!(evaluate(&keys(&["payer", "Mint124", "Mint123"]), &target), None);
    assert_eq!(evaluate(&keys(&["Mint123", "payer"]), &target), None);
    assert_eq!(evaluate(&keys(&["Mint123"]), &target), None);
    assert_eq!(evaluate(&keys(&[]), &target), None);
}

#[test]
fn specific_token_compares_case_sensitively() {
    let target = WatchTarget::Token("Mint123".to_string());
    assert_eq!(evaluate(&keys(&["payer", "mint123"]), &target), None);
    assert_eq!(evaluate(&keys(&["payer", "MINT123"]), &target), None);
    assert_eq!(evaluate(&keys(&["payer", "Mint123 "]), &target), None);
}

#[test]
fn specific_wallet_reports_the_first_mint_like_address() {
    let target = WatchTarget::Wallet("wallet".to_string());
    assert_eq!(
        evaluate(&keys(&["wallet", "program", "Apump", "Bpump"]), &target),
        Some("Apump".to_string())
    );
}

#[test]
fn specific_wallet_scans_the_whole_list_from_its_start() {
    let target = WatchTarget::Wallet("wallet".to_string());
    assert_eq!(
        evaluate(&keys(&["Apump", "other", "wallet", "Bpump"]), &target),
        Some("Apump".to_string())
    );
}

#[test]
fn specific_wallet_reports_nothing_without_the_wallet() {
    let target = WatchTarget::Wallet("wallet".to_string());
    assert_eq!(evaluate(&keys(&["payer", "Apump"]), &target), None);
    assert_eq!(evaluate(&keys(&["Wallet", "Apump"]), &target), None);
    assert_eq!(evaluate(&keys(&[]), &target), None);
}

#[test]
fn specific_wallet_reports_nothing_without_a_mint_like_address() {
    let target = WatchTarget::Wallet("wallet".to_string());
    assert_eq!(evaluate(&keys(&["wallet", "pumpA", "pum", "Pump", "PUMP"]), &target), None);
}

#[test]
fn suffix_alone_is_mint_like() {
    let target = WatchTarget::Wallet("wallet".to_string());
    assert_eq!(evaluate(&keys(&["wallet", "ump", "pump"]), &target), Some("pump".to_string()));
}

#[test]
fn a_wallet_whose_address_is_mint_like_reports_itself() {
    let target = WatchTarget::Wallet("walletpump".to_string());
    assert_eq!(evaluate(&keys(&["payer", "walletpump", "Zpump"]), &target), Some("walletpump".to_string()));
}

#[test]
fn targets_watch_their_kinds() {
    let creation = WatchTarget::AnyCreation;
    let token = WatchTarget::Token("Mint123".to_string());
    let wallet = WatchTarget::Wallet("wallet".to_string());
    assert!(is_watched(&creation, InstructionKind::Create));
    assert!(!is_watched(&creation, InstructionKind::Buy));
    assert!(!is_watched(&creation, InstructionKind::Sell));
    assert!(!is_watched(&creation, InstructionKind::Other));
    for target in [&token, &wallet] {
        assert!(!is_watched(target, InstructionKind::Create));
        assert!(is_watched(target, InstructionKind::Buy));
        assert!(is_watched(target, InstructionKind::Sell));
        assert!(!is_watched(target, InstructionKind::Other));
    }
}
