use stellar_core::errors::StellarError;
use stellar_core::types::check_balances_well_formed;
use stellar_core::trustline::TrustlineManager;
use stellar_core::types::{AccountFlags, AssetBalance, StellarAccountInfo, Thresholds};

const ISSUER: &str = "GCKYSYN2YHE4C6YM53OFUWYVM34B4YZJEZZVML5T7XSCLSNADLSMQNBX";
const HOLDER: &str = "GCJRI5CIWK5IU67Q6DGA7QW52JDKRO7JEAHQKFNDUJUPEZGURDBX3LDX";

fn manager() -> TrustlineManager {
    TrustlineManager::new("AFRI".to_string(), ISSUER.to_string())
}

fn native_entry(amount: &str) -> AssetBalance {
    AssetBalance {
        asset_type: "native".to_string(),
        asset_code: None,
        asset_issuer: None,
        balance: amount.to_string(),
        limit: "".to_string(),
        is_authorized: true,
        is_authorized_to_maintain_liabilities: true,
        last_modified_ledger: Some(5),
    }
}

fn afri_entry(amount: &str, authorized: bool) -> AssetBalance {
    AssetBalance {
        asset_type: "credit_alphanum4".to_string(),
        asset_code: Some("AFRI".to_string()),
        asset_issuer: Some(ISSUER.to_string()),
        balance: amount.to_string(),
        limit: "1000000".to_string(),
        is_authorized: authorized,
        is_authorized_to_maintain_liabilities: authorized,
        last_modified_ledger: Some(6),
    }
}

fn account_with(balances: Vec<AssetBalance>, subentry_count: u32) -> StellarAccountInfo {
    StellarAccountInfo {
        account_id: HOLDER.to_string(),
        sequence: 42,
        subentry_count,
        thresholds: Thresholds { low_threshold: 0, med_threshold: 0, high_threshold: 0 },
        flags: AccountFlags {
            auth_required: false,
            auth_revocable: false,
            auth_immutable: false,
            auth_clawback_enabled: false,
        },
        balances,
        signers: Vec::new(),
        data: Vec::new(),
        last_modified_ledger: 100,
        created_at: "2024-01-01T00:00:00Z".to_string(),
    }
}

#[test]
fn test_check_trustline_absent() {
    // an account holding no entry with the application asset code:
    // exists is false and the balance is absent
    let account = account_with(vec![native_entry("10")], 0);
    let status = manager().check_trustline(&account);
    assert!(!status.exists);
    assert_eq!(status.balance, None);
    assert_eq!(status.authorized, None);
}

#[test]
fn test_check_trustline_present() {
    let account = account_with(vec![native_entry("10"), afri_entry("250.75", true)], 1);
    let status = manager().check_trustline(&account);
    assert!(status.exists);
    assert_eq!(status.balance, Some("250.75".to_string()));
    assert_eq!(status.authorized, Some(true));
}

#[test]
fn test_check_trustline_ignores_other_issuer() {
    let mut foreign = afri_entry("1", true);
    foreign.asset_issuer = Some(HOLDER.to_string());
    let account = account_with(vec![foreign], 1);
    let status = manager().check_trustline(&account);
    assert!(!status.exists);
}

#[test]
fn test_verify_trustline() {
    let authorized = account_with(vec![afri_entry("1", true)], 1);
    assert!(manager().verify_trustline(&authorized));

    let unauthorized = account_with(vec![afri_entry("1", false)], 1);
    assert!(!manager().verify_trustline(&unauthorized));

    let missing = account_with(vec![native_entry("10")], 0);
    assert!(!manager().verify_trustline(&missing));
}

#[test]
fn test_create_trustline_tx() {
    let tx = manager().create_trustline_tx(HOLDER).expect("draft expected");
    assert_eq!(tx.account_id, HOLDER);
    assert_eq!(tx.asset_code, "AFRI");
    assert_eq!(tx.asset_issuer, ISSUER);
    assert_eq!(tx.operation, "change_trust");

    let err = manager().create_trustline_tx("INVALID_ADDRESS");
    assert!(matches!(err, Err(StellarError::InvalidAddress { .. })));
}

#[test]
fn test_validate_min_balance() {
    // no trustline yet, no subentries: the new entry needs (2 + 0 + 1) * 0.5
    // native units = 1.5; a balance of 1 falls short, 2 suffices
    let poor = account_with(vec![native_entry("1")], 0);
    assert!(matches!(
        manager().validate_min_balance(&poor),
        Err(StellarError::ValidationError { .. })
    ));

    let rich = account_with(vec![native_entry("2")], 0);
    assert!(manager().validate_min_balance(&rich).is_ok());

    // an existing trustline adds no extra reserve: (2 + 1) * 0.5 = 1.5
    let holding = account_with(vec![native_entry("1.5"), afri_entry("7", true)], 1);
    assert!(manager().validate_min_balance(&holding).is_ok());

    let holding_short = account_with(vec![native_entry("1.4999999"), afri_entry("7", true)], 1);
    assert!(holding_short.balances.len() == 2);
    assert!(manager().validate_min_balance(&holding_short).is_err());
}

#[test]
fn test_balance_list_invariant() {
    let good = vec![native_entry("10"), afri_entry("1", true)];
    assert!(check_balances_well_formed(&good));

    let two_native = vec![native_entry("10"), native_entry("3")];
    assert!(!check_balances_well_formed(&two_native));

    let mut anonymous = afri_entry("1", true);
    anonymous.asset_issuer = None;
    assert!(!check_balances_well_formed(&vec![anonymous]));

    assert!(check_balances_well_formed(&Vec::new()));
}

#[test]
fn test_validate_min_balance_without_native_entry() {
    let account = account_with(vec![afri_entry("7", true)], 1);
    assert!(matches!(
        manager().validate_min_balance(&account),
        Err(StellarError::ValidationError { .. })
    ));
}
