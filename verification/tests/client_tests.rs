use stellar_core::client::{FetchOutcome, ProbeOutcome, StellarClient, SubmitOutcome};
use stellar_core::config::{StellarConfig, StellarNetwork};
use stellar_core::errors::StellarError;
use stellar_core::types::{AccountFlags, HorizonAccount, HorizonBalance, Thresholds};

const TEST_ADDRESS: &str = "GCJRI5CIWK5IU67Q6DGA7QW52JDKRO7JEAHQKFNDUJUPEZGURDBX3LDX";

fn test_config() -> StellarConfig {
    StellarConfig {
        network: StellarNetwork::Testnet,
        request_timeout_secs: 15,
        max_retries: 3,
        health_check_interval_secs: 30,
    }
}

fn test_client() -> StellarClient {
    StellarClient::new(test_config()).expect("Failed to create client")
}

fn native_balance(amount: &str) -> HorizonBalance {
    HorizonBalance {
        asset_type: "native".to_string(),
        asset_code: None,
        asset_issuer: None,
        balance: amount.to_string(),
        limit: "".to_string(),
        is_authorized: true,
        is_authorized_to_maintain_liabilities: true,
        last_modified_ledger: Some(7),
    }
}

fn afri_balance(amount: &str) -> HorizonBalance {
    HorizonBalance {
        asset_type: "credit_alphanum4".to_string(),
        asset_code: Some("AFRI".to_string()),
        asset_issuer: Some("GCKYSYN2YHE4C6YM53OFUWYVM34B4YZJEZZVML5T7XSCLSNADLSMQNBX".to_string()),
        balance: amount.to_string(),
        limit: "1000000".to_string(),
        is_authorized: true,
        is_authorized_to_maintain_liabilities: true,
        last_modified_ledger: Some(9),
    }
}

fn horizon_account(account_id: &str, sequence: &str, balances: Vec<HorizonBalance>) -> HorizonAccount {
    HorizonAccount {
        id: account_id.to_string(),
        account_id: account_id.to_string(),
        sequence: sequence.to_string(),
        subentry_count: 1,
        thresholds: Thresholds { low_threshold: 0, med_threshold: 0, high_threshold: 0 },
        flags: AccountFlags {
            auth_required: false,
            auth_revocable: false,
            auth_immutable: false,
            auth_clawback_enabled: false,
        },
        balances,
        signers: Vec::new(),
        data: Vec::new(),
        last_modified_ledger: 1234,
        created_at: Some("2024-01-01T00:00:00Z".to_string()),
    }
}

fn fallback() -> String {
    "2024-06-01T00:00:00Z".to_string()
}

#[test]
fn test_get_valid_testnet_account() {
    let client = test_client();
    let account = horizon_account(TEST_ADDRESS, "103720918407102567", vec![native_balance("100.5000000")]);
    let run = client.get_account(TEST_ADDRESS, vec![FetchOutcome::Account(account)], fallback());
    assert_eq!(run.requests_made, 1);
    match run.result {
        Some(Ok(account)) => {
            assert_eq!(account.account_id, TEST_ADDRESS);
            assert!(!account.balances.is_empty());
            assert_eq!(account.sequence, 103720918407102567);
        }
        other => panic!("Unexpected result: {:?}", other),
    }
}

#[test]
fn test_get_nonexistent_account() {
    let client = test_client();
    let nonexistent_address = "GAAAAAAAACGC6AAAAAAAAAAAAAAAAAAAAAAAAAAAAAAAAAAAAAAAAAA";
    let run = client.get_account(nonexistent_address, vec![FetchOutcome::NotFound], fallback());
    match run.result {
        Some(result) => assert!(result.is_err(), "Expected an error for nonexistent account"),
        None => panic!("fetch did not resolve"),
    }
}

#[test]
fn test_invalid_address_format() {
    let client = test_client();
    let invalid_address = "INVALID_ADDRESS";
    let run = client.get_account(invalid_address, vec![FetchOutcome::NotFound], fallback());
    assert!(matches!(run.result, Some(Err(StellarError::InvalidAddress { .. }))));
}

#[test]
fn test_invalid_address_makes_no_request() {
    // the request counter stays at zero: validation fails before any attempt
    let client = test_client();
    let script = vec![FetchOutcome::NotFound, FetchOutcome::NotFound];
    let run = client.get_account("INVALID_ADDRESS", script, fallback());
    assert_eq!(run.requests_made, 0);
    assert!(matches!(run.result, Some(Err(StellarError::InvalidAddress { .. }))));
}

#[test]
fn test_transient_failures_are_retried() {
    let client = test_client();
    let account = horizon_account(TEST_ADDRESS, "7", vec![native_balance("3")]);
    let script = vec![
        FetchOutcome::TransportError { message: "connection reset".to_string() },
        FetchOutcome::TimedOut,
        FetchOutcome::Account(account),
    ];
    let run = client.get_account(TEST_ADDRESS, script, fallback());
    assert_eq!(run.requests_made, 3);
    assert!(matches!(run.result, Some(Ok(_))));
}

#[test]
fn test_retry_budget_is_exhausted() {
    let client = test_client();
    let script = vec![
        FetchOutcome::TransportError { message: "reset one".to_string() },
        FetchOutcome::TransportError { message: "reset two".to_string() },
        FetchOutcome::TransportError { message: "reset three".to_string() },
        FetchOutcome::TransportError { message: "never consumed".to_string() },
    ];
    let run = client.get_account(TEST_ADDRESS, script, fallback());
    // max_retries is three: exactly three attempts, then the last error
    assert_eq!(run.requests_made, 3);
    match run.result {
        Some(Err(StellarError::NetworkError { message })) => {
            assert_eq!(message, "reset three");
        }
        other => panic!("Unexpected result: {:?}", other),
    }
}

#[test]
fn test_not_found_is_never_retried() {
    let client = test_client();
    let script = vec![FetchOutcome::NotFound, FetchOutcome::NotFound];
    let run = client.get_account(TEST_ADDRESS, script, fallback());
    assert_eq!(run.requests_made, 1);
    assert!(matches!(run.result, Some(Err(StellarError::AccountNotFound { .. }))));
}

#[test]
fn test_account_exists() {
    let client = test_client();
    let account = horizon_account(TEST_ADDRESS, "1", vec![native_balance("5")]);
    let run = client.account_exists(TEST_ADDRESS, vec![FetchOutcome::Account(account)], fallback());
    assert!(matches!(run.result, Some(Ok(true))));
}

#[test]
fn test_account_exists_converts_not_found() {
    // a definitive not-found answer becomes Ok(false), never an error
    let client = test_client();
    let run = client.account_exists(TEST_ADDRESS, vec![FetchOutcome::NotFound], fallback());
    assert_eq!(run.requests_made, 1);
    assert!(matches!(run.result, Some(Ok(false))));
}

#[test]
fn test_health_check() {
    let client = test_client();
    let health_status = client.health_check(
        ProbeOutcome::Up { response_time_ms: 42 },
        "2024-06-01T00:00:00Z".to_string(),
    );
    if health_status.is_healthy {
        assert!(health_status.response_time_ms > 0);
        assert!(health_status.error_message.is_none());
    } else {
        assert!(health_status.error_message.is_some());
    }
}

#[test]
fn test_health_check_reports_single_failure() {
    // one simulated transport failure: one probe outcome consumed, an
    // unhealthy report, and a non-empty error message
    let client = test_client();
    let health_status = client.health_check(
        ProbeOutcome::Down { message: "connection refused".to_string() },
        "2024-06-01T00:00:00Z".to_string(),
    );
    assert!(!health_status.is_healthy);
    let message = health_status.error_message.expect("error message must be present");
    assert!(!message.is_empty());
    assert_eq!(message, "connection refused");
    assert_eq!(health_status.horizon_url, "https://horizon-testnet.stellar.org");
}

#[test]
fn test_get_balances() {
    let client = test_client();
    let account = horizon_account(
        TEST_ADDRESS,
        "1",
        vec![native_balance("12.5"), afri_balance("99.0000001")],
    );
    let run = client.get_balances(TEST_ADDRESS, vec![FetchOutcome::Account(account)], fallback());
    match run.result {
        Some(Ok(balances)) => {
            assert!(!balances.is_empty());
            assert_eq!(balances.len(), 2);
            assert_eq!(balances[0].balance, "12.5");
        }
        other => panic!("Unexpected result: {:?}", other),
    }
}

#[test]
fn test_get_afri_balance() {
    let client = test_client();
    let account = horizon_account(
        TEST_ADDRESS,
        "1",
        vec![native_balance("12.5"), afri_balance("99.0000001")],
    );
    let run = client.get_afri_balance(TEST_ADDRESS, vec![FetchOutcome::Account(account)], fallback());
    match run.result {
        Some(Ok(afri_balance)) => {
            assert_eq!(afri_balance, Some("99.0000001".to_string()));
        }
        other => panic!("Unexpected result: {:?}", other),
    }
}

#[test]
fn test_get_afri_balance_without_trustline() {
    let client = test_client();
    let account = horizon_account(TEST_ADDRESS, "1", vec![native_balance("12.5")]);
    let run = client.get_afri_balance(TEST_ADDRESS, vec![FetchOutcome::Account(account)], fallback());
    assert!(matches!(run.result, Some(Ok(None))));
}

#[test]
fn test_created_at_falls_back_when_missing() {
    let client = test_client();
    let mut account = horizon_account(TEST_ADDRESS, "1", vec![native_balance("5")]);
    account.created_at = None;
    let run = client.get_account(TEST_ADDRESS, vec![FetchOutcome::Account(account)], fallback());
    match run.result {
        Some(Ok(info)) => assert_eq!(info.created_at, fallback()),
        other => panic!("Unexpected result: {:?}", other),
    }
}

#[test]
fn test_submission_is_not_retried() {
    let client = test_client();
    let rejected = client.submit_transaction_xdr(SubmitOutcome::Rejected {
        payload: "{\"extras\":{\"result_codes\":{\"transaction\":\"tx_bad_seq\"}}}".to_string(),
    });
    match rejected {
        Err(StellarError::SubmissionRejected { payload }) => {
            assert!(payload.contains("tx_bad_seq"));
        }
        other => panic!("Unexpected result: {:?}", other),
    }

    let accepted = client.submit_transaction_xdr(SubmitOutcome::Accepted {
        body: "{\"hash\":\"abc\"}".to_string(),
    });
    assert_eq!(accepted.unwrap(), "{\"hash\":\"abc\"}");

    let transport = client.submit_transaction_xdr(SubmitOutcome::TransportError {
        message: "broken pipe".to_string(),
    });
    assert!(matches!(transport, Err(StellarError::NetworkError { .. })));
}
