use stellar_core::client::StellarClient;
use stellar_core::config::{StellarConfig, StellarNetwork};
use stellar_core::errors::StellarError;

fn test_config() -> StellarConfig {
    StellarConfig {
        network: StellarNetwork::Testnet,
        request_timeout_secs: 15,
        max_retries: 3,
        health_check_interval_secs: 30,
    }
}

#[test]
fn test_config_validation() {
    let mut config = test_config();
    assert!(config.validate().is_ok());

    config.request_timeout_secs = 0;
    assert!(config.validate().is_err());

    config = test_config();
    config.max_retries = 0;
    assert!(config.validate().is_err());

    config = test_config();
    config.health_check_interval_secs = 0;
    assert!(config.validate().is_err());
}

#[test]
fn test_network_configurations() {
    let testnet_config = StellarConfig { network: StellarNetwork::Testnet, ..test_config() };
    assert_eq!(
        testnet_config.network.horizon_url(),
        "https://horizon-testnet.stellar.org"
    );
    assert_eq!(
        testnet_config.network.network_passphrase(),
        "Test SDF Network ; September 2015"
    );

    let mainnet_config = StellarConfig { network: StellarNetwork::Mainnet, ..test_config() };
    assert_eq!(mainnet_config.network.horizon_url(), "https://horizon.stellar.org");
    assert_eq!(
        mainnet_config.network.network_passphrase(),
        "Public Global Stellar Network ; September 2015"
    );
}

#[test]
fn test_stellar_client_creation() {
    let config = test_config();
    let client = StellarClient::new(config);
    assert!(client.is_ok());
}

#[test]
fn test_client_rejects_invalid_config() {
    let mut config = test_config();
    config.max_retries = 0;
    match StellarClient::new(config) {
        Err(StellarError::ValidationError { .. }) => {}
        other => panic!("expected a validation error, got {:?}", other),
    }
}

#[test]
fn test_default_config() {
    let config = StellarConfig::default();
    assert!(matches!(config.network, StellarNetwork::Testnet));
    assert_eq!(config.request_timeout_secs, 15);
    assert_eq!(config.max_retries, 3);
    assert_eq!(config.health_check_interval_secs, 30);
    assert!(config.validate().is_ok());
}
