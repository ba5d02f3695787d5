//! Static per-network parameters: gateway base URL, signing passphrase,
//! request timeout, retry budget and health-check interval.

use vstd::prelude::*;

use crate::errors::StellarError;

verus! {

/// The two recognised networks.
#[derive(Debug, Clone, Copy, PartialEq, Eq, Structural)]
pub enum StellarNetwork {
    Testnet,
    Mainnet,
}

/// Gateway base URL of a network.
pub open spec fn spec_horizon_url(n: StellarNetwork) -> Seq<char> {
    match n {
        StellarNetwork::Testnet => "https://horizon-testnet.stellar.org"@,
        StellarNetwork::Mainnet => "https://horizon.stellar.org"@,
    }
}

/// Signing passphrase of a network.
pub open spec fn spec_network_passphrase(n: StellarNetwork) -> Seq<char> {
    match n {
        StellarNetwork::Testnet => "Test SDF Network ; September 2015"@,
        StellarNetwork::Mainnet => "Public Global Stellar Network ; September 2015"@,
    }
}

impl StellarNetwork {
    /// Base URL of the network's public gateway.
    pub fn horizon_url(&self) -> (r: &'static str)
        ensures
            r@ == spec_horizon_url(*self),
    {
        match self {
            StellarNetwork::Testnet => "https://horizon-testnet.stellar.org",
            StellarNetwork::Mainnet => "https://horizon.stellar.org",
        }
    }

    /// Textual passphrase that binds a signature to this network: an envelope
    /// signed for one network is invalid on the other.
    pub fn network_passphrase(&self) -> (r: &'static str)
        ensures
            r@ == spec_network_passphrase(*self),
    {
        match self {
            StellarNetwork::Testnet => "Test SDF Network ; September 2015",
            StellarNetwork::Mainnet => "Public Global Stellar Network ; September 2015",
        }
    }
}

/// Immutable client configuration, selected once at startup.
#[derive(Debug, Clone)]
pub struct StellarConfig {
    pub network: StellarNetwork,
    /// Per-attempt request timeout, in seconds. Must be positive.
    pub request_timeout_secs: u64,
    /// Maximum number of attempts for retried read operations. Must be positive.
    pub max_retries: u32,
    /// Interval between periodic health probes, in seconds. Must be positive.
    pub health_check_interval_secs: u64,
}

impl StellarConfig {
    /// A configuration is usable iff every duration and the retry budget
    /// are positive.
    pub open spec fn spec_valid(&self) -> bool {
        &&& self.request_timeout_secs > 0
        &&& self.max_retries > 0
        &&& self.health_check_interval_secs > 0
    }

    /// Checks the configuration, reporting the first violated constraint.
    pub fn validate(&self) -> (r: Result<(), StellarError>)
        ensures
            r is Ok <==> self.spec_valid(),
            r is Err ==> r->Err_0 is ValidationError,
    {
        if self.request_timeout_secs == 0 {
            return Err(StellarError::ValidationError {
                message: String::from_str("request timeout must be greater than 0"),
            });
        }
        if self.max_retries == 0 {
            return Err(StellarError::ValidationError {
                message: String::from_str("max retries must be greater than 0"),
            });
        }
        if self.health_check_interval_secs == 0 {
            return Err(StellarError::ValidationError {
                message: String::from_str("health check interval must be greater than 0"),
            });
        }
        Ok(())
    }
}

impl Default for StellarConfig {
    /// Testnet, 15 s timeout, 3 retries, 30 s health interval.
    fn default() -> (r: Self)
        ensures
            r.network is Testnet,
            r.request_timeout_secs == 15,
            r.max_retries == 3,
            r.health_check_interval_secs == 30,
            r.spec_valid(),
    {
        StellarConfig {
            network: StellarNetwork::Testnet,
            request_timeout_secs: 15,
            max_retries: 3,
            health_check_interval_secs: 30,
        }
    }
}

} // verus!
