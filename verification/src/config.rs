//! The configuration of the service and its defaults.

use vstd::prelude::*;
use vstd::string::*;

verus! {

/// Where the service runs.
#[derive(Debug, Clone, Copy, PartialEq, Eq, Structural)]
pub enum EnvironmentType {
    Development,
    Staging,
    Production,
}

/// The Stellar network that the service talks to.
#[derive(Debug)]
pub struct StellarNetwork {
    pub passphrase: String,
    pub horizon_url: String,
    pub rpc_url: String,
    pub network_id: String,
}

/// The anchor endpoints.
#[derive(Debug)]
pub struct AnchorConfig {
    pub sep24_url: String,
    pub sep31_url: String,
    pub webhook_secret: String,
    pub kyc_required: bool,
}

/// The bridge endpoints and the limits of a bridge transfer.
#[derive(Debug)]
pub struct BridgeConfig {
    pub ethereum_rpc_url: String,
    pub polygon_rpc_url: String,
    pub bsc_rpc_url: String,
    pub supported_assets: Vec<String>,
    pub min_bridge_amount: u64,
    pub max_bridge_amount: u64,
}

/// The limits on what a user may move in a period.
#[derive(Debug, Clone, Copy, PartialEq, Eq, Structural)]
pub struct VelocityLimits {
    pub daily_transaction_limit: u64,
    pub monthly_transaction_limit: u64,
    pub max_transaction_amount: u64,
}

/// The amounts from which a transaction counts as risky.
#[derive(Debug)]
pub struct RiskThresholds {
    pub high_risk_amount: u64,
    pub medium_risk_amount: u64,
    pub suspicious_patterns: Vec<String>,
}

/// The compliance endpoints and limits.
#[derive(Debug)]
pub struct ComplianceConfig {
    pub sanctions_api_url: String,
    pub sanctions_api_key: String,
    pub velocity_limits: VelocityLimits,
    pub risk_thresholds: RiskThresholds,
}

/// The configuration of the service.
#[derive(Debug)]
pub struct Config {
    pub database_url: String,
    pub port: u16,
    pub jwt_secret: String,
    pub jwt_expiration_hours: i64,
    pub stellar_network: StellarNetwork,
    pub anchor_config: AnchorConfig,
    pub bridge_config: BridgeConfig,
    pub compliance_config: ComplianceConfig,
    pub environment: EnvironmentType,
}

impl Config {
    /// The configuration carries the defaults of a development setup.
    pub open spec fn is_default(self) -> bool {
        &&& self.database_url@ == "postgres://localhost/zaps"@
        &&& self.port == 3000
        &&& self.jwt_secret@ == "change-this-in-production"@
        &&& self.jwt_expiration_hours == 24
        &&& self.stellar_network.passphrase@ == "Test SDF Network ; September 2015"@
        &&& self.stellar_network.horizon_url@ == "https://horizon-testnet.stellar.org"@
        &&& self.stellar_network.rpc_url@ == "https://soroban-testnet.stellar.org"@
        &&& self.stellar_network.network_id@ == "Test SDF Network ; September 2015"@
        &&& self.anchor_config.sep24_url@ == "https://anchor.example.com/sep24"@
        &&& self.anchor_config.sep31_url@ == "https://anchor.example.com/sep31"@
        &&& self.anchor_config.webhook_secret@ == "webhook-secret"@
        &&& self.anchor_config.kyc_required
        &&& self.bridge_config.ethereum_rpc_url@ == "https://mainnet.infura.io/v3/YOUR_PROJECT_ID"@
        &&& self.bridge_config.polygon_rpc_url@ == "https://polygon-rpc.com"@
        &&& self.bridge_config.bsc_rpc_url@ == "https://bsc-dataseed.binance.org"@
        &&& self.bridge_config.supported_assets@.len() == 2
        &&& self.bridge_config.supported_assets@[0]@ == "USDC"@
        &&& self.bridge_config.supported_assets@[1]@ == "USDT"@
        &&& self.bridge_config.min_bridge_amount == 1_000_000
        &&& self.bridge_config.max_bridge_amount == 100_000_000
        &&& self.compliance_config.sanctions_api_url@ == "https://api.sanctions.example.com"@
        &&& self.compliance_config.sanctions_api_key@ == "api-key"@
        &&& self.compliance_config.velocity_limits == (VelocityLimits {
            daily_transaction_limit: 10_000_000,
            monthly_transaction_limit: 100_000_000,
            max_transaction_amount: 5_000_000,
        })
        &&& self.compliance_config.risk_thresholds.high_risk_amount == 10_000_000
        &&& self.compliance_config.risk_thresholds.medium_risk_amount == 1_000_000
        &&& self.compliance_config.risk_thresholds.suspicious_patterns@.len() == 0
        &&& self.environment == EnvironmentType::Development
    }
}

impl Default for Config {
    fn default() -> (config: Config)
        ensures
            config.is_default(),
    {
        let mut supported_assets: Vec<String> = Vec::new();
        supported_assets.push(String::from_str("USDC"));
        supported_assets.push(String::from_str("USDT"));
        Config {
            database_url: String::from_str("postgres://localhost/zaps"),
            port: 3000,
            jwt_secret: String::from_str("change-this-in-production"),
            jwt_expiration_hours: 24,
            stellar_network: StellarNetwork {
                passphrase: String::from_str("Test SDF Network ; September 2015"),
                horizon_url: String::from_str("https://horizon-testnet.stellar.org"),
                rpc_url: String::from_str("https://soroban-testnet.stellar.org"),
                network_id: String::from_str("Test SDF Network ; September 2015"),
            },
            anchor_config: AnchorConfig {
                sep24_url: String::from_str("https://anchor.example.com/sep24"),
                sep31_url: String::from_str("https://anchor.example.com/sep31"),
                webhook_secret: String::from_str("webhook-secret"),
                kyc_required: true,
            },
            bridge_config: BridgeConfig {
                ethereum_rpc_url: String::from_str("https://mainnet.infura.io/v3/YOUR_PROJECT_ID"),
                polygon_rpc_url: String::from_str("https://polygon-rpc.com"),
                bsc_rpc_url: String::from_str("https://bsc-dataseed.binance.org"),
                supported_assets,
                min_bridge_amount: 1_000_000,
                max_bridge_amount: 100_000_000,
            },
            compliance_config: ComplianceConfig {
                sanctions_api_url: String::from_str("https://api.sanctions.example.com"),
                sanctions_api_key: String::from_str("api-key"),
                velocity_limits: VelocityLimits {
                    daily_transaction_limit: 10_000_000,
                    monthly_transaction_limit: 100_000_000,
                    max_transaction_amount: 5_000_000,
                },
                risk_thresholds: RiskThresholds {
                    high_risk_amount: 10_000_000,
                    medium_risk_amount: 1_000_000,
                    suspicious_patterns: Vec::new(),
                },
            },
            environment: EnvironmentType::Development,
        }
    }
}

} // verus!
