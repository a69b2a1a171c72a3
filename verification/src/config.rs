//! The service configuration sections that hold no fractional numbers, and
//! the defaults the configuration falls back on.

use vstd::prelude::*;
use crate::text::{push_string, strings_view};

verus! {

pub fn default_database_pool_size() -> (r: usize)
    ensures
        r == 16,
{
    16
}

pub fn default_database_min_pool_size() -> (r: usize)
    ensures
        r == 4,
{
    4
}

pub fn default_pool_resize_step() -> (r: usize)
    ensures
        r == 2,
{
    2
}

pub fn default_compliance_alert_webhook() -> (r: Option<String>)
    ensures
        r is None,
{
    None
}

pub fn default_conversion_fee_bps() -> (r: u64)
    ensures
        r == 50,
{
    50
}

pub fn default_max_rate_age_seconds() -> (r: u64)
    ensures
        r == 300,
{
    300
}

#[derive(Debug, Clone)]
pub struct ServerConfig {
    pub port: u16,
}

#[derive(Debug, Clone)]
pub struct JwtConfig {
    pub secret: String,
    pub expiration_hours: i64,
    pub refresh_expiration_hours: i64,
}

#[derive(Debug, Clone, Copy, PartialEq, Eq, Structural)]
pub enum EnvironmentType {
    Development,
    Staging,
    Production,
}

#[derive(Debug, Clone)]
pub struct StellarNetwork {
    pub passphrase: String,
    pub horizon_url: String,
    pub rpc_url: String,
    pub network_id: String,
    /// Secret of the account that sponsors fees, when the server pays them.
    pub fee_payer_secret: Option<String>,
}

#[derive(Debug, Clone)]
pub struct AnchorConfig {
    pub sep24_url: String,
    pub sep31_url: String,
    pub webhook_secret: String,
    pub kyc_required: bool,
}

#[derive(Debug, Clone)]
pub struct BridgeConfig {
    pub ethereum_rpc_url: String,
    pub polygon_rpc_url: String,
    pub bsc_rpc_url: String,
    pub supported_assets: Vec<String>,
    pub min_bridge_amount: u64,
    pub max_bridge_amount: u64,
}

/// One sanctions screening provider.
#[derive(Debug, Clone)]
pub struct SanctionsProviderConfig {
    /// "ofac", "un", "eu" or "fca".
    pub provider_type: String,
    pub enabled: bool,
    pub api_url: String,
    pub api_key: String,
    pub priority: i32,
    pub timeout_seconds: u32,
}

impl Default for SanctionsProviderConfig {
    fn default() -> (r: Self)
        ensures
            r.provider_type@ == Seq::<char>::empty(),
            !r.enabled,
            r.api_url@ == Seq::<char>::empty(),
            r.api_key@ == Seq::<char>::empty(),
            r.priority == 0,
            r.timeout_seconds == 0,
    {
        SanctionsProviderConfig {
            provider_type: String::new(),
            enabled: false,
            api_url: String::new(),
            api_key: String::new(),
            priority: 0,
            timeout_seconds: 0,
        }
    }
}

/// Per-user spending limits, in minor units.
#[derive(Debug, Clone, Copy)]
pub struct VelocityLimits {
    pub daily_transaction_limit: u64,
    pub monthly_transaction_limit: u64,
    pub max_transaction_amount: u64,
}

/// Amounts from which a transaction is medium or high risk, and address
/// fragments that mark an address as suspicious.
#[derive(Debug, Clone)]
pub struct RiskThresholds {
    pub high_risk_amount: u64,
    pub medium_risk_amount: u64,
    pub suspicious_patterns: Vec<String>,
}

#[derive(Debug, Clone)]
pub struct ObservabilityConfig {
    pub service_name: String,
    pub sentry_dsn: Option<String>,
    pub alert_webhook_url: Option<String>,
    pub log_retention_days: u16,
}

impl Default for ObservabilityConfig {
    fn default() -> (r: Self)
        ensures
            r.service_name@ == "blinks-backend"@,
            r.sentry_dsn is None,
            r.alert_webhook_url is None,
            r.log_retention_days == 30,
    {
        ObservabilityConfig {
            service_name: "blinks-backend".to_owned(),
            sentry_dsn: None,
            alert_webhook_url: None,
            log_retention_days: 30,
        }
    }
}

#[derive(Debug, Clone)]
pub struct CacheConfig {
    pub redis_url: String,
    pub default_ttl_seconds: u64,
    pub hot_data_ttl_seconds: u64,
}

impl Default for CacheConfig {
    fn default() -> (r: Self)
        ensures
            r.redis_url@ == "redis://localhost:6379"@,
            r.default_ttl_seconds == 300,
            r.hot_data_ttl_seconds == 60,
    {
        CacheConfig { redis_url: "redis://localhost:6379".to_owned(), default_ttl_seconds: 300, hot_data_ttl_seconds: 60 }
    }
}

#[derive(Debug, Clone, Copy)]
pub struct CurrencyConfig {
    /// Fee on conversions between different currencies, in basis points.
    pub conversion_fee_bps: u64,
    /// How old an exchange rate may be before it is refused.
    pub max_rate_age_seconds: u64,
}

impl Default for CurrencyConfig {
    fn default() -> (r: Self)
        ensures
            r.conversion_fee_bps == 50,
            r.max_rate_age_seconds == 300,
    {
        CurrencyConfig { conversion_fee_bps: 50, max_rate_age_seconds: 300 }
    }
}

#[derive(Debug, Clone, Copy, PartialEq, Eq, Structural)]
pub enum StorageBackend {
    Local,
    S3,
    Ipfs,
}

impl Default for StorageBackend {
    fn default() -> (r: Self)
        ensures
            r == StorageBackend::Local,
    {
        StorageBackend::Local
    }
}

#[derive(Debug, Clone)]
pub struct StorageConfig {
    pub backend: StorageBackend,
    pub local_path: Option<String>,
}

impl Default for StorageConfig {
    fn default() -> (r: Self)
        ensures
            r.backend == StorageBackend::Local,
            r.local_path matches Some(p) && p@ == "./uploads"@,
    {
        StorageConfig { backend: StorageBackend::Local, local_path: Some("./uploads".to_owned()) }
    }
}

// The sections of the default (development) configuration.

impl Default for ServerConfig {
    fn default() -> (r: Self)
        ensures
            r.port == 3000,
    {
        ServerConfig { port: 3000 }
    }
}

impl Default for JwtConfig {
    /// Access tokens that expire after 24 hours, refresh tokens after seven
    /// days.
    fn default() -> (r: Self)
        ensures
            r.secret@ == "change-this-in-production"@,
            r.expiration_hours == 24,
            r.refresh_expiration_hours == 168,
    {
        JwtConfig { secret: "change-this-in-production".to_owned(), expiration_hours: 24, refresh_expiration_hours: 168 }
    }
}

impl Default for EnvironmentType {
    fn default() -> (r: Self)
        ensures
            r == EnvironmentType::Development,
    {
        EnvironmentType::Development
    }
}

impl Default for StellarNetwork {
    /// The Stellar test network, with no fee sponsor.
    fn default() -> (r: Self)
        ensures
            r.passphrase@ == "Test SDF Network ; September 2015"@,
            r.horizon_url@ == "https://horizon-testnet.stellar.org"@,
            r.rpc_url@ == "https://soroban-testnet.stellar.org"@,
            r.network_id@ == "Test SDF Network ; September 2015"@,
            r.fee_payer_secret is None,
    {
        StellarNetwork {
            passphrase: "Test SDF Network ; September 2015".to_owned(),
            horizon_url: "https://horizon-testnet.stellar.org".to_owned(),
            rpc_url: "https://soroban-testnet.stellar.org".to_owned(),
            network_id: "Test SDF Network ; September 2015".to_owned(),
            fee_payer_secret: None,
        }
    }
}

impl Default for AnchorConfig {
    fn default() -> (r: Self)
        ensures
            r.sep24_url@ == "https://anchor.example.com/sep24"@,
            r.sep31_url@ == "https://anchor.example.com/sep31"@,
            r.webhook_secret@ == "webhook-secret"@,
            r.kyc_required,
    {
        AnchorConfig {
            sep24_url: "https://anchor.example.com/sep24".to_owned(),
            sep31_url: "https://anchor.example.com/sep31".to_owned(),
            webhook_secret: "webhook-secret".to_owned(),
            kyc_required: true,
        }
    }
}

impl Default for BridgeConfig {
    /// USDC and USDT, between 1 and 1000 US dollars (in cents).
    fn default() -> (r: Self)
        ensures
            r.ethereum_rpc_url@ == "https://mainnet.infura.io/v3/YOUR_PROJECT_ID"@,
            r.polygon_rpc_url@ == "https://polygon-rpc.com"@,
            r.bsc_rpc_url@ == "https://bsc-dataseed.binance.org"@,
            strings_view(r.supported_assets@) == seq!["USDC"@, "USDT"@],
            r.min_bridge_amount == 1_000_000,
            r.max_bridge_amount == 100_000_000,
    {
        let mut supported_assets: Vec<String> = Vec::new();
        push_string(&mut supported_assets, "USDC".to_owned());
        push_string(&mut supported_assets, "USDT".to_owned());
        assert(strings_view(supported_assets@) =~= seq!["USDC"@, "USDT"@]);
        BridgeConfig {
            ethereum_rpc_url: "https://mainnet.infura.io/v3/YOUR_PROJECT_ID".to_owned(),
            polygon_rpc_url: "https://polygon-rpc.com".to_owned(),
            bsc_rpc_url: "https://bsc-dataseed.binance.org".to_owned(),
            supported_assets,
            min_bridge_amount: 1_000_000,
            max_bridge_amount: 100_000_000,
        }
    }
}

impl Default for VelocityLimits {
    /// 10 000 US dollars a day, 100 000 a month and 5 000 a transaction.
    fn default() -> (r: Self)
        ensures
            r.daily_transaction_limit == 10_000_000,
            r.monthly_transaction_limit == 100_000_000,
            r.max_transaction_amount == 5_000_000,
    {
        VelocityLimits {
            daily_transaction_limit: 10_000_000,
            monthly_transaction_limit: 100_000_000,
            max_transaction_amount: 5_000_000,
        }
    }
}

impl Default for RiskThresholds {
    /// High risk from 10 000 US dollars, medium from 1 000, no suspicious
    /// address pattern.
    fn default() -> (r: Self)
        ensures
            r.high_risk_amount == 10_000_000,
            r.medium_risk_amount == 1_000_000,
            r.suspicious_patterns@.len() == 0,
    {
        RiskThresholds { high_risk_amount: 10_000_000, medium_risk_amount: 1_000_000, suspicious_patterns: Vec::new() }
    }
}

/// One provider's identity in the default provider list.
pub open spec fn provider_view(p: SanctionsProviderConfig) -> (Seq<char>, bool, Seq<char>, Seq<char>, i32, u32) {
    (p.provider_type@, p.enabled, p.api_url@, p.api_key@, p.priority, p.timeout_seconds)
}

/// The default sanctions providers: OFAC first, then the UN list, both
/// enabled with a five-second timeout.
pub fn default_sanctions_providers() -> (r: Vec<SanctionsProviderConfig>)
    ensures
        r@.map_values(|p: SanctionsProviderConfig| provider_view(p)) == seq![
            ("ofac"@, true, "https://api.ofac.example.com"@, "ofac-key"@, 1i32, 5u32),
            ("un"@, true, "https://api.un-sanctions.example.com"@, "un-key"@, 2i32, 5u32),
        ],
{
    let mut r: Vec<SanctionsProviderConfig> = Vec::new();
    r.push(
        SanctionsProviderConfig {
            provider_type: "ofac".to_owned(),
            enabled: true,
            api_url: "https://api.ofac.example.com".to_owned(),
            api_key: "ofac-key".to_owned(),
            priority: 1,
            timeout_seconds: 5,
        },
    );
    r.push(
        SanctionsProviderConfig {
            provider_type: "un".to_owned(),
            enabled: true,
            api_url: "https://api.un-sanctions.example.com".to_owned(),
            api_key: "un-key".to_owned(),
            priority: 2,
            timeout_seconds: 5,
        },
    );
    assert(r@.map_values(|p: SanctionsProviderConfig| provider_view(p)) =~= seq![
        ("ofac"@, true, "https://api.ofac.example.com"@, "ofac-key"@, 1i32, 5u32),
        ("un"@, true, "https://api.un-sanctions.example.com"@, "un-key"@, 2i32, 5u32),
    ]);
    r
}

} // verus!
