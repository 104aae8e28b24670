use vstd::prelude::*;

verus! {

/// Settings that apply to every monitored client.
#[derive(Clone, Debug)]
pub struct GlobalConfig {
    /// Seconds between two check cycles.
    pub check_interval: u64,
    /// Hours of trust left below which a client is in warning.
    pub warning_threshold: u64,
    /// Hours of trust left below which a client is critical.
    pub critical_threshold: u64,
    pub webhook_url: Option<String>,
    pub metrics_enabled: Option<bool>,
    pub metrics_addr: Option<String>,
}

/// One monitored client, named directly or reached through a channel.
#[derive(Clone, Debug)]
pub struct MonitorConfig {
    pub name: String,
    pub description: String,
    pub chain_id: String,
    pub rpc_addr: String,
    pub grpc_addr: String,
    /// The client to watch; when absent it is discovered from `channel`.
    pub client_id: Option<String>,
    pub channel: String,
}

/// The whole monitor configuration.
#[derive(Clone, Debug)]
pub struct Config {
    pub global: GlobalConfig,
    pub monitors: Vec<MonitorConfig>,
}

impl Default for GlobalConfig {
    /// A check every five minutes, warning below two days, critical below one,
    /// no webhook, metrics served on port 9090.
    fn default() -> (r: GlobalConfig)
        ensures
            r.check_interval == 300,
            r.warning_threshold == 48,
            r.critical_threshold == 24,
            r.webhook_url is None,
            r.metrics_enabled == Some(true),
            r.metrics_addr matches Some(a) && a@ == "0.0.0.0:9090"@,
    {
        GlobalConfig {
            check_interval: 300,
            warning_threshold: 48,
            critical_threshold: 24,
            webhook_url: None,
            metrics_enabled: Some(true),
            metrics_addr: Some(String::from_str("0.0.0.0:9090")),
        }
    }
}

} // verus!
