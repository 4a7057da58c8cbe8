//! Server configuration data: plain values the transport layer fills in at
//! startup and hands to the components.

use vstd::prelude::*;

verus! {

/// Logging configuration.
#[derive(Debug, Clone)]
pub struct LogConfig {
    pub filter_level: String,
    pub with_ansi: bool,
    pub format: String,
    pub with_level: bool,
    pub with_target: bool,
    pub with_thread_ids: bool,
    pub with_thread_names: bool,
    pub with_source_location: bool,
}

/// Top-level server configuration.
#[derive(Debug, Clone)]
pub struct ServerConfig {
    pub listen_addr: String,
    pub listen_http_port: u16,
    pub listen_https_port: u16,
    pub domain: Option<String>,
    pub database_url: String,
    pub log: LogConfig,
    pub tls: Option<TlsConfig>,
    pub serve_dir: String,
}

/// TLS certificate and key locations.
#[derive(Debug, Clone)]
pub struct TlsConfig {
    pub cert: String,
    pub key: String,
}

/// The default for boolean options that start off.
pub fn default_false() -> (r: bool)
    ensures
        r == false,
{
    false
}

/// The default for boolean options that start on.
pub fn default_true() -> (r: bool)
    ensures
        r == true,
{
    true
}

/// The default log filter level.
pub fn default_filter_level() -> (r: String)
    ensures
        r@ == "info"@,
{
    "info".to_owned()
}

/// The default log line format.
pub fn default_format() -> (r: String)
    ensures
        r@ == "full"@,
{
    "full".to_owned()
}

impl Default for LogConfig {
    /// The default logging configuration: full format at the info level,
    /// with every decoration on.
    fn default() -> (r: LogConfig)
        ensures
            r.filter_level@ == "info"@,
            r.format@ == "full"@,
            r.with_ansi && r.with_level && r.with_target && r.with_thread_ids
                && r.with_thread_names && r.with_source_location,
    {
        LogConfig {
            filter_level: default_filter_level(),
            with_ansi: true,
            format: default_format(),
            with_level: true,
            with_target: true,
            with_thread_ids: true,
            with_thread_names: true,
            with_source_location: true,
        }
    }
}

} // verus!
