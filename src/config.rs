use vstd::prelude::*;

verus! {

/// Port used when none is configured.
pub const DEFAULT_PORT: u16 = 8080;

/// Outbound-request timeout, in seconds, used when none is configured.
pub const DEFAULT_TIMEOUT_SECS: u64 = 30;

/// Process-wide settings, read once at startup.
pub struct Config {
    pub database_url: String,
    pub server_host: String,
    pub server_port: u16,
    pub external_api_timeout_secs: u64,
}

impl Config {
    /// Settings from the configured values, with the defaults for those not
    /// given: host `0.0.0.0`, port 8080, timeout 30 s.
    pub fn with_defaults(
        database_url: String,
        server_host: Option<String>,
        server_port: Option<u16>,
        external_api_timeout_secs: Option<u64>,
    ) -> (r: Config)
        ensures
            r.database_url == database_url,
            r.server_host@ == (match server_host {
                Some(h) => h@,
                None => "0.0.0.0"@,
            }),
            r.server_port == (match server_port {
                Some(p) => p,
                None => DEFAULT_PORT,
            }),
            r.external_api_timeout_secs == (match external_api_timeout_secs {
                Some(t) => t,
                None => DEFAULT_TIMEOUT_SECS,
            }),
    {
        let server_host = match server_host {
            Some(h) => h,
            None => String::from_str("0.0.0.0"),
        };
        let server_port = match server_port {
            Some(p) => p,
            None => DEFAULT_PORT,
        };
        let external_api_timeout_secs = match external_api_timeout_secs {
            Some(t) => t,
            None => DEFAULT_TIMEOUT_SECS,
        };
        Config { database_url, server_host, server_port, external_api_timeout_secs }
    }
}

} // verus!
