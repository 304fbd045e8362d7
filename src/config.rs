//! Server configuration: the settings read at startup and the defaults that
//! stand in for missing ones.
use vstd::prelude::*;
use crate::text::text_is;

verus! {

/// The whole server configuration.
#[derive(Debug, Clone)]
pub struct ApplicationConfig {
    pub lxd: ApplicationConfigLXD,
    pub tls: ApplicationConfigTLS,
    pub dns: ApplicationConfigDNS,
    pub log: ApplicationConfigLogger,
}

/// Where the container host listens, the identity used towards it, and the
/// zone suffix this server answers for.
#[derive(Debug, Clone)]
pub struct ApplicationConfigLXD {
    pub suffix: String,
    pub bind: ApplicationConfigHostPort,
    pub certificate: String,
    pub key: String,
}

/// TLS settings of the JSON read API (and of DoT / DoH listeners).
#[derive(Debug, Clone)]
pub struct ApplicationConfigTLS {
    pub bind: ApplicationConfigHostPort,
    pub so_reuse_port: bool,
    pub certificate: String,
    pub key: String,
    pub mtls: Option<ApplicationConfigTLSMTLS>,
    pub hostname: Option<String>,
}

/// The CA that client certificates must chain to.
#[derive(Debug, Clone)]
pub struct ApplicationConfigTLSMTLS {
    pub ca_certificate: String,
}

/// DNS listeners: plain UDP/TCP and the optional encrypted transports.
#[derive(Debug, Clone)]
pub struct ApplicationConfigDNS {
    pub bind: ApplicationConfigHostPort,
    pub quic: Option<ApplicationConfigQuic>,
    pub dot: Option<ApplicationConfigTLS>,
    pub doh: Option<ApplicationConfigTLS>,
}

/// The DNS-over-QUIC listener.
#[derive(Debug, Clone)]
pub struct ApplicationConfigQuic {
    pub bind: ApplicationConfigHostPort,
    pub hostname: String,
    pub certificate: String,
    pub key: String,
}

/// A host and a port.
#[derive(Debug, Clone)]
pub struct ApplicationConfigHostPort {
    pub port: u32,
    pub host: String,
}

/// Log level and destination (`stdout` or a directory).
#[derive(Debug, Clone)]
pub struct ApplicationConfigLogger {
    pub level: String,
    pub out: String,
}

/// Severity threshold of the log.
#[derive(Debug, Clone, Copy, PartialEq, Eq, Structural)]
pub enum LogLevel {
    Trace,
    Debug,
    Info,
    Warn,
    Error,
}

/// Verbosity of the web server's own log.
#[derive(Debug, Clone, Copy, PartialEq, Eq, Structural)]
pub enum WebLogLevel {
    Off,
    Critical,
    Normal,
    Debug,
}

/// The log level that a configured level name stands for; unknown names mean `Error`.
pub open spec fn log_level_of(s: Seq<char>) -> LogLevel {
    if s == "info"@ {
        LogLevel::Info
    } else if s == "trace"@ {
        LogLevel::Trace
    } else if s == "debug"@ {
        LogLevel::Debug
    } else if s == "warn"@ {
        LogLevel::Warn
    } else {
        LogLevel::Error
    }
}

/// The web server verbosity for a configured level name.
pub open spec fn web_log_level_of(s: Seq<char>) -> WebLogLevel {
    if s == "info"@ || s == "debug"@ {
        WebLogLevel::Normal
    } else if s == "trace"@ {
        WebLogLevel::Debug
    } else if s == "error"@ || s == "warn"@ {
        WebLogLevel::Critical
    } else {
        WebLogLevel::Off
    }
}

/// The virtual host name presented to the container host when it is
/// configured by IP address.
pub open spec fn upstream_virtual_host() -> Seq<char> {
    "local.lexa.kaidyth.com"@
}

/// The web server verbosity for a configured level name.
pub fn web_log_level(level: &String) -> (r: WebLogLevel)
    ensures
        r == web_log_level_of(level@),
{
    if text_is(level, "info") || text_is(level, "debug") {
        WebLogLevel::Normal
    } else if text_is(level, "trace") {
        WebLogLevel::Debug
    } else if text_is(level, "error") || text_is(level, "warn") {
        WebLogLevel::Critical
    } else {
        WebLogLevel::Off
    }
}

fn host_port(host: &str, port: u32) -> (r: ApplicationConfigHostPort)
    ensures
        r.host@ == host@,
        r.port == port,
{
    ApplicationConfigHostPort { port, host: host.to_owned() }
}

impl ApplicationConfig {
    /// The log level named by `log.level`.
    pub fn get_tracing_log_level(&self) -> (r: LogLevel)
        ensures
            r == log_level_of(self.log.level@),
    {
        let level = &self.log.level;
        if text_is(level, "info") {
            LogLevel::Info
        } else if text_is(level, "trace") {
            LogLevel::Trace
        } else if text_is(level, "debug") {
            LogLevel::Debug
        } else if text_is(level, "warn") {
            LogLevel::Warn
        } else {
            LogLevel::Error
        }
    }
}

impl ApplicationConfigLXD {
    /// The host name to reach the container host by: its configured host, or
    /// the fixed virtual host name where that host is an IP address.
    pub fn get_fqdn(&self, host_is_ip: bool) -> (r: String)
        ensures
            host_is_ip ==> r@ == upstream_virtual_host(),
            !host_is_ip ==> r@ == self.bind.host@,
    {
        if host_is_ip {
            "local.lexa.kaidyth.com".to_owned()
        } else {
            self.bind.host.clone()
        }
    }
}

impl Default for ApplicationConfigLXD {
    fn default() -> (r: Self)
        ensures
            r.suffix@ == "lexa"@,
            r.bind.port == 8443,
            r.bind.host@ == "127.0.0.1"@,
            r.certificate@ == "lexa.crt"@,
            r.key@ == "lexa.key"@,
    {
        ApplicationConfigLXD {
            suffix: "lexa".to_owned(),
            bind: host_port("127.0.0.1", 8443),
            certificate: "lexa.crt".to_owned(),
            key: "lexa.key".to_owned(),
        }
    }
}

impl Default for ApplicationConfigTLS {
    fn default() -> (r: Self)
        ensures
            r.bind.port == 18443,
            r.bind.host@ == "127.0.0.1"@,
            !r.so_reuse_port,
            r.certificate@ == "server.crt"@,
            r.key@ == "server.key"@,
            r.mtls is None,
            r.hostname is None,
    {
        ApplicationConfigTLS {
            bind: host_port("127.0.0.1", 18443),
            so_reuse_port: false,
            certificate: "server.crt".to_owned(),
            key: "server.key".to_owned(),
            mtls: None,
            hostname: None,
        }
    }
}

impl Default for ApplicationConfigDNS {
    fn default() -> (r: Self)
        ensures
            r.bind.port == 18053,
            r.bind.host@ == "127.0.0.1"@,
            r.quic is None,
            r.dot is None,
            r.doh is None,
    {
        ApplicationConfigDNS { bind: host_port("127.0.0.1", 18053), quic: None, dot: None, doh: None }
    }
}

impl Default for ApplicationConfigLogger {
    fn default() -> (r: Self)
        ensures
            r.level@ == "info"@,
            r.out@ == "stdout"@,
    {
        ApplicationConfigLogger { level: "info".to_owned(), out: "stdout".to_owned() }
    }
}

impl Default for ApplicationConfig {
    /// Every section at its default, but the JSON API listening on the DNS port.
    fn default() -> (r: Self)
        ensures
            r.lxd.suffix@ == "lexa"@,
            r.lxd.bind.port == 8443,
            r.lxd.bind.host@ == "127.0.0.1"@,
            r.lxd.certificate@ == "lexa.crt"@,
            r.lxd.key@ == "lexa.key"@,
            r.tls.bind.port == 18053,
            r.tls.bind.host@ == "127.0.0.1"@,
            !r.tls.so_reuse_port,
            r.tls.certificate@ == "server.crt"@,
            r.tls.key@ == "server.key"@,
            r.tls.mtls is None,
            r.tls.hostname is None,
            r.dns.bind.port == 18053,
            r.dns.bind.host@ == "127.0.0.1"@,
            r.dns.quic is None,
            r.dns.dot is None,
            r.dns.doh is None,
            r.log.level@ == "info"@,
            r.log.out@ == "stdout"@,
    {
        let mut tls = ApplicationConfigTLS::default();
        tls.bind = host_port("127.0.0.1", 18053);
        ApplicationConfig {
            lxd: ApplicationConfigLXD::default(),
            tls,
            dns: ApplicationConfigDNS::default(),
            log: ApplicationConfigLogger::default(),
        }
    }
}

} // verus!
