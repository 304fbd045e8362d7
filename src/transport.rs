//! Which DNS listeners a configuration asks for.
use vstd::prelude::*;
use crate::config::{ApplicationConfigDNS, ApplicationConfigHostPort, ApplicationConfigTLS};

verus! {

/// A DNS transport.
#[derive(Debug, Clone, Copy, PartialEq, Eq, Structural)]
pub enum Transport {
    Udp,
    Tcp,
    /// DNS over QUIC.
    Quic,
    /// DNS over TLS.
    Tls,
    /// DNS over HTTPS.
    Https,
}

/// One listener to bind.
#[derive(Debug, Clone)]
pub struct Listener {
    pub transport: Transport,
    pub host: String,
    pub port: u32,
    /// Certificate chain and private key files (PEM), for encrypted transports.
    pub certificate: Option<String>,
    pub key: Option<String>,
    /// The TLS server name, where the transport takes one.
    pub hostname: Option<String>,
}

/// Why the server cannot start.
#[derive(Debug, Clone, Copy, PartialEq, Eq, Structural)]
pub enum StartupError {
    /// DNS over HTTPS is configured without a host name.
    MissingHostname,
}

/// A listener as values: transport, host, port, certificate, key, host name.
pub type ListenerView = (
    Transport,
    Seq<char>,
    u32,
    Option<Seq<char>>,
    Option<Seq<char>>,
    Option<Seq<char>>,
);

pub open spec fn opt_view(o: Option<String>) -> Option<Seq<char>> {
    match o {
        Some(s) => Some(s@),
        None => None,
    }
}

impl View for Listener {
    type V = ListenerView;

    open spec fn view(&self) -> ListenerView {
        (
            self.transport,
            self.host@,
            self.port,
            opt_view(self.certificate),
            opt_view(self.key),
            opt_view(self.hostname),
        )
    }
}

pub open spec fn plain(t: Transport, b: ApplicationConfigHostPort) -> ListenerView {
    (t, b.host@, b.port, None, None, None)
}

pub open spec fn secured(t: Transport, c: ApplicationConfigTLS) -> ListenerView {
    (t, c.bind.host@, c.bind.port, Some(c.certificate@), Some(c.key@), opt_view(c.hostname))
}

/// The DoH block lacks a usable host name.
pub open spec fn doh_without_hostname(dns: ApplicationConfigDNS) -> bool {
    match dns.doh {
        Some(c) => match c.hostname {
            Some(h) => h@.len() == 0,
            None => true,
        },
        None => false,
    }
}

pub open spec fn quic_part(dns: ApplicationConfigDNS) -> Seq<ListenerView> {
    match dns.quic {
        Some(q) => seq![
            (
                Transport::Quic,
                q.bind.host@,
                q.bind.port,
                Some(q.certificate@),
                Some(q.key@),
                if q.hostname@.len() == 0 {
                    None
                } else {
                    Some(q.hostname@)
                },
            ),
        ],
        None => Seq::empty(),
    }
}

pub open spec fn dot_part(dns: ApplicationConfigDNS) -> Seq<ListenerView> {
    match dns.dot {
        Some(c) => seq![secured(Transport::Tls, c)],
        None => Seq::empty(),
    }
}

pub open spec fn doh_part(dns: ApplicationConfigDNS) -> Seq<ListenerView> {
    match dns.doh {
        Some(c) => seq![secured(Transport::Https, c)],
        None => Seq::empty(),
    }
}

/// UDP and TCP on the DNS address, then QUIC, DoT and DoH where configured.
pub open spec fn listeners_of(dns: ApplicationConfigDNS) -> Seq<ListenerView> {
    seq![plain(Transport::Udp, dns.bind), plain(Transport::Tcp, dns.bind)] + quic_part(dns)
        + dot_part(dns) + doh_part(dns)
}

fn copy_opt(o: &Option<String>) -> (r: Option<String>)
    ensures
        opt_view(r) == opt_view(*o),
{
    match o {
        Some(s) => Some(s.clone()),
        None => None,
    }
}

fn plain_listener(t: Transport, b: &ApplicationConfigHostPort) -> (r: Listener)
    ensures
        r@ == plain(t, *b),
{
    Listener { transport: t, host: b.host.clone(), port: b.port, certificate: None, key: None, hostname: None }
}

fn secured_listener(t: Transport, c: &ApplicationConfigTLS) -> (r: Listener)
    ensures
        r@ == secured(t, *c),
{
    Listener {
        transport: t,
        host: c.bind.host.clone(),
        port: c.bind.port,
        certificate: Some(c.certificate.clone()),
        key: Some(c.key.clone()),
        hostname: copy_opt(&c.hostname),
    }
}

/// The listeners to bind, in order; refused where DoH has no host name.
pub fn plan_listeners(dns: &ApplicationConfigDNS) -> (r: Result<Vec<Listener>, StartupError>)
    ensures
        r is Err <==> doh_without_hostname(*dns),
        r is Ok ==> r->Ok_0@.map_values(|l: Listener| l@) == listeners_of(*dns),
{
    let ghost want = listeners_of(*dns);
    let mut out: Vec<Listener> = Vec::new();
    out.push(plain_listener(Transport::Udp, &dns.bind));
    out.push(plain_listener(Transport::Tcp, &dns.bind));
    let ghost g1 = seq![plain(Transport::Udp, dns.bind), plain(Transport::Tcp, dns.bind)];
    assert(out@.map_values(|l: Listener| l@) =~= g1);
    let ghost g2 = g1 + quic_part(*dns);
    match &dns.quic {
        Some(q) => {
            let hostname = if q.hostname.as_str().unicode_len() == 0 {
                None
            } else {
                Some(q.hostname.clone())
            };
            out.push(
                Listener {
                    transport: Transport::Quic,
                    host: q.bind.host.clone(),
                    port: q.bind.port,
                    certificate: Some(q.certificate.clone()),
                    key: Some(q.key.clone()),
                    hostname,
                },
            );
        },
        None => {},
    }
    assert(out@.map_values(|l: Listener| l@) =~= g2);
    let ghost g3 = g2 + dot_part(*dns);
    match &dns.dot {
        Some(c) => out.push(secured_listener(Transport::Tls, c)),
        None => {},
    }
    assert(out@.map_values(|l: Listener| l@) =~= g3);
    match &dns.doh {
        Some(c) => {
            let usable = match &c.hostname {
                Some(h) => h.as_str().unicode_len() > 0,
                None => false,
            };
            if !usable {
                return Err(StartupError::MissingHostname);
            }
            out.push(secured_listener(Transport::Https, c));
        },
        None => {},
    }
    assert(out@.map_values(|l: Listener| l@) =~= want);
    Ok(out)
}

} // verus!
