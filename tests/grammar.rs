use lexa::api::{list_instances, pattern_for};
use lexa::config::{
    web_log_level, ApplicationConfig, ApplicationConfigDNS, ApplicationConfigLXD, ApplicationConfigTLS,
    LogLevel, WebLogLevel,
};
use lexa::handler::strip_zone_text;
use lexa::inventory::Metadaum;
use lexa::query::{Query, QueryError, QueryType, ServiceQueryData, ServiceQueryProtocol, ServiceQueryType};
use lexa::records::RecordType;
use lexa::text::{join_labels, remove_backslashes, split_labels};
use lexa::transport::{plan_listeners, StartupError, Transport};

fn query(name: &str) -> Query {
    Query::new(name.to_string(), ApplicationConfigLXD::default())
}

fn opt(s: &str) -> Option<String> {
    Some(s.to_string())
}

#[test]
fn labels_split_on_dots() {
    assert_eq!(split_labels("eth0.if.web"), vec!["eth0", "if", "web"]);
    assert_eq!(split_labels("a..b"), vec!["a", "", "b"]);
    assert_eq!(split_labels("web"), vec!["web"]);
    assert!(split_labels("").is_empty());
    let mut q = query("x.y.cluster.web");
    assert_eq!(q.get_query_pieces(), vec!["x", "y", "cluster", "web"]);
    assert_eq!(q.get_query_pieces(), vec!["x", "y", "cluster", "web"]);
}

#[test]
fn labels_join_with_dots() {
    let p: Vec<String> = vec!["a".into(), "b".into(), "c".into()];
    assert_eq!(join_labels(&p, 0, 2), "a.b");
    assert_eq!(join_labels(&p, 1, 1), "");
    assert_eq!(remove_backslashes("we\\*b"), "we*b");
}

#[test]
fn zone_suffix_is_stripped() {
    assert_eq!(strip_zone_text("eth0.if.web.lexa.", "lexa"), "eth0.if.web");
    assert_eq!(strip_zone_text("web.lexa", "lexa"), "web");
    assert_eq!(strip_zone_text("lexa.", "lexa"), "");
}

#[test]
fn query_types_follow_the_labels() {
    assert_eq!(query("web").get_query_type(), QueryType::Container);
    assert_eq!(query("service").get_query_type(), QueryType::Container);
    assert_eq!(query("a.b.web").get_query_type(), QueryType::Container);
    assert_eq!(query("eth0.if.web").get_query_type(), QueryType::Interface);
    assert_eq!(query("eth0.interface.web").get_query_type(), QueryType::Interface);
    assert_eq!(query("cluster.web").get_query_type(), QueryType::Cluster);
    assert_eq!(query("_http._tcp.service").get_query_type(), QueryType::Service);
    assert_eq!(query("_tcp.service.web").get_query_type(), QueryType::Service);
}

#[test]
fn container_and_interface_names() {
    let mut q = query("eth1.if.web");
    assert_eq!(q.get_container_name(), "web");
    assert_eq!(q.get_interface_name(), opt("eth1"));
    let mut c = query("web");
    assert_eq!(c.get_interface_name(), None);
}

#[test]
fn cluster_prefix_is_the_labels_before_cluster() {
    assert_eq!(query("node1.example.cluster.web").get_cluster_prefix(), opt("node1.example"));
    assert_eq!(query("cluster.web").get_cluster_prefix(), None);
}

#[test]
fn service_parts_in_rfc2782_shape() {
    let (t, d) = query("_http._tcp.service").get_service_type_and_data(RecordType::SRV).unwrap();
    assert_eq!(t, ServiceQueryType::RFC2782);
    assert_eq!(d, ServiceQueryData { tag: None, service: opt("_http"), protocol: opt("_tcp") });
    let (_, tagged) = query("edge._udp.service").get_service_type_and_data(RecordType::SRV).unwrap();
    assert_eq!(tagged, ServiceQueryData { tag: opt("edge"), service: None, protocol: opt("_udp") });
    let (_, short) = query("_tcp.service").get_service_type_and_data(RecordType::SRV).unwrap();
    assert_eq!(short, ServiceQueryData { tag: None, service: None, protocol: opt("_tcp") });
    let (_, bound) = query("_http._tcp.service.web").get_service_type_and_data(RecordType::SRV).unwrap();
    assert_eq!(bound, ServiceQueryData { tag: None, service: opt("_http"), protocol: opt("_tcp") });
}

#[test]
fn service_parts_in_tagged_shape() {
    let (t, d) = query("edge.http.service").get_service_type_and_data(RecordType::A).unwrap();
    assert_eq!(t, ServiceQueryType::Tagged);
    assert_eq!(d, ServiceQueryData { tag: opt("edge"), service: opt("http"), protocol: None });
}

#[test]
fn service_parts_of_other_queries_fail() {
    assert_eq!(
        query("web").get_service_type_and_data(RecordType::SRV),
        Err(QueryError::NotServiceQuery)
    );
}

#[test]
fn service_query_data_accessors() {
    let d = ServiceQueryData { tag: opt("edge"), service: None, protocol: opt("_udp") };
    assert!(d.is_tag());
    assert!(!d.is_service());
    assert_eq!(d.get_protocol(), Some(ServiceQueryProtocol::Udp));
    let e = ServiceQueryData { tag: None, service: opt("_http"), protocol: opt("_sctp") };
    assert!(e.is_service());
    assert_eq!(e.get_protocol(), None);
    let f = ServiceQueryData { tag: None, service: None, protocol: opt("_tcp") };
    assert_eq!(f.get_protocol(), Some(ServiceQueryProtocol::Tcp));
}

#[test]
fn instance_selection_by_glob() {
    let mut a = Metadaum::default();
    a.name = "web1".into();
    a.status = "Running".into();
    a.status_code = 103;
    let mut b = a.clone();
    b.name = "db".into();
    let mut c = a.clone();
    c.name = "web2".into();
    c.status_code = 102;
    let got = query("web*").get_instances(vec![a.clone(), b.clone(), c.clone()]).unwrap();
    assert_eq!(got.len(), 1);
    assert_eq!(got[0].name, "web1");
    let all = query("_http._tcp.service").get_instances(vec![a.clone(), b.clone(), c.clone()]).unwrap();
    assert_eq!(all.len(), 2);
    assert_eq!(all[1].name, "db");
    assert_eq!(query("[x").get_instances(vec![a]).unwrap_err(), QueryError::InvalidContainerName);
    assert_eq!(query("").get_instances(vec![b]).unwrap_err(), QueryError::InvalidZone);
}

#[test]
fn default_configuration() {
    let c = ApplicationConfig::default();
    assert_eq!(c.lxd.suffix, "lexa");
    assert_eq!(c.lxd.bind.port, 8443);
    assert_eq!(c.dns.bind.port, 18053);
    assert_eq!(c.log.level, "info");
    assert_eq!(c.log.out, "stdout");
    assert_eq!(ApplicationConfigTLS::default().bind.port, 18443);
    assert_eq!(c.get_tracing_log_level(), LogLevel::Info);
}

#[test]
fn log_levels_by_name() {
    let mut c = ApplicationConfig::default();
    for (name, level) in [
        ("trace", LogLevel::Trace),
        ("debug", LogLevel::Debug),
        ("warn", LogLevel::Warn),
        ("error", LogLevel::Error),
        ("loud", LogLevel::Error),
    ] {
        c.log.level = name.to_string();
        assert_eq!(c.get_tracing_log_level(), level);
    }
    assert_eq!(web_log_level(&"trace".to_string()), WebLogLevel::Debug);
    assert_eq!(web_log_level(&"debug".to_string()), WebLogLevel::Normal);
    assert_eq!(web_log_level(&"warn".to_string()), WebLogLevel::Critical);
    assert_eq!(web_log_level(&"off".to_string()), WebLogLevel::Off);
}

#[test]
fn upstream_host_name() {
    let mut lxd = ApplicationConfigLXD::default();
    assert_eq!(lxd.get_fqdn(true), "local.lexa.kaidyth.com");
    lxd.bind.host = "lxd.example.org".into();
    assert_eq!(lxd.get_fqdn(false), "lxd.example.org");
}

#[test]
fn listeners_for_default_and_encrypted_transports() {
    let plain = plan_listeners(&ApplicationConfigDNS::default()).unwrap();
    assert_eq!(plain.len(), 2);
    assert_eq!(plain[0].transport, Transport::Udp);
    assert_eq!(plain[1].transport, Transport::Tcp);
    assert_eq!(plain[1].port, 18053);
    let mut dns = ApplicationConfigDNS::default();
    let mut doh = ApplicationConfigTLS::default();
    dns.dot = Some(ApplicationConfigTLS::default());
    doh.hostname = Some("dns.example.org".into());
    dns.doh = Some(doh.clone());
    let all = plan_listeners(&dns).unwrap();
    assert_eq!(all.len(), 4);
    assert_eq!(all[2].transport, Transport::Tls);
    assert_eq!(all[3].transport, Transport::Https);
    assert_eq!(all[3].hostname, opt("dns.example.org"));
    assert_eq!(all[3].certificate, opt("server.crt"));
    doh.hostname = None;
    dns.doh = Some(doh);
    assert_eq!(plan_listeners(&dns).unwrap_err(), StartupError::MissingHostname);
}

#[test]
fn json_listing_filters_running_instances() {
    assert_eq!(pattern_for(None), "*");
    assert_eq!(pattern_for(Some("")), "*");
    assert_eq!(pattern_for(Some("we*")), "we*");
    let mut a = Metadaum::default();
    a.name = "web".into();
    a.status = "Running".into();
    a.status_code = 103;
    let mut b = a.clone();
    b.name = "db".into();
    b.status = "Stopped".into();
    let inv = vec![a, b];
    let got = list_instances("*", &inv);
    assert_eq!(got.len(), 1);
    assert_eq!(got[0].name, "web");
    assert!(list_instances("[", &inv).is_empty());
}
