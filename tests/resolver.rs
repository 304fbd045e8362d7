use lexa::config::ApplicationConfigLXD;
use lexa::handler::{Error, Handler, MessageType, OpCode, Request, Response, ResponseCode, ZoneCheck};
use lexa::inventory::{Address, InstanceService, Metadaum, Network, NetworkFamily};
use lexa::records::{RData, Record, RecordType};
use lexa::resolve::{HostAddress, NodeLookup};

fn addr(family: NetworkFamily, address: &str, scope: &str) -> Address {
    Address {
        family,
        address: address.to_string(),
        netmask: String::from("24"),
        scope: scope.to_string(),
    }
}

fn iface(name: &str, addresses: Vec<Address>) -> (String, Network) {
    (name.to_string(), Network { addresses, ..Default::default() })
}

fn instance(name: &str, nets: Vec<(String, Network)>) -> Metadaum {
    let mut m = Metadaum::default();
    m.name = name.to_string();
    m.status = String::from("Running");
    m.status_code = 103;
    m.state.network = nets;
    m
}

fn web() -> Metadaum {
    instance(
        "web",
        vec![iface(
            "eth0",
            vec![
                addr(NetworkFamily::Inet, "192.0.2.10", "global"),
                addr(NetworkFamily::INet6, "2001:db8::10", "global"),
            ],
        )],
    )
}

fn web_with_service() -> Metadaum {
    let mut m = web();
    m.service_config = Some(vec![InstanceService {
        interface: None,
        name: String::from("http"),
        port: 8080,
        proto: String::from("_tcp"),
        tags: Some(vec![String::from("edge")]),
    }]);
    m
}

fn handler() -> Handler {
    Handler { lxd: ApplicationConfigLXD::default() }
}

fn ask(name: &str, t: RecordType) -> Request {
    Request {
        op_code: OpCode::Query,
        message_type: MessageType::Query,
        name: name.to_string(),
        query_type: t,
        zone: ZoneCheck::Inside,
    }
}

fn run(name: &str, t: RecordType, inv: Vec<Metadaum>) -> Response {
    handler().handle_request(&ask(name, t), inv, &Vec::new())
}

fn a_of(r: &Record) -> String {
    match &r.rdata {
        RData::A(a) => a.clone(),
        other => panic!("not an A record: {:?}", other),
    }
}

#[test]
fn container_query_answers_eth0_ipv4() {
    let r = run("web.lexa.", RecordType::A, vec![web()]);
    assert!(r.authoritative);
    assert_eq!(r.response_code, ResponseCode::NoError);
    assert_eq!(r.answers.len(), 1);
    assert_eq!(r.answers[0].name, "web.lexa.");
    assert_eq!(r.answers[0].ttl, 3);
    assert_eq!(a_of(&r.answers[0]), "192.0.2.10");
}

#[test]
fn interface_query_answers_ipv6() {
    let r = run("eth0.if.web.lexa.", RecordType::AAAA, vec![web()]);
    assert_eq!(r.response_code, ResponseCode::NoError);
    assert_eq!(r.answers.len(), 1);
    assert_eq!(r.answers[0].name, "eth0.if.web.lexa.");
    assert_eq!(r.answers[0].ttl, 3);
    match &r.answers[0].rdata {
        RData::AAAA(a) => assert_eq!(a, "2001:db8::10"),
        other => panic!("unexpected {:?}", other),
    }
}

#[test]
fn legacy_interface_label_is_accepted() {
    let r = run("eth0.interface.web.lexa.", RecordType::A, vec![web()]);
    assert_eq!(r.answers.len(), 1);
    assert_eq!(r.answers[0].name, "eth0.if.web.lexa.");
    assert_eq!(a_of(&r.answers[0]), "192.0.2.10");
}

fn check_srv(r: &Response, owner: &str) {
    assert_eq!(r.response_code, ResponseCode::NoError);
    assert_eq!(r.answers.len(), 1);
    assert_eq!(r.answers[0].name, owner);
    assert_eq!(r.answers[0].ttl, 3);
    match &r.answers[0].rdata {
        RData::SRV(s) => {
            assert_eq!(s.priority, 1);
            assert_eq!(s.weight, 1);
            assert_eq!(s.port, 8080);
            assert_eq!(s.target, "eth0.if.web.lexa.");
        }
        other => panic!("unexpected {:?}", other),
    }
}

#[test]
fn rfc2782_service_query_answers_srv() {
    let r = run("_http._tcp.service.lexa.", RecordType::SRV, vec![web_with_service()]);
    check_srv(&r, "_http._tcp.service.lexa.");
}

#[test]
fn tag_service_query_answers_srv() {
    let r = run("edge._tcp.service.lexa.", RecordType::SRV, vec![web_with_service()]);
    check_srv(&r, "edge._tcp.service.lexa.");
}

#[test]
fn container_bound_service_query_answers_srv() {
    let r = run("_http._tcp.service.web.lexa.", RecordType::SRV, vec![web_with_service()]);
    check_srv(&r, "_http._tcp.service.web.lexa.");
    let none = run("_http._tcp.service.db.lexa.", RecordType::SRV, vec![web_with_service()]);
    assert_eq!(none.answers.len(), 0);
}

#[test]
fn service_query_with_other_protocol_or_tag_answers_nothing() {
    let udp = run("_http._udp.service.lexa.", RecordType::SRV, vec![web_with_service()]);
    assert_eq!(udp.response_code, ResponseCode::NoError);
    assert_eq!(udp.answers.len(), 0);
    let tag = run("core._tcp.service.lexa.", RecordType::SRV, vec![web_with_service()]);
    assert_eq!(tag.answers.len(), 0);
}

#[test]
fn tagged_service_shape_answers_nothing() {
    let r = run("edge.http.service.lexa.", RecordType::A, vec![web_with_service()]);
    assert_eq!(r.response_code, ResponseCode::NoError);
    assert_eq!(r.answers.len(), 0);
}

#[test]
fn empty_service_list_answers_nothing() {
    let mut m = web();
    m.service_config = Some(Vec::new());
    let r = run("_http._tcp.service.lexa.", RecordType::SRV, vec![m]);
    assert!(r.authoritative);
    assert_eq!(r.response_code, ResponseCode::NoError);
    assert_eq!(r.answers.len(), 0);
}

fn cluster_inventory() -> Vec<Metadaum> {
    let mut a = web();
    a.name = String::from("a");
    a.location = String::from("node1.example.");
    let mut b = web();
    b.name = String::from("b");
    b.location = String::from("node1.example.");
    vec![a, b]
}

fn node1_lookup() -> Vec<NodeLookup> {
    vec![NodeLookup {
        host: String::from("node1.example."),
        addresses: Some(vec![
            HostAddress { family: NetworkFamily::Inet, address: String::from("198.51.100.7") },
            HostAddress { family: NetworkFamily::INet6, address: String::from("2001:db8::7") },
        ]),
    }]
}

#[test]
fn cluster_query_answers_node_address() {
    let r = handler().handle_request(
        &ask("cluster.a.lexa.", RecordType::A),
        cluster_inventory(),
        &node1_lookup(),
    );
    assert_eq!(r.response_code, ResponseCode::NoError);
    assert_eq!(r.answers.len(), 1);
    assert_eq!(r.answers[0].name, "cluster.a.lexa.");
    assert_eq!(a_of(&r.answers[0]), "198.51.100.7");
}

#[test]
fn cluster_label_last_reads_as_container_query() {
    // `a.cluster` ends in the container label `cluster`; no instance has that name.
    let r = handler().handle_request(
        &ask("a.cluster.lexa.", RecordType::A),
        cluster_inventory(),
        &node1_lookup(),
    );
    assert_eq!(r.response_code, ResponseCode::NoError);
    assert_eq!(r.answers.len(), 0);
}

#[test]
fn cluster_cname_points_at_location() {
    let r = handler().handle_request(
        &ask("cluster.b.lexa.", RecordType::CNAME),
        cluster_inventory(),
        &node1_lookup(),
    );
    assert_eq!(r.answers.len(), 1);
    assert_eq!(r.answers[0].name, "cluster.b.lexa.");
    match &r.answers[0].rdata {
        RData::CNAME(n) => assert_eq!(n, "node1.example."),
        other => panic!("unexpected {:?}", other),
    }
}

#[test]
fn cluster_prefix_equal_to_location_answers_instance_addresses() {
    let mut inv = cluster_inventory();
    inv[0].location = String::from("node1");
    let lookups = vec![NodeLookup {
        host: String::from("node1"),
        addresses: Some(vec![HostAddress {
            family: NetworkFamily::Inet,
            address: String::from("198.51.100.7"),
        }]),
    }];
    let r = handler().handle_request(&ask("node1.cluster.a.lexa.", RecordType::A), inv.clone(), &lookups);
    assert_eq!(r.answers.len(), 1);
    assert_eq!(r.answers[0].name, "node1.cluster.a.lexa.");
    assert_eq!(a_of(&r.answers[0]), "192.0.2.10");
    let other = handler().handle_request(&ask("node2.cluster.a.lexa.", RecordType::A), inv, &lookups);
    assert_eq!(other.answers.len(), 0);
}

#[test]
fn cluster_failed_lookup_answers_nothing() {
    let lookups = vec![NodeLookup { host: String::from("node1.example."), addresses: None }];
    let r = handler().handle_request(&ask("cluster.a.lexa.", RecordType::A), cluster_inventory(), &lookups);
    assert_eq!(r.response_code, ResponseCode::NoError);
    assert_eq!(r.answers.len(), 0);
}

#[test]
fn unreachable_upstream_gives_empty_authoritative_answer() {
    let r = run("web.lexa.", RecordType::A, Vec::new());
    assert!(r.authoritative);
    assert_eq!(r.response_code, ResponseCode::NoError);
    assert_eq!(r.answers.len(), 0);
}

#[test]
fn without_eth0_the_first_interface_answers() {
    let m = instance(
        "web",
        vec![
            iface("ens3", vec![addr(NetworkFamily::Inet, "10.0.0.5", "global")]),
            iface("ens4", vec![addr(NetworkFamily::Inet, "10.0.0.6", "global")]),
        ],
    );
    let r = run("web.lexa.", RecordType::A, vec![m]);
    assert_eq!(r.answers.len(), 1);
    assert_eq!(a_of(&r.answers[0]), "10.0.0.5");
}

#[test]
fn eth0_is_preferred_over_earlier_interfaces() {
    let m = instance(
        "web",
        vec![
            iface("ens3", vec![addr(NetworkFamily::Inet, "10.0.0.5", "global")]),
            iface("eth0", vec![addr(NetworkFamily::Inet, "10.0.0.9", "global")]),
        ],
    );
    let r = run("web.lexa.", RecordType::A, vec![m]);
    assert_eq!(r.answers.len(), 1);
    assert_eq!(a_of(&r.answers[0]), "10.0.0.9");
}

#[test]
fn instance_without_interfaces_answers_nothing() {
    let r = run("web.lexa.", RecordType::A, vec![instance("web", Vec::new())]);
    assert_eq!(r.response_code, ResponseCode::NoError);
    assert_eq!(r.answers.len(), 0);
}

#[test]
fn missing_interface_answers_nothing() {
    let r = run("eth9.if.web.lexa.", RecordType::A, vec![web()]);
    assert!(r.authoritative);
    assert_eq!(r.response_code, ResponseCode::NoError);
    assert_eq!(r.answers.len(), 0);
}

#[test]
fn name_outside_zone_is_servfail() {
    let mut req = ask("web.example.", RecordType::A);
    req.zone = ZoneCheck::Outside;
    let r = handler().handle_request(&req, vec![web()], &Vec::new());
    assert!(r.authoritative);
    assert_eq!(r.response_code, ResponseCode::ServFail);
    assert_eq!(r.answers.len(), 0);
    let mut bad = ask("web.lexa.", RecordType::A);
    bad.zone = ZoneCheck::InvalidSuffix;
    assert_eq!(handler().handle_request(&bad, vec![web()], &Vec::new()).response_code, ResponseCode::ServFail);
}

#[test]
fn non_query_opcode_is_servfail() {
    let mut req = ask("web.lexa.", RecordType::A);
    req.op_code = OpCode::Other(5);
    let r = handler().handle_request(&req, vec![web()], &Vec::new());
    assert!(r.authoritative);
    assert_eq!(r.response_code, ResponseCode::ServFail);
    assert_eq!(r.answers.len(), 0);
}

#[test]
fn response_message_is_servfail() {
    let mut req = ask("web.lexa.", RecordType::A);
    req.message_type = MessageType::Response;
    let r = handler().handle_request(&req, vec![web()], &Vec::new());
    assert_eq!(r.response_code, ResponseCode::ServFail);
}

#[test]
fn bare_zone_is_servfail() {
    let r = run("lexa.", RecordType::A, vec![web()]);
    assert_eq!(r.response_code, ResponseCode::ServFail);
    assert_eq!(r.answers.len(), 0);
}

#[test]
fn invalid_glob_is_servfail() {
    let r = run("web[.lexa.", RecordType::A, vec![web()]);
    assert_eq!(r.response_code, ResponseCode::ServFail);
    assert_eq!(r.answers.len(), 0);
}

#[test]
fn glob_label_picks_matching_instances() {
    let mut db = web();
    db.name = String::from("db");
    let r = run("w*.lexa.", RecordType::A, vec![web(), db.clone()]);
    assert_eq!(r.answers.len(), 1);
    assert_eq!(r.answers[0].name, "web.lexa.");
    let all = run("*.lexa.", RecordType::A, vec![web(), db]);
    assert_eq!(all.answers.len(), 2);
    assert_eq!(all.answers[1].name, "db.lexa.");
}

#[test]
fn stopped_instances_answer_nothing() {
    let mut stopped = web();
    stopped.status = String::from("Stopped");
    stopped.status_code = 102;
    let r = run("web.lexa.", RecordType::A, vec![stopped]);
    assert_eq!(r.answers.len(), 0);
    let mut wrong_code = web();
    wrong_code.status_code = 102;
    assert_eq!(run("web.lexa.", RecordType::A, vec![wrong_code]).answers.len(), 0);
    let mut svc = web_with_service();
    svc.status = String::from("Frozen");
    assert_eq!(run("_http._tcp.service.lexa.", RecordType::SRV, vec![svc]).answers.len(), 0);
}

#[test]
fn local_scope_addresses_are_never_answered() {
    let m = instance(
        "web",
        vec![iface(
            "eth0",
            vec![
                addr(NetworkFamily::Inet, "127.0.0.1", "local"),
                addr(NetworkFamily::Inet, "192.0.2.10", "global"),
                addr(NetworkFamily::INet6, "fe80::1", "local"),
            ],
        )],
    );
    let r = run("web.lexa.", RecordType::A, vec![m.clone()]);
    assert_eq!(r.answers.len(), 1);
    assert_eq!(a_of(&r.answers[0]), "192.0.2.10");
    let v6 = run("web.lexa.", RecordType::AAAA, vec![m]);
    assert_eq!(v6.answers.len(), 0);
}

#[test]
fn every_answer_has_asked_type_and_zone_owner() {
    let inv = vec![web_with_service()];
    for (name, t) in [
        ("web.lexa.", RecordType::A),
        ("web.lexa.", RecordType::AAAA),
        ("eth0.if.web.lexa.", RecordType::AAAA),
        ("_http._tcp.service.lexa.", RecordType::SRV),
        ("web.lexa.", RecordType::SRV),
        ("web.lexa.", RecordType::CNAME),
    ] {
        let r = run(name, t, inv.clone());
        for rec in &r.answers {
            assert!(rec.name.ends_with(".lexa."));
            let ty = match rec.rdata {
                RData::A(_) => RecordType::A,
                RData::AAAA(_) => RecordType::AAAA,
                RData::CNAME(_) => RecordType::CNAME,
                RData::SRV(_) => RecordType::SRV,
            };
            assert_eq!(ty, t);
        }
    }
}

#[test]
fn repeated_question_gives_same_answer() {
    let inv = vec![web(), cluster_inventory()[0].clone()];
    let first = run("*.lexa.", RecordType::A, inv.clone());
    let second = run("*.lexa.", RecordType::A, inv);
    assert_eq!(first.response_code, second.response_code);
    let mut x: Vec<String> = first.answers.iter().map(|r| format!("{:?}", r)).collect();
    let mut y: Vec<String> = second.answers.iter().map(|r| format!("{:?}", r)).collect();
    x.sort();
    y.sort();
    assert_eq!(x, y);
}

#[test]
fn refused_requests_name_their_reason() {
    let h = handler();
    let mut op = ask("web.lexa.", RecordType::A);
    op.op_code = OpCode::Other(2);
    assert!(matches!(h.get_query(&op), Err(Error::InvalidOpCode(OpCode::Other(2)))));
    let mut mt = ask("web.lexa.", RecordType::A);
    mt.message_type = MessageType::Response;
    assert!(matches!(h.get_query(&mt), Err(Error::InvalidMessageType(MessageType::Response))));
    let mut out = ask("web.example.", RecordType::A);
    out.zone = ZoneCheck::Outside;
    match h.get_query(&out) {
        Err(Error::InvalidZone(n)) => assert_eq!(n, "web.example."),
        other => panic!("unexpected {:?}", other.map(|q| q.name)),
    }
    let mut bad = ask("web.lexa.", RecordType::A);
    bad.zone = ZoneCheck::InvalidSuffix;
    assert!(matches!(h.get_query(&bad), Err(Error::InvalidSuffix)));
    let ok = h.get_query(&ask("eth0.if.web.lexa.", RecordType::A)).map(|q| q.name);
    assert!(matches!(ok, Ok(ref n) if n == "eth0.if.web"));
}
