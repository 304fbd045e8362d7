//! From a classified query and an inventory snapshot to answer records.
use vstd::prelude::*;
use crate::inventory::{
    default_interface, is_running, is_running_exec, Address, Instance, InstanceService, Metadaum,
    Network, NetworkFamily,
};
use crate::pattern::{glob_compiles, glob_match, glob_matches, glob_valid};
use crate::query::{
    classify, cluster_prefix, protocol_of, service_data, service_shape, Query, QueryError,
    QueryType, ServiceDataView, ServiceQueryData, ServiceQueryProtocol, ServiceQueryType,
};
use crate::records::{append_records, record_views, RData, RDataView, Record, RecordType, RecordView, Srv};
use crate::text::{
    contains_text, drop_backslashes, drop_leading_underscore, remove_backslashes,
    remove_leading_underscore, text_is, texts,
};

verus! {

/// What the operating system resolver gave for a host name.
#[derive(Debug, Clone)]
pub struct NodeLookup {
    pub host: String,
    /// The addresses, or `None` where the lookup failed.
    pub addresses: Option<Vec<HostAddress>>,
}

/// One address of a resolved host, in text form.
#[derive(Debug, Clone)]
pub struct HostAddress {
    pub family: NetworkFamily,
    pub address: String,
}

// ---- owner names ----

/// `<instance>.<suffix>.`
pub open spec fn container_owner(inst: Seq<char>, suffix: Seq<char>) -> Seq<char> {
    inst + seq!['.'] + suffix + seq!['.']
}

/// `<iface>.if.<instance>.<suffix>.`
pub open spec fn interface_owner(iface: Seq<char>, inst: Seq<char>, suffix: Seq<char>) -> Seq<char> {
    iface + seq!['.', 'i', 'f', '.'] + inst + seq!['.'] + suffix + seq!['.']
}

// ---- addresses of an instance ----

/// An address answers a question of type `t`: it is not of local scope and its family fits.
pub open spec fn emits(a: Address, t: RecordType) -> bool {
    &&& a.scope@ != "local"@
    &&& (a.family == NetworkFamily::Inet && t == RecordType::A) || (a.family
        == NetworkFamily::INet6 && t == RecordType::AAAA)
}

pub open spec fn address_record(a: Address, owner: Seq<char>) -> RecordView {
    RecordView {
        name: owner,
        ttl: 3,
        rdata: if a.family == NetworkFamily::Inet {
            RDataView::A(a.address@)
        } else {
            RDataView::AAAA(a.address@)
        },
    }
}

/// One record per address that answers `t`, in order.
pub open spec fn address_records(addrs: Seq<Address>, t: RecordType, owner: Seq<char>) -> Seq<
    RecordView,
>
    decreases addrs.len(),
{
    if addrs.len() == 0 {
        Seq::empty()
    } else {
        address_records(addrs.drop_last(), t, owner) + if emits(addrs.last(), t) {
            seq![address_record(addrs.last(), owner)]
        } else {
            Seq::empty()
        }
    }
}

/// The records of the interfaces named `iface`.
pub open spec fn interface_records(
    nets: Seq<(String, Network)>,
    iface: Seq<char>,
    t: RecordType,
    owner: Seq<char>,
) -> Seq<RecordView>
    decreases nets.len(),
{
    if nets.len() == 0 {
        Seq::empty()
    } else {
        interface_records(nets.drop_last(), iface, t, owner) + if nets.last().0@ == iface {
            address_records(nets.last().1.addresses@, t, owner)
        } else {
            Seq::empty()
        }
    }
}

/// The records of the default interface.
pub open spec fn default_records(inst: Instance, t: RecordType, owner: Seq<char>) -> Seq<RecordView> {
    match default_interface(inst.data.state.network@) {
        Some(d) => interface_records(inst.data.state.network@, d, t, owner),
        None => Seq::empty(),
    }
}

// ---- cluster nodes ----

/// The addresses found for `host`: those of the first lookup of that host, if it succeeded.
pub open spec fn lookup_of(lks: Seq<NodeLookup>, host: Seq<char>) -> Option<Seq<HostAddress>>
    decreases lks.len(),
{
    if lks.len() == 0 {
        None
    } else if lks[0].host@ == host {
        match lks[0].addresses {
            Some(v) => Some(v@),
            None => None,
        }
    } else {
        lookup_of(lks.drop_first(), host)
    }
}

pub open spec fn host_fits(a: HostAddress, t: RecordType) -> bool {
    (a.family == NetworkFamily::Inet && t == RecordType::A) || (a.family == NetworkFamily::INet6
        && t == RecordType::AAAA)
}

pub open spec fn host_record(a: HostAddress, owner: Seq<char>) -> RecordView {
    RecordView {
        name: owner,
        ttl: 3,
        rdata: if a.family == NetworkFamily::Inet {
            RDataView::A(a.address@)
        } else {
            RDataView::AAAA(a.address@)
        },
    }
}

/// One record per resolved address of the family that `t` asks for.
pub open spec fn host_records(addrs: Seq<HostAddress>, t: RecordType, owner: Seq<char>) -> Seq<
    RecordView,
>
    decreases addrs.len(),
{
    if addrs.len() == 0 {
        Seq::empty()
    } else {
        host_records(addrs.drop_last(), t, owner) + if host_fits(addrs.last(), t) {
            seq![host_record(addrs.last(), owner)]
        } else {
            Seq::empty()
        }
    }
}

/// The answer about the node an instance runs on.
pub open spec fn cluster_records(
    inst: Instance,
    prefix: Option<Seq<char>>,
    qname: Seq<char>,
    t: RecordType,
    lks: Seq<NodeLookup>,
) -> Seq<RecordView> {
    let location = inst.data.location@;
    match lookup_of(lks, location) {
        None => Seq::empty(),
        Some(addrs) => if t == RecordType::CNAME {
            seq![RecordView { name: qname, ttl: 3, rdata: RDataView::CNAME(location) }]
        } else if t == RecordType::A || t == RecordType::AAAA {
            match prefix {
                None => host_records(addrs, t, qname),
                Some(pf) => if pf == location {
                    default_records(inst, t, qname)
                } else {
                    Seq::empty()
                },
            }
        } else {
            Seq::empty()
        },
    }
}

// ---- services ----

/// A declared protocol: `_udp`, else TCP.
pub open spec fn declared_protocol(proto: Seq<char>) -> ServiceQueryProtocol {
    if proto == "_udp"@ {
        ServiceQueryProtocol::Udp
    } else {
        ServiceQueryProtocol::Tcp
    }
}

/// The protocol a query asks for: the one it names, else TCP.
pub open spec fn asked_protocol(sd: ServiceDataView) -> ServiceQueryProtocol {
    match protocol_of(sd.protocol) {
        Some(p) => p,
        None => ServiceQueryProtocol::Tcp,
    }
}

/// A declared service answers the query: same protocol, and the tag among
/// its tags, or (without tag) its name the service name without leading underscore.
pub open spec fn service_hit(s: InstanceService, sd: ServiceDataView) -> bool {
    &&& declared_protocol(s.proto@) == asked_protocol(sd)
    &&& match sd.tag {
        Some(tag) => match s.tags {
            Some(v) => texts(v@).contains(tag),
            None => false,
        },
        None => match sd.service {
            Some(n) => s.name@ == drop_leading_underscore(n),
            None => false,
        },
    }
}

pub open spec fn srv_record(s: InstanceService, target: Seq<char>, qname: Seq<char>) -> RecordView {
    RecordView {
        name: qname,
        ttl: 3,
        rdata: RDataView::SRV { priority: 1, weight: 1, port: s.port as u16, target },
    }
}

/// One SRV record per declared service that answers the query.
pub open spec fn service_list_records(
    svcs: Seq<InstanceService>,
    sd: ServiceDataView,
    target: Seq<char>,
    qname: Seq<char>,
) -> Seq<RecordView>
    decreases svcs.len(),
{
    if svcs.len() == 0 {
        Seq::empty()
    } else {
        service_list_records(svcs.drop_last(), sd, target, qname) + if service_hit(
            svcs.last(),
            sd,
        ) {
            seq![srv_record(svcs.last(), target, qname)]
        } else {
            Seq::empty()
        }
    }
}

/// The SRV answers of an instance; the tagged shape answers nothing.
pub open spec fn service_records(
    inst: Instance,
    shape: ServiceQueryType,
    sd: ServiceDataView,
    qname: Seq<char>,
    suffix: Seq<char>,
) -> Seq<RecordView> {
    if shape == ServiceQueryType::Tagged {
        Seq::empty()
    } else {
        match (default_interface(inst.data.state.network@), inst.data.service_config) {
            (Some(d), Some(v)) => service_list_records(
                v@,
                sd,
                interface_owner(d, inst.name@, suffix),
                qname,
            ),
            _ => Seq::empty(),
        }
    }
}

// ---- the whole answer ----

/// The records one instance contributes.
pub open spec fn instance_records(
    inst: Instance,
    p: Seq<Seq<char>>,
    qname: Seq<char>,
    t: RecordType,
    suffix: Seq<char>,
    lks: Seq<NodeLookup>,
) -> Seq<RecordView> {
    match classify(p) {
        QueryType::Interface => interface_records(
            inst.data.state.network@,
            p[0],
            t,
            interface_owner(p[0], inst.name@, suffix),
        ),
        QueryType::Container => default_records(inst, t, container_owner(inst.name@, suffix)),
        QueryType::Cluster => cluster_records(inst, cluster_prefix(p), qname, t, lks),
        QueryType::Service => service_records(
            inst,
            service_shape(t),
            service_data(p, t),
            qname,
            suffix,
        ),
    }
}

/// The records of the instances, in order.
pub open spec fn all_records(
    insts: Seq<Instance>,
    p: Seq<Seq<char>>,
    qname: Seq<char>,
    t: RecordType,
    suffix: Seq<char>,
    lks: Seq<NodeLookup>,
) -> Seq<RecordView>
    decreases insts.len(),
{
    if insts.len() == 0 {
        Seq::empty()
    } else {
        all_records(insts.drop_last(), p, qname, t, suffix, lks) + instance_records(
            insts.last(),
            p,
            qname,
            t,
            suffix,
            lks,
        )
    }
}

/// The container pattern: the last label, without backslashes.
pub open spec fn container_glob(p: Seq<Seq<char>>) -> Seq<char> {
    drop_backslashes(p.last())
}

/// A service query without container label asks about every running instance.
pub open spec fn selects_all(p: Seq<Seq<char>>) -> bool {
    classify(p) == QueryType::Service && p.last() == "service"@
}

pub open spec fn picks(m: Metadaum, all: bool, glob: Seq<char>) -> bool {
    is_running(m) && (all || glob_matches(glob, m.name@))
}

/// The running instances of the inventory that the query picks, in order.
pub open spec fn select(inv: Seq<Metadaum>, all: bool, glob: Seq<char>) -> Seq<Instance>
    decreases inv.len(),
{
    if inv.len() == 0 {
        Seq::empty()
    } else {
        select(inv.drop_last(), all, glob) + if picks(inv.last(), all, glob) {
            seq![Instance { name: inv.last().name, data: inv.last() }]
        } else {
            Seq::empty()
        }
    }
}

/// The instances a query with labels `p` picks, or why it picks none.
pub open spec fn selection(p: Seq<Seq<char>>, inv: Seq<Metadaum>) -> Result<Seq<Instance>, QueryError> {
    if p.len() == 0 {
        Err(QueryError::InvalidZone)
    } else if !selects_all(p) && !glob_valid(container_glob(p)) {
        Err(QueryError::InvalidContainerName)
    } else {
        Ok(select(inv, selects_all(p), container_glob(p)))
    }
}

/// The answer to the question `qname` of type `t`, whose labels inside
/// the zone `suffix` are `p`, over the inventory `inv`.
pub open spec fn resolve(
    p: Seq<Seq<char>>,
    qname: Seq<char>,
    t: RecordType,
    suffix: Seq<char>,
    inv: Seq<Metadaum>,
    lks: Seq<NodeLookup>,
) -> Result<Seq<RecordView>, QueryError> {
    match selection(p, inv) {
        Ok(insts) => Ok(all_records(insts, p, qname, t, suffix, lks)),
        Err(e) => Err(e),
    }
}

// ---- executable ----

/// `<instance>.<suffix>.`
pub fn container_owner_text(inst: &str, suffix: &str) -> (r: String)
    ensures
        r@ == container_owner(inst@, suffix@),
{
    proof {
        reveal_strlit(".");
    }
    let mut s = inst.to_owned();
    s.append(".");
    s.append(suffix);
    s.append(".");
    s
}

/// `<iface>.if.<instance>.<suffix>.`
pub fn interface_owner_text(iface: &str, inst: &str, suffix: &str) -> (r: String)
    ensures
        r@ == interface_owner(iface@, inst@, suffix@),
{
    proof {
        reveal_strlit(".");
        reveal_strlit(".if.");
    }
    let mut s = iface.to_owned();
    s.append(".if.");
    s.append(inst);
    s.append(".");
    s.append(suffix);
    s.append(".");
    s
}

fn address_answers(addrs: &Vec<Address>, t: RecordType, owner: &str) -> (r: Vec<Record>)
    ensures
        record_views(r@) == address_records(addrs@, t, owner@),
{
    let mut out: Vec<Record> = Vec::new();
    let mut i: usize = 0;
    while i < addrs.len()
        invariant
            i <= addrs@.len(),
            record_views(out@) == address_records(addrs@.subrange(0, i as int), t, owner@),
        decreases addrs@.len() - i,
    {
        let a = &addrs[i];
        let ghost before = record_views(out@);
        assert(addrs@.subrange(0, i as int + 1).drop_last() =~= addrs@.subrange(0, i as int));
        let fits = match a.family {
            NetworkFamily::Inet => t == RecordType::A,
            NetworkFamily::INet6 => t == RecordType::AAAA,
        };
        if fits && !text_is(&a.scope, "local") {
            let rdata = match a.family {
                NetworkFamily::Inet => RData::A(a.address.clone()),
                NetworkFamily::INet6 => RData::AAAA(a.address.clone()),
            };
            out.push(Record { name: owner.to_owned(), ttl: 3, rdata });
            assert(record_views(out@) =~= before.push(address_record(*a, owner@)));
        } else {
            assert(record_views(out@) =~= before);
        }
        assert(record_views(out@) =~= address_records(
            addrs@.subrange(0, i as int + 1),
            t,
            owner@,
        ));
        i = i + 1;
    }
    assert(addrs@.subrange(0, addrs@.len() as int) =~= addrs@);
    out
}

impl Instance {
    /// The records of type `q_type` of the interface named `interface`,
    /// owned by `owner`: one per address of local scope excepted.
    pub fn get_records(&self, q_type: RecordType, interface: &str, owner: &str) -> (r: Vec<Record>)
        ensures
            record_views(r@) == interface_records(
                self.data.state.network@,
                interface@,
                q_type,
                owner@,
            ),
    {
        let nets = &self.data.state.network;
        let mut out: Vec<Record> = Vec::new();
        let mut i: usize = 0;
        let iface = interface.to_owned();
        while i < nets.len()
            invariant
                i <= nets@.len(),
                iface@ == interface@,
                record_views(out@) == interface_records(
                    nets@.subrange(0, i as int),
                    interface@,
                    q_type,
                    owner@,
                ),
            decreases nets@.len() - i,
        {
            assert(nets@.subrange(0, i as int + 1).drop_last() =~= nets@.subrange(0, i as int));
            let ghost before = record_views(out@);
            if nets[i].0 == iface {
                let more = address_answers(&nets[i].1.addresses, q_type, owner);
                append_records(&mut out, more);
            } else {
                assert(record_views(out@) =~= before + Seq::<RecordView>::empty());
            }
            i = i + 1;
        }
        assert(nets@.subrange(0, nets@.len() as int) =~= nets@);
        out
    }

    /// The records of type `q_type` of the default interface, owned by `owner`.
    pub fn get_default_records(&self, q_type: RecordType, owner: &str) -> (r: Vec<Record>)
        ensures
            record_views(r@) == default_records(*self, q_type, owner@),
    {
        match self.default_interface() {
            Some(d) => self.get_records(q_type, d.as_str(), owner),
            None => {
                assert(record_views(Seq::<Record>::empty()) =~= Seq::<RecordView>::empty());
                Vec::new()
            },
        }
    }
}

fn find_lookup<'a>(lks: &'a Vec<NodeLookup>, host: &String) -> (r: Option<&'a Vec<HostAddress>>)
    ensures
        match r {
            Some(v) => lookup_of(lks@, host@) == Some(v@),
            None => lookup_of(lks@, host@) is None,
        },
{
    let mut i: usize = 0;
    let n = lks.len();
    assert(lks@.subrange(0, n as int) =~= lks@);
    while i < n
        invariant
            n == lks@.len(),
            i <= n,
            lookup_of(lks@, host@) == lookup_of(lks@.subrange(i as int, n as int), host@),
        decreases n - i,
    {
        let ghost rest = lks@.subrange(i as int, n as int);
        assert(rest[0] == lks@[i as int]);
        assert(rest.drop_first() =~= lks@.subrange(i as int + 1, n as int));
        if lks[i].host == *host {
            return match &lks[i].addresses {
                Some(v) => Some(v),
                None => None,
            };
        }
        i = i + 1;
    }
    None
}

fn host_answers(addrs: &Vec<HostAddress>, t: RecordType, owner: &String) -> (r: Vec<Record>)
    ensures
        record_views(r@) == host_records(addrs@, t, owner@),
{
    let mut out: Vec<Record> = Vec::new();
    let mut i: usize = 0;
    while i < addrs.len()
        invariant
            i <= addrs@.len(),
            record_views(out@) == host_records(addrs@.subrange(0, i as int), t, owner@),
        decreases addrs@.len() - i,
    {
        let a = &addrs[i];
        let ghost before = record_views(out@);
        assert(addrs@.subrange(0, i as int + 1).drop_last() =~= addrs@.subrange(0, i as int));
        match a.family {
            NetworkFamily::Inet => if t == RecordType::A {
                out.push(Record { name: owner.clone(), ttl: 3, rdata: RData::A(a.address.clone()) });
                assert(record_views(out@) =~= before.push(host_record(*a, owner@)));
            } else {
                assert(record_views(out@) =~= before);
            },
            NetworkFamily::INet6 => if t == RecordType::AAAA {
                out.push(
                    Record { name: owner.clone(), ttl: 3, rdata: RData::AAAA(a.address.clone()) },
                );
                assert(record_views(out@) =~= before.push(host_record(*a, owner@)));
            } else {
                assert(record_views(out@) =~= before);
            },
        }
        assert(record_views(out@) =~= host_records(addrs@.subrange(0, i as int + 1), t, owner@));
        i = i + 1;
    }
    assert(addrs@.subrange(0, addrs@.len() as int) =~= addrs@);
    out
}

fn cluster_answers(
    inst: &Instance,
    prefix: &Option<String>,
    qname: &String,
    t: RecordType,
    lookups: &Vec<NodeLookup>,
) -> (r: Vec<Record>)
    ensures
        record_views(r@) == cluster_records(
            *inst,
            crate::query::opt_text(*prefix),
            qname@,
            t,
            lookups@,
        ),
{
    let location = &inst.data.location;
    let empty: Vec<Record> = Vec::new();
    assert(record_views(empty@) =~= Seq::<RecordView>::empty());
    match find_lookup(lookups, location) {
        None => empty,
        Some(addrs) => {
            if t == RecordType::CNAME {
                let mut out: Vec<Record> = Vec::new();
                out.push(
                    Record { name: qname.clone(), ttl: 3, rdata: RData::CNAME(location.clone()) },
                );
                assert(record_views(out@) =~= seq![
                    RecordView { name: qname@, ttl: 3, rdata: RDataView::CNAME(location@) },
                ]);
                out
            } else if t == RecordType::A || t == RecordType::AAAA {
                match prefix {
                    None => host_answers(addrs, t, qname),
                    Some(pf) => if *pf == *location {
                        inst.get_default_records(t, qname.as_str())
                    } else {
                        empty
                    },
                }
            } else {
                empty
            }
        },
    }
}

fn service_matches(s: &InstanceService, sd: &ServiceQueryData) -> (r: bool)
    ensures
        r == service_hit(*s, sd@),
{
    let declared = if text_is(&s.proto, "_udp") {
        ServiceQueryProtocol::Udp
    } else {
        ServiceQueryProtocol::Tcp
    };
    let asked = match sd.get_protocol() {
        Some(p) => p,
        None => ServiceQueryProtocol::Tcp,
    };
    if declared != asked {
        return false;
    }
    match &sd.tag {
        Some(tag) => match &s.tags {
            Some(v) => contains_text(v, tag),
            None => false,
        },
        None => match &sd.service {
            Some(n) => {
                let bare = remove_leading_underscore(n.as_str());
                s.name == bare
            },
            None => false,
        },
    }
}

fn service_answers(
    svcs: &Vec<InstanceService>,
    sd: &ServiceQueryData,
    target: &String,
    qname: &String,
) -> (r: Vec<Record>)
    ensures
        record_views(r@) == service_list_records(svcs@, sd@, target@, qname@),
{
    let mut out: Vec<Record> = Vec::new();
    let mut i: usize = 0;
    while i < svcs.len()
        invariant
            i <= svcs@.len(),
            record_views(out@) == service_list_records(
                svcs@.subrange(0, i as int),
                sd@,
                target@,
                qname@,
            ),
        decreases svcs@.len() - i,
    {
        let s = &svcs[i];
        let ghost before = record_views(out@);
        assert(svcs@.subrange(0, i as int + 1).drop_last() =~= svcs@.subrange(0, i as int));
        if service_matches(s, sd) {
            let srv = Srv { priority: 1, weight: 1, port: s.port as u16, target: target.clone() };
            out.push(Record { name: qname.clone(), ttl: 3, rdata: RData::SRV(srv) });
            assert(record_views(out@) =~= before.push(srv_record(*s, target@, qname@)));
        } else {
            assert(record_views(out@) =~= before);
        }
        assert(record_views(out@) =~= service_list_records(
            svcs@.subrange(0, i as int + 1),
            sd@,
            target@,
            qname@,
        ));
        i = i + 1;
    }
    assert(svcs@.subrange(0, svcs@.len() as int) =~= svcs@);
    out
}

fn instance_service_answers(
    inst: &Instance,
    shape: ServiceQueryType,
    sd: &ServiceQueryData,
    qname: &String,
    suffix: &String,
) -> (r: Vec<Record>)
    ensures
        record_views(r@) == service_records(*inst, shape, sd@, qname@, suffix@),
{
    let empty: Vec<Record> = Vec::new();
    assert(record_views(empty@) =~= Seq::<RecordView>::empty());
    if shape == ServiceQueryType::Tagged {
        // The tagged shape is recognised but answers nothing.
        return empty;
    }
    match (inst.default_interface(), inst.get_service_config()) {
        (Some(d), Some(v)) => {
            let target = interface_owner_text(d.as_str(), inst.name.as_str(), suffix.as_str());
            service_answers(v, sd, &target, qname)
        },
        _ => empty,
    }
}

fn instance_answers(
    inst: &Instance,
    Ghost(p): Ghost<Seq<Seq<char>>>,
    class: QueryType,
    first: &String,
    prefix: &Option<String>,
    service: &Option<(ServiceQueryType, ServiceQueryData)>,
    qname: &String,
    t: RecordType,
    suffix: &String,
    lookups: &Vec<NodeLookup>,
) -> (r: Vec<Record>)
    requires
        p.len() > 0,
        class == classify(p),
        first@ == p[0],
        crate::query::opt_text(*prefix) == cluster_prefix(p),
        class == QueryType::Service ==> service is Some,
        service is Some ==> (service->0).0 == service_shape(t),
        service is Some ==> (service->0).1@ == service_data(p, t),
    ensures
        record_views(r@) == instance_records(*inst, p, qname@, t, suffix@, lookups@),
{
    match class {
        QueryType::Interface => {
            let owner = interface_owner_text(first.as_str(), inst.name.as_str(), suffix.as_str());
            inst.get_records(t, first.as_str(), owner.as_str())
        },
        QueryType::Container => {
            let owner = container_owner_text(inst.name.as_str(), suffix.as_str());
            inst.get_default_records(t, owner.as_str())
        },
        QueryType::Cluster => cluster_answers(inst, prefix, qname, t, lookups),
        QueryType::Service => match service {
            Some(sv) => instance_service_answers(inst, sv.0, &sv.1, qname, suffix),
            None => Vec::new(),
        },
    }
}

impl Query {
    /// The running instances of `inventory` that the query picks, in order:
    /// all of them for a service query without container label, else those
    /// whose name matches the container label as a glob pattern.
    pub fn get_instances(&mut self, inventory: Vec<Metadaum>) -> (r: Result<Vec<Instance>, QueryError>)
        requires
            old(self).wf(),
        ensures
            final(self).keeps(*old(self)),
            match r {
                Ok(v) => selection(old(self).labels(), inventory@) == Ok::<Seq<Instance>, QueryError>(v@),
                Err(e) => selection(old(self).labels(), inventory@) == Err::<Seq<Instance>, QueryError>(e),
            },
    {
        let pieces = self.get_query_pieces();
        let n = pieces.len();
        if n == 0 {
            return Err(QueryError::InvalidZone);
        }
        let class = self.get_query_type();
        let ghost p = texts(pieces@);
        assert(p.last() == pieces@[n - 1]@);
        let last = &pieces[n - 1];
        let all = class == QueryType::Service && text_is(last, "service");
        let glob = remove_backslashes(last.as_str());
        if !all && !glob_compiles(glob.as_str()) {
            return Err(QueryError::InvalidContainerName);
        }
        let ghost orig = inventory@;
        let mut inv = inventory;
        let mut out: Vec<Instance> = Vec::new();
        let total = inv.len();
        let mut k: usize = 0;
        assert(orig.subrange(0, 0) =~= Seq::<Metadaum>::empty());
        assert(orig.subrange(0, total as int) =~= orig);
        while k < total
            invariant
                total == orig.len(),
                k <= total,
                inv@ == orig.subrange(k as int, total as int),
                out@ == select(orig.subrange(0, k as int), all, glob@),
                !all ==> glob_valid(glob@),
            decreases total - k,
        {
            assert(orig.subrange(0, k as int + 1).drop_last() =~= orig.subrange(0, k as int));
            let m = inv.remove(0);
            assert(m == orig[k as int]);
            assert(inv@ =~= orig.subrange(k as int + 1, total as int));
            let pick = is_running_exec(&m) && (all || glob_match(glob.as_str(), m.name.as_str()));
            if pick {
                let name = m.name.clone();
                out.push(Instance { name, data: m });
            }
            assert(out@ =~= select(orig.subrange(0, k as int + 1), all, glob@));
            k = k + 1;
        }
        Ok(out)
    }

    /// The answer to the question `name` of type `q_type` over `inventory`:
    /// the records of each picked instance in turn, or why there is none.
    /// `lookups` holds what the operating system resolver gave for the
    /// cluster nodes of the picked instances.
    pub fn get_rdata_for_query(
        &mut self,
        name: &String,
        q_type: RecordType,
        inventory: Vec<Metadaum>,
        lookups: &Vec<NodeLookup>,
    ) -> (r: Result<Vec<Record>, QueryError>)
        requires
            old(self).wf(),
        ensures
            final(self).keeps(*old(self)),
            match r {
                Ok(v) => resolve(
                    old(self).labels(),
                    name@,
                    q_type,
                    old(self).config.suffix@,
                    inventory@,
                    lookups@,
                ) == Ok::<Seq<RecordView>, QueryError>(record_views(v@)),
                Err(e) => resolve(
                    old(self).labels(),
                    name@,
                    q_type,
                    old(self).config.suffix@,
                    inventory@,
                    lookups@,
                ) == Err::<Seq<RecordView>, QueryError>(e),
            },
    {
        let instances = match self.get_instances(inventory) {
            Ok(v) => v,
            Err(e) => return Err(e),
        };
        let ghost p = old(self).labels();
        let pieces = self.get_query_pieces();
        let class = self.get_query_type();
        let prefix = self.get_cluster_prefix();
        let service = if class == QueryType::Service {
            match self.get_service_type_and_data(q_type) {
                Ok(x) => Some(x),
                Err(e) => return Err(e),
            }
        } else {
            None
        };
        assert(texts(pieces@)[0] == pieces@[0]@);
        let first = &pieces[0];
        let suffix = &self.config.suffix;
        let mut out: Vec<Record> = Vec::new();
        let mut i: usize = 0;
        assert(instances@.subrange(0, 0) =~= Seq::<Instance>::empty());
        assert(record_views(out@) =~= Seq::<RecordView>::empty());
        while i < instances.len()
            invariant
                i <= instances@.len(),
                p.len() > 0,
                class == classify(p),
                first@ == p[0],
                crate::query::opt_text(prefix) == cluster_prefix(p),
                class == QueryType::Service ==> service is Some,
                service is Some ==> (service->0).0 == service_shape(q_type),
                service is Some ==> (service->0).1@ == service_data(p, q_type),
                record_views(out@) == all_records(
                    instances@.subrange(0, i as int),
                    p,
                    name@,
                    q_type,
                    suffix@,
                    lookups@,
                ),
            decreases instances@.len() - i,
        {
            assert(instances@.subrange(0, i as int + 1).drop_last() =~= instances@.subrange(
                0,
                i as int,
            ));
            let more = instance_answers(
                &instances[i],
                Ghost(p),
                class,
                first,
                &prefix,
                &service,
                name,
                q_type,
                suffix,
                lookups,
            );
            append_records(&mut out, more);
            i = i + 1;
        }
        assert(instances@.subrange(0, instances@.len() as int) =~= instances@);
        Ok(out)
    }
}

} // verus!
