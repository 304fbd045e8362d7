//! Properties of every answer, proved over the resolver's definitions.
use vstd::prelude::*;
use crate::handler::answer;
use crate::inventory::{is_running, Address, Instance, Metadaum, Network};
use crate::query::{classify, service_shape, QueryType, ServiceQueryType};
use crate::records::{type_of, RecordType, RecordView};
use crate::handler::Request;
use crate::resolve::{
    address_record, address_records, all_records, container_glob, container_owner, emits, host_fits,
    host_record, host_records, picks, instance_records, interface_owner, interface_records, lookup_of,
    resolve, select, selection, selects_all, service_hit, service_list_records, srv_record,
    HostAddress, NodeLookup,
};

verus! {

/// `o` ends with `.<zone>.`.
pub open spec fn in_zone_owner(o: Seq<char>, zone: Seq<char>) -> bool {
    &&& o.len() >= zone.len() + 2
    &&& o.subrange(o.len() - zone.len() - 2, o.len() as int) == seq!['.'] + zone + seq!['.']
}

/// Every record has type `t` and an owner name inside `zone`.
pub open spec fn typed_in_zone(recs: Seq<RecordView>, t: RecordType, zone: Seq<char>) -> bool {
    forall|i: int|
        0 <= i < recs.len() ==> type_of(#[trigger] recs[i].rdata) == t && in_zone_owner(
            recs[i].name,
            zone,
        )
}

proof fn lemma_typed_concat(a: Seq<RecordView>, b: Seq<RecordView>, t: RecordType, zone: Seq<char>)
    requires
        typed_in_zone(a, t, zone),
        typed_in_zone(b, t, zone),
    ensures
        typed_in_zone(a + b, t, zone),
{
    assert forall|i: int| 0 <= i < (a + b).len() implies type_of(#[trigger] (a + b)[i].rdata) == t
        && in_zone_owner((a + b)[i].name, zone) by {
        if i < a.len() {
            assert((a + b)[i] == a[i]);
        } else {
            assert((a + b)[i] == b[i - a.len()]);
        }
    }
}

proof fn lemma_container_owner(inst: Seq<char>, zone: Seq<char>)
    ensures
        in_zone_owner(container_owner(inst, zone), zone),
{
    let o = container_owner(inst, zone);
    assert(o.subrange(o.len() - zone.len() - 2, o.len() as int) =~= seq!['.'] + zone + seq!['.']);
}

proof fn lemma_interface_owner(iface: Seq<char>, inst: Seq<char>, zone: Seq<char>)
    ensures
        in_zone_owner(interface_owner(iface, inst, zone), zone),
{
    let o = interface_owner(iface, inst, zone);
    assert(o.subrange(o.len() - zone.len() - 2, o.len() as int) =~= seq!['.'] + zone + seq!['.']);
}

proof fn lemma_address_records(addrs: Seq<Address>, t: RecordType, owner: Seq<char>, zone: Seq<char>)
    requires
        in_zone_owner(owner, zone),
    ensures
        typed_in_zone(address_records(addrs, t, owner), t, zone),
    decreases addrs.len(),
{
    if addrs.len() > 0 {
        lemma_address_records(addrs.drop_last(), t, owner, zone);
        let tail = if emits(addrs.last(), t) {
            seq![address_record(addrs.last(), owner)]
        } else {
            Seq::empty()
        };
        assert(typed_in_zone(tail, t, zone));
        lemma_typed_concat(address_records(addrs.drop_last(), t, owner), tail, t, zone);
    }
}

proof fn lemma_interface_records(
    nets: Seq<(String, Network)>,
    iface: Seq<char>,
    t: RecordType,
    owner: Seq<char>,
    zone: Seq<char>,
)
    requires
        in_zone_owner(owner, zone),
    ensures
        typed_in_zone(interface_records(nets, iface, t, owner), t, zone),
    decreases nets.len(),
{
    if nets.len() > 0 {
        lemma_interface_records(nets.drop_last(), iface, t, owner, zone);
        lemma_address_records(nets.last().1.addresses@, t, owner, zone);
        let tail = if nets.last().0@ == iface {
            address_records(nets.last().1.addresses@, t, owner)
        } else {
            Seq::empty()
        };
        lemma_typed_concat(interface_records(nets.drop_last(), iface, t, owner), tail, t, zone);
    }
}

proof fn lemma_host_records(addrs: Seq<HostAddress>, t: RecordType, owner: Seq<char>, zone: Seq<char>)
    requires
        in_zone_owner(owner, zone),
    ensures
        typed_in_zone(host_records(addrs, t, owner), t, zone),
    decreases addrs.len(),
{
    if addrs.len() > 0 {
        lemma_host_records(addrs.drop_last(), t, owner, zone);
        let tail = if host_fits(addrs.last(), t) {
            seq![host_record(addrs.last(), owner)]
        } else {
            Seq::empty()
        };
        assert(typed_in_zone(tail, t, zone));
        lemma_typed_concat(host_records(addrs.drop_last(), t, owner), tail, t, zone);
    }
}

proof fn lemma_service_list_records(
    svcs: Seq<crate::inventory::InstanceService>,
    sd: crate::query::ServiceDataView,
    target: Seq<char>,
    qname: Seq<char>,
    zone: Seq<char>,
)
    requires
        in_zone_owner(qname, zone),
    ensures
        typed_in_zone(service_list_records(svcs, sd, target, qname), RecordType::SRV, zone),
    decreases svcs.len(),
{
    if svcs.len() > 0 {
        lemma_service_list_records(svcs.drop_last(), sd, target, qname, zone);
        let tail = if service_hit(svcs.last(), sd) {
            seq![srv_record(svcs.last(), target, qname)]
        } else {
            Seq::empty()
        };
        assert(typed_in_zone(tail, RecordType::SRV, zone));
        lemma_typed_concat(
            service_list_records(svcs.drop_last(), sd, target, qname),
            tail,
            RecordType::SRV,
            zone,
        );
    }
}

proof fn lemma_instance_records(
    inst: Instance,
    p: Seq<Seq<char>>,
    qname: Seq<char>,
    t: RecordType,
    zone: Seq<char>,
    lks: Seq<NodeLookup>,
)
    requires
        p.len() > 0,
        in_zone_owner(qname, zone),
    ensures
        typed_in_zone(instance_records(inst, p, qname, t, zone, lks), t, zone),
{
    let nets = inst.data.state.network@;
    match classify(p) {
        QueryType::Interface => {
            lemma_interface_owner(p[0], inst.name@, zone);
            lemma_interface_records(nets, p[0], t, interface_owner(p[0], inst.name@, zone), zone);
        },
        QueryType::Container => {
            lemma_container_owner(inst.name@, zone);
            let o = container_owner(inst.name@, zone);
            match crate::inventory::default_interface(nets) {
                Some(d) => lemma_interface_records(nets, d, t, o, zone),
                None => {},
            }
        },
        QueryType::Cluster => {
            match lookup_of(lks, inst.data.location@) {
                Some(addrs) => {
                    lemma_host_records(addrs, t, qname, zone);
                    match crate::inventory::default_interface(nets) {
                        Some(d) => lemma_interface_records(nets, d, t, qname, zone),
                        None => {},
                    }
                },
                None => {},
            }
        },
        QueryType::Service => {
            if service_shape(t) == ServiceQueryType::RFC2782 {
                match (crate::inventory::default_interface(nets), inst.data.service_config) {
                    (Some(d), Some(v)) => lemma_service_list_records(
                        v@,
                        crate::query::service_data(p, t),
                        interface_owner(d, inst.name@, zone),
                        qname,
                        zone,
                    ),
                    _ => {},
                }
            }
        },
    }
}

proof fn lemma_all_records(
    insts: Seq<Instance>,
    p: Seq<Seq<char>>,
    qname: Seq<char>,
    t: RecordType,
    zone: Seq<char>,
    lks: Seq<NodeLookup>,
)
    requires
        p.len() > 0,
        in_zone_owner(qname, zone),
    ensures
        typed_in_zone(all_records(insts, p, qname, t, zone, lks), t, zone),
    decreases insts.len(),
{
    if insts.len() > 0 {
        lemma_all_records(insts.drop_last(), p, qname, t, zone, lks);
        lemma_instance_records(insts.last(), p, qname, t, zone, lks);
        lemma_typed_concat(
            all_records(insts.drop_last(), p, qname, t, zone, lks),
            instance_records(insts.last(), p, qname, t, zone, lks),
            t,
            zone,
        );
    }
}

/// Every record answered to a question of type `t` has type `t`, and its
/// owner name ends in `.<zone>.`, for any question name inside the zone.
pub proof fn law_answers_have_asked_type_and_zone_owner(
    p: Seq<Seq<char>>,
    qname: Seq<char>,
    t: RecordType,
    zone: Seq<char>,
    inv: Seq<Metadaum>,
    lks: Seq<NodeLookup>,
)
    requires
        in_zone_owner(qname, zone),
    ensures
        resolve(p, qname, t, zone, inv, lks) is Ok ==> typed_in_zone(
            resolve(p, qname, t, zone, inv, lks)->Ok_0,
            t,
            zone,
        ),
{
    if p.len() > 0 {
        match selection(p, inv) {
            Ok(insts) => lemma_all_records(insts, p, qname, t, zone, lks),
            Err(_) => {},
        }
    }
}

/// Every record of a response has the asked type, and its owner name ends in
/// `.<zone>.`, for any question name inside the zone.
pub proof fn law_response_records_have_asked_type_and_zone_owner(
    zone: Seq<char>,
    req: Request,
    inv: Seq<Metadaum>,
    lks: Seq<NodeLookup>,
)
    requires
        in_zone_owner(req.name@, zone),
    ensures
        typed_in_zone(answer(zone, req, inv, lks).1, req.query_type, zone),
{
    let p = crate::text::name_labels(crate::handler::strip_zone(req.name@, zone));
    law_answers_have_asked_type_and_zone_owner(p, req.name@, req.query_type, zone, inv, lks);
}

proof fn lemma_select_concat(a: Seq<Metadaum>, b: Seq<Metadaum>, all: bool, glob: Seq<char>)
    ensures
        select(a + b, all, glob) == select(a, all, glob) + select(b, all, glob),
    decreases b.len(),
{
    if b.len() == 0 {
        assert(a + b =~= a);
        assert(select(a, all, glob) + select(b, all, glob) =~= select(a, all, glob));
    } else {
        assert((a + b).drop_last() =~= a + b.drop_last());
        assert((a + b).last() == b.last());
        lemma_select_concat(a, b.drop_last(), all, glob);
        assert(select(a + b, all, glob) =~= select(a, all, glob) + select(b, all, glob));
    }
}

/// An instance that is not running (status other than `Running`, or status
/// code other than 103) changes no answer: the inventory with it answers
/// every question exactly as the inventory without it.
pub proof fn law_stopped_instances_answer_nothing(
    p: Seq<Seq<char>>,
    qname: Seq<char>,
    t: RecordType,
    zone: Seq<char>,
    before: Seq<Metadaum>,
    m: Metadaum,
    after: Seq<Metadaum>,
    lks: Seq<NodeLookup>,
)
    requires
        !is_running(m),
    ensures
        resolve(p, qname, t, zone, before + seq![m] + after, lks) == resolve(
            p,
            qname,
            t,
            zone,
            before + after,
            lks,
        ),
{
    let all = selects_all(p);
    let glob = container_glob(p);
    lemma_select_concat(before + seq![m], after, all, glob);
    lemma_select_concat(before, seq![m], all, glob);
    lemma_select_concat(before, after, all, glob);
    assert(seq![m].drop_last() =~= Seq::<Metadaum>::empty());
    assert(seq![m].last() == m);
    assert(select(Seq::<Metadaum>::empty(), all, glob) =~= Seq::<Instance>::empty());
    assert(!picks(m, all, glob));
    assert(select(seq![m], all, glob) =~= Seq::<Instance>::empty());
    assert(select(before + seq![m] + after, all, glob) =~= select(before + after, all, glob));
}

proof fn lemma_address_records_concat(a: Seq<Address>, b: Seq<Address>, t: RecordType, owner: Seq<char>)
    ensures
        address_records(a + b, t, owner) == address_records(a, t, owner) + address_records(
            b,
            t,
            owner,
        ),
    decreases b.len(),
{
    if b.len() == 0 {
        assert(a + b =~= a);
        assert(address_records(a, t, owner) + address_records(b, t, owner) =~= address_records(
            a,
            t,
            owner,
        ));
    } else {
        assert((a + b).drop_last() =~= a + b.drop_last());
        assert((a + b).last() == b.last());
        lemma_address_records_concat(a, b.drop_last(), t, owner);
        assert(address_records(a + b, t, owner) =~= address_records(a, t, owner)
            + address_records(b, t, owner));
    }
}

/// An address of scope `local` is never answered: an interface's address
/// list with it yields exactly the records of the list without it.
pub proof fn law_local_addresses_never_answered(
    before: Seq<Address>,
    x: Address,
    after: Seq<Address>,
    t: RecordType,
    owner: Seq<char>,
)
    requires
        x.scope@ == "local"@,
    ensures
        address_records(before + seq![x] + after, t, owner) == address_records(
            before + after,
            t,
            owner,
        ),
{
    lemma_address_records_concat(before + seq![x], after, t, owner);
    lemma_address_records_concat(before, seq![x], t, owner);
    lemma_address_records_concat(before, after, t, owner);
    assert(seq![x].drop_last() =~= Seq::<Address>::empty());
    assert(seq![x].last() == x);
    assert(address_records(Seq::<Address>::empty(), t, owner) =~= Seq::<RecordView>::empty());
    assert(!emits(x, t));
    assert(address_records(seq![x], t, owner) =~= Seq::<RecordView>::empty());
    assert(address_records(before + seq![x] + after, t, owner) =~= address_records(
        before + after,
        t,
        owner,
    ));
}

/// Asking the same question twice of the same inventory snapshot (as within
/// one cache lifetime) gives the same response code and the same records,
/// equal as multisets.
pub proof fn law_repeated_question_same_answer(
    zone: Seq<char>,
    req: Request,
    first: Seq<Metadaum>,
    second: Seq<Metadaum>,
    lks: Seq<NodeLookup>,
)
    requires
        first == second,
    ensures
        answer(zone, req, first, lks).0 == answer(zone, req, second, lks).0,
        answer(zone, req, first, lks).1.to_multiset() == answer(zone, req, second, lks).1.to_multiset(),
{
}

} // verus!
