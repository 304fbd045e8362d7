//! The query grammar: what a question name, once the zone suffix is taken
//! off, asks for.
use vstd::prelude::*;
use crate::config::ApplicationConfigLXD;
use crate::records::RecordType;
use crate::text::{
    clone_strings, join_dots, join_labels, name_labels, split_labels, starts_with_underscore,
    text_is, texts,
};

verus! {

/// What a query asks about.
#[derive(Debug, Clone, Copy, PartialEq, Eq, Structural)]
pub enum QueryType {
    /// The node a container runs on: `[<node>.]cluster.<container>`.
    Cluster,
    /// One interface of a container: `<iface>.if.<container>`.
    Interface,
    /// Declared services: `... .service[.<container>]`.
    Service,
    /// A container's default interface: `<container>`.
    Container,
}

/// How a service query reads.
#[derive(Debug, Clone, Copy, PartialEq, Eq, Structural)]
pub enum ServiceQueryType {
    /// `[_tag.]_service._proto.service`, asked with type SRV.
    RFC2782,
    /// Any other type; recognised, answered with nothing.
    Tagged,
}

/// The parts of a service query.
#[derive(Debug, Clone, PartialEq, Eq)]
pub struct ServiceQueryData {
    pub tag: Option<String>,
    pub service: Option<String>,
    pub protocol: Option<String>,
}

/// Transport protocol of a service.
#[derive(Debug, Clone, Copy, PartialEq, Eq, Structural)]
pub enum ServiceQueryProtocol {
    Tcp,
    Udp,
}

/// Why a query cannot be answered.
#[derive(Debug, Clone, Copy, PartialEq, Eq, Structural)]
pub enum QueryError {
    /// Nothing is left of the name once the zone suffix is taken off.
    InvalidZone,
    /// The container label is not a valid glob pattern.
    InvalidContainerName,
    /// Service parts were asked of a query that is not a service query.
    NotServiceQuery,
}

/// A question, held as the name without its zone suffix.
#[derive(Debug, Clone)]
pub struct Query {
    pub name: String,
    pub config: ApplicationConfigLXD,
    /// The labels of `name`, once computed.
    pub query_pieces: Option<Vec<String>>,
}

/// The parts of a service query, as values.
pub struct ServiceDataView {
    pub tag: Option<Seq<char>>,
    pub service: Option<Seq<char>>,
    pub protocol: Option<Seq<char>>,
}

pub open spec fn opt_text(o: Option<String>) -> Option<Seq<char>> {
    match o {
        Some(s) => Some(s@),
        None => None,
    }
}

impl View for ServiceQueryData {
    type V = ServiceDataView;

    open spec fn view(&self) -> ServiceDataView {
        ServiceDataView {
            tag: opt_text(self.tag),
            service: opt_text(self.service),
            protocol: opt_text(self.protocol),
        }
    }
}

/// What the labels of a query ask about.
pub open spec fn classify(p: Seq<Seq<char>>) -> QueryType {
    if p.len() <= 1 {
        QueryType::Container
    } else if p.last() == "service"@ {
        QueryType::Service
    } else {
        let pen = p[p.len() - 2];
        if pen == "cluster"@ {
            QueryType::Cluster
        } else if pen == "if"@ || pen == "interface"@ {
            QueryType::Interface
        } else if pen == "service"@ {
            QueryType::Service
        } else {
            QueryType::Container
        }
    }
}

/// The node name before `cluster`, where there is one.
pub open spec fn cluster_prefix(p: Seq<Seq<char>>) -> Option<Seq<char>> {
    if p.len() >= 3 {
        Some(join_dots(p.subrange(0, p.len() - 2)))
    } else {
        None
    }
}

/// The service name and the extra label of a service query, by position.
pub open spec fn service_parts(p: Seq<Seq<char>>) -> (Option<Seq<char>>, Option<Seq<char>>) {
    let n = p.len();
    if p.last() == "service"@ {
        (
            if n >= 2 { Some(p[n - 2]) } else { None },
            if n == 3 { Some(p[n - 3]) } else { None },
        )
    } else {
        (
            if n >= 3 { Some(p[n - 3]) } else { None },
            if n >= 4 { Some(p[n - 4]) } else { None },
        )
    }
}

/// SRV questions read in the RFC 2782 shape, all others in the tagged one.
pub open spec fn service_shape(t: RecordType) -> ServiceQueryType {
    if t == RecordType::SRV {
        ServiceQueryType::RFC2782
    } else {
        ServiceQueryType::Tagged
    }
}

pub open spec fn starts_underscore(s: Seq<char>) -> bool {
    s.len() > 0 && s[0] == '_'
}

/// The parts of a service query asked with type `t`.
pub open spec fn service_data(p: Seq<Seq<char>>, t: RecordType) -> ServiceDataView {
    let (name, extra) = service_parts(p);
    if t == RecordType::SRV {
        if extra is Some && starts_underscore(extra->0) {
            ServiceDataView { tag: None, service: extra, protocol: name }
        } else {
            ServiceDataView { tag: extra, service: None, protocol: name }
        }
    } else {
        ServiceDataView { tag: extra, service: name, protocol: None }
    }
}

/// The protocol a protocol label names.
pub open spec fn protocol_of(o: Option<Seq<char>>) -> Option<ServiceQueryProtocol> {
    match o {
        Some(p) => if p == "_tcp"@ {
            Some(ServiceQueryProtocol::Tcp)
        } else if p == "_udp"@ {
            Some(ServiceQueryProtocol::Udp)
        } else {
            None
        },
        None => None,
    }
}

impl ServiceQueryData {
    /// Whether the query names a tag.
    pub fn is_tag(&self) -> (r: bool)
        ensures
            r == self.tag is Some,
    {
        self.tag.is_some()
    }

    /// Whether the query names a service.
    pub fn is_service(&self) -> (r: bool)
        ensures
            r == self.service is Some,
    {
        self.service.is_some()
    }

    /// The protocol named by the query: `_tcp` or `_udp`, else none.
    pub fn get_protocol(&self) -> (r: Option<ServiceQueryProtocol>)
        ensures
            r == protocol_of(opt_text(self.protocol)),
    {
        match &self.protocol {
            Some(p) => if text_is(p, "_tcp") {
                Some(ServiceQueryProtocol::Tcp)
            } else if text_is(p, "_udp") {
                Some(ServiceQueryProtocol::Udp)
            } else {
                None
            },
            None => None,
        }
    }
}

impl Query {
    /// The labels of the name.
    pub open spec fn labels(&self) -> Seq<Seq<char>> {
        name_labels(self.name@)
    }

    /// The remembered labels, where present, are those of the name.
    pub open spec fn wf(&self) -> bool {
        match self.query_pieces {
            Some(v) => texts(v@) == self.labels(),
            None => true,
        }
    }

    /// Name and configuration are those of `other`, and the labels are consistent.
    pub open spec fn keeps(&self, other: Query) -> bool {
        &&& self.name == other.name
        &&& self.config == other.config
        &&& self.wf()
    }

    /// A query for `name`, a question name without its zone suffix.
    pub fn new(name: String, config: ApplicationConfigLXD) -> (r: Self)
        ensures
            r.name == name,
            r.config == config,
            r.wf(),
    {
        Self { name, config, query_pieces: None }
    }

    /// The labels of the name, computed once.
    pub fn get_query_pieces(&mut self) -> (r: Vec<String>)
        requires
            old(self).wf(),
        ensures
            final(self).keeps(*old(self)),
            texts(r@) == old(self).labels(),
    {
        if self.query_pieces.is_none() {
            let v = split_labels(self.name.as_str());
            self.query_pieces = Some(v);
        }
        match &self.query_pieces {
            Some(v) => {
                let r = clone_strings(v);
                assert(texts(r@) =~= texts(v@));
                r
            },
            None => Vec::new(),
        }
    }

    /// The container label: the last one.
    pub fn get_container_name(&mut self) -> (r: String)
        requires
            old(self).wf(),
            old(self).labels().len() > 0,
        ensures
            final(self).keeps(*old(self)),
            r@ == old(self).labels().last(),
    {
        let v = self.get_query_pieces();
        let n = v.len();
        assert(texts(v@)[n - 1] == v@[n - 1]@);
        v[n - 1].clone()
    }

    /// What the query asks about.
    pub fn get_query_type(&mut self) -> (r: QueryType)
        requires
            old(self).wf(),
            old(self).labels().len() > 0,
        ensures
            final(self).keeps(*old(self)),
            r == classify(old(self).labels()),
    {
        let v = self.get_query_pieces();
        let n = v.len();
        if n == 1 {
            return QueryType::Container;
        }
        assert(texts(v@)[n - 1] == v@[n - 1]@);
        assert(texts(v@)[n - 2] == v@[n - 2]@);
        if text_is(&v[n - 1], "service") {
            return QueryType::Service;
        }
        let pen = &v[n - 2];
        if text_is(pen, "cluster") {
            QueryType::Cluster
        } else if text_is(pen, "if") {
            QueryType::Interface
        } else if text_is(pen, "interface") {
            // The older spelling; kept for clients that still send it.
            QueryType::Interface
        } else if text_is(pen, "service") {
            QueryType::Service
        } else {
            QueryType::Container
        }
    }

    /// The interface label (the first) of an interface query; none for other queries.
    pub fn get_interface_name(&mut self) -> (r: Option<String>)
        requires
            old(self).wf(),
            old(self).labels().len() > 0,
        ensures
            final(self).keeps(*old(self)),
            opt_text(r) == if classify(old(self).labels()) == QueryType::Interface {
                Some(old(self).labels()[0])
            } else {
                None
            },
    {
        if self.get_query_type() == QueryType::Interface {
            let v = self.get_query_pieces();
            assert(texts(v@)[0] == v@[0]@);
            Some(v[0].clone())
        } else {
            None
        }
    }

    /// The node name before `cluster`: the labels before the last two, where there are any.
    pub fn get_cluster_prefix(&mut self) -> (r: Option<String>)
        requires
            old(self).wf(),
        ensures
            final(self).keeps(*old(self)),
            opt_text(r) == cluster_prefix(old(self).labels()),
    {
        let v = self.get_query_pieces();
        let n = v.len();
        if n >= 3 {
            let s = join_labels(&v, 0, n - 2);
            Some(s)
        } else {
            None
        }
    }

    /// The shape and the parts of a service query asked with type `q_type`.
    pub fn get_service_type_and_data(&mut self, q_type: RecordType) -> (r: Result<
        (ServiceQueryType, ServiceQueryData),
        QueryError,
    >)
        requires
            old(self).wf(),
            old(self).labels().len() > 0,
        ensures
            final(self).keeps(*old(self)),
            r is Err <==> classify(old(self).labels()) != QueryType::Service,
            r is Err ==> r->Err_0 == QueryError::NotServiceQuery,
            r is Ok ==> r->Ok_0.0 == service_shape(q_type),
            r is Ok ==> r->Ok_0.1@ == service_data(old(self).labels(), q_type),
    {
        if self.get_query_type() != QueryType::Service {
            return Err(QueryError::NotServiceQuery);
        }
        let parts = self.get_query_pieces();
        let n = parts.len();
        let ghost p = texts(parts@);
        assert(p[n - 1] == parts@[n - 1]@);
        let mut service_name: Option<String> = None;
        let mut extra: Option<String> = None;
        if text_is(&parts[n - 1], "service") {
            // No container: every running instance is asked about.
            if n >= 2 {
                assert(p[n - 2] == parts@[n - 2]@);
                service_name = Some(parts[n - 2].clone());
            }
            if n == 3 {
                assert(p[0] == parts@[0]@);
                extra = Some(parts[0].clone());
            }
        } else {
            if n >= 3 {
                assert(p[n - 3] == parts@[n - 3]@);
                service_name = Some(parts[n - 3].clone());
            }
            if n >= 4 {
                assert(p[n - 4] == parts@[n - 4]@);
                extra = Some(parts[n - 4].clone());
            }
        }
        assert((opt_text(service_name), opt_text(extra)) == service_parts(p));
        if q_type == RecordType::SRV {
            let reinterpret = match &extra {
                Some(e) => starts_with_underscore(e.as_str()),
                None => false,
            };
            if reinterpret {
                let data = ServiceQueryData { tag: None, service: extra, protocol: service_name };
                Ok((ServiceQueryType::RFC2782, data))
            } else {
                let data = ServiceQueryData { tag: extra, service: None, protocol: service_name };
                Ok((ServiceQueryType::RFC2782, data))
            }
        } else {
            let data = ServiceQueryData { tag: extra, service: service_name, protocol: None };
            Ok((ServiceQueryType::Tagged, data))
        }
    }
}

} // verus!
