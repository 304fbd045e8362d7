//! The DNS request handler: checks a question, answers it from the inventory,
//! and turns every failure into SERVFAIL.
use vstd::prelude::*;
use crate::config::{ApplicationConfigHostPort, ApplicationConfigLXD};
use crate::inventory::Metadaum;
use crate::query::{Query, QueryError};
use crate::records::{record_views, Record, RecordType, RecordView};
use crate::resolve::{resolve, NodeLookup};
use crate::text::name_labels;

verus! {

/// Operation code of a message.
#[derive(Debug, Clone, Copy, PartialEq, Eq, Structural)]
pub enum OpCode {
    Query,
    /// Any other operation, by its numeric code.
    Other(u8),
}

/// Whether a message is a question or an answer.
#[derive(Debug, Clone, Copy, PartialEq, Eq, Structural)]
pub enum MessageType {
    Query,
    Response,
}

/// Where the question name stands relative to the configured zone.
#[derive(Debug, Clone, Copy, PartialEq, Eq, Structural)]
pub enum ZoneCheck {
    /// The zone is an ancestor of (or equal to) the question name.
    Inside,
    /// The question name lies outside the zone.
    Outside,
    /// The configured suffix is not a valid DNS name.
    InvalidSuffix,
}

/// The parts of an incoming message that the handler reads.
#[derive(Debug, Clone)]
pub struct Request {
    pub op_code: OpCode,
    pub message_type: MessageType,
    /// The question name in text form, as `web.lexa.`.
    pub name: String,
    pub query_type: RecordType,
    pub zone: ZoneCheck,
}

/// Response code of an answer.
#[derive(Debug, Clone, Copy, PartialEq, Eq, Structural)]
pub enum ResponseCode {
    NoError,
    ServFail,
}

/// An answer: always authoritative; its answer section is empty on failure.
#[derive(Debug, Clone)]
pub struct Response {
    pub authoritative: bool,
    pub response_code: ResponseCode,
    pub answers: Vec<Record>,
}

/// Why a request is refused.
#[derive(Debug, Clone)]
pub enum Error {
    InvalidOpCode(OpCode),
    InvalidMessageType(MessageType),
    InvalidZone(String),
    InvalidSuffix,
    DataError(QueryError),
}

/// The handler shared by every transport.
#[derive(Debug, Clone)]
pub struct Handler {
    pub lxd: ApplicationConfigLXD,
}

/// The question name without its trailing dot and without the zone suffix
/// and the dot before it; empty where nothing is left.
pub open spec fn strip_zone(name: Seq<char>, suffix: Seq<char>) -> Seq<char> {
    let n = if name.len() > 0 && name.last() == '.' {
        name.drop_last()
    } else {
        name
    };
    if n.len() > suffix.len() {
        n.subrange(0, n.len() - suffix.len() - 1)
    } else {
        Seq::empty()
    }
}

/// The request passes the checks on operation, message type and zone.
pub open spec fn admissible(req: Request) -> bool {
    &&& req.op_code == OpCode::Query
    &&& req.message_type == MessageType::Query
    &&& req.zone == ZoneCheck::Inside
}

/// The response code and answers owed to `req` over `inv`.
pub open spec fn answer(
    suffix: Seq<char>,
    req: Request,
    inv: Seq<Metadaum>,
    lks: Seq<NodeLookup>,
) -> (ResponseCode, Seq<RecordView>) {
    if !admissible(req) {
        (ResponseCode::ServFail, Seq::empty())
    } else {
        match resolve(
            name_labels(strip_zone(req.name@, suffix)),
            req.name@,
            req.query_type,
            suffix,
            inv,
            lks,
        ) {
            Ok(recs) => (ResponseCode::NoError, recs),
            Err(_) => (ResponseCode::ServFail, Seq::empty()),
        }
    }
}

/// Text form of `strip_zone`.
pub fn strip_zone_text(name: &str, suffix: &str) -> (r: String)
    ensures
        r@ == strip_zone(name@, suffix@),
{
    let len = name.unicode_len();
    let n = if len > 0 && name.get_char(len - 1) == '.' {
        len - 1
    } else {
        len
    };
    let s = suffix.unicode_len();
    if n > s {
        let r = name.substring_char(0, n - s - 1).to_owned();
        assert(name@.drop_last() =~= name@.subrange(0, len - 1));
        assert(r@ =~= strip_zone(name@, suffix@));
        r
    } else {
        String::new()
    }
}

fn copy_lxd(c: &ApplicationConfigLXD) -> (r: ApplicationConfigLXD)
    ensures
        r == *c,
{
    ApplicationConfigLXD {
        suffix: c.suffix.clone(),
        bind: ApplicationConfigHostPort { port: c.bind.port, host: c.bind.host.clone() },
        certificate: c.certificate.clone(),
        key: c.key.clone(),
    }
}

impl Response {
    /// An authoritative SERVFAIL with no answers.
    pub fn serv_fail() -> (r: Response)
        ensures
            r.authoritative,
            r.response_code == ResponseCode::ServFail,
            r.answers@.len() == 0,
    {
        Response { authoritative: true, response_code: ResponseCode::ServFail, answers: Vec::new() }
    }
}

impl Handler {
    /// The query a request asks, once operation, message type and zone are
    /// checked (in that order); the zone suffix is taken off the name.
    pub fn get_query(&self, request: &Request) -> (r: Result<Query, Error>)
        ensures
            r is Ok <==> admissible(*request),
            r is Ok ==> r->Ok_0.name@ == strip_zone(request.name@, self.lxd.suffix@),
            r is Ok ==> r->Ok_0.config == self.lxd,
            r is Ok ==> r->Ok_0.wf(),
            request.op_code != OpCode::Query ==> (r matches Err(Error::InvalidOpCode(c))
                && c == request.op_code),
            request.op_code == OpCode::Query && request.message_type != MessageType::Query ==> (r
                matches Err(Error::InvalidMessageType(m)) && m == request.message_type),
            request.op_code == OpCode::Query && request.message_type == MessageType::Query
                && request.zone == ZoneCheck::Outside ==> (r matches Err(Error::InvalidZone(n))
                && n@ == request.name@),
            request.op_code == OpCode::Query && request.message_type == MessageType::Query
                && request.zone == ZoneCheck::InvalidSuffix ==> r matches Err(Error::InvalidSuffix),
    {
        if request.op_code != OpCode::Query {
            return Err(Error::InvalidOpCode(request.op_code));
        }
        if request.message_type != MessageType::Query {
            return Err(Error::InvalidMessageType(request.message_type));
        }
        match request.zone {
            ZoneCheck::InvalidSuffix => Err(Error::InvalidSuffix),
            ZoneCheck::Outside => Err(Error::InvalidZone(request.name.clone())),
            ZoneCheck::Inside => {
                let name = strip_zone_text(request.name.as_str(), self.lxd.suffix.as_str());
                Ok(Query::new(name, copy_lxd(&self.lxd)))
            },
        }
    }

    /// The response to `request` over the inventory snapshot `inventory`:
    /// authoritative always; NOERROR with the resolved records, or SERVFAIL
    /// with none where a check or the resolution fails. An unreachable
    /// container host shows as an empty inventory.
    pub fn handle_request(
        &self,
        request: &Request,
        inventory: Vec<Metadaum>,
        lookups: &Vec<NodeLookup>,
    ) -> (r: Response)
        ensures
            r.authoritative,
            (r.response_code, record_views(r.answers@)) == answer(
                self.lxd.suffix@,
                *request,
                inventory@,
                lookups@,
            ),
    {
        let mut query = match self.get_query(request) {
            Ok(q) => q,
            Err(_) => {
                let r = Response::serv_fail();
                assert(record_views(r.answers@) =~= Seq::<RecordView>::empty());
                return r;
            },
        };
        match query.get_rdata_for_query(&request.name, request.query_type, inventory, lookups) {
            Ok(answers) => Response { authoritative: true, response_code: ResponseCode::NoError, answers },
            Err(_) => {
                let r = Response::serv_fail();
                assert(record_views(r.answers@) =~= Seq::<RecordView>::empty());
                r
            },
        }
    }
}

} // verus!
