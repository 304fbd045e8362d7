//! Resource records, as the resolver produces them.
use vstd::prelude::*;

verus! {

/// The record type a question asks for.
#[derive(Debug, Clone, Copy, PartialEq, Eq, Structural)]
pub enum RecordType {
    A,
    AAAA,
    CNAME,
    SRV,
    /// Any other type, by its numeric code.
    Other(u16),
}

/// Target of a service record.
#[derive(Debug, Clone)]
pub struct Srv {
    pub priority: u16,
    pub weight: u16,
    pub port: u16,
    pub target: String,
}

/// Record data; addresses and names in text form.
#[derive(Debug, Clone)]
pub enum RData {
    A(String),
    AAAA(String),
    CNAME(String),
    SRV(Srv),
}

/// One answer record of class IN.
#[derive(Debug, Clone)]
pub struct Record {
    pub name: String,
    pub ttl: u32,
    pub rdata: RData,
}

/// Record data as values.
pub enum RDataView {
    A(Seq<char>),
    AAAA(Seq<char>),
    CNAME(Seq<char>),
    SRV { priority: u16, weight: u16, port: u16, target: Seq<char> },
}

/// A record as values.
pub struct RecordView {
    pub name: Seq<char>,
    pub ttl: u32,
    pub rdata: RDataView,
}

impl View for RData {
    type V = RDataView;

    open spec fn view(&self) -> RDataView {
        match self {
            RData::A(a) => RDataView::A(a@),
            RData::AAAA(a) => RDataView::AAAA(a@),
            RData::CNAME(n) => RDataView::CNAME(n@),
            RData::SRV(s) => RDataView::SRV {
                priority: s.priority,
                weight: s.weight,
                port: s.port,
                target: s.target@,
            },
        }
    }
}

impl View for Record {
    type V = RecordView;

    open spec fn view(&self) -> RecordView {
        RecordView { name: self.name@, ttl: self.ttl, rdata: self.rdata@ }
    }
}

/// The views of a list of records.
pub open spec fn record_views(v: Seq<Record>) -> Seq<RecordView> {
    v.map_values(|r: Record| r@)
}

/// The type of a record's data.
pub open spec fn type_of(d: RDataView) -> RecordType {
    match d {
        RDataView::A(_) => RecordType::A,
        RDataView::AAAA(_) => RecordType::AAAA,
        RDataView::CNAME(_) => RecordType::CNAME,
        RDataView::SRV { .. } => RecordType::SRV,
    }
}

/// Appends records to a list.
pub fn append_records(out: &mut Vec<Record>, more: Vec<Record>)
    ensures
        record_views(final(out)@) == record_views(old(out)@) + record_views(more@),
{
    let mut more = more;
    let ghost all = more@;
    out.append(&mut more);
    assert(record_views(out@) =~= record_views(old(out)@) + record_views(all));
}

} // verus!
