//! The JSON read API: running instances whose name matches a pattern.
use vstd::prelude::*;
use crate::inventory::{Instance, Metadaum};
use crate::pattern::{glob_compiles, glob_match, glob_valid};
use crate::resolve::select;

verus! {

/// One entry of the listing.
#[derive(Debug, Clone)]
pub struct InstanceSimple {
    pub name: String,
    pub status: String,
    pub location: String,
}

/// The pattern a request asks for: the `name` parameter, or `*` where it is missing or empty.
pub open spec fn listing_pattern(name: Option<Seq<char>>) -> Seq<char> {
    match name {
        Some(n) => if n.len() == 0 {
            "*"@
        } else {
            n
        },
        None => "*"@,
    }
}

pub open spec fn simple_of(i: Instance) -> (Seq<char>, Seq<char>, Seq<char>) {
    (i.name@, i.data.status@, i.data.location@)
}

pub open spec fn simple_view(s: InstanceSimple) -> (Seq<char>, Seq<char>, Seq<char>) {
    (s.name@, s.status@, s.location@)
}

/// The listing for `pattern`: the running instances whose name matches it,
/// in inventory order; empty for an invalid pattern.
pub open spec fn listing(pattern: Seq<char>, inv: Seq<Metadaum>) -> Seq<(Seq<char>, Seq<char>, Seq<char>)> {
    if glob_valid(pattern) {
        select(inv, false, pattern).map_values(|i: Instance| simple_of(i))
    } else {
        Seq::empty()
    }
}

/// The pattern a request asks for: the `name` parameter, or `*` where it is missing or empty.
pub fn pattern_for(name: Option<&str>) -> (r: String)
    ensures
        r@ == listing_pattern(
            match name {
                Some(n) => Some(n@),
                None => None,
            },
        ),
{
    match name {
        Some(n) => if n.unicode_len() == 0 {
            "*".to_owned()
        } else {
            n.to_owned()
        },
        None => "*".to_owned(),
    }
}

/// The running instances of `inventory` whose name matches `pattern`.
pub fn list_instances(pattern: &str, inventory: &Vec<Metadaum>) -> (r: Vec<InstanceSimple>)
    ensures
        r@.map_values(|s: InstanceSimple| simple_view(s)) == listing(pattern@, inventory@),
{
    let mut out: Vec<InstanceSimple> = Vec::new();
    if !glob_compiles(pattern) {
        assert(out@.map_values(|s: InstanceSimple| simple_view(s)) =~= listing(pattern@, inventory@));
        return out;
    }
    let mut i: usize = 0;
    let ghost inv = inventory@;
    assert(inv.subrange(0, 0) =~= Seq::<Metadaum>::empty());
    while i < inventory.len()
        invariant
            inv == inventory@,
            i <= inv.len(),
            glob_valid(pattern@),
            out@.map_values(|s: InstanceSimple| simple_view(s)) == select(
                inv.subrange(0, i as int),
                false,
                pattern@,
            ).map_values(|x: Instance| simple_of(x)),
        decreases inv.len() - i,
    {
        let m = &inventory[i];
        let ghost before = select(inv.subrange(0, i as int), false, pattern@);
        assert(inv.subrange(0, i as int + 1).drop_last() =~= inv.subrange(0, i as int));
        let ghost old_out = out@;
        if crate::inventory::is_running_exec(m) && glob_match(pattern, m.name.as_str()) {
            out.push(
                InstanceSimple {
                    name: m.name.clone(),
                    status: m.status.clone(),
                    location: m.location.clone(),
                },
            );
            let ghost after = before.push(Instance { name: m.name, data: *m });
            assert(select(inv.subrange(0, i as int + 1), false, pattern@) =~= after);
            let ghost x = Instance { name: m.name, data: *m };
            assert(out@.map_values(|s: InstanceSimple| simple_view(s)) =~= old_out.map_values(
                |s: InstanceSimple| simple_view(s),
            ).push(simple_of(x)));
            assert(after.map_values(|x: Instance| simple_of(x)) =~= before.map_values(
                |x: Instance| simple_of(x),
            ).push(simple_of(x)));
            assert(out@.map_values(|s: InstanceSimple| simple_view(s)) =~= after.map_values(
                |x: Instance| simple_of(x),
            ));
        } else {
            assert(select(inv.subrange(0, i as int + 1), false, pattern@) =~= before);
            assert(out@.map_values(|s: InstanceSimple| simple_view(s)) =~= before.map_values(
                |x: Instance| simple_of(x),
            ));
        }
        i = i + 1;
    }
    assert(inv.subrange(0, inv.len() as int) =~= inv);
    out
}

} // verus!
