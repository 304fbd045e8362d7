//! The container host's inventory, as the resolver reads it.
use vstd::prelude::*;

verus! {

/// The answer of the container host to an inventory request.
#[derive(Debug, Clone, Default)]
pub struct Root {
    pub type_field: String,
    pub status: String,
    pub status_code: i64,
    pub operation: String,
    pub error_code: i64,
    pub error: String,
    pub metadata: Vec<Metadaum>,
}

/// One container of the inventory.
///
/// `network` lists the interfaces in the order the host gave them;
/// `service_config` holds the entries of the `user.service` configuration
/// key, where that key is present and reads as a list of services.
#[derive(Debug, Clone, Default)]
pub struct Metadaum {
    pub architecture: String,
    pub config: Vec<(String, String)>,
    pub expanded_config: Vec<(String, String)>,
    pub name: String,
    pub stateful: bool,
    pub ephemeral: bool,
    pub description: String,
    pub status: String,
    pub status_code: i32,
    pub created_at: String,
    pub last_used_at: String,
    pub location: String,
    pub type_field: String,
    pub project: String,
    pub state: State,
    pub service_config: Option<Vec<InstanceService>>,
}

/// Devices of a container; no field of them is read.
#[derive(Debug, Clone, Default)]
pub struct Devices {}

/// Runtime state of a container.
#[derive(Debug, Clone, Default)]
pub struct State {
    pub status: String,
    pub status_code: i64,
    pub disk: Disk,
    pub memory: Memory,
    pub network: Vec<(String, Network)>,
    pub pid: i64,
    pub processes: i64,
    pub cpu: Cpu,
}

/// Disk usage; no field of it is read.
#[derive(Debug, Clone, Default)]
pub struct Disk {}

/// Memory usage.
#[derive(Debug, Clone, Default)]
pub struct Memory {
    pub usage: i64,
    pub usage_peak: i64,
    pub swap_usage: i64,
    pub swap_usage_peak: i64,
}

/// One network interface of a container.
#[derive(Debug, Clone, Default)]
pub struct Network {
    pub addresses: Vec<Address>,
    pub counters: Counters,
    pub hwaddr: String,
    pub host_name: String,
    pub mtu: i64,
    pub state: String,
    pub type_field: String,
}

/// Address family.
#[derive(Debug, Clone, Copy, PartialEq, Eq, Structural, Default)]
pub enum NetworkFamily {
    INet6,
    #[default]
    Inet,
}

/// One address of an interface, in text form.
#[derive(Debug, Clone, Default)]
pub struct Address {
    pub family: NetworkFamily,
    pub address: String,
    pub netmask: String,
    pub scope: String,
}

/// Traffic counters of an interface.
#[derive(Debug, Clone, Default)]
pub struct Counters {
    pub bytes_received: i64,
    pub bytes_sent: i64,
    pub packets_received: i64,
    pub packets_sent: i64,
    pub errors_received: i64,
    pub errors_sent: i64,
    pub packets_dropped_outbound: i64,
    pub packets_dropped_inbound: i64,
}

/// CPU usage.
#[derive(Debug, Clone, Default)]
pub struct Cpu {
    pub usage: i64,
}

/// A running container picked by a query.
#[derive(Debug, Clone)]
pub struct Instance {
    pub name: String,
    pub data: Metadaum,
}

/// A service that a container declares under `user.service`.
#[derive(Debug, Clone)]
pub struct InstanceService {
    pub interface: Option<String>,
    pub name: String,
    pub port: i32,
    pub proto: String,
    pub tags: Option<Vec<String>>,
}

/// Running: status `Running` and status code 103.
pub open spec fn is_running(m: Metadaum) -> bool {
    m.status@ == "Running"@ && m.status_code == 103
}

/// Names of the interfaces, in order.
pub open spec fn interface_names(nets: Seq<(String, Network)>) -> Seq<Seq<char>> {
    nets.map_values(|e: (String, Network)| e.0@)
}

/// The interface that unqualified queries use: `eth0` where present, else the first.
pub open spec fn default_interface(nets: Seq<(String, Network)>) -> Option<Seq<char>> {
    if interface_names(nets).contains("eth0"@) {
        Some("eth0"@)
    } else if nets.len() > 0 {
        Some(nets[0].0@)
    } else {
        None
    }
}

/// Whether a container with this record is running.
pub fn is_running_exec(m: &Metadaum) -> (r: bool)
    ensures
        r == is_running(*m),
{
    crate::text::text_is(&m.status, "Running") && m.status_code == 103
}

impl Instance {
    /// The names of the instance's interfaces, in order.
    pub fn get_interfaces(&self) -> (r: Vec<String>)
        ensures
            crate::text::texts(r@) == interface_names(self.data.state.network@),
    {
        let nets = &self.data.state.network;
        let mut out: Vec<String> = Vec::new();
        let mut i: usize = 0;
        while i < nets.len()
            invariant
                i <= nets@.len(),
                crate::text::texts(out@) == interface_names(nets@.subrange(0, i as int)),
            decreases nets@.len() - i,
        {
            let ghost before = crate::text::texts(out@);
            out.push(nets[i].0.clone());
            assert(crate::text::texts(out@) =~= before.push(nets@[i as int].0@));
            assert(interface_names(nets@.subrange(0, i as int + 1)) =~= interface_names(
                nets@.subrange(0, i as int),
            ).push(nets@[i as int].0@));
            assert(crate::text::texts(out@) =~= interface_names(nets@.subrange(0, i as int + 1)));
            i = i + 1;
        }
        assert(nets@.subrange(0, nets@.len() as int) =~= nets@);
        out
    }

    /// The interface used where a query names none: `eth0` where present,
    /// else the first in order; `None` for an instance without interfaces.
    pub fn default_interface(&self) -> (r: Option<String>)
        ensures
            match r {
                Some(s) => default_interface(self.data.state.network@) == Some(s@),
                None => default_interface(self.data.state.network@) is None,
            },
    {
        let names = self.get_interfaces();
        let mut i: usize = 0;
        while i < names.len()
            invariant
                i <= names@.len(),
                crate::text::texts(names@) == interface_names(self.data.state.network@),
                forall|j: int| 0 <= j < i ==> names@[j]@ != "eth0"@,
            decreases names@.len() - i,
        {
            if crate::text::text_is(&names[i], "eth0") {
                assert(crate::text::texts(names@)[i as int] == "eth0"@);
                return Some(names[i].clone());
            }
            i = i + 1;
        }
        assert(!interface_names(self.data.state.network@).contains("eth0"@)) by {
            if interface_names(self.data.state.network@).contains("eth0"@) {
                let j = choose|j: int|
                    0 <= j < names@.len() && crate::text::texts(names@)[j] == "eth0"@;
                assert(names@[j]@ == "eth0"@);
            }
        }
        assert(crate::text::texts(names@).len() == names@.len());
        assert(interface_names(self.data.state.network@).len() == self.data.state.network@.len());
        if names.len() > 0 {
            assert(interface_names(self.data.state.network@)[0] == self.data.state.network@[0].0@);
            assert(crate::text::texts(names@)[0] == names@[0]@);
            Some(names[0].clone())
        } else {
            None
        }
    }

    /// The services declared under `user.service`, where that entry is a
    /// list of services.
    pub fn get_service_config(&self) -> (r: Option<&Vec<InstanceService>>)
        ensures
            r is Some <==> self.data.service_config is Some,
            r is Some ==> *r->0 == self.data.service_config->0,
    {
        self.data.service_config.as_ref()
    }
}

} // verus!
