//! A device as the plugin advertises it.

use vstd::prelude::*;
use crate::text::{decimal, decimal_string, lemma_decimal_injective};

verus! {

/// Whether a device can be handed to a container.
#[derive(Clone, Copy, Debug, PartialEq, Eq, Structural)]
pub enum Health {
    Healthy,
    Unhealthy,
}

/// The text by which the device-plugin protocol names a health state.
pub open spec fn health_text(health: Health) -> Seq<char> {
    match health {
        Health::Healthy => "Healthy"@,
        Health::Unhealthy => "Unhealthy"@,
    }
}

impl Health {
    /// The protocol's name of this health state.
    pub fn as_str(&self) -> (s: &'static str)
        ensures
            s@ == health_text(*self),
    {
        match self {
            Health::Healthy => "Healthy",
            Health::Unhealthy => "Unhealthy",
        }
    }
}

/// Where a device sits in the machine: the NUMA nodes it is attached to.
#[derive(Debug, PartialEq, Eq)]
pub struct Topology {
    pub numa_nodes: Vec<i64>,
}

impl View for Topology {
    type V = Seq<i64>;

    open spec fn view(&self) -> Seq<i64> {
        self.numa_nodes@
    }
}

impl Clone for Topology {
    /// A copy with the same nodes.
    fn clone(&self) -> (t: Topology)
        ensures
            t@ == self@,
    {
        let mut nodes: Vec<i64> = Vec::new();
        let mut i: usize = 0;
        while i < self.numa_nodes.len()
            invariant
                i <= self.numa_nodes@.len(),
                nodes@ == self.numa_nodes@.take(i as int),
            decreases self.numa_nodes@.len() - i,
        {
            nodes.push(self.numa_nodes[i]);
            assert(nodes@ =~= self.numa_nodes@.take(i + 1));
            i += 1;
        }
        assert(nodes@ =~= self.numa_nodes@);
        Topology { numa_nodes: nodes }
    }
}

/// One advertised device. Its identity is `id`.
#[derive(Debug, PartialEq, Eq)]
pub struct Device {
    pub id: String,
    pub health: Health,
    pub topology: Option<Topology>,
}

/// What a `Device` holds, as plain values.
pub struct DeviceView {
    pub id: Seq<char>,
    pub health: Health,
    pub topology: Option<Seq<i64>>,
}

impl View for Device {
    type V = DeviceView;

    open spec fn view(&self) -> DeviceView {
        DeviceView {
            id: self.id@,
            health: self.health,
            topology: match self.topology {
                Some(t) => Some(t@),
                None => None,
            },
        }
    }
}

impl Clone for Device {
    /// A copy that holds the same id, health and topology.
    fn clone(&self) -> (d: Device)
        ensures
            d@ == self@,
    {
        let topology = match &self.topology {
            Some(t) => Some(t.clone()),
            None => None,
        };
        Device { id: self.id.clone(), health: self.health, topology }
    }
}

/// The id of the device with enumeration index `index` under the resource
/// name `resource_name`: the name, an equals sign, and the index in decimal.
pub open spec fn device_id(resource_name: Seq<char>, index: nat) -> Seq<char> {
    resource_name + seq!['='] + decimal(index)
}

/// The device that discovery makes of enumeration index `index`: healthy,
/// with no topology.
pub open spec fn discovered_device(resource_name: Seq<char>, index: nat) -> DeviceView {
    DeviceView { id: device_id(resource_name, index), health: Health::Healthy, topology: None }
}

/// Ids are deterministic and distinct: two indices give the same id only if
/// they are the same index.
pub proof fn lemma_device_id_injective(resource_name: Seq<char>, i: nat, j: nat)
    requires
        device_id(resource_name, i) == device_id(resource_name, j),
    ensures
        i == j,
{
    let prefix = resource_name + seq!['='];
    let a = decimal(i);
    let b = decimal(j);
    assert((prefix + a).subrange(prefix.len() as int, (prefix + a).len() as int) =~= a);
    assert((prefix + b).subrange(prefix.len() as int, (prefix + b).len() as int) =~= b);
    lemma_decimal_injective(i, j);
}

/// Builds the id of the device with enumeration index `index`.
pub fn make_device_id(resource_name: &str, index: usize) -> (id: String)
    ensures
        id@ == device_id(resource_name@, index as nat),
{
    let mut id = String::from_str(resource_name);
    id.append("=");
    let digits = decimal_string(index);
    id.append(digits.as_str());
    proof {
        reveal_strlit("=");
        assert("="@ =~= seq!['=']);
    }
    id
}

/// Builds the device that discovery makes of enumeration index `index`.
pub fn make_discovered_device(resource_name: &str, index: usize) -> (d: Device)
    ensures
        d@ == discovered_device(resource_name@, index as nat),
{
    Device { id: make_device_id(resource_name, index), health: Health::Healthy, topology: None }
}

} // verus!
