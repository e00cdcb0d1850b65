//! The device plugin service: what each of its RPCs answers.
//!
//! The service is stateless but for the inventory, which it only reads, so
//! any number of calls may run side by side. Requests and replies are plain
//! values here; the transport turns them into wire messages.

use vstd::prelude::*;
use crate::device::{Device, DeviceView};
use crate::discovery::{DEVICE_GLOB, DiscoveryError, discover_devices, pattern_fault};
use crate::inventory::{Inventory, enumerates, holds};
use crate::status::{Status, StatusCode, unknown_device_message};
use crate::watch::{Watch, WatchAction};

verus! {

/// The capabilities that the plugin declares to the kubelet.
#[derive(Clone, Copy, Debug, PartialEq, Eq, Structural)]
pub struct DevicePluginOptions {
    pub pre_start_required: bool,
    pub get_preferred_allocation_available: bool,
}

/// The capabilities of this plugin: it asks for no call before a container
/// starts and offers no allocation preference to the scheduler.
pub open spec fn declared_options() -> DevicePluginOptions {
    DevicePluginOptions { pre_start_required: false, get_preferred_allocation_available: false }
}

/// The strings of `v`, as plain values.
pub open spec fn texts(v: Seq<String>) -> Seq<Seq<char>> {
    Seq::new(v.len(), |i: int| v[i]@)
}

/// The devices that one container asks for.
#[derive(Debug, PartialEq, Eq)]
pub struct ContainerAllocateRequest {
    pub device_ids: Vec<String>,
}

impl View for ContainerAllocateRequest {
    type V = Seq<Seq<char>>;

    open spec fn view(&self) -> Seq<Seq<char>> {
        texts(self.device_ids@)
    }
}

/// An allocation request: one entry for each container of the pod.
#[derive(Debug, PartialEq, Eq)]
pub struct AllocateRequest {
    pub container_requests: Vec<ContainerAllocateRequest>,
}

impl View for AllocateRequest {
    type V = Seq<Seq<Seq<char>>>;

    open spec fn view(&self) -> Seq<Seq<Seq<char>>> {
        Seq::new(self.container_requests@.len(), |c: int| self.container_requests@[c]@)
    }
}

/// A reference to a device by its fully qualified CDI name.
#[derive(Debug, PartialEq, Eq)]
pub struct CdiDevice {
    pub name: String,
}

/// A host path mounted into a container.
#[derive(Debug, PartialEq, Eq)]
pub struct Mount {
    pub container_path: String,
    pub host_path: String,
    pub read_only: bool,
}

/// A host device node made visible in a container.
#[derive(Debug, PartialEq, Eq)]
pub struct DeviceSpec {
    pub container_path: String,
    pub host_path: String,
    pub permissions: String,
}

/// What the container runtime is to do for one container.
#[derive(Debug, PartialEq, Eq)]
pub struct ContainerAllocateResponse {
    pub envs: Vec<(String, String)>,
    pub mounts: Vec<Mount>,
    pub devices: Vec<DeviceSpec>,
    pub annotations: Vec<(String, String)>,
    pub cdi_devices: Vec<CdiDevice>,
}

impl ContainerAllocateResponse {
    /// The names of the referenced devices, in order.
    pub open spec fn cdi_names(&self) -> Seq<Seq<char>> {
        Seq::new(self.cdi_devices@.len(), |i: int| self.cdi_devices@[i].name@)
    }

    /// Whether the reply refers to exactly the devices `names`, in that
    /// order, and asks for nothing else: no environment variable, no mount,
    /// no device node, no annotation.
    pub open spec fn refers_only_to(&self, names: Seq<Seq<char>>) -> bool {
        &&& self.cdi_names() == names
        &&& self.envs@.len() == 0
        &&& self.mounts@.len() == 0
        &&& self.devices@.len() == 0
        &&& self.annotations@.len() == 0
    }
}

/// The reply to an allocation request: one entry for each container.
#[derive(Debug, PartialEq, Eq)]
pub struct AllocateResponse {
    pub container_responses: Vec<ContainerAllocateResponse>,
}

/// Whether the inventory `inv` holds every id that `request` names.
pub open spec fn all_known(inv: Seq<DeviceView>, request: Seq<Seq<Seq<char>>>) -> bool {
    forall|c: int, d: int|
        0 <= c < request.len() && 0 <= d < request[c].len() ==> holds(
            inv,
            #[trigger] request[c][d],
        )
}

/// Whether entry `d` of container `c` is the first id of `request`, read
/// container by container, that the inventory `inv` does not hold.
pub open spec fn first_unknown_at(
    inv: Seq<DeviceView>,
    request: Seq<Seq<Seq<char>>>,
    c: int,
    d: int,
) -> bool {
    &&& 0 <= c < request.len()
    &&& 0 <= d < request[c].len()
    &&& !holds(inv, request[c][d])
    &&& forall|c2: int, d2: int|
        0 <= c2 < request.len() && 0 <= d2 < request[c2].len() && (c2 < c || (c2 == c && d2 < d))
            ==> holds(inv, #[trigger] request[c2][d2])
}

/// What the device list that opens a `ListAndWatch` stream holds.
#[derive(Debug, PartialEq, Eq)]
pub struct ListAndWatchResponse {
    pub devices: Vec<Device>,
}

impl View for ListAndWatchResponse {
    type V = Seq<DeviceView>;

    open spec fn view(&self) -> Seq<DeviceView> {
        Seq::new(self.devices@.len(), |i: int| self.devices@[i]@)
    }
}

/// What one container could be given, and how many devices it needs.
#[derive(Debug, PartialEq, Eq)]
pub struct ContainerPreferredAllocationRequest {
    pub available_device_ids: Vec<String>,
    pub must_include_device_ids: Vec<String>,
    pub allocation_size: i32,
}

/// A request for allocation preferences: one entry for each container.
#[derive(Debug, PartialEq, Eq)]
pub struct PreferredAllocationRequest {
    pub container_requests: Vec<ContainerPreferredAllocationRequest>,
}

/// The devices preferred for one container.
#[derive(Debug, PartialEq, Eq)]
pub struct ContainerPreferredAllocationResponse {
    pub device_ids: Vec<String>,
}

impl View for ContainerPreferredAllocationResponse {
    type V = Seq<Seq<char>>;

    open spec fn view(&self) -> Seq<Seq<char>> {
        texts(self.device_ids@)
    }
}

/// The reply to a request for preferences: one entry for each container.
#[derive(Debug, PartialEq, Eq)]
pub struct PreferredAllocationResponse {
    pub container_responses: Vec<ContainerPreferredAllocationResponse>,
}

/// The preference policy: the first `size` of the available ids, in the
/// caller's order. A size that is larger than the list, or negative, takes
/// the whole list.
pub open spec fn preferred(available: Seq<Seq<char>>, size: int) -> Seq<Seq<char>> {
    if 0 <= size < available.len() {
        available.take(size)
    } else {
        available
    }
}

/// The devices that a container is about to start with.
#[derive(Debug, PartialEq, Eq)]
pub struct PreStartContainerRequest {
    pub device_ids: Vec<String>,
}

/// The acknowledgment of a `PreStartContainer` call. It carries nothing.
#[derive(Clone, Copy, Debug, PartialEq, Eq, Structural)]
pub struct PreStartContainerResponse {}

/// The plugin's service: a resource name and the inventory advertised
/// under it.
#[derive(Debug, PartialEq, Eq)]
pub struct DevicePlugin {
    resource_name: String,
    inventory: Inventory,
}

impl Clone for DevicePlugin {
    /// A copy with the same resource name and inventory.
    fn clone(&self) -> (copy: DevicePlugin)
        ensures
            copy.name() == self.name(),
            copy.devices() == self.devices(),
    {
        DevicePlugin { resource_name: self.resource_name.clone(), inventory: self.inventory.clone() }
    }
}

impl DevicePlugin {
    /// The resource name under which the devices are advertised.
    pub closed spec fn name(&self) -> Seq<char> {
        self.resource_name@
    }

    /// The advertised devices, in the order of their ids.
    pub closed spec fn devices(&self) -> Seq<DeviceView> {
        self.inventory@
    }

    /// The service for the resource `resource_name` on a host where the
    /// device enumeration matched `found` device nodes. Fails if and only if
    /// discovery fails.
    pub fn new(resource_name: String, found: usize) -> (r: Result<DevicePlugin, DiscoveryError>)
        ensures
            r is Ok <==> pattern_fault(DEVICE_GLOB@) is None,
            match r {
                Ok(plugin) => {
                    &&& pattern_fault(DEVICE_GLOB@) is None
                    &&& plugin.name() == resource_name@
                    &&& enumerates(plugin.devices(), resource_name@, found as nat)
                },
                Err(e) => pattern_fault(DEVICE_GLOB@) == Some((e.position as nat, e.reason@)),
            },
    {
        match discover_devices(resource_name.as_str(), found) {
            Ok(inventory) => Ok(DevicePlugin { resource_name, inventory }),
            Err(e) => Err(e),
        }
    }

    /// `GetDevicePluginOptions`: the capabilities declared at design time.
    pub fn get_device_plugin_options(&self) -> (options: DevicePluginOptions)
        ensures
            options == declared_options(),
    {
        DevicePluginOptions { pre_start_required: false, get_preferred_allocation_available: false }
    }

    /// The inventory that the service answers from.
    pub fn inventory(&self) -> (inventory: &Inventory)
        ensures
            inventory@ == self.devices(),
    {
        &self.inventory
    }

    /// The number of advertised devices.
    pub fn device_count(&self) -> (n: usize)
        ensures
            n == self.devices().len(),
    {
        self.inventory.len()
    }

    /// The resource name under which the devices are advertised.
    pub fn resource_name(&self) -> (name: &str)
        ensures
            name@ == self.name(),
    {
        self.resource_name.as_str()
    }

    /// `ListAndWatch`: the one update that the stream carries, which is the
    /// whole inventory in the order of the device ids, and the state of the
    /// new stream, which begins by sending that update.
    pub fn list_and_watch(&self) -> (r: (ListAndWatchResponse, Watch))
        ensures
            r.0@ == self.devices(),
            r.1.pending == WatchAction::SendList,
    {
        let devices = self.inventory.device_list();
        let update = ListAndWatchResponse { devices };
        assert(update@ =~= self.devices());
        (update, Watch::start())
    }

    /// Answers one container's part of an allocation request: a reference
    /// to each requested device, or the first id that the inventory does not
    /// hold.
    fn allocate_container(&self, request: &ContainerAllocateRequest) -> (r: Result<
        ContainerAllocateResponse,
        usize,
    >)
        ensures
            match r {
                Ok(response) => {
                    &&& response.refers_only_to(request@)
                    &&& forall|d: int|
                        0 <= d < request@.len() ==> holds(self.devices(), #[trigger] request@[d])
                },
                Err(d) => {
                    &&& d < request@.len()
                    &&& !holds(self.devices(), request@[d as int])
                    &&& forall|d2: int|
                        0 <= d2 < d ==> holds(self.devices(), #[trigger] request@[d2])
                },
            },
    {
        let mut cdi_devices: Vec<CdiDevice> = Vec::new();
        let mut d: usize = 0;
        while d < request.device_ids.len()
            invariant
                d <= request.device_ids@.len(),
                request@.len() == request.device_ids@.len(),
                cdi_devices@.len() == d,
                forall|k: int| 0 <= k < d ==> (#[trigger] cdi_devices@[k]).name@ == request@[k],
                forall|k: int| 0 <= k < d ==> holds(self.devices(), #[trigger] request@[k]),
            decreases request.device_ids@.len() - d,
        {
            let id = &request.device_ids[d];
            assert(id@ == request@[d as int]);
            if !self.inventory.contains_key(id.as_str()) {
                return Err(d);
            }
            cdi_devices.push(CdiDevice { name: id.clone() });
            d += 1;
        }
        let response = ContainerAllocateResponse {
            envs: Vec::new(),
            mounts: Vec::new(),
            devices: Vec::new(),
            annotations: Vec::new(),
            cdi_devices,
        };
        assert(response.cdi_names() =~= request@);
        Ok(response)
    }

    /// `Allocate`: for every container, a reference to each device it asks
    /// for, in the order asked, and nothing else.
    ///
    /// The call is all or nothing. If any container names an id that the
    /// inventory does not hold, the whole call fails with `InvalidArgument`
    /// and a message that carries the first such id, read container by
    /// container.
    pub fn allocate(&self, request: &AllocateRequest) -> (r: Result<AllocateResponse, Status>)
        ensures
            r is Ok <==> all_known(self.devices(), request@),
            match r {
                Ok(response) => {
                    &&& all_known(self.devices(), request@)
                    &&& response.container_responses@.len() == request@.len()
                    &&& forall|c: int|
                        0 <= c < request@.len() ==> (
                        #[trigger] response.container_responses@[c]).refers_only_to(request@[c])
                },
                Err(status) => {
                    &&& status.code == StatusCode::InvalidArgument
                    &&& exists|c: int, d: int|
                        first_unknown_at(self.devices(), request@, c, d) && status.message@
                            == unknown_device_message(#[trigger] request@[c][d])
                },
            },
    {
        let mut container_responses: Vec<ContainerAllocateResponse> = Vec::new();
        let mut c: usize = 0;
        while c < request.container_requests.len()
            invariant
                c <= request.container_requests@.len(),
                request@.len() == request.container_requests@.len(),
                container_responses@.len() == c,
                forall|k: int|
                    0 <= k < c ==> (#[trigger] container_responses@[k]).refers_only_to(
                        request@[k],
                    ),
                forall|k: int, d: int|
                    0 <= k < c && 0 <= d < request@[k].len() ==> holds(
                        self.devices(),
                        #[trigger] request@[k][d],
                    ),
            decreases request.container_requests@.len() - c,
        {
            let container = &request.container_requests[c];
            assert(container@ == request@[c as int]);
            match self.allocate_container(container) {
                Ok(response) => {
                    container_responses.push(response);
                },
                Err(d) => {
                    let id = &container.device_ids[d];
                    assert(id@ == request@[c as int][d as int]);
                    assert(first_unknown_at(self.devices(), request@, c as int, d as int));
                    return Err(Status::unknown_device(id.as_str()));
                },
            }
            c += 1;
        }
        Ok(AllocateResponse { container_responses })
    }

    /// The preferred devices of one container: the first `allocation_size`
    /// of those available, in the caller's order.
    fn prefer_container(request: &ContainerPreferredAllocationRequest) -> (response:
        ContainerPreferredAllocationResponse)
        ensures
            response@ == preferred(
                texts(request.available_device_ids@),
                request.allocation_size as int,
            ),
    {
        let available = &request.available_device_ids;
        let size: usize = if request.allocation_size < 0 {
            available.len()
        } else if request.allocation_size as usize > available.len() {
            available.len()
        } else {
            request.allocation_size as usize
        };
        let mut device_ids: Vec<String> = Vec::new();
        let mut i: usize = 0;
        while i < size
            invariant
                i <= size <= available@.len(),
                device_ids@.len() == i,
                forall|k: int| 0 <= k < i ==> (#[trigger] device_ids@[k])@ == available@[k]@,
            decreases size - i,
        {
            device_ids.push(available[i].clone());
            i += 1;
        }
        let response = ContainerPreferredAllocationResponse { device_ids };
        assert(response@ =~= preferred(
            texts(request.available_device_ids@),
            request.allocation_size as int,
        ));
        response
    }

    /// `GetPreferredAllocation`: for every container, the first
    /// `allocation_size` of its available ids, in the order in which the
    /// caller gave them. Neither topology nor health is weighed, and the ids
    /// are not looked up in the inventory.
    pub fn get_preferred_allocation(&self, request: &PreferredAllocationRequest) -> (response:
        PreferredAllocationResponse)
        ensures
            response.container_responses@.len() == request.container_requests@.len(),
            forall|c: int|
                0 <= c < request.container_requests@.len() ==> (
                #[trigger] response.container_responses@[c])@ == preferred(
                    texts(request.container_requests@[c].available_device_ids@),
                    request.container_requests@[c].allocation_size as int,
                ),
    {
        let mut container_responses: Vec<ContainerPreferredAllocationResponse> = Vec::new();
        let mut c: usize = 0;
        while c < request.container_requests.len()
            invariant
                c <= request.container_requests@.len(),
                container_responses@.len() == c,
                forall|k: int|
                    0 <= k < c ==> (#[trigger] container_responses@[k])@ == preferred(
                        texts(request.container_requests@[k].available_device_ids@),
                        request.container_requests@[k].allocation_size as int,
                    ),
            decreases request.container_requests@.len() - c,
        {
            let chosen = Self::prefer_container(&request.container_requests[c]);
            container_responses.push(chosen);
            c += 1;
        }
        PreferredAllocationResponse { container_responses }
    }

    /// `PreStartContainer`: acknowledged and nothing more. The plugin
    /// declares that it does not need the call.
    pub fn pre_start_container(&self, request: &PreStartContainerRequest) -> (response:
        PreStartContainerResponse)
        ensures
            response == (PreStartContainerResponse {  }),
    {
        PreStartContainerResponse {  }
    }
}

} // verus!
