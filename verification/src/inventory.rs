//! The device inventory: the devices found at startup, keyed by id and kept
//! in the order of their ids. It is built once and only read afterwards.

use vstd::prelude::*;
use crate::device::{Device, DeviceView, device_id, discovered_device, lemma_device_id_injective,
    make_discovered_device};
use crate::text::{Rank, lemma_precedes_transitive, lemma_precedes_trichotomy, precedes, rank};

verus! {

/// Whether the devices of `s` stand in strictly ascending order of id.
pub open spec fn ascending(s: Seq<DeviceView>) -> bool {
    forall|i: int, j: int| 0 <= i < j < s.len() ==> precedes(#[trigger] s[i].id, #[trigger] s[j].id)
}

/// Whether some device of `s` has the id `id`.
pub open spec fn holds(s: Seq<DeviceView>, id: Seq<char>) -> bool {
    exists|i: int| 0 <= i < s.len() && #[trigger] s[i].id == id
}

/// Whether no two devices of `s` share an id.
pub open spec fn distinct_ids(s: Seq<DeviceView>) -> bool {
    forall|i: int, j: int| 0 <= i < j < s.len() ==> #[trigger] s[i].id != #[trigger] s[j].id
}

/// Ascending order leaves no room for a repeated id.
pub proof fn lemma_ascending_is_distinct(s: Seq<DeviceView>)
    requires
        ascending(s),
    ensures
        distinct_ids(s),
{
    assert forall|i: int, j: int| 0 <= i < j < s.len() implies #[trigger] s[i].id
        != #[trigger] s[j].id by {
        lemma_precedes_trichotomy(s[i].id, s[j].id);
    }
}

/// Whether `s` is the inventory of `found` enumerated devices under
/// `resource_name`: one device for each index below `found` and no other,
/// each healthy and without topology, in ascending order of id.
pub open spec fn enumerates(s: Seq<DeviceView>, resource_name: Seq<char>, found: nat) -> bool {
    &&& s.len() == found
    &&& ascending(s)
    &&& distinct_ids(s)
    &&& forall|k: nat| k < found ==> holds(s, #[trigger] device_id(resource_name, k))
    &&& forall|i: int|
        0 <= i < s.len() ==> exists|k: nat|
            k < found && #[trigger] s[i] == discovered_device(resource_name, k)
}

/// Two ascending sequences that hold the same ids hold them at the same
/// places.
pub proof fn lemma_order_fixes_places(a: Seq<DeviceView>, b: Seq<DeviceView>)
    requires
        ascending(a),
        ascending(b),
        forall|i: int| 0 <= i < a.len() ==> holds(b, #[trigger] a[i].id),
        forall|j: int| 0 <= j < b.len() ==> holds(a, #[trigger] b[j].id),
    ensures
        a.len() == b.len(),
        forall|i: int| 0 <= i < a.len() ==> #[trigger] a[i].id == b[i].id,
    decreases a.len(),
{
    if a.len() == 0 {
        if b.len() > 0 {
            assert(holds(a, b[0].id));
        }
    } else {
        // The last id of `a` is in `b`, so `b` is not empty, and the last id
        // of `b` is in `a`. Were the two different, each would come before
        // the other.
        let x = a.last();
        assert(holds(b, a[a.len() - 1].id));
        let j = choose|j: int| 0 <= j < b.len() && #[trigger] b[j].id == x.id;
        let y = b.last();
        assert(holds(a, b[b.len() - 1].id));
        let i = choose|i: int| 0 <= i < a.len() && #[trigger] a[i].id == y.id;
        if x.id != y.id {
            assert(precedes(b[j].id, b[b.len() - 1].id));
            assert(precedes(a[i].id, a[a.len() - 1].id));
            lemma_precedes_trichotomy(x.id, y.id);
        }
        // Without their last devices the two still hold the same ids.
        let a0 = a.drop_last();
        let b0 = b.drop_last();
        lemma_ascending_is_distinct(a);
        lemma_ascending_is_distinct(b);
        assert forall|i: int| 0 <= i < a0.len() implies holds(b0, #[trigger] a0[i].id) by {
            assert(a0[i] == a[i]);
            assert(holds(b, a[i].id));
            let k = choose|k: int| 0 <= k < b.len() && #[trigger] b[k].id == a[i].id;
            assert(k != b.len() - 1);
            assert(b0[k] == b[k]);
        }
        assert forall|j: int| 0 <= j < b0.len() implies holds(a0, #[trigger] b0[j].id) by {
            assert(b0[j] == b[j]);
            assert(holds(a, b[j].id));
            let k = choose|k: int| 0 <= k < a.len() && #[trigger] a[k].id == b[j].id;
            assert(k != a.len() - 1);
            assert(a0[k] == a[k]);
        }
        assert(ascending(a0)) by {
            assert forall|i: int, j: int| 0 <= i < j < a0.len() implies precedes(
                #[trigger] a0[i].id,
                #[trigger] a0[j].id,
            ) by {
                assert(a0[i] == a[i] && a0[j] == a[j]);
            }
        }
        assert(ascending(b0)) by {
            assert forall|i: int, j: int| 0 <= i < j < b0.len() implies precedes(
                #[trigger] b0[i].id,
                #[trigger] b0[j].id,
            ) by {
                assert(b0[i] == b[i] && b0[j] == b[j]);
            }
        }
        lemma_order_fixes_places(a0, b0);
        assert forall|i: int| 0 <= i < a.len() implies #[trigger] a[i].id == b[i].id by {
            if i < a.len() - 1 {
                assert(a0[i].id == b0[i].id);
                assert(a0[i] == a[i] && b0[i] == b[i]);
            }
        }
    }
}

/// Discovery is deterministic: a resource name and a count have exactly one
/// inventory, so an unchanged host gives the same ids on every start.
pub proof fn lemma_enumeration_is_unique(
    a: Seq<DeviceView>,
    b: Seq<DeviceView>,
    resource_name: Seq<char>,
    found: nat,
)
    requires
        enumerates(a, resource_name, found),
        enumerates(b, resource_name, found),
    ensures
        a == b,
{
    assert forall|i: int| 0 <= i < a.len() implies holds(b, #[trigger] a[i].id) by {
        let k = choose|k: nat| k < found && a[i] == discovered_device(resource_name, k);
        assert(holds(b, device_id(resource_name, k)));
    }
    assert forall|j: int| 0 <= j < b.len() implies holds(a, #[trigger] b[j].id) by {
        let k = choose|k: nat| k < found && b[j] == discovered_device(resource_name, k);
        assert(holds(a, device_id(resource_name, k)));
    }
    lemma_order_fixes_places(a, b);
    assert forall|i: int| 0 <= i < a.len() implies a[i] == b[i] by {
        let k = choose|k: nat| k < found && a[i] == discovered_device(resource_name, k);
        let m = choose|m: nat| m < found && b[i] == discovered_device(resource_name, m);
        assert(a[i].id == b[i].id);
        lemma_device_id_injective(resource_name, k, m);
    }
    assert(a =~= b);
}

/// A mapping from id to device, ordered by id.
///
/// The view is the sequence of devices in key order. The type keeps that
/// sequence strictly ascending, so that an id names at most one device.
#[derive(Debug, PartialEq, Eq)]
pub struct Inventory {
    devices: Vec<Device>,
}

impl View for Inventory {
    type V = Seq<DeviceView>;

    closed spec fn view(&self) -> Seq<DeviceView> {
        Seq::new(self.devices@.len(), |i: int| self.devices@[i]@)
    }
}

impl Clone for Inventory {
    /// A copy that holds the same devices.
    fn clone(&self) -> (copy: Inventory)
        ensures
            copy@ == self@,
    {
        proof {
            use_type_invariant(self);
        }
        let devices = self.device_list();
        assert(Seq::new(devices@.len(), |i: int| devices@[i]@) =~= self@);
        Inventory { devices }
    }
}

impl Inventory {
    /// The invariant of the type: devices stand in ascending order of id.
    #[verifier::type_invariant]
    pub closed spec fn ordered(self) -> bool {
        ascending(self@)
    }

    /// An inventory without devices.
    pub fn new() -> (inv: Inventory)
        ensures
            inv@ == Seq::<DeviceView>::empty(),
    {
        let inv = Inventory { devices: Vec::new() };
        assert(inv@ =~= Seq::<DeviceView>::empty());
        inv
    }

    /// The number of devices.
    pub fn len(&self) -> (n: usize)
        ensures
            n == self@.len(),
            ascending(self@),
            distinct_ids(self@),
    {
        proof {
            use_type_invariant(self);
            lemma_ascending_is_distinct(self@);
        }
        self.devices.len()
    }

    /// Whether there is no device at all.
    pub fn is_empty(&self) -> (b: bool)
        ensures
            b == (self@.len() == 0),
    {
        self.devices.len() == 0
    }

    /// Finds where `id` stands: the index of the device that has it, or the
    /// index at which a device with that id would have to be put.
    fn position(&self, id: &str) -> (r: (usize, bool))
        ensures
            r.0 <= self@.len(),
            r.1 ==> r.0 < self@.len() && self@[r.0 as int].id == id@,
            forall|i: int| 0 <= i < r.0 ==> precedes(#[trigger] self@[i].id, id@),
            forall|i: int|
                r.0 + (if r.1 { 1int } else { 0int }) <= i < self@.len() ==> precedes(
                    id@,
                    #[trigger] self@[i].id,
                ),
    {
        proof {
            use_type_invariant(self);
        }
        let mut lo: usize = 0;
        let mut hi: usize = self.devices.len();
        while lo < hi
            invariant
                lo <= hi <= self@.len(),
                self@.len() == self.devices@.len(),
                ascending(self@),
                forall|i: int| 0 <= i < lo ==> precedes(#[trigger] self@[i].id, id@),
                forall|i: int| hi <= i < self@.len() ==> precedes(id@, #[trigger] self@[i].id),
            decreases hi - lo,
        {
            let mid: usize = lo + (hi - lo) / 2;
            assert(self@[mid as int].id == self.devices@[mid as int].id@);
            match rank(self.devices[mid].id.as_str(), id) {
                Rank::Before => {
                    assert forall|i: int| 0 <= i < mid + 1 implies precedes(
                        #[trigger] self@[i].id,
                        id@,
                    ) by {
                        if i < mid {
                            lemma_precedes_transitive(self@[i].id, self@[mid as int].id, id@);
                        }
                    }
                    lo = mid + 1;
                },
                Rank::Same => {
                    return (mid, true);
                },
                Rank::After => {
                    assert forall|i: int| mid <= i < self@.len() implies precedes(
                        id@,
                        #[trigger] self@[i].id,
                    ) by {
                        if i > mid {
                            lemma_precedes_transitive(id@, self@[mid as int].id, self@[i].id);
                        }
                    }
                    hi = mid;
                },
            }
        }
        (lo, false)
    }

    /// Whether a device with the id `id` is in the inventory.
    pub fn contains_key(&self, id: &str) -> (b: bool)
        ensures
            b == holds(self@, id@),
    {
        let r = self.position(id);
        proof {
            if !r.1 {
                assert forall|i: int| 0 <= i < self@.len() implies #[trigger] self@[i].id
                    != id@ by {
                    lemma_precedes_trichotomy(self@[i].id, id@);
                    lemma_precedes_trichotomy(id@, self@[i].id);
                }
            }
        }
        r.1
    }

    /// The device with the id `id`, if there is one.
    pub fn get(&self, id: &str) -> (found: Option<&Device>)
        ensures
            found is Some == holds(self@, id@),
            found matches Some(d) ==> d@.id == id@ && self@.contains(d@),
    {
        let r = self.position(id);
        proof {
            if !r.1 {
                assert forall|i: int| 0 <= i < self@.len() implies #[trigger] self@[i].id
                    != id@ by {
                    lemma_precedes_trichotomy(self@[i].id, id@);
                    lemma_precedes_trichotomy(id@, self@[i].id);
                }
            }
        }
        if r.1 {
            assert(self@[r.0 as int] == self.devices@[r.0 as int]@);
            Some(&self.devices[r.0])
        } else {
            None
        }
    }

    /// Copies of all devices, in the order of their ids.
    pub fn device_list(&self) -> (list: Vec<Device>)
        ensures
            list@.len() == self@.len(),
            forall|i: int| 0 <= i < list@.len() ==> (#[trigger] list@[i])@ == self@[i],
    {
        let mut list: Vec<Device> = Vec::new();
        let mut i: usize = 0;
        while i < self.devices.len()
            invariant
                i <= self.devices@.len(),
                self@.len() == self.devices@.len(),
                list@.len() == i,
                forall|k: int| 0 <= k < i ==> (#[trigger] list@[k])@ == self@[k],
            decreases self.devices@.len() - i,
        {
            let d = self.devices[i].clone();
            assert(self@[i as int] == self.devices@[i as int]@);
            list.push(d);
            i += 1;
        }
        list
    }

    /// The inventory with one more device, whose id is not yet in it, put at
    /// its place in the order; and the index at which it now stands.
    fn with(self, device: Device) -> (r: (Inventory, usize))
        requires
            !holds(self@, device@.id),
        ensures
            r.1 <= self@.len(),
            r.0@ == self@.insert(r.1 as int, device@),
    {
        proof {
            use_type_invariant(&self);
        }
        let found = self.position(device.id.as_str());
        let p: usize = found.0;
        let ghost before = self@;
        let ghost d = device@;
        assert(!found.1);
        let mut devices = self.devices;
        devices.insert(p, device);
        proof {
            let after = Seq::new(devices@.len(), |i: int| devices@[i]@);
            assert(after =~= before.insert(p as int, d));
            assert forall|i: int, j: int| 0 <= i < j < after.len() implies precedes(
                #[trigger] after[i].id,
                #[trigger] after[j].id,
            ) by {
                let bi = if i < p { i } else { i - 1 };
                let bj = if j < p { j } else { j - 1 };
                if i != p && j != p {
                    assert(after[i] == before[bi]);
                    assert(after[j] == before[bj]);
                    assert(precedes(before[bi].id, before[bj].id));
                } else if i == p {
                    assert(after[j] == before[bj]);
                } else {
                    assert(after[i] == before[bi]);
                }
            }
        }
        (Inventory { devices }, p)
    }

    /// The inventory of `count` enumerated devices under `resource_name`:
    /// one device for each index below `count`, with the id that
    /// `device_id` gives, healthy and without topology.
    ///
    /// The result has exactly `count` devices and no id twice.
    pub fn enumerated(resource_name: &str, count: usize) -> (inv: Inventory)
        ensures
            enumerates(inv@, resource_name@, count as nat),
    {
        let mut inv = Inventory::new();
        let mut n: usize = 0;
        while n < count
            invariant
                n <= count,
                inv@.len() == n,
                forall|k: nat| k < n ==> holds(inv@, #[trigger] device_id(resource_name@, k)),
                forall|i: int|
                    0 <= i < inv@.len() ==> exists|k: nat|
                        k < n && #[trigger] inv@[i] == discovered_device(resource_name@, k),
            decreases count - n,
        {
            let device = make_discovered_device(resource_name, n);
            let ghost before = inv@;
            proof {
                assert forall|i: int| 0 <= i < before.len() implies #[trigger] before[i].id
                    != device@.id by {
                    let k = choose|k: nat|
                        k < n && before[i] == discovered_device(resource_name@, k);
                    if before[i].id == device@.id {
                        lemma_device_id_injective(resource_name@, k, n as nat);
                    }
                }
            }
            let (grown, p) = inv.with(device);
            inv = grown;
            proof {
                let after = inv@;
                assert(after[p as int] == discovered_device(resource_name@, n as nat));
                assert forall|k: nat| k < n + 1 implies holds(
                    after,
                    #[trigger] device_id(resource_name@, k),
                ) by {
                    if k < n {
                        let i = choose|i: int|
                            0 <= i < before.len() && #[trigger] before[i].id == device_id(
                                resource_name@,
                                k,
                            );
                        let i2 = if i < p { i } else { i + 1 };
                        assert(after[i2] == before[i]);
                    } else {
                        assert(after[p as int].id == device_id(resource_name@, k));
                    }
                }
                assert forall|i: int| 0 <= i < after.len() implies exists|k: nat|
                    k < n + 1 && #[trigger] after[i] == discovered_device(resource_name@, k) by {
                    if i == p {
                        assert(after[i] == discovered_device(resource_name@, n as nat));
                    } else {
                        let bi = if i < p { i } else { i - 1 };
                        assert(after[i] == before[bi]);
                        let k = choose|k: nat|
                            k < n && before[bi] == discovered_device(resource_name@, k);
                        assert(k < n + 1 && after[i] == discovered_device(resource_name@, k));
                    }
                }
            }
            n += 1;
        }
        proof {
            use_type_invariant(&inv);
            lemma_ascending_is_distinct(inv@);
        }
        inv
    }
}

} // verus!
