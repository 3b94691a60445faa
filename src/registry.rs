//! The directory of model objects by bound id, through which a node finds
//! its device and a default target finds its node.

use vstd::prelude::*;
use crate::device::PwDeviceObject;
use crate::node::{PwNodeObject, RegistryObject, NodeEvent};

verus! {

/// The node and device models known to the program, each by bound id.
pub struct PwvucontrolManager {
    pub nodes: Vec<PwNodeObject>,
    pub devices: Vec<PwDeviceObject>,
}

/// The first position in `nodes` of a node bound as `id`.
pub open spec fn is_first_node(nodes: Seq<PwNodeObject>, id: u32, r: Option<usize>) -> bool {
    match r {
        Some(i) => i < nodes.len() && nodes[i as int].info.boundid == id && forall|k: int|
            0 <= k < i ==> #[trigger] nodes[k].info.boundid != id,
        None => forall|k: int| 0 <= k < nodes.len() ==> #[trigger] nodes[k].info.boundid != id,
    }
}

/// The first position in `devices` of a device bound as `id`.
pub open spec fn is_first_device(devices: Seq<PwDeviceObject>, id: u32, r: Option<usize>) -> bool {
    match r {
        Some(i) => i < devices.len() && devices[i as int].boundid == id && forall|k: int|
            0 <= k < i ==> #[trigger] devices[k].boundid != id,
        None => forall|k: int| 0 <= k < devices.len() ==> #[trigger] devices[k].boundid != id,
    }
}

impl PwvucontrolManager {
    pub fn new() -> (r: PwvucontrolManager)
        ensures
            r.nodes@.len() == 0,
            r.devices@.len() == 0,
    {
        PwvucontrolManager { nodes: Vec::new(), devices: Vec::new() }
    }

    /// The position of the node bound as `id`.
    pub fn get_node_by_id(&self, id: u32) -> (r: Option<usize>)
        ensures
            is_first_node(self.nodes@, id, r),
    {
        let mut i: usize = 0;
        while i < self.nodes.len()
            invariant
                i <= self.nodes@.len(),
                forall|k: int| 0 <= k < i ==> #[trigger] self.nodes@[k].info.boundid != id,
            decreases self.nodes@.len() - i,
        {
            if self.nodes[i].info.boundid == id {
                return Some(i);
            }
            i = i + 1;
        }
        None
    }

    /// The position of the device bound as `id`.
    pub fn get_device_by_id(&self, id: u32) -> (r: Option<usize>)
        ensures
            is_first_device(self.devices@, id, r),
    {
        let mut i: usize = 0;
        while i < self.devices.len()
            invariant
                i <= self.devices@.len(),
                forall|k: int| 0 <= k < i ==> #[trigger] self.devices@[k].boundid != id,
            decreases self.devices@.len() - i,
        {
            if self.devices[i].boundid == id {
                return Some(i);
            }
            i = i + 1;
        }
        None
    }

    pub fn add_node(&mut self, node: PwNodeObject)
        ensures
            final(self).nodes@ == old(self).nodes@.push(node),
            final(self).devices == old(self).devices,
    {
        self.nodes.push(node);
    }

    pub fn add_device(&mut self, device: PwDeviceObject)
        ensures
            final(self).devices@ == old(self).devices@.push(device),
            final(self).nodes == old(self).nodes,
    {
        self.devices.push(device);
    }

    /// Hands an object that the registry reported to the node at `pos`,
    /// resolving a device through this directory.
    pub fn node_object_added(&mut self, pos: usize, obj: &RegistryObject)
        requires
            pos < old(self).nodes@.len(),
        ensures
            final(self).nodes@.len() == old(self).nodes@.len(),
            forall|k: int|
                0 <= k < old(self).nodes@.len() && k != pos ==> #[trigger] final(self).nodes@[k]
                    == old(self).nodes@[k],
            final(self).devices == old(self).devices,
            obj matches RegistryObject::Device { bound_id } ==> {
                &&& final(self).nodes@[pos as int].device == if exists|k: int|
                    0 <= k < old(self).devices@.len() && #[trigger] old(self).devices@[k].boundid
                        == *bound_id {
                    Some(*bound_id)
                } else {
                    None
                }
                &&& final(self).nodes@[pos as int].events@ == old(self).nodes@[pos as int].events@.push(
                    NodeEvent::Device,
                )
            },
            obj is Link ==> final(self).nodes@[pos as int].device == old(self).nodes@[pos as int].device
                && final(self).nodes@[pos as int].events == old(self).nodes@[pos as int].events,
            final(self).nodes@[pos as int].info == old(self).nodes@[pos as int].info,
            final(self).nodes@[pos as int].volumes == old(self).nodes@[pos as int].volumes,
    {
        let known = match obj {
            RegistryObject::Device { bound_id } => self.get_device_by_id(*bound_id).is_some(),
            RegistryObject::Link { .. } => false,
        };
        let mut node = self.nodes.remove(pos);
        node.object_added(obj, known);
        self.nodes.insert(pos, node);
        assert forall|k: int|
            0 <= k < old(self).nodes@.len() && k != pos implies #[trigger] self.nodes@[k]
            == old(self).nodes@[k] by {}
    }
}

} // verus!
