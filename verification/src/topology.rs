use vstd::prelude::*;
use crate::globals::HsakmtGlobals;
use crate::hsakmttypes::HsaNodeProperties;

verus! {

/// Whether a node is a discrete GPU: no CPU cores, some compute cores.
pub open spec fn is_dgpu_node(num_cpu_cores: u32, num_fcompute_cores: u32) -> bool {
    num_cpu_cores == 0 && num_fcompute_cores > 0
}

impl HsakmtGlobals {
    /// The properties of topology node `node_id`.
    pub fn hsakmt_topology_get_node_props(&self, node_id: u32) -> (r: &HsaNodeProperties)
        requires
            node_id < self.topology.g_props@.len(),
        ensures
            *r == self.topology.g_props@[node_id as int].node,
    {
        &self.topology.g_props[node_id as usize].node
    }

    /// Notes a discrete GPU: finding one makes the whole system count as a dGPU
    /// system.
    pub fn hsakmt_topology_setup_is_dgpu_param_v2(&mut self, DeviceId: u16, NumCPUCores: u32, NumFComputeCores: u32)
        ensures
            *final(self) == (HsakmtGlobals {
                hsakmt_is_dgpu: old(self).hsakmt_is_dgpu || is_dgpu_node(NumCPUCores, NumFComputeCores),
                ..*old(self)
            }),
    {
        if NumCPUCores == 0 && NumFComputeCores > 0 {
            self.hsakmt_is_dgpu = true;
        }
    }
}

} // verus!
