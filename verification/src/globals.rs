use vstd::prelude::*;
use crate::fmm_types::{
    gpu_mem_t, manageable_aperture_t, svm_t, DRM_RENDER_NODE_COUNT,
};
use crate::hsakmttypes::{HsaSystemProperties, HsaVersionInfo};
use crate::queues::process_doorbells;
use crate::topology_types::node_props_t;
use crate::topology_utils::SysDevicesVirtualKfd;

verus! {

/// First address above the canonical lower half of the address space.
pub const START_NON_CANONICAL_ADDR: u64 = 1 << 47;
/// Last address below the canonical upper half of the address space.
pub const END_NON_CANONICAL_ADDR: u64 = 0xffff_7fff_ffff_ffff;

/// Topology globals.
pub struct TopologyGlobals {
    pub g_system: HsaSystemProperties,
    pub g_props: Vec<node_props_t>,
    /// Caches the sysfs node ids of the CPU nodes and all supported GPU nodes, to
    /// map user node ids to sysfs node ids.
    pub map_user_to_sysfs_node_id: Vec<usize>,
    pub num_sysfs_nodes: usize,
    pub sys_devices_virtual_kfd: SysDevicesVirtualKfd,
}

impl TopologyGlobals {
    /// Empty topology over the sysfs topology `sys_devices_virtual_kfd`.
    pub fn new(sys_devices_virtual_kfd: SysDevicesVirtualKfd) -> (r: Self)
        ensures
            r.g_system == (HsaSystemProperties { NumNodes: 0, PlatformOem: 0, PlatformId: 0, PlatformRev: 0 }),
            r.g_props@.len() == 0,
            r.map_user_to_sysfs_node_id@.len() == 0,
            r.num_sysfs_nodes == 0,
            r.sys_devices_virtual_kfd == sys_devices_virtual_kfd,
    {
        Self {
            g_system: HsaSystemProperties { NumNodes: 0, PlatformOem: 0, PlatformId: 0, PlatformRev: 0 },
            g_props: Vec::new(),
            map_user_to_sysfs_node_id: Vec::new(),
            num_sysfs_nodes: 0,
            sys_devices_virtual_kfd,
        }
    }
}

/// Memory-manager globals.
pub struct FmmGlobals {
    pub drm_render_fds: [i32; DRM_RENDER_NODE_COUNT],
    /// libdrm device handles of the render nodes, by value.
    pub amdgpu_handle: [u64; DRM_RENDER_NODE_COUNT],
    pub svm: svm_t,
    /// The other apertures are specific to each GPU.
    pub gpu_mem: Vec<gpu_mem_t>,
    /// GPU node array for default mappings.
    pub all_gpu_id_array_size: u32,
    pub all_gpu_id_array: Vec<u32>,
    pub dgpu_shared_aperture_base: u64,
    pub dgpu_shared_aperture_limit: u64,
    /// On APU, system memory that the GPU does not access through the GPU driver is
    /// not managed by GPUVM; this aperture keeps track of it.
    pub cpuvm_aperture: manageable_aperture_t,
    /// Generates memory handles for allocations without a valid virtual address;
    /// it spans 47 bits.
    pub mem_handle_aperture: manageable_aperture_t,
}

impl FmmGlobals {
    /// Whether these are fresh memory-manager globals: no render nodes, default SVM,
    /// no GPUs, an empty CPU aperture, and the handle aperture over the 2^47
    /// addresses from `START_NON_CANONICAL_ADDR`.
    pub open spec fn is_fresh(self) -> bool {
        &&& self.drm_render_fds@ == Seq::new(DRM_RENDER_NODE_COUNT as nat, |i: int| 0i32)
        &&& self.amdgpu_handle@ == Seq::new(DRM_RENDER_NODE_COUNT as nat, |i: int| 0u64)
        &&& self.svm.is_default()
        &&& self.gpu_mem@.len() == 0
        &&& self.all_gpu_id_array_size == 0
        &&& self.all_gpu_id_array@.len() == 0
        &&& self.dgpu_shared_aperture_base == 0
        &&& self.dgpu_shared_aperture_limit == 0
        &&& self.cpuvm_aperture.is_initial(0, 0)
        &&& self.mem_handle_aperture.is_initial(
            START_NON_CANONICAL_ADDR as usize as u64,
            (START_NON_CANONICAL_ADDR + (1u64 << 47u64)) as usize as u64,
        )
        &&& usize::BITS == 64 ==> self.mem_handle_aperture.base == 0x8000_0000_0000u64
            && self.mem_handle_aperture.limit == 0x1_0000_0000_0000u64
    }

    /// Fresh memory-manager globals: no render nodes, default SVM, no GPUs, an empty
    /// CPU aperture, and the handle aperture over the 2^47 addresses from
    /// `START_NON_CANONICAL_ADDR`.
    pub fn new() -> (r: Self)
        ensures
            r.is_fresh(),
    {
        let fds: [i32; DRM_RENDER_NODE_COUNT] = [0; DRM_RENDER_NODE_COUNT];
        let handles: [u64; DRM_RENDER_NODE_COUNT] = [0; DRM_RENDER_NODE_COUNT];
        assert(fds@ =~= Seq::new(DRM_RENDER_NODE_COUNT as nat, |i: int| 0i32));
        assert(handles@ =~= Seq::new(DRM_RENDER_NODE_COUNT as nat, |i: int| 0u64));
        assert((1u64 << 47u64) == 0x8000_0000_0000u64) by (bit_vector);
        Self {
            drm_render_fds: fds,
            amdgpu_handle: handles,
            svm: svm_t::default(),
            gpu_mem: Vec::new(),
            all_gpu_id_array_size: 0,
            all_gpu_id_array: Vec::new(),
            dgpu_shared_aperture_base: 0,
            dgpu_shared_aperture_limit: 0,
            cpuvm_aperture: manageable_aperture_t::INIT_MANAGEABLE_APERTURE(0, 0),
            mem_handle_aperture: manageable_aperture_t::INIT_MANAGEABLE_APERTURE(
                START_NON_CANONICAL_ADDR as usize,
                (START_NON_CANONICAL_ADDR + (1u64 << 47u64)) as usize,
            ),
        }
    }
}

/// Version globals: the kernel interface version read from KFD.
#[derive(Debug, PartialEq, Eq, Structural, Clone, Copy)]
pub struct VersionGlobals {
    pub kfd: HsaVersionInfo,
}

/// Queue globals.
#[derive(Debug)]
pub struct QueueGlobals {
    pub num_doorbells: u32,
    pub doorbells: Vec<process_doorbells>,
}

impl QueueGlobals {
    /// No doorbells.
    pub fn new() -> (r: Self)
        ensures
            r.num_doorbells == 0,
            r.doorbells@.len() == 0,
    {
        Self { num_doorbells: 0, doorbells: Vec::new() }
    }
}

/// All the state of the thunk library.
pub struct HsakmtGlobals {
    pub fmm: FmmGlobals,
    pub topology: TopologyGlobals,
    pub version: VersionGlobals,
    pub queue: QueueGlobals,
    pub hsakmt_kfd_open_count: usize,
    pub hsakmt_kfd_fd: i32,
    pub hsakmt_system_properties_count: u64,
    pub hsakmt_is_dgpu: bool,
    pub hsakmt_page_size: i32,
    pub hsakmt_page_shift: i32,
    /// Whether to check that all dGPUs in the topology support the SVM API.
    pub hsakmt_is_svm_api_supported: bool,
    /// zfb is mainly used during emulation.
    pub hsakmt_zfb_support: i32,
}

impl HsakmtGlobals {
    /// Whether this is the fresh state over the sysfs topology `sys`: fresh
    /// memory-manager globals, an empty topology over `sys`, version 0.0, no
    /// doorbells, KFD not open (no count, no FD), no page size, no flags set.
    pub open spec fn is_fresh(self, sys: SysDevicesVirtualKfd) -> bool {
        &&& self.fmm.is_fresh()
        &&& self.topology.g_system == (HsaSystemProperties { NumNodes: 0, PlatformOem: 0, PlatformId: 0, PlatformRev: 0 })
        &&& self.topology.g_props@.len() == 0
        &&& self.topology.map_user_to_sysfs_node_id@.len() == 0
        &&& self.topology.num_sysfs_nodes == 0
        &&& self.topology.sys_devices_virtual_kfd == sys
        &&& self.version.kfd == (HsaVersionInfo { KernelInterfaceMajorVersion: 0, KernelInterfaceMinorVersion: 0 })
        &&& self.queue.num_doorbells == 0
        &&& self.queue.doorbells@.len() == 0
        &&& self.hsakmt_kfd_fd == -1
        &&& self.hsakmt_kfd_open_count == 0
        &&& self.hsakmt_system_properties_count == 0
        &&& !self.hsakmt_is_dgpu
        &&& self.hsakmt_page_size == 0
        &&& self.hsakmt_page_shift == 0
        &&& !self.hsakmt_is_svm_api_supported
        &&& self.hsakmt_zfb_support == 0
    }

    /// Fresh state over the sysfs topology `sys_devices_virtual_kfd`: KFD not open
    /// (no count, no FD), version 0.0, no page size.
    pub fn new(sys_devices_virtual_kfd: SysDevicesVirtualKfd) -> (r: Self)
        ensures
            r.is_fresh(sys_devices_virtual_kfd),
    {
        Self {
            fmm: FmmGlobals::new(),
            topology: TopologyGlobals::new(sys_devices_virtual_kfd),
            version: VersionGlobals {
                kfd: HsaVersionInfo { KernelInterfaceMajorVersion: 0, KernelInterfaceMinorVersion: 0 },
            },
            queue: QueueGlobals::new(),
            hsakmt_kfd_fd: -1,
            hsakmt_kfd_open_count: 0,
            hsakmt_system_properties_count: 0,
            hsakmt_is_dgpu: false,
            hsakmt_page_size: 0,
            hsakmt_page_shift: 0,
            hsakmt_is_svm_api_supported: false,
            hsakmt_zfb_support: 0,
        }
    }

    /// Checks that KFD is open; calling it while KFD is closed is an error, so
    /// callers must have opened KFD.
    pub fn check_kfd_open_and_panic(&self)
        requires
            self.hsakmt_kfd_open_count > 0,
    {
    }

    /// The system page size.
    pub fn PAGE_SIZE(&self) -> (r: i32)
        ensures
            r == self.hsakmt_page_size,
    {
        self.hsakmt_page_size
    }
}

} // verus!
