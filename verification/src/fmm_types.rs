use vstd::prelude::*;
use vstd::std_specs::cmp::PartialEqSpecImpl;
use crate::hsakmttypes::{HsaMemFlags, HSA_ENGINE_ID};
use crate::rbtree::{rbtree_node_t, rbtree_t};

verus! {

/// A range of virtual addresses in an aperture's list of ranges; addresses are
/// plain integers, `next` and `prev` the addresses of the neighbouring ranges.
#[derive(Debug, Clone, Copy, PartialEq, Eq, Structural)]
pub struct vm_area {
    pub start: u64,
    pub end: u64,
    pub next: u64,
    pub prev: u64,
}

pub type vm_area_t = vm_area;

/// The globals that aperture allocation reads.
pub struct HsakmtGlobalsArgs {
    pub page_size: i32,
    pub fmm_svm_alignment_order: u32,
}

/// The aperture management routines of an aperture, by code address; `None` where
/// the aperture has none.
#[derive(Debug, Clone, Copy, PartialEq, Eq, Structural)]
pub struct manageable_aperture_ops_t {
    pub allocate_area_aligned: Option<u64>,
    pub release_area: Option<u64>,
}

pub const TEST_MAP_MEMORY_TO_GPU_VECTOR_INDEX: usize = 2;

/// Memory manager for an aperture: its address bounds, alignment, guard pages and
/// the trees of the objects allocated in it.
pub struct manageable_aperture {
    pub base: u64,
    pub limit: u64,
    pub align: u64,
    pub guard_pages: u32,
    pub vm_ranges: vm_area_t,
    pub tree: rbtree_t,
    pub user_tree: rbtree_t,
    pub is_cpu_accessible: bool,
    pub ops: manageable_aperture_ops_t,
}

pub type manageable_aperture_t = manageable_aperture;

impl PartialEq for manageable_aperture {
    /// Equal bounds, alignment, guard pages, ranges, accessibility and routines; the
    /// trees are not compared.
    fn eq(&self, other: &Self) -> (r: bool) {
        self.base == other.base
            && self.limit == other.limit
            && self.align == other.align
            && self.guard_pages == other.guard_pages
            && self.vm_ranges == other.vm_ranges
            && self.is_cpu_accessible == other.is_cpu_accessible
            && self.ops == other.ops
    }
}

impl PartialEqSpecImpl for manageable_aperture {
    open spec fn obeys_eq_spec() -> bool {
        true
    }

    open spec fn eq_spec(&self, other: &Self) -> bool {
        self.base == other.base
            && self.limit == other.limit
            && self.align == other.align
            && self.guard_pages == other.guard_pages
            && self.vm_ranges == other.vm_ranges
            && self.is_cpu_accessible == other.is_cpu_accessible
            && self.ops == other.ops
    }
}

impl manageable_aperture {
    /// Whether this is a freshly initialised aperture over `[base, limit]`: no
    /// alignment, one guard page, no ranges, empty trees, not CPU-accessible, no
    /// routines.
    pub open spec fn is_initial(self, base: u64, limit: u64) -> bool {
        self.is_initial_with_align(base, limit, 0)
    }

    /// Whether this is a freshly initialised aperture over `[base, limit]` whose
    /// alignment has then been set to `align`.
    pub open spec fn is_initial_with_align(self, base: u64, limit: u64, align: u64) -> bool {
        &&& self.base == base
        &&& self.limit == limit
        &&& self.align == align
        &&& self.guard_pages == 1
        &&& self.vm_ranges == (vm_area { start: 0, end: 0, next: 0, prev: 0 })
        &&& self.tree.wf() && self.tree.keys() == Set::<crate::rbtree_amd::rbtree_key_t>::empty()
        &&& self.user_tree.wf() && self.user_tree.keys() == Set::<crate::rbtree_amd::rbtree_key_t>::empty()
        &&& !self.is_cpu_accessible
        &&& self.ops == (manageable_aperture_ops_t { allocate_area_aligned: None, release_area: None })
    }

    /// A fresh aperture over the addresses `base_value` to `limit_value`.
    pub fn INIT_MANAGEABLE_APERTURE(base_value: usize, limit_value: usize) -> (r: Self)
        ensures
            r.is_initial(base_value as u64, limit_value as u64),
    {
        Self {
            base: base_value as u64,
            limit: limit_value as u64,
            align: 0,
            guard_pages: 1,
            vm_ranges: vm_area { start: 0, end: 0, next: 0, prev: 0 },
            tree: rbtree_t::init(),
            user_tree: rbtree_t::init(),
            is_cpu_accessible: false,
            ops: manageable_aperture_ops_t { allocate_area_aligned: None, release_area: None },
        }
    }
}

/// The SVM apertures.
pub enum svm_aperture_type {
    SVM_DEFAULT,
    SVM_COHERENT,
    SVM_APERTURE_NUM,
}

/// The main structure for dGPU Shared Virtual Memory management.
pub struct svm_t {
    /// Two apertures can have different MTypes (for coherency).
    pub apertures: [manageable_aperture_t; 2],
    /// Index in `apertures` of the default aperture, if set; both may name the same
    /// aperture on GFXv9 and later, where MType is not based on apertures.
    pub dgpu_aperture: Option<usize>,
    pub dgpu_alt_aperture: Option<usize>,
    /// Whether to use userptr for paged memory.
    pub userptr_for_paged_mem: bool,
    /// Whether to check userptrs on registration.
    pub check_userptr: bool,
    /// Whether to reserve the SVM range on registration.
    pub reserve_svm: bool,
    /// Whether all memory is coherent (GPU cache disabled).
    pub disable_cache: bool,
    /// The alignment size is `PAGE_SIZE * 2^alignment_order`.
    pub alignment_order: u32,
}

impl svm_t {
    pub open spec fn is_default(self) -> bool {
        &&& self.apertures[0].is_initial(0, 0)
        &&& self.apertures[1].is_initial(0, 0)
        &&& self.dgpu_aperture is None
        &&& self.dgpu_alt_aperture is None
        &&& !self.userptr_for_paged_mem
        &&& !self.check_userptr
        &&& !self.reserve_svm
        &&& !self.disable_cache
        &&& self.alignment_order == 0
    }
}

impl Default for svm_t {
    fn default() -> (r: Self)
        ensures
            r.is_default(),
    {
        Self {
            apertures: [
                manageable_aperture_t::INIT_MANAGEABLE_APERTURE(0, 0),
                manageable_aperture_t::INIT_MANAGEABLE_APERTURE(0, 0),
            ],
            dgpu_aperture: None,
            dgpu_alt_aperture: None,
            userptr_for_paged_mem: false,
            check_userptr: false,
            reserve_svm: false,
            disable_cache: false,
            alignment_order: 0,
        }
    }
}

/// An address range `[base, limit]`.
#[derive(Debug, Clone, Copy, PartialEq, Eq, Structural)]
pub struct aperture_t {
    pub base: u64,
    pub limit: u64,
}

/// The memory apertures of one GPU.
pub struct gpu_mem_t {
    pub gpu_id: u32,
    pub device_id: u32,
    pub node_id: u32,
    pub local_mem_size: u64,
    pub EngineId: HSA_ENGINE_ID,
    pub lds_aperture: aperture_t,
    pub scratch_aperture: aperture_t,
    pub mmio_aperture: aperture_t,
    /// For dGPU, scratch physical is allocated from dgpu_aperture; each GPU gets a
    /// different range.
    pub scratch_physical: manageable_aperture_t,
    /// Used for GPUVM on APU, outside the canonical address range.
    pub gpuvm_aperture: manageable_aperture_t,
    pub drm_render_fd: i32,
    pub usable_peer_id_num: u32,
    pub usable_peer_id_array: Vec<u32>,
    pub drm_render_minor: u32,
}

impl gpu_mem_t {
    pub open spec fn is_default(self) -> bool {
        &&& self.gpu_id == 0 && self.device_id == 0 && self.node_id == 0
        &&& self.local_mem_size == 0 && self.EngineId.Value == 0
        &&& self.lds_aperture == (aperture_t { base: 0, limit: 0 })
        &&& self.scratch_aperture == (aperture_t { base: 0, limit: 0 })
        &&& self.mmio_aperture == (aperture_t { base: 0, limit: 0 })
        &&& self.scratch_physical.is_initial(0, 0)
        &&& self.gpuvm_aperture.is_initial(0, 0)
        &&& self.drm_render_fd == 0
        &&& self.usable_peer_id_num == 0
        &&& self.usable_peer_id_array@.len() == 0
        &&& self.drm_render_minor == 0
    }
}

impl Default for gpu_mem_t {
    fn default() -> (r: Self)
        ensures
            r.is_default(),
    {
        Self {
            gpu_id: 0,
            device_id: 0,
            node_id: 0,
            local_mem_size: 0,
            EngineId: HSA_ENGINE_ID { Value: 0 },
            lds_aperture: aperture_t { base: 0, limit: 0 },
            scratch_aperture: aperture_t { base: 0, limit: 0 },
            mmio_aperture: aperture_t { base: 0, limit: 0 },
            scratch_physical: manageable_aperture::INIT_MANAGEABLE_APERTURE(0, 0),
            gpuvm_aperture: manageable_aperture::INIT_MANAGEABLE_APERTURE(0, 0),
            drm_render_fd: 0,
            usable_peer_id_num: 0,
            usable_peer_id_array: Vec::new(),
            drm_render_minor: 0,
        }
    }
}

/// The VMs from DRM render nodes are used by KFD for the lifetime of the process,
/// so the same FDs are kept, even across closing and reopening KFD. There are up
/// to 128 render nodes, cached in arrays of this many entries.
pub const DRM_FIRST_RENDER_NODE: usize = 128;
pub const DRM_LAST_RENDER_NODE: usize = 255;
pub const DRM_RENDER_NODE_COUNT: usize = DRM_LAST_RENDER_NODE + 1 - DRM_FIRST_RENDER_NODE;

/// Memory-manager globals; `amdgpu_handle` holds the libdrm device handles, by value.
pub struct HsaKmtFmmGlobal {
    pub drm_render_fds: [i32; DRM_RENDER_NODE_COUNT],
    pub amdgpu_handle: [u64; DRM_RENDER_NODE_COUNT],
    pub svm: svm_t,
    pub gpu_mem: Vec<gpu_mem_t>,
    pub all_gpu_id_array_size: u32,
    pub all_gpu_id_array: Vec<u32>,
    pub dgpu_shared_aperture_base: u64,
    pub dgpu_shared_aperture_limit: u64,
}

impl Clone for HsaKmtFmmGlobal {
    /// Keeps the render-node FDs and device handles; everything else starts afresh.
    fn clone(&self) -> (r: Self)
        ensures
            r.drm_render_fds@ == self.drm_render_fds@,
            r.amdgpu_handle@ == self.amdgpu_handle@,
            r.svm.is_default(),
            r.gpu_mem@.len() == 0,
            r.all_gpu_id_array_size == 0,
            r.all_gpu_id_array@.len() == 0,
            r.dgpu_shared_aperture_base == 0,
            r.dgpu_shared_aperture_limit == 0,
    {
        Self {
            drm_render_fds: self.drm_render_fds,
            amdgpu_handle: self.amdgpu_handle,
            svm: svm_t::default(),
            gpu_mem: Vec::new(),
            all_gpu_id_array_size: 0,
            all_gpu_id_array: Vec::new(),
            dgpu_shared_aperture_base: 0,
            dgpu_shared_aperture_limit: 0,
        }
    }
}

/// A memory object: its addresses and sizes, its tree nodes, its flags, and the
/// devices and nodes it is registered with and mapped to.
pub struct vm_object {
    pub start: u64,
    pub userptr: u64,
    pub userptr_size: u64,
    /// Size allocated on the GPU: the requested size aligned to the page size.
    pub size: u64,
    /// Opaque handle.
    pub handle: u64,
    pub node_id: u32,
    pub node: rbtree_node_t,
    pub user_node: rbtree_node_t,
    /// Memory allocation flags.
    pub mflags: HsaMemFlags,
    /// Registered nodes to map on SVM mGPU.
    pub registered_device_id_array: Vec<u32>,
    pub registered_device_id_array_size: u32,
    pub registered_node_id_array: Vec<u32>,
    /// The same memory region can be registered multiple times.
    pub registration_count: u32,
    /// Nodes that mapped already.
    pub mapped_device_id_array: Vec<u32>,
    pub mapped_device_id_array_size: u32,
    pub mapped_node_id_array: Vec<u32>,
    pub mapping_count: u32,
    /// Metadata of imported graphics buffers, by address.
    pub metadata: u64,
    /// User data associated with the memory, by address.
    pub user_data: u64,
    /// Whether this is an imported KFD buffer.
    pub is_imported_kfd_bo: bool,
}

pub type vm_object_t = vm_object;

impl vm_object {
    pub open spec fn is_default(self) -> bool {
        &&& self.start == 0 && self.userptr == 0 && self.userptr_size == 0 && self.size == 0
        &&& self.handle == 0 && self.node_id == 0
        &&& self.node.is_default() && self.user_node.is_default()
        &&& self.mflags.Value == 0
        &&& self.registered_device_id_array@.len() == 0
        &&& self.registered_device_id_array_size == 0
        &&& self.registered_node_id_array@.len() == 0
        &&& self.registration_count == 0
        &&& self.mapped_device_id_array@.len() == 0
        &&& self.mapped_device_id_array_size == 0
        &&& self.mapped_node_id_array@.len() == 0
        &&& self.mapping_count == 0
        &&& self.metadata == 0 && self.user_data == 0
        &&& !self.is_imported_kfd_bo
    }
}

impl Default for vm_object {
    fn default() -> (r: Self)
        ensures
            r.is_default(),
    {
        Self {
            start: 0,
            userptr: 0,
            userptr_size: 0,
            size: 0,
            handle: 0,
            node_id: 0,
            node: rbtree_node_t::default(),
            user_node: rbtree_node_t::default(),
            mflags: HsaMemFlags { Value: 0 },
            registered_device_id_array: Vec::new(),
            registered_device_id_array_size: 0,
            registered_node_id_array: Vec::new(),
            registration_count: 0,
            mapped_device_id_array: Vec::new(),
            mapped_device_id_array_size: 0,
            mapped_node_id_array: Vec::new(),
            mapping_count: 0,
            metadata: 0,
            user_data: 0,
            is_imported_kfd_bo: false,
        }
    }
}

} // verus!
