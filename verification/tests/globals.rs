use hsakmt_rs::debug::{debug_fmm_println, debug_topology_println, DebugMode, CURRENT};
use hsakmt_rs::fmm_types::{
    gpu_mem_t, manageable_aperture, svm_t, vm_object, HsaKmtFmmGlobal, DRM_RENDER_NODE_COUNT,
};
use hsakmt_rs::globals::{FmmGlobals, HsakmtGlobals, QueueGlobals, TopologyGlobals, END_NON_CANONICAL_ADDR, START_NON_CANONICAL_ADDR};
use hsakmt_rs::rbtree::rbtree_t;
use hsakmt_rs::topology_utils::SysDevicesVirtualKfd;

#[test]
fn debug_channels_are_off() {
    assert_eq!(CURRENT, DebugMode::Silent);
    assert!(!debug_topology_println());
    assert!(!debug_fmm_println());
}

#[test]
fn canonical_address_bounds() {
    assert_eq!(START_NON_CANONICAL_ADDR, 0x0000_8000_0000_0000);
    assert_eq!(END_NON_CANONICAL_ADDR, !0u64 - (1u64 << 47));
}

#[test]
fn fresh_globals() {
    let g = HsakmtGlobals::new(SysDevicesVirtualKfd::new("platform_id 5\n"));
    assert_eq!(g.hsakmt_kfd_fd, -1);
    assert_eq!(g.hsakmt_kfd_open_count, 0);
    assert_eq!(g.topology.sys_devices_virtual_kfd.platform_id, 5);
    assert_eq!(g.topology.num_sysfs_nodes, 0);
    assert_eq!(g.PAGE_SIZE(), 0);
    let f = FmmGlobals::new();
    assert_eq!(f.drm_render_fds, [0i32; DRM_RENDER_NODE_COUNT]);
    assert_eq!(f.mem_handle_aperture.base, 1u64 << 47);
    assert_eq!(f.mem_handle_aperture.limit, 1u64 << 48);
    assert_eq!(f.mem_handle_aperture.guard_pages, 1);
    assert_eq!(f.cpuvm_aperture.limit, 0);
    assert!(f.gpu_mem.is_empty());
    let q = QueueGlobals::new();
    assert_eq!(q.num_doorbells, 0);
    let t = TopologyGlobals::new(SysDevicesVirtualKfd::new(""));
    assert!(t.g_props.is_empty());
}

#[test]
fn check_kfd_open_after_open() {
    let mut g = HsakmtGlobals::new(SysDevicesVirtualKfd::new(""));
    g.hsakmt_kfd_open_count = 1;
    g.check_kfd_open_and_panic();
}

#[test]
fn aperture_init_and_equality() {
    let a = manageable_aperture::INIT_MANAGEABLE_APERTURE(0x1000, 0x2000);
    let mut b = manageable_aperture::INIT_MANAGEABLE_APERTURE(0x1000, 0x2000);
    assert_eq!(a.base, 0x1000);
    assert_eq!(a.limit, 0x2000);
    assert_eq!(a.align, 0);
    assert_eq!(a.guard_pages, 1);
    assert!(!a.is_cpu_accessible);
    assert!(a == b);
    hsakmt_rs::rbtree::rbtree_insert(&mut b.tree, hsakmt_rs::rbtree_amd::rbtree_key(1, 1));
    assert!(a == b);
    b.align = 64;
    assert!(a != b);
    let _ = rbtree_t::init();
}

#[test]
fn defaults() {
    let s = svm_t::default();
    assert_eq!(s.alignment_order, 0);
    assert!(s.dgpu_aperture.is_none());
    let m = gpu_mem_t::default();
    assert_eq!(m.gpu_id, 0);
    assert!(m.usable_peer_id_array.is_empty());
    let o = vm_object::default();
    assert_eq!(o.size, 0);
    assert_eq!(o.mflags.Value, 0);
    let mut fg = HsaKmtFmmGlobal {
        drm_render_fds: [0; DRM_RENDER_NODE_COUNT],
        amdgpu_handle: [0; DRM_RENDER_NODE_COUNT],
        svm: svm_t::default(),
        gpu_mem: vec![gpu_mem_t::default()],
        all_gpu_id_array_size: 4,
        all_gpu_id_array: vec![1],
        dgpu_shared_aperture_base: 8,
        dgpu_shared_aperture_limit: 9,
    };
    fg.drm_render_fds[3] = 42;
    fg.amdgpu_handle[3] = 7;
    let c = fg.clone();
    assert_eq!(c.drm_render_fds[3], 42);
    assert_eq!(c.amdgpu_handle[3], 7);
    assert!(c.gpu_mem.is_empty());
    assert_eq!(c.all_gpu_id_array_size, 0);
    assert_eq!(c.dgpu_shared_aperture_base, 0);
}
