use hsakmt_rs::fmm::{DrmRenderDevice, FmmEnvVar, InitAperturesAction, InitAperturesEvent, InitAperturesState};
use hsakmt_rs::globals::HsakmtGlobals;
use hsakmt_rs::hsakmttypes::HsakmtStatus;
use hsakmt_rs::topology_types::node_props_t;
use hsakmt_rs::topology_utils::SysDevicesVirtualKfd;
use hsakmt_rs::version::AMDKFD_IOC_GET_PROCESS_APERTURES_NEW;

fn cpu_node() -> node_props_t {
    let mut p = node_props_t::new();
    p.node.NumCPUCores = 8;
    p
}

fn gpu_node(gpu_id: u32, minor: i32, device_id: u16) -> node_props_t {
    let mut p = node_props_t::new();
    p.node.NumFComputeCores = 64;
    p.node.KFDGpuID = gpu_id;
    p.node.DrmRenderMinor = minor;
    p.node.DeviceId = device_id;
    p.node.LocalMemSize = 1 << 33;
    p.node.EngineId.Value = (1 << 10) | (3 << 16) | (2 << 24) | 0x3ff;
    p.node.Capability.Value = 1 << 27;
    p
}

fn globals_with(nodes: Vec<node_props_t>, sysfs_nodes: usize) -> HsakmtGlobals {
    let mut g = HsakmtGlobals::new(SysDevicesVirtualKfd::new(""));
    g.topology.g_props = nodes;
    g.topology.num_sysfs_nodes = sysfs_nodes;
    g.hsakmt_page_size = 4096;
    g
}

/// Runs the initialisation; render devices open as `100 + minor` unless the minor
/// is listed in `failing`; returns the actions.
fn run(g: &mut HsakmtGlobals, num_nodes: u32, env: [Option<&[u8]>; 3], failing: &[i32]) -> Vec<InitAperturesAction> {
    let mut state = InitAperturesState::new();
    let mut event = InitAperturesEvent::Begin(num_nodes);
    let mut actions = Vec::new();
    loop {
        assert!(state.accepts(&event));
        let a = g.hsakmt_fmm_init_process_apertures(&mut state, event);
        actions.push(a);
        event = match a {
            InitAperturesAction::ReadEnv(v) => {
                let i = match v {
                    FmmEnvVar::HSA_DISABLE_CACHE => 0,
                    FmmEnvVar::HSA_CHECK_USERPTR => 1,
                    FmmEnvVar::HSA_RESERVE_SVM => 2,
                };
                InitAperturesEvent::EnvValue(env[i].map(|b| b.to_vec()))
            }
            InitAperturesAction::OpenDrmRenderDevice(minor) => {
                InitAperturesEvent::DrmRenderDevice(if failing.contains(&minor) { -2 } else { 100 + minor })
            }
            InitAperturesAction::GetProcessApertures(_, n) => InitAperturesEvent::ProcessApertures(0, n),
            InitAperturesAction::Done(_) => return actions,
        };
    }
}

#[test]
fn init_apertures_adds_one_entry_per_gpu_node() {
    let mut g = globals_with(vec![cpu_node(), gpu_node(1001, 128, 0x73bf), cpu_node(), gpu_node(1002, 129, 0x7480)], 4);
    let actions = run(&mut g, 4, [None, Some(b"1"), Some(b"0")], &[]);
    assert_eq!(
        actions,
        vec![
            InitAperturesAction::ReadEnv(FmmEnvVar::HSA_DISABLE_CACHE),
            InitAperturesAction::ReadEnv(FmmEnvVar::HSA_CHECK_USERPTR),
            InitAperturesAction::ReadEnv(FmmEnvVar::HSA_RESERVE_SVM),
            InitAperturesAction::OpenDrmRenderDevice(128),
            InitAperturesAction::OpenDrmRenderDevice(129),
            InitAperturesAction::GetProcessApertures(AMDKFD_IOC_GET_PROCESS_APERTURES_NEW(), 4),
            InitAperturesAction::Done(HsakmtStatus::HSAKMT_STATUS_SUCCESS),
        ]
    );
    assert!(!g.fmm.svm.disable_cache);
    assert!(g.fmm.svm.check_userptr);
    assert!(!g.fmm.svm.reserve_svm);
    assert_eq!(g.fmm.svm.alignment_order, 9);
    assert!(g.hsakmt_is_dgpu);
    assert!(g.hsakmt_is_svm_api_supported);
    assert_eq!(g.fmm.gpu_mem.len(), 2);
    let m = &g.fmm.gpu_mem[0];
    assert_eq!(m.gpu_id, 1001);
    assert_eq!(m.node_id, 1);
    assert_eq!(m.device_id, 0x73bf);
    assert_eq!(m.drm_render_fd, 228);
    assert_eq!(m.drm_render_minor, 128);
    assert_eq!(m.local_mem_size, 1 << 33);
    assert_eq!(m.usable_peer_id_array, vec![1001]);
    assert_eq!(m.usable_peer_id_num, 1);
    assert_eq!(m.EngineId.Value, (1 << 10) | (3 << 16) | (2 << 24));
    assert_eq!(m.scratch_physical.align, 4096);
    assert_eq!(m.gpuvm_aperture.align, 4096);
    assert_eq!(m.gpuvm_aperture.guard_pages, 1);
    assert_eq!(g.fmm.gpu_mem[1].gpu_id, 1002);
    assert_eq!(g.fmm.gpu_mem[1].node_id, 3);
    assert_eq!(g.fmm.gpu_mem[1].drm_render_fd, 229);
}

#[test]
fn init_apertures_render_device_failure() {
    let mut g = globals_with(vec![gpu_node(1001, 128, 1), gpu_node(1002, 129, 2)], 2);
    let actions = run(&mut g, 2, [None, None, None], &[129]);
    assert_eq!(*actions.last().unwrap(), InitAperturesAction::Done(HsakmtStatus::HSAKMT_STATUS_ERROR));
    assert_eq!(g.fmm.gpu_mem.len(), 1);
}

#[test]
fn init_apertures_too_few_sysfs_nodes() {
    let mut g = globals_with(vec![gpu_node(1001, 128, 1), gpu_node(1002, 129, 2)], 1);
    let actions = run(&mut g, 2, [Some(b"yes"), None, None], &[]);
    assert_eq!(*actions.last().unwrap(), InitAperturesAction::Done(HsakmtStatus::HSAKMT_STATUS_ERROR));
    assert!(g.fmm.svm.disable_cache);
    assert_eq!(g.fmm.gpu_mem.len(), 2);
}

#[test]
fn init_apertures_env_flags_on_for_non_zero_values() {
    let mut g = globals_with(vec![cpu_node()], 1);
    run(&mut g, 1, [Some(b"1"), Some(b"00"), Some(b"")], &[]);
    assert!(g.fmm.svm.disable_cache);
    assert!(g.fmm.svm.check_userptr);
    assert!(g.fmm.svm.reserve_svm);
    let mut g = globals_with(vec![cpu_node()], 1);
    run(&mut g, 1, [Some(b"0"), None, Some(b"0")], &[]);
    assert!(!g.fmm.svm.disable_cache);
    assert!(!g.fmm.svm.check_userptr);
    assert!(!g.fmm.svm.reserve_svm);
}

#[test]
fn init_apertures_no_gpu_nodes() {
    let mut g = globals_with(vec![cpu_node()], 1);
    let actions = run(&mut g, 1, [None, None, None], &[]);
    assert_eq!(actions.len(), 5);
    assert_eq!(*actions.last().unwrap(), InitAperturesAction::Done(HsakmtStatus::HSAKMT_STATUS_SUCCESS));
    assert!(g.fmm.gpu_mem.is_empty());
    assert!(!g.hsakmt_is_dgpu);
}

#[test]
fn vm_alignment_and_process_apertures() {
    let g = globals_with(vec![], 0);
    assert_eq!(g.get_vm_alignment(0x6920), 4096);
    assert_eq!(g.get_vm_alignment(0x1234), 4096);
    let mut n = 9;
    assert_eq!(g.get_process_apertures(0, 3, &mut n), HsakmtStatus::HSAKMT_STATUS_SUCCESS);
    assert_eq!(n, 3);
}

#[test]
fn drm_render_device_decisions() {
    let mut g = globals_with(vec![], 0);
    assert_eq!(g.drm_render_device_for_minor(127), DrmRenderDevice::OutOfRange);
    assert_eq!(g.drm_render_device_for_minor(256), DrmRenderDevice::OutOfRange);
    assert_eq!(g.drm_render_device_for_minor(-1), DrmRenderDevice::OutOfRange);
    assert_eq!(g.drm_render_device_for_minor(130), DrmRenderDevice::Open(2));
    g.record_drm_render_fd(2, -13);
    assert_eq!(g.drm_render_device_for_minor(130), DrmRenderDevice::Open(2));
    g.record_drm_render_fd(2, 17);
    assert_eq!(g.drm_render_device_for_minor(130), DrmRenderDevice::Cached(17));
    assert_eq!(g.drm_render_device_for_minor(255), DrmRenderDevice::Open(127));
}
