use vstd::prelude::*;
use crate::bitfield::{field_of, lemma_field_write_read, lemma_field_write_other};
use crate::fmm_types::{gpu_mem_t, aperture_t, DRM_FIRST_RENDER_NODE, DRM_LAST_RENDER_NODE, DRM_RENDER_NODE_COUNT};
use crate::globals::{HsakmtGlobals, FmmGlobals};
use crate::hsakmttypes::{HsakmtStatus, HsaNodeProperties};
use crate::open_close::{env_view, env_is_zero};
use crate::topology::is_dgpu_node;
use crate::topology_types::node_props_t;
use crate::version::{
    AMDKFD_IOC_GET_PROCESS_APERTURES_NEW, ioctl_request, kfd_ioc,
    KFD_IOCTL_GET_PROCESS_APERTURES_NEW_ARGS_SIZE,
};
use crate::fmm_types::svm_t;

verus! {

impl HsakmtGlobals {
    /// The virtual-memory alignment for the device `device_id`: the page size (the
    /// Tonga and Carrizo device ranges would use a larger page size, which is not
    /// applied).
    pub fn get_vm_alignment(&self, device_id: u32) -> (r: u32)
        ensures
            r == self.hsakmt_page_size as u32,
    {
        let page_size = self.PAGE_SIZE();
        page_size as u32
    }

    /// Takes the outcome of the `AMDKFD_IOC_GET_PROCESS_APERTURES_NEW` ioctl, which
    /// returned `ioctl_ret` (a positive value is a fatal error, so it is not
    /// accepted) and reported `reported_num_of_nodes` nodes: records that count.
    pub fn get_process_apertures(&self, ioctl_ret: i32, reported_num_of_nodes: u32, num_of_nodes: &mut u32) -> (r: HsakmtStatus)
        requires
            ioctl_ret <= 0,
        ensures
            *final(num_of_nodes) == reported_num_of_nodes,
            r == HsakmtStatus::HSAKMT_STATUS_SUCCESS,
    {
        *num_of_nodes = reported_num_of_nodes;
        HsakmtStatus::HSAKMT_STATUS_SUCCESS
    }
}

/// What opening a DRM render node takes. Render-node descriptors are kept for the
/// life of the process, one per node.
#[derive(Debug, PartialEq, Eq, Structural, Clone, Copy)]
pub enum DrmRenderDevice {
    /// The minor number is not that of a render node: the open fails with an
    /// invalid argument.
    OutOfRange,
    /// The node was opened before; this is its descriptor.
    Cached(i32),
    /// Open the node and record its descriptor at this index.
    Open(usize),
}

/// What opening the render node `minor` takes, given the recorded descriptors
/// `fds` (0 where none is recorded).
pub open spec fn drm_render_device_spec(fds: Seq<i32>, minor: i32) -> DrmRenderDevice {
    if minor < DRM_FIRST_RENDER_NODE || minor > DRM_LAST_RENDER_NODE {
        DrmRenderDevice::OutOfRange
    } else if fds[minor - DRM_FIRST_RENDER_NODE] != 0 {
        DrmRenderDevice::Cached(fds[minor - DRM_FIRST_RENDER_NODE])
    } else {
        DrmRenderDevice::Open((minor - DRM_FIRST_RENDER_NODE) as usize)
    }
}

impl HsakmtGlobals {
    /// What opening the DRM render node `minor` takes: nothing but an invalid
    /// argument outside the render-node range, the recorded descriptor where there
    /// is one, an open otherwise.
    pub fn drm_render_device_for_minor(&self, minor: i32) -> (r: DrmRenderDevice)
        ensures
            r == drm_render_device_spec(self.fmm.drm_render_fds@, minor),
    {
        if minor < DRM_FIRST_RENDER_NODE as i32 || minor > DRM_LAST_RENDER_NODE as i32 {
            return DrmRenderDevice::OutOfRange;
        }
        let index = (minor - DRM_FIRST_RENDER_NODE as i32) as usize;
        let fd = self.fmm.drm_render_fds[index];
        if fd != 0 {
            DrmRenderDevice::Cached(fd)
        } else {
            DrmRenderDevice::Open(index)
        }
    }

    /// Records the result `fd` of opening the render node at `index`: a descriptor
    /// (not negative) is kept, a failure is not.
    pub fn record_drm_render_fd(&mut self, index: usize, fd: i32)
        requires
            index < DRM_RENDER_NODE_COUNT,
        ensures
            final(self).fmm.drm_render_fds@ == if fd >= 0 {
                old(self).fmm.drm_render_fds@.update(index as int, fd)
            } else {
                old(self).fmm.drm_render_fds@
            },
            *final(self) == (HsakmtGlobals {
                fmm: FmmGlobals { drm_render_fds: final(self).fmm.drm_render_fds, ..old(self).fmm },
                ..*old(self)
            }),
    {
        if fd >= 0 {
            self.fmm.drm_render_fds[index] = fd;
        }
    }
}

/// The environment variables that the memory manager reads.
#[derive(Debug, PartialEq, Eq, Structural, Clone, Copy)]
pub enum FmmEnvVar {
    HSA_DISABLE_CACHE,
    HSA_CHECK_USERPTR,
    HSA_RESERVE_SVM,
}

/// Where an initialisation of the process apertures stands.
#[derive(Debug, PartialEq, Eq, Structural, Clone, Copy)]
pub enum InitAperturesPhase {
    Idle,
    AwaitDisableCache,
    AwaitCheckUserptr,
    AwaitReserveSvm,
    AwaitDrmRenderDevice,
    AwaitProcessApertures,
}

/// What the caller reports back after performing an action.
#[derive(Debug)]
pub enum InitAperturesEvent {
    /// Initialise the apertures of the first `NumNodes` topology nodes.
    Begin(u32),
    /// The value of the environment variable asked for, if set, as bytes.
    EnvValue(Option<Vec<u8>>),
    /// The file descriptor of the DRM render device asked for (not positive on failure).
    DrmRenderDevice(i32),
    /// The return value of the apertures ioctl and the node count it reported.
    ProcessApertures(i32, u32),
}

/// What the caller is to do next.
#[derive(Debug, PartialEq, Eq, Structural, Clone, Copy)]
pub enum InitAperturesAction {
    /// Read this environment variable and report `EnvValue`.
    ReadEnv(FmmEnvVar),
    /// Open the DRM render device with this minor number and report `DrmRenderDevice`.
    OpenDrmRenderDevice(i32),
    /// Issue the ioctl with this request on the KFD file descriptor, with room for
    /// this many node apertures, and report `ProcessApertures`.
    GetProcessApertures(u64, u32),
    /// The initialisation is over, with this status.
    Done(HsakmtStatus),
}

/// The progress of an initialisation: its phase, the number of nodes, the node it
/// is at, and the number of GPU memory entries there were when it began.
pub struct InitAperturesState {
    pub phase: InitAperturesPhase,
    pub num_nodes: u32,
    pub node: u32,
    pub begin_gpu_mem: Ghost<nat>,
}

/// Whether `event` is the report that `phase` waits for.
pub open spec fn aperture_event_fits(phase: InitAperturesPhase, event: InitAperturesEvent) -> bool {
    match phase {
        InitAperturesPhase::Idle => event is Begin,
        InitAperturesPhase::AwaitDisableCache => event is EnvValue,
        InitAperturesPhase::AwaitCheckUserptr => event is EnvValue,
        InitAperturesPhase::AwaitReserveSvm => event is EnvValue,
        InitAperturesPhase::AwaitDrmRenderDevice => event is DrmRenderDevice,
        InitAperturesPhase::AwaitProcessApertures => event is ProcessApertures,
    }
}

/// The first node from `from` on, below `to`, that is a GPU node (has a KFD GPU
/// id); `to` if there is none.
pub open spec fn next_gpu_node(props: Seq<node_props_t>, from: int, to: int) -> int
    decreases to - from,
{
    if from >= to {
        to
    } else if props[from].node.KFDGpuID > 0 {
        from
    } else {
        next_gpu_node(props, from + 1, to)
    }
}

/// Whether some node in `[from, to)` is a discrete GPU node.
pub open spec fn dgpu_seen(props: Seq<node_props_t>, from: int, to: int) -> bool
    decreases to - from,
{
    if from >= to {
        false
    } else {
        dgpu_seen(props, from, to - 1)
            || is_dgpu_node(props[to - 1].node.NumCPUCores, props[to - 1].node.NumFComputeCores)
    }
}

/// How many nodes below `to` are GPU nodes.
pub open spec fn gpu_count(props: Seq<node_props_t>, to: int) -> nat
    decreases to,
{
    if to <= 0 {
        0
    } else {
        gpu_count(props, to - 1) + if props[to - 1].node.KFDGpuID > 0 { 1nat } else { 0nat }
    }
}

/// Whether `m` is the GPU memory entry made for node `node_id` with properties
/// `props`, render device `fd` and page size `page_size`.
pub open spec fn gpu_mem_from_node(m: gpu_mem_t, props: HsaNodeProperties, node_id: u32, fd: i32, page_size: i32) -> bool {
    &&& m.gpu_id == props.KFDGpuID
    &&& m.device_id == props.DeviceId as u32
    &&& m.node_id == node_id
    &&& m.local_mem_size == props.LocalMemSize
    &&& field_of(m.EngineId.Value, 0, 10) == 0
    &&& field_of(m.EngineId.Value, 10, 6) == field_of(props.EngineId.Value, 10, 6)
    &&& field_of(m.EngineId.Value, 16, 8) == field_of(props.EngineId.Value, 16, 8)
    &&& field_of(m.EngineId.Value, 24, 8) == field_of(props.EngineId.Value, 24, 8)
    &&& m.lds_aperture == (aperture_t { base: 0, limit: 0 })
    &&& m.scratch_aperture == (aperture_t { base: 0, limit: 0 })
    &&& m.mmio_aperture == (aperture_t { base: 0, limit: 0 })
    &&& m.scratch_physical.is_initial_with_align(0, 0, page_size as u64)
    &&& m.gpuvm_aperture.is_initial_with_align(0, 0, page_size as u32 as u64)
    &&& m.drm_render_fd == fd
    &&& m.usable_peer_id_num == 1
    &&& m.usable_peer_id_array@ == seq![props.KFDGpuID]
    &&& m.drm_render_minor == props.DrmRenderMinor as u32
}

impl InitAperturesState {
    /// No initialisation under way: no nodes, at node 0, no entries counted.
    pub fn new() -> (r: Self)
        ensures
            r.phase == InitAperturesPhase::Idle,
            r.num_nodes == 0,
            r.node == 0,
            r.begin_gpu_mem@ == 0,
    {
        InitAperturesState { phase: InitAperturesPhase::Idle, num_nodes: 0, node: 0, begin_gpu_mem: Ghost(0) }
    }

    /// Whether `event` is the report that this initialisation waits for.
    pub fn accepts(&self, event: &InitAperturesEvent) -> (r: bool)
        ensures
            r == aperture_event_fits(self.phase, *event),
    {
        match self.phase {
            InitAperturesPhase::Idle => matches!(event, InitAperturesEvent::Begin(_)),
            InitAperturesPhase::AwaitDisableCache => matches!(event, InitAperturesEvent::EnvValue(_)),
            InitAperturesPhase::AwaitCheckUserptr => matches!(event, InitAperturesEvent::EnvValue(_)),
            InitAperturesPhase::AwaitReserveSvm => matches!(event, InitAperturesEvent::EnvValue(_)),
            InitAperturesPhase::AwaitDrmRenderDevice => matches!(event, InitAperturesEvent::DrmRenderDevice(_)),
            InitAperturesPhase::AwaitProcessApertures => matches!(event, InitAperturesEvent::ProcessApertures(_, _)),
        }
    }

    /// While an initialisation is under way, its node count is within the topology,
    /// and each GPU node scanned so far has its GPU memory entry, in node order,
    /// after the entries there were when it began.
    pub open spec fn inv(self, g: HsakmtGlobals) -> bool {
        let props = g.topology.g_props@;
        match self.phase {
            InitAperturesPhase::Idle => true,
            InitAperturesPhase::AwaitDrmRenderDevice => {
                &&& self.node < self.num_nodes <= props.len()
                &&& props[self.node as int].node.KFDGpuID > 0
                &&& gpu_entries_match(g, self.begin_gpu_mem@, self.node as int)
            },
            InitAperturesPhase::AwaitProcessApertures => {
                &&& self.node == self.num_nodes <= props.len()
                &&& gpu_entries_match(g, self.begin_gpu_mem@, self.node as int)
            },
            _ => {
                &&& self.node == 0
                &&& self.num_nodes <= props.len()
                &&& g.fmm.gpu_mem@.len() == self.begin_gpu_mem@
            },
        }
    }
}

/// Whether the GPU memory entries after the first `begin` are those of the GPU
/// nodes below `to`, one each, in node order, each with an open render device.
pub open spec fn gpu_entries_match(g: HsakmtGlobals, begin: nat, to: int) -> bool {
    let props = g.topology.g_props@;
    &&& g.fmm.gpu_mem@.len() == begin + gpu_count(props, to)
    &&& forall|k: int| #![trigger props[k]] 0 <= k < to && props[k].node.KFDGpuID > 0 ==> {
        let m = g.fmm.gpu_mem@[(begin + gpu_count(props, k)) as int];
        &&& gpu_mem_from_node(m, props[k].node, k as u32, m.drm_render_fd, g.hsakmt_page_size)
        &&& m.drm_render_fd > 0
    }
}

/// The outcome of scanning the nodes from `from` on: the scan stops at the next
/// GPU node (to open its render device), or after the last node, where the
/// apertures are fetched unless there are fewer sysfs nodes than GPU entries.
pub open spec fn scan_step(g0: HsakmtGlobals, st0: InitAperturesState, from: int, g1: HsakmtGlobals,
    st1: InitAperturesState, a: InitAperturesAction) -> bool {
    let props = g0.topology.g_props@;
    let n = st0.num_nodes as int;
    let j = next_gpu_node(props, from, n);
    &&& g1 == (HsakmtGlobals {
        hsakmt_is_dgpu: g0.hsakmt_is_dgpu || dgpu_seen(props, from, if j < n { j + 1 } else { n }),
        ..g0
    })
    &&& st1.num_nodes == st0.num_nodes
    &&& st1.begin_gpu_mem == st0.begin_gpu_mem
    &&& if j < n {
        &&& st1.phase == InitAperturesPhase::AwaitDrmRenderDevice
        &&& st1.node == j
        &&& a == InitAperturesAction::OpenDrmRenderDevice(props[j].node.DrmRenderMinor)
    } else if (g0.topology.num_sysfs_nodes as u32) < (g0.fmm.gpu_mem@.len() as u32) {
        &&& st1.phase == InitAperturesPhase::Idle
        &&& a == InitAperturesAction::Done(HsakmtStatus::HSAKMT_STATUS_ERROR)
    } else {
        &&& st1.phase == InitAperturesPhase::AwaitProcessApertures
        &&& st1.node == n
        &&& a == InitAperturesAction::GetProcessApertures(
            ioctl_request(kfd_ioc(3, 0x14, KFD_IOCTL_GET_PROCESS_APERTURES_NEW_ARGS_SIZE)),
            g0.topology.num_sysfs_nodes as u32)
    }
}

/// `g` with the SVM settings of the memory manager replaced by `svm`.
pub open spec fn with_svm(g: HsakmtGlobals, svm: svm_t) -> HsakmtGlobals {
    HsakmtGlobals { fmm: FmmGlobals { svm: svm, ..g.fmm }, ..g }
}

/// Whether a memory-manager setting is on: its variable is set, to a value other
/// than `0`.
pub open spec fn env_setting_on(value: Option<Seq<u8>>) -> bool {
    value is Some && value != Some(seq![0x30u8])
}

/// One step of initialising the process apertures (see
/// `hsakmt_fmm_init_process_apertures`).
pub open spec fn init_apertures_step(g0: HsakmtGlobals, st0: InitAperturesState, ev: InitAperturesEvent,
    g1: HsakmtGlobals, st1: InitAperturesState, a: InitAperturesAction) -> bool {
    match ev {
        InitAperturesEvent::Begin(n) => {
            &&& g1 == g0
            &&& st1.phase == InitAperturesPhase::AwaitDisableCache
            &&& st1.num_nodes == n
            &&& st1.begin_gpu_mem@ == g0.fmm.gpu_mem@.len()
            &&& a == InitAperturesAction::ReadEnv(FmmEnvVar::HSA_DISABLE_CACHE)
        },
        InitAperturesEvent::EnvValue(v) => {
            let set = env_setting_on(env_view(v));
            if st0.phase == InitAperturesPhase::AwaitDisableCache {
                &&& g1 == with_svm(g0, svm_t { disable_cache: set, ..g0.fmm.svm })
                &&& st1 == (InitAperturesState { phase: InitAperturesPhase::AwaitCheckUserptr, ..st0 })
                &&& a == InitAperturesAction::ReadEnv(FmmEnvVar::HSA_CHECK_USERPTR)
            } else if st0.phase == InitAperturesPhase::AwaitCheckUserptr {
                &&& g1 == with_svm(g0, svm_t { check_userptr: set, ..g0.fmm.svm })
                &&& st1 == (InitAperturesState { phase: InitAperturesPhase::AwaitReserveSvm, ..st0 })
                &&& a == InitAperturesAction::ReadEnv(FmmEnvVar::HSA_RESERVE_SVM)
            } else {
                scan_step(with_svm(g0, svm_t { reserve_svm: set, alignment_order: 9, ..g0.fmm.svm }),
                    st0, 0, g1, st1, a)
            }
        },
        InitAperturesEvent::DrmRenderDevice(fd) => {
            let node = st0.node as int;
            let props = g0.topology.g_props@[node].node;
            if fd <= 0 {
                &&& g1 == g0
                &&& st1.phase == InitAperturesPhase::Idle
                &&& a == InitAperturesAction::Done(HsakmtStatus::HSAKMT_STATUS_ERROR)
            } else {
                let gm = HsakmtGlobals {
                    fmm: FmmGlobals { gpu_mem: g1.fmm.gpu_mem, ..g0.fmm },
                    hsakmt_is_svm_api_supported: field_of(props.Capability.Value, 27, 1) > 0,
                    ..g0
                };
                &&& g1.fmm.gpu_mem@.len() == g0.fmm.gpu_mem@.len() + 1
                &&& g1.fmm.gpu_mem@.drop_last() == g0.fmm.gpu_mem@
                &&& gpu_mem_from_node(g1.fmm.gpu_mem@.last(), props, node as u32, fd, g0.hsakmt_page_size)
                &&& scan_step(gm, st0, node + 1, g1, st1, a)
            }
        },
        InitAperturesEvent::ProcessApertures(ret, reported) => {
            &&& g1 == g0
            &&& st1.phase == InitAperturesPhase::Idle
            &&& a == InitAperturesAction::Done(HsakmtStatus::HSAKMT_STATUS_SUCCESS)
        },
    }
}

/// Once the render device of the GPU node at hand is open, the process supports the
/// SVM API exactly when that node's capability word has its SVM bit (bit 27) set,
/// whatever was recorded before the step.
pub proof fn lemma_drm_step_sets_svm(g0: HsakmtGlobals, st0: InitAperturesState, fd: i32,
    g1: HsakmtGlobals, st1: InitAperturesState, a: InitAperturesAction)
    requires
        fd > 0,
        init_apertures_step(g0, st0, InitAperturesEvent::DrmRenderDevice(fd), g1, st1, a),
    ensures
        g1.hsakmt_is_svm_api_supported
            == (field_of(g0.topology.g_props@[st0.node as int].node.Capability.Value, 27, 1) == 1),
{
    let v = g0.topology.g_props@[st0.node as int].node.Capability.Value;
    assert(field_of(v, 27, 1) <= 1) by (bit_vector);
}

/// The GPU memory entry for node `node_id` with properties `props`, render device
/// `fd` and page size `page_size`.
fn make_gpu_mem(props: &HsaNodeProperties, node_id: u32, fd: i32, page_size: i32, vm_alignment: u32) -> (r: gpu_mem_t)
    requires
        vm_alignment == page_size as u32,
    ensures
        gpu_mem_from_node(r, *props, node_id, fd, page_size),
{
    let mut gpu_m = gpu_mem_t::default();

    gpu_m.drm_render_minor = props.DrmRenderMinor as u32;
    gpu_m.usable_peer_id_array.push(props.KFDGpuID);
    gpu_m.usable_peer_id_num = 1;

    let major = props.EngineId.Major();
    let minor = props.EngineId.Minor();
    let stepping = props.EngineId.Stepping();
    let ghost e0 = gpu_m.EngineId.Value;
    gpu_m.EngineId.set_Major(major);
    let ghost e1 = gpu_m.EngineId.Value;
    gpu_m.EngineId.set_Minor(minor);
    let ghost e2 = gpu_m.EngineId.Value;
    gpu_m.EngineId.set_Stepping(stepping);
    proof {
        let p = props.EngineId.Value;
        let e3 = gpu_m.EngineId.Value;
        assert(field_of(p, 10, 6) < 64 && field_of(p, 16, 8) < 256 && field_of(p, 24, 8) < 256) by (bit_vector);
        assert(field_of(0, 0, 10) == 0) by (bit_vector);
        lemma_field_write_read(e0, 10, 6, major);
        lemma_field_write_other(e0, 10, 6, major, 0, 10);
        lemma_field_write_read(e1, 16, 8, minor);
        lemma_field_write_other(e1, 16, 8, minor, 0, 10);
        lemma_field_write_other(e1, 16, 8, minor, 10, 6);
        lemma_field_write_read(e2, 24, 8, stepping);
        lemma_field_write_other(e2, 24, 8, stepping, 0, 10);
        lemma_field_write_other(e2, 24, 8, stepping, 10, 6);
        lemma_field_write_other(e2, 24, 8, stepping, 16, 8);
        assert(major & 63 == major) by (bit_vector) requires major < 64u32;
        assert(minor & 255 == minor) by (bit_vector) requires minor < 256u32;
        assert(stepping & 255 == stepping) by (bit_vector) requires stepping < 256u32;
        assert(crate::bitfield::field_mask(6) == 63) by (bit_vector);
        assert(crate::bitfield::field_mask(8) == 255) by (bit_vector);
    }

    gpu_m.drm_render_fd = fd;
    gpu_m.gpu_id = props.KFDGpuID;
    gpu_m.local_mem_size = props.LocalMemSize;
    gpu_m.device_id = props.DeviceId as u32;
    gpu_m.node_id = node_id;

    gpu_m.scratch_physical.align = page_size as u64;
    gpu_m.gpuvm_aperture.align = vm_alignment as u64;
    gpu_m.gpuvm_aperture.guard_pages = 1;
    proof {
        assert(gpu_m.usable_peer_id_array@ =~= seq![props.KFDGpuID]);
    }
    gpu_m
}

proof fn lemma_gpu_count_step(props: Seq<node_props_t>, k: int)
    requires
        0 <= k,
    ensures
        gpu_count(props, k + 1) == gpu_count(props, k) + if props[k].node.KFDGpuID > 0 { 1nat } else { 0nat },
{
}

proof fn lemma_gpu_count_mono(props: Seq<node_props_t>, a: int, b: int)
    requires
        0 <= a <= b,
    ensures
        gpu_count(props, a) <= gpu_count(props, b),
        a < b && props[a].node.KFDGpuID > 0 ==> gpu_count(props, a) < gpu_count(props, b),
    decreases b - a,
{
    if a < b {
        lemma_gpu_count_mono(props, a, b - 1);
        lemma_gpu_count_step(props, b - 1);
    }
}

impl HsakmtGlobals {
    /// Scans the topology nodes from `from` on, noting discrete GPUs, up to the next
    /// GPU node or the end.
    fn scan_gpu_nodes(&mut self, state: &mut InitAperturesState, from: u32) -> (r: InitAperturesAction)
        requires
            from <= old(state).num_nodes <= old(self).topology.g_props@.len(),
        ensures
            scan_step(*old(self), *old(state), from as int, *final(self), *final(state), r),
    {
        let n = state.num_nodes;
        let ghost props = self.topology.g_props@;
        let ghost g0 = *self;
        let mut i: u32 = from;
        while i < n
            invariant
                from <= i <= n,
                n == state.num_nodes,
                n <= props.len(),
                state.num_nodes == old(state).num_nodes,
                props == g0.topology.g_props@,
                g0 == *old(self),
                state.begin_gpu_mem == old(state).begin_gpu_mem,
                *self == (HsakmtGlobals { hsakmt_is_dgpu: g0.hsakmt_is_dgpu || dgpu_seen(props, from as int, i as int), ..g0 }),
                next_gpu_node(props, from as int, n as int) == next_gpu_node(props, i as int, n as int),
            decreases n - i,
        {
            let props_i = self.hsakmt_topology_get_node_props(i);
            let gpu_id = props_i.KFDGpuID;
            let minor = props_i.DrmRenderMinor;
            let device_id = props_i.DeviceId;
            let cpu_cores = props_i.NumCPUCores;
            let fcompute_cores = props_i.NumFComputeCores;
            self.hsakmt_topology_setup_is_dgpu_param_v2(device_id, cpu_cores, fcompute_cores);
            proof {
                assert(dgpu_seen(props, from as int, i + 1) == (dgpu_seen(props, from as int, i as int)
                    || is_dgpu_node(cpu_cores, fcompute_cores)));
            }
            if gpu_id > 0 {
                state.phase = InitAperturesPhase::AwaitDrmRenderDevice;
                state.node = i;
                return InitAperturesAction::OpenDrmRenderDevice(minor);
            }
            i = i + 1;
        }

        let num_of_sysfs_nodes = #[verifier::truncate] (self.topology.num_sysfs_nodes as u32);
        if num_of_sysfs_nodes < #[verifier::truncate] (self.fmm.gpu_mem.len() as u32) {
            state.phase = InitAperturesPhase::Idle;
            return InitAperturesAction::Done(HsakmtStatus::HSAKMT_STATUS_ERROR);
        }
        state.phase = InitAperturesPhase::AwaitProcessApertures;
        state.node = n;
        InitAperturesAction::GetProcessApertures(AMDKFD_IOC_GET_PROCESS_APERTURES_NEW(), num_of_sysfs_nodes)
    }

    /// The step on the value of one of the memory manager's environment variables.
    fn apertures_env_step(&mut self, state: &mut InitAperturesState, v: Option<Vec<u8>>) -> (r: InitAperturesAction)
        requires
            old(state).phase == InitAperturesPhase::AwaitDisableCache
                || old(state).phase == InitAperturesPhase::AwaitCheckUserptr
                || old(state).phase == InitAperturesPhase::AwaitReserveSvm,
            old(state).inv(*old(self)),
        ensures
            init_apertures_step(*old(self), *old(state), InitAperturesEvent::EnvValue(v), *final(self), *final(state), r),
            final(state).inv(*final(self)),
            r is Done <==> final(state).phase == InitAperturesPhase::Idle,
    {
        let set = v.is_some() && !env_is_zero(&v);
        match state.phase {
            InitAperturesPhase::AwaitDisableCache => {
                self.fmm.svm.disable_cache = set;
                state.phase = InitAperturesPhase::AwaitCheckUserptr;
                InitAperturesAction::ReadEnv(FmmEnvVar::HSA_CHECK_USERPTR)
            },
            InitAperturesPhase::AwaitCheckUserptr => {
                self.fmm.svm.check_userptr = set;
                state.phase = InitAperturesPhase::AwaitReserveSvm;
                InitAperturesAction::ReadEnv(FmmEnvVar::HSA_RESERVE_SVM)
            },
            _ => {
                self.fmm.svm.reserve_svm = set;
                self.fmm.svm.alignment_order = 9;
                let ghost g1 = *self;
                let ghost st1 = *state;
                let a = self.scan_gpu_nodes(state, 0);
                proof {
                    lemma_next_gpu_node(g1.topology.g_props@, 0, st1.num_nodes as int);
                    lemma_scan_keeps_entries(g1, st1, 0, *self, *state, a);
                }
                a
            },
        }
    }

    #[verifier::spinoff_prover]
    fn apertures_drm_step(&mut self, state: &mut InitAperturesState, fd: i32) -> (r: InitAperturesAction)
        requires
            old(state).phase == InitAperturesPhase::AwaitDrmRenderDevice,
            old(state).inv(*old(self)),
        ensures
            init_apertures_step(*old(self), *old(state), InitAperturesEvent::DrmRenderDevice(fd), *final(self), *final(state), r),
            final(state).inv(*final(self)),
            r is Done <==> final(state).phase == InitAperturesPhase::Idle,
            fd > 0 ==> final(self).hsakmt_is_svm_api_supported == (field_of(
                old(self).topology.g_props@[old(state).node as int].node.Capability.Value, 27, 1) == 1),
    {
        let ghost g0 = *self;
        let ghost st0 = *state;
        if fd <= 0 {
            state.phase = InitAperturesPhase::Idle;
            return InitAperturesAction::Done(HsakmtStatus::HSAKMT_STATUS_ERROR);
        }
        let node = state.node;
        let page_size = self.PAGE_SIZE();
        let props = self.hsakmt_topology_get_node_props(node);
        let vm_alignment = self.get_vm_alignment(props.DeviceId as u32);
        let svm_supported = props.Capability.SVMAPISupported() > 0;
        let gpu_m = make_gpu_mem(props, node, fd, page_size, vm_alignment);
        self.hsakmt_is_svm_api_supported = svm_supported;
        self.fmm.gpu_mem.push(gpu_m);
        let ghost g1 = *self;
        let ghost st1 = *state;
        proof {
            assert(g1.fmm.gpu_mem@.drop_last() =~= g0.fmm.gpu_mem@);
            lemma_push_entry(g0, st0, g1, node as int);
            assert(g1 == HsakmtGlobals {
                fmm: FmmGlobals { gpu_mem: g1.fmm.gpu_mem, ..g0.fmm },
                hsakmt_is_svm_api_supported: field_of(g0.topology.g_props@[node as int].node.Capability.Value, 27, 1) > 0,
                ..g0
            });
        }
        let a = self.scan_gpu_nodes(state, node + 1);
        proof {
            lemma_next_gpu_node(g1.topology.g_props@, node + 1, st1.num_nodes as int);
            lemma_scan_keeps_entries(g1, st1, node + 1, *self, *state, a);
            lemma_drm_step_sets_svm(g0, st0, fd, *self, *state, a);
        }
        a
    }

    /// One step of initialising the process apertures: takes the report of the last
    /// action and says what to do next (see `init_apertures_step`). It reads the
    /// `HSA_DISABLE_CACHE`, `HSA_CHECK_USERPTR` and `HSA_RESERVE_SVM` settings (each
    /// on when the variable is set to a value other than `0`), sets the alignment
    /// order to 9, then goes through the first `NumNodes` topology nodes, noting
    /// discrete GPUs; for each GPU node it opens the node's render device (failing
    /// when that gives no descriptor) and adds the node's GPU memory entry. Then it
    /// fails if there are fewer sysfs nodes than GPU entries, and otherwise fetches
    /// the apertures of all sysfs nodes and succeeds.
    pub fn hsakmt_fmm_init_process_apertures(&mut self, state: &mut InitAperturesState, event: InitAperturesEvent)
        -> (r: InitAperturesAction)
        requires
            aperture_event_fits(old(state).phase, event),
            old(state).inv(*old(self)),
            event matches InitAperturesEvent::Begin(n) ==> n <= old(self).topology.g_props@.len(),
            event matches InitAperturesEvent::ProcessApertures(ret, _) ==> ret <= 0,
        ensures
            init_apertures_step(*old(self), *old(state), event, *final(self), *final(state), r),
            final(state).inv(*final(self)),
            r is Done <==> final(state).phase == InitAperturesPhase::Idle,
            (event matches InitAperturesEvent::DrmRenderDevice(fd) && fd > 0)
                ==> final(self).hsakmt_is_svm_api_supported == (field_of(
                old(self).topology.g_props@[old(state).node as int].node.Capability.Value, 27, 1) == 1),
    {
        match event {
            InitAperturesEvent::Begin(n) => {
                state.phase = InitAperturesPhase::AwaitDisableCache;
                state.num_nodes = n;
                state.node = 0;
                state.begin_gpu_mem = Ghost(self.fmm.gpu_mem@.len());
                InitAperturesAction::ReadEnv(FmmEnvVar::HSA_DISABLE_CACHE)
            },
            InitAperturesEvent::EnvValue(v) => self.apertures_env_step(state, v),
            InitAperturesEvent::DrmRenderDevice(fd) => self.apertures_drm_step(state, fd),
            InitAperturesEvent::ProcessApertures(ret, reported) => {
                let mut num_of_sysfs_nodes = #[verifier::truncate] (self.topology.num_sysfs_nodes as u32);
                let status = self.get_process_apertures(ret, reported, &mut num_of_sysfs_nodes);
                state.phase = InitAperturesPhase::Idle;
                InitAperturesAction::Done(status)
            },
        }
    }
}

/// Adding the entry of the GPU node `node` after those of the GPU nodes below it
/// gives the entries of the GPU nodes up to `node`.
proof fn lemma_push_entry(g0: HsakmtGlobals, st0: InitAperturesState, g1: HsakmtGlobals, node: int)
    requires
        0 <= node < g0.topology.g_props@.len(),
        g0.topology.g_props@[node].node.KFDGpuID > 0,
        gpu_entries_match(g0, st0.begin_gpu_mem@, node),
        g1.topology == g0.topology,
        g1.hsakmt_page_size == g0.hsakmt_page_size,
        g1.fmm.gpu_mem@.len() == g0.fmm.gpu_mem@.len() + 1,
        g1.fmm.gpu_mem@.drop_last() == g0.fmm.gpu_mem@,
        gpu_mem_from_node(g1.fmm.gpu_mem@.last(), g0.topology.g_props@[node].node, node as u32,
            g1.fmm.gpu_mem@.last().drm_render_fd, g0.hsakmt_page_size),
        g1.fmm.gpu_mem@.last().drm_render_fd > 0,
    ensures
        gpu_entries_match(g1, st0.begin_gpu_mem@, node + 1),
{
    let pr = g0.topology.g_props@;
    lemma_gpu_count_step(pr, node);
    assert forall|k: int| #![trigger pr[k]] 0 <= k < node + 1 && pr[k].node.KFDGpuID > 0 implies {
        let m = g1.fmm.gpu_mem@[(st0.begin_gpu_mem@ + gpu_count(pr, k)) as int];
        &&& gpu_mem_from_node(m, pr[k].node, k as u32, m.drm_render_fd, g1.hsakmt_page_size)
        &&& m.drm_render_fd > 0
    } by {
        if k < node {
            lemma_gpu_count_mono(pr, k, node);
            assert(g1.fmm.gpu_mem@[(st0.begin_gpu_mem@ + gpu_count(pr, k)) as int]
                == g1.fmm.gpu_mem@.drop_last()[(st0.begin_gpu_mem@ + gpu_count(pr, k)) as int]);
        }
    }
}

/// What `next_gpu_node` finds: a GPU node (or the end), with no GPU node before it.
proof fn lemma_next_gpu_node(props: Seq<node_props_t>, from: int, to: int)
    requires
        0 <= from <= to,
    ensures
        from <= next_gpu_node(props, from, to) <= to,
        next_gpu_node(props, from, to) < to ==> props[next_gpu_node(props, from, to)].node.KFDGpuID > 0,
        forall|k: int| from <= k < next_gpu_node(props, from, to) ==> #[trigger] props[k].node.KFDGpuID == 0,
        gpu_count(props, next_gpu_node(props, from, to)) == gpu_count(props, from),
    decreases to - from,
{
    if from < to && props[from].node.KFDGpuID == 0 {
        lemma_next_gpu_node(props, from + 1, to);
        lemma_gpu_count_step(props, from);
    }
}

/// A scan from `from`, where the entries of the GPU nodes below `from` are in
/// place, leaves an initialisation state that keeps its invariant.
proof fn lemma_scan_keeps_entries(g0: HsakmtGlobals, st0: InitAperturesState, from: int,
    g1: HsakmtGlobals, st1: InitAperturesState, a: InitAperturesAction)
    requires
        0 <= from <= st0.num_nodes <= g0.topology.g_props@.len(),
        gpu_entries_match(g0, st0.begin_gpu_mem@, from),
        scan_step(g0, st0, from, g1, st1, a),
        from <= next_gpu_node(g0.topology.g_props@, from, st0.num_nodes as int) <= st0.num_nodes,
        next_gpu_node(g0.topology.g_props@, from, st0.num_nodes as int) < st0.num_nodes
            ==> g0.topology.g_props@[next_gpu_node(g0.topology.g_props@, from, st0.num_nodes as int)].node.KFDGpuID > 0,
        forall|k: int| from <= k < next_gpu_node(g0.topology.g_props@, from, st0.num_nodes as int)
            ==> #[trigger] g0.topology.g_props@[k].node.KFDGpuID == 0,
        gpu_count(g0.topology.g_props@, next_gpu_node(g0.topology.g_props@, from, st0.num_nodes as int))
            == gpu_count(g0.topology.g_props@, from),
    ensures
        st1.inv(g1),
        a is Done <==> st1.phase == InitAperturesPhase::Idle,
{
    let props = g0.topology.g_props@;
    let j = next_gpu_node(props, from, st0.num_nodes as int);
    assert(g1.topology == g0.topology);
    assert(g1.fmm == g0.fmm);
    assert forall|k: int| #![trigger props[k]] 0 <= k < j && props[k].node.KFDGpuID > 0 implies {
        let m = g1.fmm.gpu_mem@[(st0.begin_gpu_mem@ + gpu_count(props, k)) as int];
        &&& gpu_mem_from_node(m, props[k].node, k as u32, m.drm_render_fd, g1.hsakmt_page_size)
        &&& m.drm_render_fd > 0
    } by {
        if k >= from {
            assert(props[k].node.KFDGpuID == 0);
        }
    }
}

/// A successful initialisation leaves exactly one GPU memory entry per GPU node
/// among the first `NumNodes` topology nodes, in node order, after the entries
/// there were when it began; each has an open render device.
pub proof fn lemma_success_has_all_gpu_entries(g0: HsakmtGlobals, st0: InitAperturesState, ev: InitAperturesEvent,
    g1: HsakmtGlobals, st1: InitAperturesState, a: InitAperturesAction)
    requires
        aperture_event_fits(st0.phase, ev),
        st0.inv(g0),
        init_apertures_step(g0, st0, ev, g1, st1, a),
        a == InitAperturesAction::Done(HsakmtStatus::HSAKMT_STATUS_SUCCESS),
    ensures
        gpu_entries_match(g1, st0.begin_gpu_mem@, st0.num_nodes as int),
{
}

} // verus!
