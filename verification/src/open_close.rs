use vstd::prelude::*;
use vstd::std_specs::bits::{u32_trailing_zeros, axiom_u32_trailing_zeros};
use crate::globals::HsakmtGlobals;
use crate::hsakmttypes::{HsaVersionInfo, HsakmtStatus};
use crate::version::{
    KfdIoctlGetVersionArgs, AMDKFD_IOC_GET_VERSION, ioctl_request, kfd_ioc,
    KFD_IOCTL_GET_VERSION_ARGS_SIZE, version_after_query, version_query_status,
};

verus! {

/// The KFD device file.
pub const KFD_DEVICE_NAME: &'static str = "/dev/kfd";

/// The one-based index of the least significant set bit of `n`.
pub open spec fn ffs_spec(n: i32) -> u32 {
    (u32_trailing_zeros(n as u32) + 1) as u32
}

/// The one-based index of the least significant set bit of `n` (`n` must have one,
/// and must not be `i32::MIN`, whose negation overflows).
pub fn ffs(n: i32) -> (r: u32)
    requires
        n != 0,
        n != i32::MIN,
    ensures
        r == ffs_spec(n),
        1 <= r <= 32,
{
    proof {
        axiom_u32_trailing_zeros(n as u32);
        assert(n as u32 != 0) by (bit_vector)
            requires n != 0i32;
    }
    (n as u32).trailing_zeros() + 1
}

/// For a power of two `2^k`, `ffs` gives `k + 1`.
pub proof fn lemma_ffs_power_of_two(k: u32)
    requires
        k < 31,
    ensures
        ffs_spec((1u32 << k) as i32) == k + 1,
{
    let x: u32 = 1u32 << k;
    assert((x as i32) as u32 == x) by (bit_vector)
        requires x == 1u32 << k, k < 31u32;
    axiom_u32_trailing_zeros(x);
    let t = u32_trailing_zeros(x);
    assert(x != 0) by (bit_vector)
        requires x == 1u32 << k, k < 31u32;
    assert(t < 32);
    assert((x >> t) & 1u32 == 1u32);
    assert(t == k) by (bit_vector)
        requires x == 1u32 << k, k < 31u32, t < 32u32, (x >> t) & 1u32 == 1u32;
}

/// Whether the value of `HSA_USE_SVM` (if set) leaves the SVM API enabled: it is
/// disabled only by the value `0`.
pub open spec fn svm_env_allows(value: Option<Seq<u8>>) -> bool {
    !(value == Some(seq![0x30u8]))
}

/// The state of the KFD-related fields of the library's globals.
pub open spec fn kfd_fields(g: HsakmtGlobals) -> (usize, i32, i32, i32, HsaVersionInfo, bool) {
    (g.hsakmt_kfd_open_count, g.hsakmt_kfd_fd, g.hsakmt_page_size, g.hsakmt_page_shift,
        g.version.kfd, g.hsakmt_is_svm_api_supported)
}

/// Whether `a` and `b` agree outside the KFD-related fields.
pub open spec fn same_beyond_kfd(a: HsakmtGlobals, b: HsakmtGlobals) -> bool {
    &&& a.fmm == b.fmm
    &&& a.topology == b.topology
    &&& a.queue == b.queue
    &&& a.hsakmt_system_properties_count == b.hsakmt_system_properties_count
    &&& a.hsakmt_is_dgpu == b.hsakmt_is_dgpu
    &&& a.hsakmt_zfb_support == b.hsakmt_zfb_support
}

/// Where an open of KFD stands.
#[derive(Debug, PartialEq, Eq, Structural, Clone, Copy)]
pub enum OpenKfdPhase {
    Idle,
    AwaitDevice,
    AwaitPageSize,
    AwaitVersion,
    AwaitSvmEnv,
    AwaitSystemProps,
}

/// What the caller reports back after performing an action.
#[derive(Debug)]
pub enum OpenKfdEvent {
    /// Open KFD.
    Begin,
    /// The result of opening `KFD_DEVICE_NAME` read-write, close-on-exec.
    DeviceOpened(i32),
    /// The system page size.
    PageSize(i32),
    /// The return value of the version ioctl and what it filled in.
    VersionQueried(i32, KfdIoctlGetVersionArgs),
    /// The value of the `HSA_USE_SVM` environment variable, if set, as bytes.
    SvmEnv(Option<Vec<u8>>),
    /// The status of reading the system topology properties.
    SystemPropsQueried(HsakmtStatus),
}

/// What the caller is to do next.
#[derive(Debug, PartialEq, Eq, Structural, Clone, Copy)]
pub enum OpenKfdAction {
    /// Open `KFD_DEVICE_NAME` and report `DeviceOpened`.
    OpenDevice,
    /// Read the system page size and report `PageSize`.
    QueryPageSize,
    /// Issue the ioctl with this request on the KFD file descriptor, with a
    /// `KfdIoctlGetVersionArgs` to fill, and report `VersionQueried`.
    QueryVersion(u64),
    /// Close the file descriptor, if any, then read `HSA_USE_SVM` and report `SvmEnv`.
    ReadSvmEnv(Option<i32>),
    /// Read the system topology properties and report `SystemPropsQueried`.
    QuerySystemProps,
    /// Close the file descriptor, if any; the open is over, with this status.
    Done(Option<i32>, HsakmtStatus),
}

/// The progress of an open of KFD: its phase, the file descriptor that this open
/// obtained (-1 if none), and the open count when it began.
pub struct OpenKfdState {
    pub phase: OpenKfdPhase,
    pub fd: i32,
    pub begin_count: Ghost<usize>,
}

/// Whether `event` is the report that `phase` waits for.
pub open spec fn event_fits(phase: OpenKfdPhase, event: OpenKfdEvent) -> bool {
    match phase {
        OpenKfdPhase::Idle => event is Begin,
        OpenKfdPhase::AwaitDevice => event is DeviceOpened,
        OpenKfdPhase::AwaitPageSize => event is PageSize,
        OpenKfdPhase::AwaitVersion => event is VersionQueried,
        OpenKfdPhase::AwaitSvmEnv => event is SvmEnv,
        OpenKfdPhase::AwaitSystemProps => event is SystemPropsQueried,
    }
}

impl OpenKfdState {
    /// No open under way.
    pub fn new() -> (r: Self)
        ensures
            r.phase == OpenKfdPhase::Idle,
            r.fd == -1,
    {
        OpenKfdState { phase: OpenKfdPhase::Idle, fd: -1, begin_count: Ghost(0) }
    }

    /// Whether `event` is the report that this open waits for.
    pub fn accepts(&self, event: &OpenKfdEvent) -> (r: bool)
        ensures
            r == event_fits(self.phase, *event),
    {
        match self.phase {
            OpenKfdPhase::Idle => matches!(event, OpenKfdEvent::Begin),
            OpenKfdPhase::AwaitDevice => matches!(event, OpenKfdEvent::DeviceOpened(_)),
            OpenKfdPhase::AwaitPageSize => matches!(event, OpenKfdEvent::PageSize(_)),
            OpenKfdPhase::AwaitVersion => matches!(event, OpenKfdEvent::VersionQueried(_, _)),
            OpenKfdPhase::AwaitSvmEnv => matches!(event, OpenKfdEvent::SvmEnv(_)),
            OpenKfdPhase::AwaitSystemProps => matches!(event, OpenKfdEvent::SystemPropsQueried(_)),
        }
    }

    /// While an open is under way, the open count is the one it began with.
    pub open spec fn inv(self, g: HsakmtGlobals) -> bool {
        self.phase != OpenKfdPhase::Idle ==> g.hsakmt_kfd_open_count == self.begin_count@
    }
}

/// The bytes of an environment value.
pub open spec fn env_view(value: Option<Vec<u8>>) -> Option<Seq<u8>> {
    match value {
        Some(b) => Some(b@),
        None => None,
    }
}

/// One step of opening KFD, from globals `g0` and progress `st0`, on the report
/// `ev`, to globals `g1`, progress `st1` and the next action `a`.
pub open spec fn open_kfd_step(
    g0: HsakmtGlobals,
    st0: OpenKfdState,
    ev: OpenKfdEvent,
    g1: HsakmtGlobals,
    st1: OpenKfdState,
    a: OpenKfdAction,
) -> bool {
    let (count, kfd_fd, page_size, page_shift, version, svm) = kfd_fields(g0);
    match ev {
        OpenKfdEvent::Begin => if count > 0 {
            &&& kfd_fields(g1) == ((count + 1) as usize, kfd_fd, page_size, page_shift, version, svm)
            &&& st1.phase == OpenKfdPhase::Idle
            &&& a == OpenKfdAction::Done(None, HsakmtStatus::HSAKMT_STATUS_KERNEL_ALREADY_OPENED)
        } else if kfd_fd < 0 {
            &&& kfd_fields(g1) == kfd_fields(g0)
            &&& st1.phase == OpenKfdPhase::AwaitDevice
            &&& st1.fd == -1
            &&& a == OpenKfdAction::OpenDevice
        } else {
            &&& kfd_fields(g1) == kfd_fields(g0)
            &&& st1.phase == OpenKfdPhase::AwaitPageSize
            &&& st1.fd == -1
            &&& a == OpenKfdAction::QueryPageSize
        },
        OpenKfdEvent::DeviceOpened(fd) => if fd == -1 {
            &&& kfd_fields(g1) == kfd_fields(g0)
            &&& st1.phase == OpenKfdPhase::Idle
            &&& a == OpenKfdAction::Done(Some(fd), HsakmtStatus::HSAKMT_STATUS_KERNEL_IO_CHANNEL_NOT_OPENED)
        } else {
            &&& kfd_fields(g1) == (count, fd, page_size, page_shift, version, svm)
            &&& st1.phase == OpenKfdPhase::AwaitPageSize
            &&& st1.fd == fd
            &&& a == OpenKfdAction::QueryPageSize
        },
        OpenKfdEvent::PageSize(p) => {
            &&& kfd_fields(g1) == (count, kfd_fd, p, (ffs_spec(p) - 1) as i32, version, svm)
            &&& st1.phase == OpenKfdPhase::AwaitVersion
            &&& st1.fd == st0.fd
            &&& a == OpenKfdAction::QueryVersion(ioctl_request(kfd_ioc(2, 0x01, KFD_IOCTL_GET_VERSION_ARGS_SIZE)))
        },
        OpenKfdEvent::VersionQueried(ret, args) => {
            &&& kfd_fields(g1) == (count, kfd_fd, page_size, page_shift, version_after_query(version, ret, args), svm)
            &&& st1.phase == OpenKfdPhase::AwaitSvmEnv
            &&& st1.fd == st0.fd
            &&& a == OpenKfdAction::ReadSvmEnv(
                if version_query_status(ret, args) != HsakmtStatus::HSAKMT_STATUS_SUCCESS { Some(st0.fd) } else { None })
        },
        OpenKfdEvent::SvmEnv(v) => {
            &&& kfd_fields(g1) == (count, kfd_fd, page_size, page_shift, version, svm_env_allows(env_view(v)))
            &&& st1.phase == OpenKfdPhase::AwaitSystemProps
            &&& st1.fd == st0.fd
            &&& a == OpenKfdAction::QuerySystemProps
        },
        OpenKfdEvent::SystemPropsQueried(status) => {
            &&& kfd_fields(g1) == ((count + 1) as usize, kfd_fd, page_size, page_shift, version, svm)
            &&& st1.phase == OpenKfdPhase::Idle
            &&& st1.fd == st0.fd
            &&& a == OpenKfdAction::Done(
                if status != HsakmtStatus::HSAKMT_STATUS_SUCCESS { Some(st0.fd) } else { None },
                HsakmtStatus::HSAKMT_STATUS_SUCCESS)
        },
    }
}

/// Whether `value` is the single byte `0`.
pub(crate) fn env_is_zero(value: &Option<Vec<u8>>) -> (r: bool)
    ensures
        r == (env_view(*value) == Some(seq![0x30u8])),
{
    match value {
        Some(b) => {
            if b.len() == 1 && b[0] == 0x30 {
                assert(b@ =~= seq![0x30u8]);
                true
            } else {
                assert(b@ != seq![0x30u8]) by {
                    if b@.len() == 1 {
                        assert(b@[0] != seq![0x30u8][0]);
                    }
                }
                false
            }
        },
        None => false,
    }
}

impl HsakmtGlobals {
    /// Records the system page size and its shift.
    pub fn init_page_size(&mut self, page_size: i32)
        requires
            page_size != 0,
            page_size != i32::MIN,
        ensures
            *final(self) == (HsakmtGlobals {
                hsakmt_page_size: page_size,
                hsakmt_page_shift: (ffs_spec(page_size) - 1) as i32,
                ..*old(self)
            }),
    {
        self.hsakmt_page_size = page_size;
        self.hsakmt_page_shift = (ffs(page_size) - 1) as i32;
    }

    /// One step of opening KFD: takes the report of the last action and says what
    /// to do next (see `open_kfd_step`). The first open (open count 0) opens the
    /// device unless a KFD file descriptor is held already, records the page size,
    /// queries the kernel interface version, reads `HSA_USE_SVM`, reads the system
    /// properties and counts the open; a failed version or properties query closes
    /// the descriptor this open obtained, and the open goes on. A later open only
    /// counts itself and reports that KFD is already open.
    pub fn hsaKmtOpenKFD(&mut self, state: &mut OpenKfdState, event: OpenKfdEvent) -> (r: OpenKfdAction)
        requires
            event_fits(old(state).phase, event),
            old(state).inv(*old(self)),
            old(self).hsakmt_kfd_open_count < usize::MAX,
            event matches OpenKfdEvent::PageSize(p) ==> p != 0 && p != i32::MIN,
        ensures
            open_kfd_step(*old(self), *old(state), event, *final(self), *final(state), r),
            same_beyond_kfd(*old(self), *final(self)),
            final(state).inv(*final(self)),
            r is Done <==> final(state).phase == OpenKfdPhase::Idle,
            r matches OpenKfdAction::Done(_, s) ==> final(self).hsakmt_kfd_open_count == final(state).begin_count@
                + (if s == HsakmtStatus::HSAKMT_STATUS_KERNEL_IO_CHANNEL_NOT_OPENED { 0int } else { 1int }),
    {
        match event {
            OpenKfdEvent::Begin => {
                state.begin_count = Ghost(self.hsakmt_kfd_open_count);
                state.fd = -1;
                if self.hsakmt_kfd_open_count == 0 {
                    if self.hsakmt_kfd_fd < 0 {
                        state.phase = OpenKfdPhase::AwaitDevice;
                        OpenKfdAction::OpenDevice
                    } else {
                        state.phase = OpenKfdPhase::AwaitPageSize;
                        OpenKfdAction::QueryPageSize
                    }
                } else {
                    self.hsakmt_kfd_open_count += 1;
                    state.phase = OpenKfdPhase::Idle;
                    OpenKfdAction::Done(None, HsakmtStatus::HSAKMT_STATUS_KERNEL_ALREADY_OPENED)
                }
            },
            OpenKfdEvent::DeviceOpened(fd) => {
                if fd == -1 {
                    state.phase = OpenKfdPhase::Idle;
                    OpenKfdAction::Done(Some(fd), HsakmtStatus::HSAKMT_STATUS_KERNEL_IO_CHANNEL_NOT_OPENED)
                } else {
                    self.hsakmt_kfd_fd = fd;
                    state.fd = fd;
                    state.phase = OpenKfdPhase::AwaitPageSize;
                    OpenKfdAction::QueryPageSize
                }
            },
            OpenKfdEvent::PageSize(p) => {
                self.init_page_size(p);
                state.phase = OpenKfdPhase::AwaitVersion;
                OpenKfdAction::QueryVersion(AMDKFD_IOC_GET_VERSION())
            },
            OpenKfdEvent::VersionQueried(ret, args) => {
                let status = self.hsakmt_init_kfd_version(ret, args);
                state.phase = OpenKfdPhase::AwaitSvmEnv;
                if status != HsakmtStatus::HSAKMT_STATUS_SUCCESS {
                    OpenKfdAction::ReadSvmEnv(Some(state.fd))
                } else {
                    OpenKfdAction::ReadSvmEnv(None)
                }
            },
            OpenKfdEvent::SvmEnv(value) => {
                self.hsakmt_is_svm_api_supported = !env_is_zero(&value);
                state.phase = OpenKfdPhase::AwaitSystemProps;
                OpenKfdAction::QuerySystemProps
            },
            OpenKfdEvent::SystemPropsQueried(status) => {
                self.hsakmt_kfd_open_count += 1;
                state.phase = OpenKfdPhase::Idle;
                if status != HsakmtStatus::HSAKMT_STATUS_SUCCESS {
                    OpenKfdAction::Done(Some(state.fd), HsakmtStatus::HSAKMT_STATUS_SUCCESS)
                } else {
                    OpenKfdAction::Done(None, HsakmtStatus::HSAKMT_STATUS_SUCCESS)
                }
            },
        }
    }

    /// Closes KFD: there is nothing to release, and it succeeds.
    pub fn hsaKmtCloseKFD(&self) -> (r: HsakmtStatus)
        ensures
            r == HsakmtStatus::HSAKMT_STATUS_SUCCESS,
    {
        HsakmtStatus::HSAKMT_STATUS_SUCCESS
    }
}

} // verus!
