use vstd::prelude::*;
use crate::globals::{HsakmtGlobals, VersionGlobals};
use crate::hsakmttypes::{HsaVersionInfo, HsakmtStatus};

verus! {

/// What the `AMDKFD_IOC_GET_VERSION` ioctl reports.
#[derive(Debug, PartialEq, Eq, Structural, Clone, Copy)]
pub struct KfdIoctlGetVersionArgs {
    pub major_version: u32,
    pub minor_version: u32,
}

/// Size in bytes of `KfdIoctlGetVersionArgs` as the kernel lays it out: two `u32`.
pub const KFD_IOCTL_GET_VERSION_ARGS_SIZE: u32 = 8;

/// Size in bytes of the arguments of `AMDKFD_IOC_GET_PROCESS_APERTURES_NEW`: a
/// pointer, a `u32` node count and a `u32` pad.
pub const KFD_IOCTL_GET_PROCESS_APERTURES_NEW_ARGS_SIZE: u32 = 16;

/// The 32-bit KFD ioctl command with direction `dir` (1 write, 2 read, 3 both),
/// number `nr` and argument size `size`, for the ioctl type `'K'`.
pub open spec fn kfd_ioc(dir: u32, nr: u32, size: u32) -> u32 {
    (dir << 30u32) | (0x4bu32 << 8u32) | nr | (size << 16u32)
}

/// The request value passed for the 32-bit command `cmd`: the command, widened
/// to 64 bits with zeros.
pub open spec fn ioctl_request(cmd: u32) -> u64 {
    cmd as u64
}

fn kfd_ioctl_request(dir: u32, nr: u32, size: u32) -> (r: u64)
    requires
        dir < 4,
        nr < 256,
        size < 0x4000,
    ensures
        r == ioctl_request(kfd_ioc(dir, nr, size)),
{
    let k: u32 = 'K' as u32;
    assert(k == 0x4b);
    let cmd: u32 = (dir << 30u32) | (k << 8u32) | nr | (size << 16u32);
    cmd as u64
}

/// The request of `AMDKFD_IOC_GET_VERSION`: read, number 1.
pub fn AMDKFD_IOC_GET_VERSION() -> (r: u64)
    ensures
        r == ioctl_request(kfd_ioc(2, 0x01, KFD_IOCTL_GET_VERSION_ARGS_SIZE)),
        r == 0x8008_4B01,
{
    assert(kfd_ioc(2, 0x01, 8) == 0x8008_4B01u32) by (bit_vector);
    kfd_ioctl_request(2, 0x01, KFD_IOCTL_GET_VERSION_ARGS_SIZE)
}

/// The request of `AMDKFD_IOC_GET_PROCESS_APERTURES_NEW`: read and write, number 0x14.
pub fn AMDKFD_IOC_GET_PROCESS_APERTURES_NEW() -> (r: u64)
    ensures
        r == ioctl_request(kfd_ioc(3, 0x14, KFD_IOCTL_GET_PROCESS_APERTURES_NEW_ARGS_SIZE)),
        r == 0xC010_4B14,
{
    assert(kfd_ioc(3, 0x14, 16) == 0xC010_4B14u32) by (bit_vector);
    let dir: u32 = 2u32 | 1u32;
    assert(dir == 3) by (bit_vector)
        requires dir == 2u32 | 1u32;
    kfd_ioctl_request(dir, 0x14, KFD_IOCTL_GET_PROCESS_APERTURES_NEW_ARGS_SIZE)
}

/// The kernel interface version after the version ioctl returned `ioctl_ret` with
/// `args`: unchanged when the ioctl failed, what it reported otherwise.
pub open spec fn version_after_query(old_version: HsaVersionInfo, ioctl_ret: i32, args: KfdIoctlGetVersionArgs) -> HsaVersionInfo {
    if ioctl_ret == -1 {
        old_version
    } else {
        HsaVersionInfo {
            KernelInterfaceMajorVersion: args.major_version,
            KernelInterfaceMinorVersion: args.minor_version,
        }
    }
}

/// The status of the version query: an error when the ioctl failed, a driver
/// mismatch unless the major version is 1, success otherwise.
pub open spec fn version_query_status(ioctl_ret: i32, args: KfdIoctlGetVersionArgs) -> HsakmtStatus {
    if ioctl_ret == -1 {
        HsakmtStatus::HSAKMT_STATUS_ERROR
    } else if args.major_version != 1 {
        HsakmtStatus::HSAKMT_STATUS_DRIVER_MISMATCH
    } else {
        HsakmtStatus::HSAKMT_STATUS_SUCCESS
    }
}

impl HsakmtGlobals {
    /// The kernel interface version read from KFD.
    pub fn hsaKmtGetVersion(&self) -> (r: HsaVersionInfo)
        ensures
            r == self.version.kfd,
    {
        self.version.kfd
    }

    /// Records the outcome of the `AMDKFD_IOC_GET_VERSION` ioctl, which returned
    /// `ioctl_ret` and filled `args`.
    pub fn hsakmt_init_kfd_version(&mut self, ioctl_ret: i32, args: KfdIoctlGetVersionArgs) -> (r: HsakmtStatus)
        ensures
            r == version_query_status(ioctl_ret, args),
            *final(self) == (HsakmtGlobals {
                version: VersionGlobals { kfd: version_after_query(old(self).version.kfd, ioctl_ret, args) },
                ..*old(self)
            }),
    {
        if ioctl_ret == -1 {
            return HsakmtStatus::HSAKMT_STATUS_ERROR;
        }

        self.version.kfd.KernelInterfaceMajorVersion = args.major_version;
        self.version.kfd.KernelInterfaceMinorVersion = args.minor_version;

        if args.major_version != 1 {
            return HsakmtStatus::HSAKMT_STATUS_DRIVER_MISMATCH;
        }

        HsakmtStatus::HSAKMT_STATUS_SUCCESS
    }
}

/// Reading the version after a successful version ioctl gives what the ioctl
/// reported, whatever was recorded before.
pub proof fn lemma_version_read_after_query(old_version: HsaVersionInfo, ioctl_ret: i32, args: KfdIoctlGetVersionArgs)
    requires
        ioctl_ret != -1,
    ensures
        version_after_query(old_version, ioctl_ret, args).KernelInterfaceMajorVersion == args.major_version,
        version_after_query(old_version, ioctl_ret, args).KernelInterfaceMinorVersion == args.minor_version,
{
}

/// The version query succeeds exactly when the ioctl did not fail and reported
/// major version 1.
pub proof fn lemma_version_success_iff(ioctl_ret: i32, args: KfdIoctlGetVersionArgs)
    ensures
        version_query_status(ioctl_ret, args) == HsakmtStatus::HSAKMT_STATUS_SUCCESS
            <==> (ioctl_ret != -1 && args.major_version == 1),
{
}

} // verus!
