use hsakmt_rs::globals::HsakmtGlobals;
use hsakmt_rs::hsakmttypes::{HsaVersionInfo, HsakmtStatus};
use hsakmt_rs::open_close::{OpenKfdAction, OpenKfdEvent, OpenKfdState};
use hsakmt_rs::topology_utils::SysDevicesVirtualKfd;
use hsakmt_rs::version::{KfdIoctlGetVersionArgs, AMDKFD_IOC_GET_PROCESS_APERTURES_NEW, AMDKFD_IOC_GET_VERSION};

fn fresh() -> HsakmtGlobals {
    HsakmtGlobals::new(SysDevicesVirtualKfd::new(""))
}

/// Opens KFD the way a machine with a KFD device of interface version 1.14 answers.
fn open_kfd(hsakmt: &mut HsakmtGlobals) -> HsakmtStatus {
    let mut state = OpenKfdState::new();
    let mut event = OpenKfdEvent::Begin;
    loop {
        let action = hsakmt.hsaKmtOpenKFD(&mut state, event);
        event = match action {
            OpenKfdAction::OpenDevice => OpenKfdEvent::DeviceOpened(3),
            OpenKfdAction::QueryPageSize => OpenKfdEvent::PageSize(4096),
            OpenKfdAction::QueryVersion(_) => OpenKfdEvent::VersionQueried(
                0,
                KfdIoctlGetVersionArgs { major_version: 1, minor_version: 14 },
            ),
            OpenKfdAction::ReadSvmEnv(_) => OpenKfdEvent::SvmEnv(None),
            OpenKfdAction::QuerySystemProps => {
                OpenKfdEvent::SystemPropsQueried(HsakmtStatus::HSAKMT_STATUS_SUCCESS)
            }
            OpenKfdAction::Done(_, status) => return status,
        };
    }
}

#[test]
fn test_hsakmt_get_version() {
    let mut hsakmt = fresh();

    let ret = open_kfd(&mut hsakmt);
    assert_eq!(ret, HsakmtStatus::HSAKMT_STATUS_SUCCESS);

    let version_info = hsakmt.hsaKmtGetVersion();
    println!("{:#?}", version_info);
    assert_ne!(
        version_info,
        HsaVersionInfo { KernelInterfaceMajorVersion: 0, KernelInterfaceMinorVersion: 0 }
    );

    assert!(version_info.KernelInterfaceMajorVersion > 0);
}

#[test]
fn test_hsakmt_get_version_not_initialized() {
    let hsakmt = fresh();

    let version_info = hsakmt.hsaKmtGetVersion();
    println!("{:#?}", version_info);

    assert_eq!(
        version_info,
        HsaVersionInfo { KernelInterfaceMajorVersion: 0, KernelInterfaceMinorVersion: 0 }
    );
}

#[test]
fn version_query_records_reported_version() {
    let mut hsakmt = fresh();
    let ret = hsakmt.hsakmt_init_kfd_version(0, KfdIoctlGetVersionArgs { major_version: 1, minor_version: 17 });
    assert_eq!(ret, HsakmtStatus::HSAKMT_STATUS_SUCCESS);
    assert_eq!(
        hsakmt.hsaKmtGetVersion(),
        HsaVersionInfo { KernelInterfaceMajorVersion: 1, KernelInterfaceMinorVersion: 17 }
    );
}

#[test]
fn version_query_failure_keeps_version() {
    let mut hsakmt = fresh();
    let ret = hsakmt.hsakmt_init_kfd_version(-1, KfdIoctlGetVersionArgs { major_version: 1, minor_version: 17 });
    assert_eq!(ret, HsakmtStatus::HSAKMT_STATUS_ERROR);
    assert_eq!(
        hsakmt.hsaKmtGetVersion(),
        HsaVersionInfo { KernelInterfaceMajorVersion: 0, KernelInterfaceMinorVersion: 0 }
    );
}

#[test]
fn version_query_driver_mismatch() {
    let mut hsakmt = fresh();
    let ret = hsakmt.hsakmt_init_kfd_version(0, KfdIoctlGetVersionArgs { major_version: 2, minor_version: 0 });
    assert_eq!(ret, HsakmtStatus::HSAKMT_STATUS_DRIVER_MISMATCH);
    assert_eq!(
        hsakmt.hsaKmtGetVersion(),
        HsaVersionInfo { KernelInterfaceMajorVersion: 2, KernelInterfaceMinorVersion: 0 }
    );
}

#[test]
fn ioctl_requests_match_kernel_header() {
    // _IOR('K', 0x01, struct kfd_ioctl_get_version_args).
    assert_eq!(AMDKFD_IOC_GET_VERSION(), 0x8008_4b01);
    // _IOWR('K', 0x14, struct kfd_ioctl_get_process_apertures_new_args).
    assert_eq!(AMDKFD_IOC_GET_PROCESS_APERTURES_NEW(), 0xc010_4b14);
}
