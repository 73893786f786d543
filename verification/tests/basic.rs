use hsakmt_rs::globals::HsakmtGlobals;
use hsakmt_rs::hsakmttypes::{HsakmtStatus, _HSAKMT_STATUS_HSAKMT_STATUS_SUCCESS};
use hsakmt_rs::open_close::{ffs, OpenKfdAction, OpenKfdEvent, OpenKfdState, KFD_DEVICE_NAME};
use hsakmt_rs::topology_utils::SysDevicesVirtualKfd;
use hsakmt_rs::version::{KfdIoctlGetVersionArgs, AMDKFD_IOC_GET_VERSION};

/// Runs an open of KFD, answering each action from the given reports; returns the
/// actions taken.
fn drive(
    hsakmt: &mut HsakmtGlobals,
    fd: i32,
    version_ret: i32,
    major: u32,
    svm_env: Option<Vec<u8>>,
    props_status: HsakmtStatus,
) -> Vec<OpenKfdAction> {
    let mut state = OpenKfdState::new();
    let mut event = OpenKfdEvent::Begin;
    let mut actions = Vec::new();
    let mut svm_env = Some(svm_env);
    loop {
        assert!(state.accepts(&event));
        let action = hsakmt.hsaKmtOpenKFD(&mut state, event);
        actions.push(action);
        event = match action {
            OpenKfdAction::OpenDevice => OpenKfdEvent::DeviceOpened(fd),
            OpenKfdAction::QueryPageSize => OpenKfdEvent::PageSize(4096),
            OpenKfdAction::QueryVersion(_) => OpenKfdEvent::VersionQueried(
                version_ret,
                KfdIoctlGetVersionArgs { major_version: major, minor_version: 9 },
            ),
            OpenKfdAction::ReadSvmEnv(_) => OpenKfdEvent::SvmEnv(svm_env.take().unwrap()),
            OpenKfdAction::QuerySystemProps => OpenKfdEvent::SystemPropsQueried(props_status),
            OpenKfdAction::Done(_, _) => return actions,
        };
    }
}

fn status_of(actions: &[OpenKfdAction]) -> HsakmtStatus {
    match actions.last() {
        Some(OpenKfdAction::Done(_, s)) => *s,
        _ => panic!("open did not finish"),
    }
}

#[test]
fn test_basic() {
    let mut hsakmt = HsakmtGlobals::new(SysDevicesVirtualKfd::new(""));

    let actions = drive(&mut hsakmt, 3, 0, 1, None, HsakmtStatus::HSAKMT_STATUS_SUCCESS);
    let ret = status_of(&actions);
    assert_eq!(ret, _HSAKMT_STATUS_HSAKMT_STATUS_SUCCESS);

    let version_info = hsakmt.hsaKmtGetVersion();
    println!("version_info: {:?}", version_info);

    let ret = hsakmt.hsaKmtCloseKFD();
    assert_eq!(ret, _HSAKMT_STATUS_HSAKMT_STATUS_SUCCESS);
}

#[test]
fn open_kfd_full_sequence() {
    let mut hsakmt = HsakmtGlobals::new(SysDevicesVirtualKfd::new(""));
    let actions = drive(&mut hsakmt, 5, 0, 1, None, HsakmtStatus::HSAKMT_STATUS_SUCCESS);
    assert_eq!(
        actions,
        vec![
            OpenKfdAction::OpenDevice,
            OpenKfdAction::QueryPageSize,
            OpenKfdAction::QueryVersion(AMDKFD_IOC_GET_VERSION()),
            OpenKfdAction::ReadSvmEnv(None),
            OpenKfdAction::QuerySystemProps,
            OpenKfdAction::Done(None, HsakmtStatus::HSAKMT_STATUS_SUCCESS),
        ]
    );
    assert_eq!(hsakmt.hsakmt_kfd_fd, 5);
    assert_eq!(hsakmt.hsakmt_kfd_open_count, 1);
    assert_eq!(hsakmt.hsakmt_page_size, 4096);
    assert_eq!(hsakmt.hsakmt_page_shift, 12);
    assert!(hsakmt.hsakmt_is_svm_api_supported);
    assert_eq!(hsakmt.PAGE_SIZE(), 4096);
    assert_eq!(KFD_DEVICE_NAME, "/dev/kfd");
}

#[test]
fn open_kfd_twice_reports_already_opened() {
    let mut hsakmt = HsakmtGlobals::new(SysDevicesVirtualKfd::new(""));
    let first = drive(&mut hsakmt, 5, 0, 1, None, HsakmtStatus::HSAKMT_STATUS_SUCCESS);
    assert_eq!(status_of(&first), HsakmtStatus::HSAKMT_STATUS_SUCCESS);
    let second = drive(&mut hsakmt, 5, 0, 1, None, HsakmtStatus::HSAKMT_STATUS_SUCCESS);
    assert_eq!(second, vec![OpenKfdAction::Done(None, HsakmtStatus::HSAKMT_STATUS_KERNEL_ALREADY_OPENED)]);
    assert_eq!(hsakmt.hsakmt_kfd_open_count, 2);
}

#[test]
fn open_kfd_device_failure() {
    let mut hsakmt = HsakmtGlobals::new(SysDevicesVirtualKfd::new(""));
    let actions = drive(&mut hsakmt, -1, 0, 1, None, HsakmtStatus::HSAKMT_STATUS_SUCCESS);
    assert_eq!(
        actions,
        vec![
            OpenKfdAction::OpenDevice,
            OpenKfdAction::Done(Some(-1), HsakmtStatus::HSAKMT_STATUS_KERNEL_IO_CHANNEL_NOT_OPENED),
        ]
    );
    assert_eq!(hsakmt.hsakmt_kfd_open_count, 0);
    assert_eq!(hsakmt.hsakmt_kfd_fd, -1);
}

#[test]
fn open_kfd_version_failure_closes_and_goes_on() {
    let mut hsakmt = HsakmtGlobals::new(SysDevicesVirtualKfd::new(""));
    let actions = drive(&mut hsakmt, 7, -1, 1, None, HsakmtStatus::HSAKMT_STATUS_SUCCESS);
    assert_eq!(actions[3], OpenKfdAction::ReadSvmEnv(Some(7)));
    assert_eq!(status_of(&actions), HsakmtStatus::HSAKMT_STATUS_SUCCESS);
    assert_eq!(hsakmt.hsakmt_kfd_open_count, 1);
}

#[test]
fn open_kfd_system_props_failure_closes() {
    let mut hsakmt = HsakmtGlobals::new(SysDevicesVirtualKfd::new(""));
    let actions = drive(&mut hsakmt, 7, 0, 1, None, HsakmtStatus::HSAKMT_STATUS_ERROR);
    assert_eq!(*actions.last().unwrap(), OpenKfdAction::Done(Some(7), HsakmtStatus::HSAKMT_STATUS_SUCCESS));
}

#[test]
fn open_kfd_svm_env_zero_disables_svm() {
    let mut hsakmt = HsakmtGlobals::new(SysDevicesVirtualKfd::new(""));
    drive(&mut hsakmt, 7, 0, 1, Some(b"0".to_vec()), HsakmtStatus::HSAKMT_STATUS_SUCCESS);
    assert!(!hsakmt.hsakmt_is_svm_api_supported);

    let mut hsakmt = HsakmtGlobals::new(SysDevicesVirtualKfd::new(""));
    drive(&mut hsakmt, 7, 0, 1, Some(b"1".to_vec()), HsakmtStatus::HSAKMT_STATUS_SUCCESS);
    assert!(hsakmt.hsakmt_is_svm_api_supported);
}

#[test]
fn open_kfd_with_device_already_held() {
    let mut hsakmt = HsakmtGlobals::new(SysDevicesVirtualKfd::new(""));
    hsakmt.hsakmt_kfd_fd = 9;
    let actions = drive(&mut hsakmt, 3, -1, 1, None, HsakmtStatus::HSAKMT_STATUS_SUCCESS);
    assert_eq!(actions[0], OpenKfdAction::QueryPageSize);
    assert_eq!(actions[2], OpenKfdAction::ReadSvmEnv(Some(-1)));
    assert_eq!(hsakmt.hsakmt_kfd_fd, 9);
}

#[test]
fn ffs_values() {
    assert_eq!(ffs(1), 1);
    assert_eq!(ffs(4096), 13);
    assert_eq!(ffs(6), 2);
    assert_eq!(ffs(-1), 1);
    assert_eq!(ffs(i32::MIN + 0x100), 9);
}

#[test]
fn init_page_size_records_shift() {
    let mut hsakmt = HsakmtGlobals::new(SysDevicesVirtualKfd::new(""));
    hsakmt.init_page_size(65536);
    assert_eq!(hsakmt.hsakmt_page_size, 65536);
    assert_eq!(hsakmt.hsakmt_page_shift, 16);
}
