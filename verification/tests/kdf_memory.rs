use hsakmt_rs::hsakmttypes::{HsakmtStatus, HSA_CACHING_TYPE, HSA_PAGE_SIZE};
use hsakmt_rs::open_close::{OpenKfdAction, OpenKfdEvent, OpenKfdState};
use hsakmt_rs::rbtree_amd::{rbtree_min_max, LEFT};
use hsakmt_rs::test_kfd_utils::kfd_base_component::KFDBaseComponentTest;
use hsakmt_rs::topology_utils::SysDevicesVirtualKfd;
use hsakmt_rs::version::KfdIoctlGetVersionArgs;

fn set_up(kfd_base: &mut KFDBaseComponentTest) {
    let mut state = OpenKfdState::new();
    let mut event = OpenKfdEvent::Begin;
    let status = loop {
        let action = kfd_base.hsakmt.hsaKmtOpenKFD(&mut state, event);
        event = match action {
            OpenKfdAction::OpenDevice => OpenKfdEvent::DeviceOpened(3),
            OpenKfdAction::QueryPageSize => OpenKfdEvent::PageSize(4096),
            OpenKfdAction::QueryVersion(_) => {
                OpenKfdEvent::VersionQueried(0, KfdIoctlGetVersionArgs { major_version: 1, minor_version: 14 })
            }
            OpenKfdAction::ReadSvmEnv(_) => OpenKfdEvent::SvmEnv(None),
            OpenKfdAction::QuerySystemProps => OpenKfdEvent::SystemPropsQueried(HsakmtStatus::HSAKMT_STATUS_SUCCESS),
            OpenKfdAction::Done(_, status) => break status,
        };
    };
    assert_eq!(status, HsakmtStatus::HSAKMT_STATUS_SUCCESS);
    kfd_base.set_up(status);
}

#[test]
fn test_base_component() {
    let mut kfd_base = KFDBaseComponentTest::new(SysDevicesVirtualKfd::new(""));

    set_up(&mut kfd_base);

    println!("kfd_base.hsakmt.topology.g_props.len = {:?}", kfd_base.hsakmt.topology.g_props.len());
    println!("kfd_base.hsakmt.topology.gpu_mem.len = {:?}", kfd_base.hsakmt.fmm.gpu_mem.len());
    println!("kfd_base.hsakmt.queue.doorbells.len = {:?}", kfd_base.hsakmt.queue.doorbells.len());

    println!("global size = {}", std::mem::size_of_val(&kfd_base));

    for aperture in kfd_base.hsakmt.fmm.svm.apertures.iter() {
        println!("---");
        println!("aperture.tree");
        println!("{:?}", rbtree_min_max(&aperture.tree, LEFT as i32).map(|n| n.key));
        println!();
        println!("aperture.user_tree");
        println!("{:?}", rbtree_min_max(&aperture.user_tree, LEFT as i32).map(|n| n.key));
        println!();
        println!("---");
    }
}

#[test]
fn set_up_memory_flags() {
    let mut kfd_base = KFDBaseComponentTest::new(SysDevicesVirtualKfd::new(""));
    kfd_base.m_MemoryFlags.Value = 0xffff_ffff;
    kfd_base.set_up(HsakmtStatus::HSAKMT_STATUS_SUCCESS);
    let f = kfd_base.m_MemoryFlags;
    assert_eq!(f.Value, 0xffff_fc42);
    assert_eq!(f.NonPaged(), 0);
    assert_eq!(f.CachePolicy(), HSA_CACHING_TYPE::HSA_CACHING_NONCACHED.value());
    assert_eq!(f.ReadOnly(), 0);
    assert_eq!(f.PageSize(), HSA_PAGE_SIZE::HSA_PAGE_SIZE_4KB.value());
    assert_eq!(f.HostAccess(), 1);
    assert_eq!(f.NoSubstitute(), 0);
    assert_eq!(f.GDSMemory(), 0);
    assert_eq!(f.Scratch(), 0);
}
