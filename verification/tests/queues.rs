use hsakmt_rs::globals::HsakmtGlobals;
use hsakmt_rs::hsakmttypes::_HSAKMT_STATUS_HSAKMT_STATUS_SUCCESS;
use hsakmt_rs::queues::{hsakmt_get_vgpr_size_per_cu, GFX_VERSION_ALDEBARAN, GFX_VERSION_GFX1201, GFX_VERSION_NAVI10};
use hsakmt_rs::topology_utils::SysDevicesVirtualKfd;

#[test]
fn vgpr_size_per_cu() {
    assert_eq!(hsakmt_get_vgpr_size_per_cu(0x090400), 0x80000);
    assert_eq!(hsakmt_get_vgpr_size_per_cu(0x090402), 0x80000);
    assert_eq!(hsakmt_get_vgpr_size_per_cu(GFX_VERSION_ALDEBARAN as u32), 0x80000);
    assert_eq!(hsakmt_get_vgpr_size_per_cu(0x090008), 0x80000);
    assert_eq!(hsakmt_get_vgpr_size_per_cu(0x0B0000), 0x60000);
    assert_eq!(hsakmt_get_vgpr_size_per_cu(GFX_VERSION_GFX1201 as u32), 0x60000);
    assert_eq!(hsakmt_get_vgpr_size_per_cu(GFX_VERSION_NAVI10 as u32), 0x40000);
    assert_eq!(hsakmt_get_vgpr_size_per_cu(0x090500), 0x40000);
}

#[test]
fn init_process_doorbells() {
    let mut hsakmt = HsakmtGlobals::new(SysDevicesVirtualKfd::new(""));
    let ret = hsakmt.hsakmt_init_process_doorbells(3);
    assert_eq!(ret, _HSAKMT_STATUS_HSAKMT_STATUS_SUCCESS);
    assert_eq!(hsakmt.queue.num_doorbells, 3);
    assert_eq!(hsakmt.queue.doorbells.len(), 3);
    let ret = hsakmt.hsakmt_init_process_doorbells(0);
    assert_eq!(ret, _HSAKMT_STATUS_HSAKMT_STATUS_SUCCESS);
    assert_eq!(hsakmt.queue.num_doorbells, 0);
    assert_eq!(hsakmt.queue.doorbells.len(), 3);
}
