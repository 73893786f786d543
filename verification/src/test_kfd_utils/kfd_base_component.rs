use vstd::prelude::*;
use crate::bitfield::{field_of, with_field};
use crate::globals::HsakmtGlobals;
use crate::hsakmttypes::{HsaMemFlags, HsaSystemProperties, HsakmtStatus, HSA_CACHING_TYPE, HSA_PAGE_SIZE};
use crate::topology_utils::SysDevicesVirtualKfd;

verus! {

/// The fixture of the KFD tests: the library state, a system properties snapshot
/// and the memory flags the tests allocate with.
pub struct KFDBaseComponentTest {
    pub hsakmt: HsakmtGlobals,
    pub m_SystemProperties: HsaSystemProperties,
    pub m_MemoryFlags: HsaMemFlags,
}

/// The memory flags `set_up` gives: paged, non-cached, read-write, 4 KiB pages,
/// host accessible, falling back to node 0, no GDS, no scratch; the other bits of
/// `old` are kept.
pub open spec fn test_memory_flags(old: u32) -> u32 {
    with_field(with_field(with_field(with_field(with_field(with_field(with_field(with_field(
        old, 0, 1, 0), 1, 2, 1), 3, 1, 0), 4, 2, 0), 6, 1, 1), 7, 1, 0), 8, 1, 0), 9, 1, 0)
}

impl KFDBaseComponentTest {
    /// A fixture over the sysfs topology `sys_devices_virtual_kfd`, with zero system
    /// properties and zero memory flags.
    pub fn new(sys_devices_virtual_kfd: SysDevicesVirtualKfd) -> (r: Self)
        ensures
            r.hsakmt.is_fresh(sys_devices_virtual_kfd),
            r.m_SystemProperties == (HsaSystemProperties { NumNodes: 0, PlatformOem: 0, PlatformId: 0, PlatformRev: 0 }),
            r.m_MemoryFlags.Value == 0,
    {
        Self {
            hsakmt: HsakmtGlobals::new(sys_devices_virtual_kfd),
            m_SystemProperties: HsaSystemProperties::default(),
            m_MemoryFlags: HsaMemFlags::default(),
        }
    }

    /// Sets the test memory flags, once KFD has been opened with status
    /// `open_status`, which must be success.
    pub fn set_up(&mut self, open_status: HsakmtStatus)
        requires
            open_status == HsakmtStatus::HSAKMT_STATUS_SUCCESS,
        ensures
            final(self).m_MemoryFlags.Value == test_memory_flags(old(self).m_MemoryFlags.Value),
            field_of(final(self).m_MemoryFlags.Value, 0, 1) == 0,
            field_of(final(self).m_MemoryFlags.Value, 1, 2) == 1,
            field_of(final(self).m_MemoryFlags.Value, 3, 1) == 0,
            field_of(final(self).m_MemoryFlags.Value, 4, 2) == 0,
            field_of(final(self).m_MemoryFlags.Value, 6, 1) == 1,
            field_of(final(self).m_MemoryFlags.Value, 7, 1) == 0,
            field_of(final(self).m_MemoryFlags.Value, 8, 1) == 0,
            field_of(final(self).m_MemoryFlags.Value, 9, 1) == 0,
            final(self).m_MemoryFlags.Value & 0xffff_fc00 == old(self).m_MemoryFlags.Value & 0xffff_fc00,
            final(self).hsakmt == old(self).hsakmt,
            final(self).m_SystemProperties == old(self).m_SystemProperties,
    {
        let ghost v0 = self.m_MemoryFlags.Value;
        self.m_MemoryFlags.set_NonPaged(0);
        self.m_MemoryFlags.set_CachePolicy(HSA_CACHING_TYPE::HSA_CACHING_NONCACHED.value());
        self.m_MemoryFlags.set_ReadOnly(0);
        self.m_MemoryFlags.set_PageSize(HSA_PAGE_SIZE::HSA_PAGE_SIZE_4KB.value());
        self.m_MemoryFlags.set_HostAccess(1);
        self.m_MemoryFlags.set_NoSubstitute(0);
        self.m_MemoryFlags.set_GDSMemory(0);
        self.m_MemoryFlags.set_Scratch(0);
        let ghost v = self.m_MemoryFlags.Value;
        assert(v == test_memory_flags(v0));
        assert(v & 0x3ff == 0x42 && v & 0xffff_fc00 == v0 & 0xffff_fc00) by (bit_vector)
            requires v == test_memory_flags(v0);
        assert(field_of(v, 0, 1) == 0 && field_of(v, 1, 2) == 1 && field_of(v, 3, 1) == 0
            && field_of(v, 4, 2) == 0 && field_of(v, 6, 1) == 1 && field_of(v, 7, 1) == 0
            && field_of(v, 8, 1) == 0 && field_of(v, 9, 1) == 0) by (bit_vector)
            requires v & 0x3ff == 0x42;
    }
}

} // verus!
