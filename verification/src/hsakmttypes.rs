use vstd::prelude::*;
use crate::bitfield::{field_of, with_field, get_field, set_field};

verus! {

/// Status codes returned by the thunk interface.
#[derive(Debug, PartialEq, Eq, Structural, Clone, Copy)]
pub enum HsakmtStatus {
    HSAKMT_STATUS_SUCCESS,
    HSAKMT_STATUS_ERROR,
    HSAKMT_STATUS_DRIVER_MISMATCH,
    HSAKMT_STATUS_KERNEL_IO_CHANNEL_NOT_OPENED,
    HSAKMT_STATUS_KERNEL_ALREADY_OPENED,
}

pub type _HSAKMT_STATUS = HsakmtStatus;

pub const _HSAKMT_STATUS_HSAKMT_STATUS_SUCCESS: HsakmtStatus = HsakmtStatus::HSAKMT_STATUS_SUCCESS;

/// Version of the kernel interface reported by KFD.
#[derive(Debug, PartialEq, Eq, Structural, Clone, Copy)]
pub struct HsaVersionInfo {
    pub KernelInterfaceMajorVersion: u32,
    pub KernelInterfaceMinorVersion: u32,
}

/// System-wide topology properties.
#[derive(Debug, PartialEq, Eq, Structural, Clone, Copy)]
pub struct HsaSystemProperties {
    pub NumNodes: u32,
    pub PlatformOem: u32,
    pub PlatformId: u32,
    pub PlatformRev: u32,
}

impl Default for HsaSystemProperties {
    fn default() -> (r: Self)
        ensures
            r == (HsaSystemProperties { NumNodes: 0, PlatformOem: 0, PlatformId: 0, PlatformRev: 0 }),
    {
        HsaSystemProperties { NumNodes: 0, PlatformOem: 0, PlatformId: 0, PlatformRev: 0 }
    }
}

/// Engine identifier: `uCode` in bits 0..10, `Major` in bits 10..16, `Minor` in
/// bits 16..24, `Stepping` in bits 24..32.
#[derive(Debug, PartialEq, Eq, Structural, Clone, Copy)]
pub struct HSA_ENGINE_ID {
    pub Value: u32,
}

impl HSA_ENGINE_ID {
    pub fn Major(&self) -> (r: u32)
        ensures
            r == field_of(self.Value, 10, 6),
    {
        get_field(self.Value, 10, 6)
    }

    pub fn Minor(&self) -> (r: u32)
        ensures
            r == field_of(self.Value, 16, 8),
    {
        get_field(self.Value, 16, 8)
    }

    pub fn Stepping(&self) -> (r: u32)
        ensures
            r == field_of(self.Value, 24, 8),
    {
        get_field(self.Value, 24, 8)
    }

    pub fn set_Major(&mut self, v: u32)
        ensures
            final(self).Value == with_field(old(self).Value, 10, 6, v),
    {
        self.Value = set_field(self.Value, 10, 6, v);
    }

    pub fn set_Minor(&mut self, v: u32)
        ensures
            final(self).Value == with_field(old(self).Value, 16, 8, v),
    {
        self.Value = set_field(self.Value, 16, 8, v);
    }

    pub fn set_Stepping(&mut self, v: u32)
        ensures
            final(self).Value == with_field(old(self).Value, 24, 8, v),
    {
        self.Value = set_field(self.Value, 24, 8, v);
    }
}

/// Node capability bits; `SVMAPISupported` is bit 27.
#[derive(Debug, PartialEq, Eq, Structural, Clone, Copy)]
pub struct HSA_CAPABILITY {
    pub Value: u32,
}

impl HSA_CAPABILITY {
    pub fn SVMAPISupported(&self) -> (r: u32)
        ensures
            r == field_of(self.Value, 27, 1),
    {
        get_field(self.Value, 27, 1)
    }
}

/// Micro-code engine versions.
#[derive(Debug, PartialEq, Eq, Structural, Clone, Copy)]
pub struct HSA_ENGINE_VERSION {
    pub Value: u32,
}

/// Debug properties of a node.
#[derive(Debug, PartialEq, Eq, Structural, Clone, Copy)]
pub struct HSA_DEBUG_PROPERTIES {
    pub Value: u64,
}

/// Memory caching policies.
#[derive(Debug, PartialEq, Eq, Structural, Clone, Copy)]
pub enum HSA_CACHING_TYPE {
    HSA_CACHING_CACHED,
    HSA_CACHING_NONCACHED,
    HSA_CACHING_WRITECOMBINED,
    HSA_CACHING_RESERVED,
}

impl HSA_CACHING_TYPE {
    /// The numeric code of the policy.
    pub fn value(&self) -> (r: u32)
        ensures
            r == match *self {
                HSA_CACHING_TYPE::HSA_CACHING_CACHED => 0u32,
                HSA_CACHING_TYPE::HSA_CACHING_NONCACHED => 1u32,
                HSA_CACHING_TYPE::HSA_CACHING_WRITECOMBINED => 2u32,
                HSA_CACHING_TYPE::HSA_CACHING_RESERVED => 3u32,
            },
    {
        match self {
            HSA_CACHING_TYPE::HSA_CACHING_CACHED => 0,
            HSA_CACHING_TYPE::HSA_CACHING_NONCACHED => 1,
            HSA_CACHING_TYPE::HSA_CACHING_WRITECOMBINED => 2,
            HSA_CACHING_TYPE::HSA_CACHING_RESERVED => 3,
        }
    }
}

/// Page sizes of an allocation.
#[derive(Debug, PartialEq, Eq, Structural, Clone, Copy)]
pub enum HSA_PAGE_SIZE {
    HSA_PAGE_SIZE_4KB,
    HSA_PAGE_SIZE_64KB,
    HSA_PAGE_SIZE_2MB,
    HSA_PAGE_SIZE_1GB,
}

impl HSA_PAGE_SIZE {
    /// The numeric code of the page size.
    pub fn value(&self) -> (r: u32)
        ensures
            r == match *self {
                HSA_PAGE_SIZE::HSA_PAGE_SIZE_4KB => 0u32,
                HSA_PAGE_SIZE::HSA_PAGE_SIZE_64KB => 1u32,
                HSA_PAGE_SIZE::HSA_PAGE_SIZE_2MB => 2u32,
                HSA_PAGE_SIZE::HSA_PAGE_SIZE_1GB => 3u32,
            },
    {
        match self {
            HSA_PAGE_SIZE::HSA_PAGE_SIZE_4KB => 0,
            HSA_PAGE_SIZE::HSA_PAGE_SIZE_64KB => 1,
            HSA_PAGE_SIZE::HSA_PAGE_SIZE_2MB => 2,
            HSA_PAGE_SIZE::HSA_PAGE_SIZE_1GB => 3,
        }
    }
}

/// Memory allocation flags. Bit layout: `NonPaged` 0, `CachePolicy` 1..3,
/// `ReadOnly` 3, `PageSize` 4..6, `HostAccess` 6, `NoSubstitute` 7, `GDSMemory` 8,
/// `Scratch` 9.
#[derive(Debug, PartialEq, Eq, Structural, Clone, Copy)]
pub struct HsaMemFlags {
    pub Value: u32,
}

impl Default for HsaMemFlags {
    fn default() -> (r: Self)
        ensures
            r.Value == 0,
    {
        HsaMemFlags { Value: 0 }
    }
}

impl HsaMemFlags {
    pub fn NonPaged(&self) -> (r: u32)
        ensures r == field_of(self.Value, 0, 1),
    {
        get_field(self.Value, 0, 1)
    }

    pub fn CachePolicy(&self) -> (r: u32)
        ensures r == field_of(self.Value, 1, 2),
    {
        get_field(self.Value, 1, 2)
    }

    pub fn ReadOnly(&self) -> (r: u32)
        ensures r == field_of(self.Value, 3, 1),
    {
        get_field(self.Value, 3, 1)
    }

    pub fn PageSize(&self) -> (r: u32)
        ensures r == field_of(self.Value, 4, 2),
    {
        get_field(self.Value, 4, 2)
    }

    pub fn HostAccess(&self) -> (r: u32)
        ensures r == field_of(self.Value, 6, 1),
    {
        get_field(self.Value, 6, 1)
    }

    pub fn NoSubstitute(&self) -> (r: u32)
        ensures r == field_of(self.Value, 7, 1),
    {
        get_field(self.Value, 7, 1)
    }

    pub fn GDSMemory(&self) -> (r: u32)
        ensures r == field_of(self.Value, 8, 1),
    {
        get_field(self.Value, 8, 1)
    }

    pub fn Scratch(&self) -> (r: u32)
        ensures r == field_of(self.Value, 9, 1),
    {
        get_field(self.Value, 9, 1)
    }

    pub fn set_NonPaged(&mut self, v: u32)
        ensures final(self).Value == with_field(old(self).Value, 0, 1, v),
    {
        self.Value = set_field(self.Value, 0, 1, v);
    }

    pub fn set_CachePolicy(&mut self, v: u32)
        ensures final(self).Value == with_field(old(self).Value, 1, 2, v),
    {
        self.Value = set_field(self.Value, 1, 2, v);
    }

    pub fn set_ReadOnly(&mut self, v: u32)
        ensures final(self).Value == with_field(old(self).Value, 3, 1, v),
    {
        self.Value = set_field(self.Value, 3, 1, v);
    }

    pub fn set_PageSize(&mut self, v: u32)
        ensures final(self).Value == with_field(old(self).Value, 4, 2, v),
    {
        self.Value = set_field(self.Value, 4, 2, v);
    }

    pub fn set_HostAccess(&mut self, v: u32)
        ensures final(self).Value == with_field(old(self).Value, 6, 1, v),
    {
        self.Value = set_field(self.Value, 6, 1, v);
    }

    pub fn set_NoSubstitute(&mut self, v: u32)
        ensures final(self).Value == with_field(old(self).Value, 7, 1, v),
    {
        self.Value = set_field(self.Value, 7, 1, v);
    }

    pub fn set_GDSMemory(&mut self, v: u32)
        ensures final(self).Value == with_field(old(self).Value, 8, 1, v),
    {
        self.Value = set_field(self.Value, 8, 1, v);
    }

    pub fn set_Scratch(&mut self, v: u32)
        ensures final(self).Value == with_field(old(self).Value, 9, 1, v),
    {
        self.Value = set_field(self.Value, 9, 1, v);
    }
}

/// Properties of one topology node.
#[derive(Debug, Clone, Copy)]
pub struct HsaNodeProperties {
    pub NumCPUCores: u32,
    pub NumFComputeCores: u32,
    pub NumNeuralCores: u32,
    pub NumMemoryBanks: u32,
    pub NumCaches: u32,
    pub NumIOLinks: u32,
    pub CComputeIdLo: u32,
    pub FComputeIdLo: u32,
    pub Capability: HSA_CAPABILITY,
    pub MaxWavesPerSIMD: u32,
    pub LDSSizeInKB: u32,
    pub GDSSizeInKB: u32,
    pub WaveFrontSize: u32,
    pub NumShaderBanks: u32,
    pub NumArrays: u32,
    pub NumCUPerArray: u32,
    pub NumSIMDPerCU: u32,
    pub MaxSlotsScratchCU: u32,
    pub EngineId: HSA_ENGINE_ID,
    pub OverrideEngineId: HSA_ENGINE_ID,
    pub VendorId: u16,
    pub DeviceId: u16,
    pub LocationId: u32,
    pub LocalMemSize: u64,
    pub MaxEngineClockMhzFCompute: u32,
    pub MaxEngineClockMhzCCompute: u32,
    pub DrmRenderMinor: i32,
    pub MarketingName: [u16; 64],
    pub AMDName: [u8; 64],
    pub uCodeEngineVersions: HSA_ENGINE_VERSION,
    pub DebugProperties: HSA_DEBUG_PROPERTIES,
    pub HiveID: u64,
    pub NumSdmaEngines: u32,
    pub NumSdmaXgmiEngines: u32,
    pub NumSdmaQueuesPerEngine: u8,
    pub NumCpQueues: u8,
    pub NumGws: u8,
    pub Integrated: u8,
    pub Domain: u32,
    pub UniqueID: u64,
    pub VGPRSizePerCU: u32,
    pub SGPRSizePerCU: u32,
    pub NumXcc: u32,
    pub KFDGpuID: u32,
    pub FamilyID: u32,
}

impl HsaNodeProperties {
    /// Whether every property is zero, the names included.
    pub open spec fn is_zero(self) -> bool {
        &&& self.NumCPUCores == 0 && self.NumFComputeCores == 0 && self.NumNeuralCores == 0
        &&& self.NumMemoryBanks == 0 && self.NumCaches == 0 && self.NumIOLinks == 0
        &&& self.CComputeIdLo == 0 && self.FComputeIdLo == 0 && self.Capability.Value == 0
        &&& self.MaxWavesPerSIMD == 0 && self.LDSSizeInKB == 0 && self.GDSSizeInKB == 0
        &&& self.WaveFrontSize == 0 && self.NumShaderBanks == 0 && self.NumArrays == 0
        &&& self.NumCUPerArray == 0 && self.NumSIMDPerCU == 0 && self.MaxSlotsScratchCU == 0
        &&& self.EngineId.Value == 0 && self.OverrideEngineId.Value == 0
        &&& self.VendorId == 0 && self.DeviceId == 0 && self.LocationId == 0
        &&& self.LocalMemSize == 0 && self.MaxEngineClockMhzFCompute == 0
        &&& self.MaxEngineClockMhzCCompute == 0 && self.DrmRenderMinor == 0
        &&& self.MarketingName@ == Seq::new(64, |i: int| 0u16)
        &&& self.AMDName@ == Seq::new(64, |i: int| 0u8)
        &&& self.uCodeEngineVersions.Value == 0 && self.DebugProperties.Value == 0
        &&& self.HiveID == 0 && self.NumSdmaEngines == 0 && self.NumSdmaXgmiEngines == 0
        &&& self.NumSdmaQueuesPerEngine == 0 && self.NumCpQueues == 0 && self.NumGws == 0
        &&& self.Integrated == 0 && self.Domain == 0 && self.UniqueID == 0
        &&& self.VGPRSizePerCU == 0 && self.SGPRSizePerCU == 0 && self.NumXcc == 0
        &&& self.KFDGpuID == 0 && self.FamilyID == 0
    }
}

/// Properties of one memory bank of a node.
#[derive(Debug, PartialEq, Eq, Structural, Clone, Copy)]
pub struct HsaMemoryProperties {
    pub HeapType: u32,
    pub SizeInBytes: u64,
    pub Flags: u32,
    pub Width: u32,
    pub MemoryClockMax: u32,
    pub VirtualBaseAddress: u64,
}

/// Properties of one cache of a node.
#[derive(Debug, PartialEq, Eq, Structural, Clone, Copy)]
pub struct HsaCacheProperties {
    pub ProcessorIdLow: u32,
    pub CacheLevel: u32,
    pub CacheSize: u32,
    pub CacheLineSize: u32,
    pub CacheLinesPerTag: u32,
    pub CacheAssociativity: u32,
    pub CacheLatency: u32,
    pub CacheType: u32,
}

/// Properties of one I/O link from a node.
#[derive(Debug, PartialEq, Eq, Structural, Clone, Copy)]
pub struct HsaIoLinkProperties {
    pub IoLinkType: u32,
    pub VersionMajor: u32,
    pub VersionMinor: u32,
    pub NodeFrom: u32,
    pub NodeTo: u32,
    pub Weight: u32,
    pub MinimumLatency: u32,
    pub MaximumLatency: u32,
    pub MinimumBandwidth: u32,
    pub MaximumBandwidth: u32,
    pub RecTransferSize: u32,
    pub Flags: u32,
}

} // verus!
