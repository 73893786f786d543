use vstd::prelude::*;
use crate::hsakmttypes::{
    HsaCacheProperties, HsaIoLinkProperties, HsaMemoryProperties, HsaNodeProperties,
    HSA_CAPABILITY, HSA_DEBUG_PROPERTIES, HSA_ENGINE_ID, HSA_ENGINE_VERSION,
};

verus! {

/// A topology node: its properties and its memory banks, caches and I/O links.
pub struct node_props_t {
    pub node: HsaNodeProperties,
    pub mem: Vec<HsaMemoryProperties>,
    pub cache: Vec<HsaCacheProperties>,
    pub link: Vec<HsaIoLinkProperties>,
}

impl node_props_t {
    /// A node with all properties zero and no banks, caches or links.
    pub fn new() -> (r: Self)
        ensures
            r.node.is_zero(),
            r.mem@.len() == 0,
            r.cache@.len() == 0,
            r.link@.len() == 0,
    {
        let marketing_name: [u16; 64] = [0; 64];
        let amd_name: [u8; 64] = [0; 64];
        assert(marketing_name@ =~= Seq::new(64, |i: int| 0u16));
        assert(amd_name@ =~= Seq::new(64, |i: int| 0u8));
        Self {
            node: HsaNodeProperties {
                NumCPUCores: 0,
                NumFComputeCores: 0,
                NumNeuralCores: 0,
                NumMemoryBanks: 0,
                NumCaches: 0,
                NumIOLinks: 0,
                CComputeIdLo: 0,
                FComputeIdLo: 0,
                Capability: HSA_CAPABILITY { Value: 0 },
                MaxWavesPerSIMD: 0,
                LDSSizeInKB: 0,
                GDSSizeInKB: 0,
                WaveFrontSize: 0,
                NumShaderBanks: 0,
                NumArrays: 0,
                NumCUPerArray: 0,
                NumSIMDPerCU: 0,
                MaxSlotsScratchCU: 0,
                EngineId: HSA_ENGINE_ID { Value: 0 },
                OverrideEngineId: HSA_ENGINE_ID { Value: 0 },
                VendorId: 0,
                DeviceId: 0,
                LocationId: 0,
                LocalMemSize: 0,
                MaxEngineClockMhzFCompute: 0,
                MaxEngineClockMhzCCompute: 0,
                DrmRenderMinor: 0,
                MarketingName: marketing_name,
                AMDName: amd_name,
                uCodeEngineVersions: HSA_ENGINE_VERSION { Value: 0 },
                DebugProperties: HSA_DEBUG_PROPERTIES { Value: 0 },
                HiveID: 0,
                NumSdmaEngines: 0,
                NumSdmaXgmiEngines: 0,
                NumSdmaQueuesPerEngine: 0,
                NumCpQueues: 0,
                NumGws: 0,
                Integrated: 0,
                Domain: 0,
                UniqueID: 0,
                VGPRSizePerCU: 0,
                SGPRSizePerCU: 0,
                NumXcc: 0,
                KFDGpuID: 0,
                FamilyID: 0,
            },
            mem: Vec::new(),
            cache: Vec::new(),
            link: Vec::new(),
        }
    }
}

impl Default for node_props_t {
    fn default() -> (r: Self)
        ensures
            r.node.is_zero(),
            r.mem@.len() == 0,
            r.cache@.len() == 0,
            r.link@.len() == 0,
    {
        Self::new()
    }
}

} // verus!
