use vstd::prelude::*;
use crate::globals::HsakmtGlobals;
use crate::hsakmttypes::{_HSAKMT_STATUS, _HSAKMT_STATUS_HSAKMT_STATUS_SUCCESS};

verus! {

/// A user-mode queue; buffer locations are plain addresses.
#[derive(Debug)]
pub struct queue {
    queue_id: u32,
    wptr: u64,
    rptr: u64,
    eop_buffer: u64,
    ctx_save_restore: u64,
    ctx_save_restore_size: u32,
    ctl_stack_size: u32,
    debug_memory_size: u32,
    eop_buffer_size: u32,
    total_mem_alloc_size: u32,
    gfxv: u32,
    use_ats: bool,
    unified_ctx_save_restore: bool,
    /// This queue structure is allocated from GPU with page aligned size but only
    /// small bytes are used; the extra space at the end holds the CU mask bits.
    cu_mask_count: u32,
    cu_mask: Vec<u32>,
}

/// The doorbell page of a process on one node; `mapping` is its address.
#[derive(Debug)]
pub struct process_doorbells {
    use_gpuvm: bool,
    size: u32,
    mapping: u64,
}

impl process_doorbells {
    /// Whether the doorbells are not set up yet: no GPUVM use, no size, no mapping.
    pub closed spec fn is_unmapped(self) -> bool {
        !self.use_gpuvm && self.size == 0 && self.mapping == 0
    }
}

/// Calculate VGPR and SGPR register file size per CU.
pub const SGPR_SIZE_PER_CU: usize = 0x4000;

pub const GFX_VERSION_KAVERI: usize = 0x070000;
pub const GFX_VERSION_HAWAII: usize = 0x070001;
pub const GFX_VERSION_CARRIZO: usize = 0x080001;
pub const GFX_VERSION_TONGA: usize = 0x080002;
pub const GFX_VERSION_FIJI: usize = 0x080003;
pub const GFX_VERSION_POLARIS10: usize = 0x080003;
pub const GFX_VERSION_POLARIS11: usize = 0x080003;
pub const GFX_VERSION_POLARIS12: usize = 0x080003;
pub const GFX_VERSION_VEGAM: usize = 0x080003;
pub const GFX_VERSION_VEGA10: usize = 0x090000;
pub const GFX_VERSION_RAVEN: usize = 0x090002;
pub const GFX_VERSION_VEGA12: usize = 0x090004;
pub const GFX_VERSION_VEGA20: usize = 0x090006;
pub const GFX_VERSION_ARCTURUS: usize = 0x090008;
pub const GFX_VERSION_ALDEBARAN: usize = 0x09000A;
pub const GFX_VERSION_AQUA_VANJARAM: usize = 0x090400;
pub const GFX_VERSION_RENOIR: usize = 0x09000C;
pub const GFX_VERSION_NAVI10: usize = 0x0A0100;
pub const GFX_VERSION_NAVI12: usize = 0x0A0101;
pub const GFX_VERSION_NAVI14: usize = 0x0A0102;
pub const GFX_VERSION_CYAN_SKILLFISH: usize = 0x0A0103;
pub const GFX_VERSION_SIENNA_CICHLID: usize = 0x0A0300;
pub const GFX_VERSION_NAVY_FLOUNDER: usize = 0x0A0301;
pub const GFX_VERSION_DIMGREY_CAVEFISH: usize = 0x0A0302;
pub const GFX_VERSION_VANGOGH: usize = 0x0A0303;
pub const GFX_VERSION_BEIGE_GOBY: usize = 0x0A0304;
pub const GFX_VERSION_YELLOW_CARP: usize = 0x0A0305;
pub const GFX_VERSION_PLUM_BONITO: usize = 0x0B0000;
pub const GFX_VERSION_WHEAT_NAS: usize = 0x0B0001;
pub const GFX_VERSION_GFX1200: usize = 0x0C0000;
pub const GFX_VERSION_GFX1201: usize = 0x0C0001;

/// The VGPR register file size per CU of the GFX version `gfxv`: 512 KiB on the
/// Aqua Vanjaram family (any stepping), Aldebaran and Arcturus; 384 KiB on Plum
/// Bonito, Wheat Nas, GFX1200 and GFX1201; 256 KiB elsewhere.
pub open spec fn vgpr_size_per_cu(gfxv: u32) -> u32 {
    if (gfxv & !0xffu32) == 0x090400 || gfxv == 0x09000A || gfxv == 0x090008 {
        0x80000
    } else if gfxv == 0x0B0000 || gfxv == 0x0B0001 || gfxv == 0x0C0000 || gfxv == 0x0C0001 {
        0x60000
    } else {
        0x40000
    }
}

/// The VGPR size table by value: 512 KiB for every Aqua Vanjaram stepping
/// (0x090400 to 0x0904FF), Aldebaran (0x09000A) and Arcturus (0x090008); 384 KiB for
/// Plum Bonito (0x0B0000), Wheat Nas (0x0B0001), GFX1200 (0x0C0000) and GFX1201
/// (0x0C0001); 256 KiB for every other version.
pub proof fn lemma_vgpr_size_table(gfxv: u32)
    ensures
        (0x090400 <= gfxv <= 0x0904FF || gfxv == 0x09000A || gfxv == 0x090008)
            ==> vgpr_size_per_cu(gfxv) == 0x80000,
        (gfxv == 0x0C0000 || gfxv == 0x0C0001 || gfxv == 0x0B0000 || gfxv == 0x0B0001)
            ==> vgpr_size_per_cu(gfxv) == 0x60000,
        !(0x090400 <= gfxv <= 0x0904FF || gfxv == 0x09000A || gfxv == 0x090008 || gfxv == 0x0C0000
            || gfxv == 0x0C0001 || gfxv == 0x0B0000 || gfxv == 0x0B0001)
            ==> vgpr_size_per_cu(gfxv) == 0x40000,
{
    assert(((gfxv & !0xffu32) == 0x090400) == (0x090400 <= gfxv && gfxv <= 0x0904FF))
        by (bit_vector);
}

/// The VGPR register file size per CU of the GFX version `gfxv`.
pub fn hsakmt_get_vgpr_size_per_cu(gfxv: u32) -> (r: u32)
    ensures
        r == vgpr_size_per_cu(gfxv),
        r == 0x40000 || r == 0x60000 || r == 0x80000,
        (0x090400 <= gfxv <= 0x0904FF || gfxv == 0x09000A || gfxv == 0x090008) ==> r == 0x80000,
        (gfxv == 0x0C0000 || gfxv == 0x0C0001 || gfxv == 0x0B0000 || gfxv == 0x0B0001) ==> r
            == 0x60000,
        !(0x090400 <= gfxv <= 0x0904FF || gfxv == 0x09000A || gfxv == 0x090008 || gfxv == 0x0C0000
            || gfxv == 0x0C0001 || gfxv == 0x0B0000 || gfxv == 0x0B0001) ==> r == 0x40000,
{
    proof {
        lemma_vgpr_size_table(gfxv);
    }
    let mut vgpr_size: u32 = 0x40000;

    if (gfxv & !0xff) == GFX_VERSION_AQUA_VANJARAM as u32
        || gfxv == GFX_VERSION_ALDEBARAN as u32
        || gfxv == GFX_VERSION_ARCTURUS as u32
    {
        vgpr_size = 0x80000;
    } else if gfxv == GFX_VERSION_PLUM_BONITO as u32
        || gfxv == GFX_VERSION_WHEAT_NAS as u32
        || gfxv == GFX_VERSION_GFX1200 as u32
        || gfxv == GFX_VERSION_GFX1201 as u32
    {
        vgpr_size = 0x60000;
    }

    vgpr_size
}

impl HsakmtGlobals {
    /// Adds one unmapped doorbell entry per node (they are indexed by topology node
    /// id, so entry 0, the CPU-only node, may stay unused) and records the count.
    pub fn hsakmt_init_process_doorbells(&mut self, NumNodes: u32) -> (r: _HSAKMT_STATUS)
        ensures
            r == _HSAKMT_STATUS_HSAKMT_STATUS_SUCCESS,
            final(self).queue.num_doorbells == NumNodes,
            final(self).queue.doorbells@.len() == old(self).queue.doorbells@.len() + NumNodes,
            forall|i: int| 0 <= i < old(self).queue.doorbells@.len()
                ==> #[trigger] final(self).queue.doorbells@[i] == old(self).queue.doorbells@[i],
            forall|i: int| old(self).queue.doorbells@.len() <= i < final(self).queue.doorbells@.len()
                ==> #[trigger] final(self).queue.doorbells@[i].is_unmapped(),
            *final(self) == (HsakmtGlobals { queue: final(self).queue, ..*old(self) }),
    {
        let ghost start = self.queue.doorbells@;
        let mut k: u32 = 0;
        while k < NumNodes
            invariant
                0 <= k <= NumNodes,
                self.queue.doorbells@.len() == start.len() + k,
                forall|i: int| 0 <= i < start.len() ==> #[trigger] self.queue.doorbells@[i] == start[i],
                forall|i: int| start.len() <= i < self.queue.doorbells@.len()
                    ==> #[trigger] self.queue.doorbells@[i].is_unmapped(),
                self.queue.num_doorbells == old(self).queue.num_doorbells,
                start == old(self).queue.doorbells@,
                *self == (HsakmtGlobals { queue: self.queue, ..*old(self) }),
            decreases NumNodes - k,
        {
            let p = process_doorbells { use_gpuvm: false, size: 0, mapping: 0 };
            self.queue.doorbells.push(p);
            k = k + 1;
        }

        self.queue.num_doorbells = NumNodes;

        _HSAKMT_STATUS_HSAKMT_STATUS_SUCCESS
    }
}

} // verus!
