use vstd::prelude::*;

verus! {

/// Which diagnostic output channels are enabled.
#[derive(Debug, PartialEq, Eq, Structural, Clone, Copy)]
pub enum DebugMode {
    All,
    Silent,
    Topology,
    Fmm,
}

/// The diagnostic mode the library is built with.
pub const CURRENT: DebugMode = DebugMode::Silent;

/// Whether topology diagnostics are printed.
pub fn debug_topology_println() -> (r: bool)
    ensures
        r == (CURRENT == DebugMode::All || CURRENT == DebugMode::Topology),
{
    CURRENT == DebugMode::All || CURRENT == DebugMode::Topology
}

/// Whether memory-manager diagnostics are printed.
pub fn debug_fmm_println() -> (r: bool)
    ensures
        r == (CURRENT == DebugMode::All || CURRENT == DebugMode::Fmm),
{
    CURRENT == DebugMode::All || CURRENT == DebugMode::Fmm
}

} // verus!
