//! Control-flow Enforcement Technology feature probing.
use vstd::prelude::*;

verus! {

/// CPU / MSR capability snapshot.
#[derive(Clone, Copy, Debug, PartialEq, Eq, Structural)]
pub struct CetProbeResult {
    pub shadow_stack_supported: bool,
    pub indirect_branch_tracking_supported: bool,
    pub shadow_stack_enabled_in_hw: bool,
}

impl CetProbeResult {
    /// No CET feature available.
    pub fn unavailable() -> (r: Self)
        ensures
            !r.shadow_stack_supported,
            !r.indirect_branch_tracking_supported,
            !r.shadow_stack_enabled_in_hw,
    {
        CetProbeResult {
            shadow_stack_supported: false,
            indirect_branch_tracking_supported: false,
            shadow_stack_enabled_in_hw: false,
        }
    }
}

/// Probe result; real CPUID / MSR probes are not wired, so nothing is reported available.
pub fn probe_cet_stub() -> (r: CetProbeResult)
    ensures
        r == (CetProbeResult {
            shadow_stack_supported: false,
            indirect_branch_tracking_supported: false,
            shadow_stack_enabled_in_hw: false,
        }),
{
    CetProbeResult::unavailable()
}

/// Whether shadow stacks are supported (per the probe above).
pub fn shadow_stack_supported() -> (r: bool)
    ensures
        !r,
{
    probe_cet_stub().shadow_stack_supported
}

} // verus!
