//! Bring-up hooks for handing a spawned csrss its ALPC port.
use vstd::prelude::*;
use crate::alpc::cross_proc::ProcessId;

verus! {

/// Length of the UTF-8 port path reserved for the csrss API object.
pub const ZR_ALPC_CSRSS_API_PORT_UTF8_LEN: usize = 27;

/// UTF-8 port path reserved for the csrss API object (documented name only).
pub fn zr_alpc_csrss_api_port_utf8() -> (path: &'static str)
    ensures
        path@ == "\\RPC Control\\ZrNt10CsrssApi"@,
{
    "\\RPC Control\\ZrNt10CsrssApi"
}

/// Placeholder: the smss to csrss handoff is not wired yet, so every request is refused.
pub fn try_alpc_handoff_csrss_spawn_stub(_from_smss: ProcessId, _image_hint: u32) -> (r: Result<(), ()>)
    ensures
        r is Err,
{
    Err(())
}

} // verus!
