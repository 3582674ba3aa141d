//! Cross-session ALPC rules: Session 0 versus interactive session isolation.
use vstd::prelude::*;

verus! {

/// Port created only for session 0 / system callers.
pub const PORT_FLAGS_SYSTEM_ONLY: u32 = 0x0000_0001;
/// Port accepts any session.
pub const PORT_FLAGS_ANY_SESSION: u32 = 0x0000_0002;

/// Whether a client in `client_session_id` may connect to a port with `port_flags`.
pub open spec fn connection_allowed(port_flags: u32, client_session_id: u32) -> bool {
    !((port_flags & PORT_FLAGS_SYSTEM_ONLY) != 0 && client_session_id != 0)
}

/// Returns `false` when `port_flags` requires the system session and `client_session_id != 0`.
pub fn alpc_allow_connection(port_flags: u32, client_session_id: u32) -> (allowed: bool)
    ensures
        allowed == connection_allowed(port_flags, client_session_id),
{
    if port_flags & PORT_FLAGS_SYSTEM_ONLY != 0 && client_session_id != 0 {
        return false;
    }
    true
}

} // verus!
