//! Verified core of the ZirconOS NT10 boot manager and kernel desktop: boot policy parsing,
//! ALPC mailboxes, syscall plumbing and Fluent shell state.
use vstd::prelude::*;

pub mod alpc;
pub mod arch;
pub mod boot;
pub mod boot_protocol;
pub mod desktop;

verus! {

} // verus!
