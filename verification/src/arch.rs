//! x86_64 architecture support: CET probing, page-table entry bits, the syscall table and
//! guest register unpacking, and TLB shootdown planning.

pub mod cet;
pub mod nt_syscall_stubs;
pub mod paging;
pub mod syscall;
pub mod syscall_abi;
pub mod tlb;
