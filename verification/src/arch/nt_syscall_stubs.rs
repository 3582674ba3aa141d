//! Bring-up `Nt*` syscall handlers and their registration at two numberings: the local
//! ntdll numbers and the Windows 10 22H2 x64 service indices.
use vstd::prelude::*;

use crate::arch::syscall::{after_registrations, zr_syscall_register, SyscallTable, SYSCALL_TABLE_LEN};

verus! {

/// `STATUS_NOT_IMPLEMENTED`.
pub const STATUS_NOT_IMPLEMENTED: i32 = -1_073_741_822;
/// `STATUS_SUCCESS`.
pub const STATUS_SUCCESS: i32 = 0;

/// `NtReadFile` on Windows 10 22H2.
pub const NT10_22H2_NT_READ_FILE: u16 = 6;
/// `NtWriteFile` on Windows 10 22H2.
pub const NT10_22H2_NT_WRITE_FILE: u16 = 8;
/// `NtClose` on Windows 10 22H2.
pub const NT10_22H2_NT_CLOSE: u16 = 15;
/// `NtAllocateVirtualMemory` on Windows 10 22H2.
pub const NT10_22H2_NT_ALLOCATE_VIRTUAL_MEMORY: u16 = 24;
/// `NtFreeVirtualMemory` on Windows 10 22H2.
pub const NT10_22H2_NT_FREE_VIRTUAL_MEMORY: u16 = 30;
/// `NtTerminateProcess` on Windows 10 22H2.
pub const NT10_22H2_NT_TERMINATE_PROCESS: u16 = 44;
/// `NtCreateFile` on Windows 10 22H2.
pub const NT10_22H2_NT_CREATE_FILE: u16 = 85;
/// `NtProtectVirtualMemory` on Windows 10 22H2.
pub const NT10_22H2_NT_PROTECT_VIRTUAL_MEMORY: u16 = 80;
/// `NtQuerySystemTime` on Windows 10 22H2.
pub const NT10_22H2_NT_QUERY_SYSTEM_TIME: u16 = 90;

/// The local ntdll syscall numbers of the services that get a bring-up handler, as
/// table slots.
#[derive(Clone, Copy, Debug)]
pub struct NtLocalNumbers {
    pub terminate_process: u16,
    pub read_file: u16,
    pub write_file: u16,
    pub create_file: u16,
    pub allocate_virtual_memory: u16,
    pub output_debug_string: u16,
    pub query_system_time: u16,
}

/// Handler for services that are not implemented yet: leaves the arguments alone.
pub fn sc_not_implemented(a1: u64, a2: u64, a3: u64, a4: u64, a5: u64, a6: u64) -> (r: i32)
    ensures
        r == STATUS_NOT_IMPLEMENTED,
{
    STATUS_NOT_IMPLEMENTED
}

/// Handler for services that succeed without doing anything yet.
pub fn sc_success(a1: u64, a2: u64, a3: u64, a4: u64, a5: u64, a6: u64) -> (r: i32)
    ensures
        r == STATUS_SUCCESS,
{
    STATUS_SUCCESS
}

/// Bring-up `NtTerminateProcess`: reports success.
pub fn sc_nt_terminate_process_bringup(a1: u64, a2: u64, a3: u64, a4: u64, a5: u64, a6: u64) -> (r: i32)
    ensures
        r == STATUS_SUCCESS,
{
    STATUS_SUCCESS
}

/// The registrations of the bring-up, in order: the local numbers first, then the
/// Windows 10 22H2 indices; `ni` answers not-implemented, `ok` success, `term` and
/// `alloc` stand for process termination and virtual-memory allocation.
pub open spec fn nt_bringup_registrations<F>(n: NtLocalNumbers, ni: F, ok: F, term: F, alloc: F) -> Seq<(u16, F)> {
    seq![
        (n.terminate_process, term),
        (n.read_file, ni),
        (n.write_file, ni),
        (n.create_file, ni),
        (n.allocate_virtual_memory, alloc),
        (n.output_debug_string, ni),
        (n.query_system_time, ok),
        (NT10_22H2_NT_TERMINATE_PROCESS, term),
        (NT10_22H2_NT_READ_FILE, ni),
        (NT10_22H2_NT_WRITE_FILE, ni),
        (NT10_22H2_NT_CLOSE, ok),
        (NT10_22H2_NT_ALLOCATE_VIRTUAL_MEMORY, alloc),
        (NT10_22H2_NT_FREE_VIRTUAL_MEMORY, ni),
        (NT10_22H2_NT_CREATE_FILE, ni),
        (NT10_22H2_NT_PROTECT_VIRTUAL_MEMORY, ni),
        (NT10_22H2_NT_QUERY_SYSTEM_TIME, ok),
    ]
}

/// Register the bring-up handlers at the local numbers and at their Windows 10 22H2
/// aliases. A number beyond the table is skipped; a later registration at a slot replaces
/// an earlier one.
pub fn register_nt_syscall_stubs_bringup<F: Fn(u64, u64, u64, u64, u64, u64) -> i32 + Copy>(
    table: &mut SyscallTable<F>,
    numbers: &NtLocalNumbers,
    ni: F,
    ok: F,
    term: F,
    alloc: F,
)
    requires
        old(table).wf(),
    ensures
        final(table).wf(),
        final(table).entries@ == after_registrations(
            old(table).entries@,
            nt_bringup_registrations(*numbers, ni, ok, term, alloc),
        ),
{
    let n = *numbers;
    let mut regs: Vec<(u16, F)> = Vec::new();
    regs.push((n.terminate_process, term));
    regs.push((n.read_file, ni));
    regs.push((n.write_file, ni));
    regs.push((n.create_file, ni));
    regs.push((n.allocate_virtual_memory, alloc));
    regs.push((n.output_debug_string, ni));
    regs.push((n.query_system_time, ok));
    regs.push((NT10_22H2_NT_TERMINATE_PROCESS, term));
    regs.push((NT10_22H2_NT_READ_FILE, ni));
    regs.push((NT10_22H2_NT_WRITE_FILE, ni));
    regs.push((NT10_22H2_NT_CLOSE, ok));
    regs.push((NT10_22H2_NT_ALLOCATE_VIRTUAL_MEMORY, alloc));
    regs.push((NT10_22H2_NT_FREE_VIRTUAL_MEMORY, ni));
    regs.push((NT10_22H2_NT_CREATE_FILE, ni));
    regs.push((NT10_22H2_NT_PROTECT_VIRTUAL_MEMORY, ni));
    regs.push((NT10_22H2_NT_QUERY_SYSTEM_TIME, ok));
    let ghost all = nt_bringup_registrations(n, ni, ok, term, alloc);
    assert(regs@ =~= all);
    let ghost e0 = table.entries@;
    assert(all.take(0) =~= Seq::<(u16, F)>::empty());
    let mut i: usize = 0;
    while i < regs.len()
        invariant
            i <= regs@.len(),
            regs@ == all,
            table.wf(),
            table.entries@ == after_registrations(e0, all.take(i as int)),
        decreases regs@.len() - i,
    {
        let (idx, h) = regs[i];
        let _ = zr_syscall_register(table, idx, h);
        assert(all.take(i + 1).drop_last() =~= all.take(i as int));
        assert(all.take(i + 1).last() == all[i as int]);
        i = i + 1;
    }
    assert(all.take(regs@.len() as int) =~= all);
}

proof fn lemma_registrations_keep_len<F>(e: Seq<Option<F>>, regs: Seq<(u16, F)>)
    requires
        e.len() == SYSCALL_TABLE_LEN,
    ensures
        after_registrations(e, regs).len() == e.len(),
    decreases regs.len(),
{
    if regs.len() > 0 {
        lemma_registrations_keep_len(e, regs.drop_last());
    }
}

/// The last registration at a slot decides what the slot holds.
proof fn lemma_last_registration_wins<F>(e: Seq<Option<F>>, regs: Seq<(u16, F)>, k: int)
    requires
        e.len() == SYSCALL_TABLE_LEN,
        0 <= k < regs.len(),
        (regs[k].0 as int) < SYSCALL_TABLE_LEN,
        forall|j: int| k < j < regs.len() ==> (#[trigger] regs[j]).0 != regs[k].0,
    ensures
        after_registrations(e, regs)[regs[k].0 as int] == Some(regs[k].1),
    decreases regs.len(),
{
    let init = regs.drop_last();
    lemma_registrations_keep_len(e, init);
    if k < regs.len() - 1 {
        assert(regs[regs.len() - 1].0 != regs[k].0);
        assert forall|j: int| k < j < init.len() implies (#[trigger] init[j]).0 != init[k].0 by {
            assert(init[j] == regs[j]);
        }
        assert(init[k] == regs[k]);
        lemma_last_registration_wins(e, init, k);
    }
}

/// After the bring-up registration each Windows 10 22H2 service index runs its own
/// service's handler, whatever the local numbers: NtTerminateProcess (44) `term`,
/// NtAllocateVirtualMemory (24) `alloc`, NtClose (15) and NtQuerySystemTime (90) `ok`, and
/// NtReadFile (6), NtWriteFile (8), NtFreeVirtualMemory (30), NtProtectVirtualMemory (80)
/// and NtCreateFile (85) the not-implemented handler `ni`.
pub proof fn lemma_bringup_22h2_services<F>(e: Seq<Option<F>>, n: NtLocalNumbers, ni: F, ok: F, term: F, alloc: F)
    requires
        e.len() == SYSCALL_TABLE_LEN,
    ensures
        after_registrations(e, nt_bringup_registrations(n, ni, ok, term, alloc))[44] == Some(term),
        after_registrations(e, nt_bringup_registrations(n, ni, ok, term, alloc))[24] == Some(alloc),
        after_registrations(e, nt_bringup_registrations(n, ni, ok, term, alloc))[15] == Some(ok),
        after_registrations(e, nt_bringup_registrations(n, ni, ok, term, alloc))[90] == Some(ok),
        after_registrations(e, nt_bringup_registrations(n, ni, ok, term, alloc))[6] == Some(ni),
        after_registrations(e, nt_bringup_registrations(n, ni, ok, term, alloc))[8] == Some(ni),
        after_registrations(e, nt_bringup_registrations(n, ni, ok, term, alloc))[30] == Some(ni),
        after_registrations(e, nt_bringup_registrations(n, ni, ok, term, alloc))[80] == Some(ni),
        after_registrations(e, nt_bringup_registrations(n, ni, ok, term, alloc))[85] == Some(ni),
{
    let r = nt_bringup_registrations(n, ni, ok, term, alloc);
    assert(r.len() == 16);
    assert(r[7] == (44u16, term) && r[8] == (6u16, ni) && r[9] == (8u16, ni) && r[10] == (15u16, ok));
    assert(r[11] == (24u16, alloc) && r[12] == (30u16, ni) && r[13] == (85u16, ni) && r[14] == (80u16, ni));
    assert(r[15] == (90u16, ok));
    assert forall|k: int, j: int| 7 <= k < j < 16 implies (#[trigger] r[j]).0 != (#[trigger] r[k]).0 by {
        assert(j == 8 || j == 9 || j == 10 || j == 11 || j == 12 || j == 13 || j == 14 || j == 15);
        assert(k == 7 || k == 8 || k == 9 || k == 10 || k == 11 || k == 12 || k == 13 || k == 14);
    }
    lemma_last_registration_wins(e, r, 7);
    lemma_last_registration_wins(e, r, 8);
    lemma_last_registration_wins(e, r, 9);
    lemma_last_registration_wins(e, r, 10);
    lemma_last_registration_wins(e, r, 11);
    lemma_last_registration_wins(e, r, 12);
    lemma_last_registration_wins(e, r, 13);
    lemma_last_registration_wins(e, r, 14);
    lemma_last_registration_wins(e, r, 15);
}


/// The local numbers in registration order.
pub open spec fn local_numbers_seq(n: NtLocalNumbers) -> Seq<u16> {
    seq![
        n.terminate_process,
        n.read_file,
        n.write_file,
        n.create_file,
        n.allocate_virtual_memory,
        n.output_debug_string,
        n.query_system_time,
    ]
}

/// The local numbers are distinct table slots, apart from the Windows 10 22H2 indices.
pub open spec fn local_numbers_apart(n: NtLocalNumbers) -> bool {
    let l = local_numbers_seq(n);
    &&& forall|i: int, j: int| 0 <= i < j < 7 ==> l[i] != l[j]
    &&& forall|i: int| #![trigger l[i]] 0 <= i < 7 ==> (l[i] as int) < SYSCALL_TABLE_LEN && l[i] != 6 && l[i] != 8
        && l[i] != 15 && l[i] != 24 && l[i] != 30 && l[i] != 44 && l[i] != 80 && l[i] != 85 && l[i] != 90
}

/// When the local numbers are distinct slots apart from the 22H2 indices, each local
/// number runs its own service's handler after the bring-up registration: process
/// termination `term`, virtual-memory allocation `alloc`, system time `ok`, and reading,
/// writing, creating files and debug output the not-implemented handler `ni`.
pub proof fn lemma_bringup_local_services<F>(e: Seq<Option<F>>, n: NtLocalNumbers, ni: F, ok: F, term: F, alloc: F)
    requires
        e.len() == SYSCALL_TABLE_LEN,
        local_numbers_apart(n),
    ensures
        after_registrations(e, nt_bringup_registrations(n, ni, ok, term, alloc))[n.terminate_process as int] == Some(term),
        after_registrations(e, nt_bringup_registrations(n, ni, ok, term, alloc))[n.read_file as int] == Some(ni),
        after_registrations(e, nt_bringup_registrations(n, ni, ok, term, alloc))[n.write_file as int] == Some(ni),
        after_registrations(e, nt_bringup_registrations(n, ni, ok, term, alloc))[n.create_file as int] == Some(ni),
        after_registrations(e, nt_bringup_registrations(n, ni, ok, term, alloc))[n.allocate_virtual_memory as int] == Some(alloc),
        after_registrations(e, nt_bringup_registrations(n, ni, ok, term, alloc))[n.output_debug_string as int] == Some(ni),
        after_registrations(e, nt_bringup_registrations(n, ni, ok, term, alloc))[n.query_system_time as int] == Some(ok),
{
    let r = nt_bringup_registrations(n, ni, ok, term, alloc);
    let l = local_numbers_seq(n);
    assert(r.len() == 16);
    assert forall|j: int| 0 <= j < 7 implies (#[trigger] r[j]).0 == l[j] by {
        assert(j == 0 || j == 1 || j == 2 || j == 3 || j == 4 || j == 5 || j == 6);
    }
    assert(r[7].0 == 44u16 && r[8].0 == 6u16 && r[9].0 == 8u16 && r[10].0 == 15u16 && r[11].0 == 24u16);
    assert(r[12].0 == 30u16 && r[13].0 == 85u16 && r[14].0 == 80u16 && r[15].0 == 90u16);
    assert forall|k: int, j: int| 0 <= k < 7 && k < j < 16 implies (#[trigger] r[j]).0 != (#[trigger] r[k]).0 by {
        assert(r[k].0 == l[k]);
        if j < 7 {
            assert(r[j].0 == l[j]);
        } else {
            assert(j == 7 || j == 8 || j == 9 || j == 10 || j == 11 || j == 12 || j == 13 || j == 14 || j == 15);
        }
    }
    assert(r[0].1 == term && r[1].1 == ni && r[2].1 == ni && r[3].1 == ni);
    assert(r[4].1 == alloc && r[5].1 == ni && r[6].1 == ok);
    assert((l[0] as int) < SYSCALL_TABLE_LEN && (l[1] as int) < SYSCALL_TABLE_LEN && (l[2] as int) < SYSCALL_TABLE_LEN);
    assert((l[3] as int) < SYSCALL_TABLE_LEN && (l[4] as int) < SYSCALL_TABLE_LEN && (l[5] as int) < SYSCALL_TABLE_LEN);
    assert((l[6] as int) < SYSCALL_TABLE_LEN);
    lemma_last_registration_wins(e, r, 0);
    lemma_last_registration_wins(e, r, 1);
    lemma_last_registration_wins(e, r, 2);
    lemma_last_registration_wins(e, r, 3);
    lemma_last_registration_wins(e, r, 4);
    lemma_last_registration_wins(e, r, 5);
    lemma_last_registration_wins(e, r, 6);
}


} // verus!
