use zircon_nt10::arch::cet::{probe_cet_stub, shadow_stack_supported, CetProbeResult};
use zircon_nt10::arch::paging::{pte_with_nx, PTE_NX};
use zircon_nt10::arch::nt_syscall_stubs::{
    register_nt_syscall_stubs_bringup, sc_not_implemented, sc_nt_terminate_process_bringup, sc_success,
    NtLocalNumbers, NT10_22H2_NT_ALLOCATE_VIRTUAL_MEMORY, NT10_22H2_NT_CLOSE, NT10_22H2_NT_QUERY_SYSTEM_TIME,
    NT10_22H2_NT_READ_FILE, NT10_22H2_NT_TERMINATE_PROCESS, STATUS_NOT_IMPLEMENTED, STATUS_SUCCESS,
};
use zircon_nt10::arch::syscall::{
    zr_syscall_dispatch, zr_syscall_register, SyscallTable, SYSCALL_TABLE_LEN,
    ZR_STATUS_INVALID_PARAMETER, ZR_STATUS_NOT_IMPLEMENTED,
};
use zircon_nt10::arch::syscall_abi::{
    nt10_register_args, plan_user_syscall, unpack_six_legacy, user_canonical_va_ok,
    zr_syscall_x64_unpack_get, zr_syscall_x64_unpack_set, SyscallUnpackSetting,
    SyscallX64Unpack, UserSyscallPlan, STATUS_INVALID_PARAMETER_I32, ZR_UEFI_R3_PROBE_SYSCALL,
    ZR_USER_VA_PROBE_SYSCALL,
};
use zircon_nt10::arch::tlb::{
    remote_shootdown_acks, shootdown_pages, smp_online_cpu_count, smp_set_online_cpu_count,
    SmpTlbState,
};

#[test]
fn legacy_ignores_r9_for_sixth_slot() {
    let s = [1, 2, 3, 4, 5, 99, 0, 0, 0];
    let (a1, a2, a3, a4, a5, a6) = unpack_six_legacy(&s);
    assert_eq!((a1, a2, a3, a4, a5, a6), (1, 2, 3, 4, 5, 0));
}

#[test]
fn nt10_register_args_reorder_and_stack() {
    let s = [0u64, 0, 2, 10, 3, 4, 0, 0, 0x7000];
    assert_eq!(nt10_register_args(&s), Ok((10, 2, 3, 4, 0x7000)));
    let bad = [0u64, 0, 2, 10, 3, 4, 0, 0, 0xFFFF_8000_0000_0000];
    assert_eq!(nt10_register_args(&bad), Err(STATUS_INVALID_PARAMETER_I32));
}

#[test]
fn unpack_mode_set_get() {
    let mut setting = SyscallUnpackSetting { raw: 0 };
    assert_eq!(zr_syscall_x64_unpack_get(&setting), SyscallX64Unpack::LegacyZircon);
    zr_syscall_x64_unpack_set(&mut setting, SyscallX64Unpack::Nt10X64);
    assert_eq!(zr_syscall_x64_unpack_get(&setting), SyscallX64Unpack::Nt10X64);
    zr_syscall_x64_unpack_set(&mut setting, SyscallX64Unpack::LegacyZircon);
    assert_eq!(zr_syscall_x64_unpack_get(&setting), SyscallX64Unpack::LegacyZircon);
    let odd = SyscallUnpackSetting { raw: 7 };
    assert_eq!(zr_syscall_x64_unpack_get(&odd), SyscallX64Unpack::LegacyZircon);
    assert_eq!(SyscallX64Unpack::from_u8(1), Some(SyscallX64Unpack::Nt10X64));
    assert_eq!(SyscallX64Unpack::from_u8(2), None);
    assert_eq!(SyscallX64Unpack::Nt10X64.to_u8(), 1);
}

#[test]
fn canonical_user_va_boundary() {
    assert!(user_canonical_va_ok(0));
    assert!(user_canonical_va_ok(0x0000_7FFF_FFFF_FFFF));
    assert!(!user_canonical_va_ok(0x0000_8000_0000_0000));
}

#[test]
fn plan_routes_probes_and_modes() {
    let s = [1u64, 2, 3, 4, 5, 6, 7, 8, 0x1000];
    assert_eq!(
        plan_user_syscall(ZR_UEFI_R3_PROBE_SYSCALL, &s, SyscallX64Unpack::LegacyZircon),
        UserSyscallPlan::Return { status: 0, probe: true }
    );
    assert_eq!(
        plan_user_syscall(ZR_USER_VA_PROBE_SYSCALL, &s, SyscallX64Unpack::LegacyZircon),
        UserSyscallPlan::Return { status: 0, probe: true }
    );
    let k = [0xFFFF_8000_0000_0000u64, 0, 0, 0, 0, 0, 0, 0, 0];
    assert_eq!(
        plan_user_syscall(ZR_USER_VA_PROBE_SYSCALL, &k, SyscallX64Unpack::LegacyZircon),
        UserSyscallPlan::Return { status: ZR_STATUS_NOT_IMPLEMENTED as i64, probe: false }
    );
    assert_eq!(
        plan_user_syscall(0x1_0000, &s, SyscallX64Unpack::LegacyZircon),
        UserSyscallPlan::Return { status: ZR_STATUS_NOT_IMPLEMENTED as i64, probe: false }
    );
    assert_eq!(
        plan_user_syscall(7, &s, SyscallX64Unpack::LegacyZircon),
        UserSyscallPlan::Dispatch { index: 7, args: (1, 2, 3, 4, 5, 0) }
    );
    assert_eq!(
        plan_user_syscall(7, &s, SyscallX64Unpack::Nt10X64),
        UserSyscallPlan::DispatchWithStack { index: 7, regs: (4, 3, 5, 6), user_rsp: 0x1000 }
    );
    let bad_rsp = [0u64, 0, 0, 0, 0, 0, 0, 0, 0xFFFF_8000_0000_0000];
    assert_eq!(
        plan_user_syscall(7, &bad_rsp, SyscallX64Unpack::Nt10X64),
        UserSyscallPlan::Return { status: STATUS_INVALID_PARAMETER_I32 as i64, probe: false }
    );
}

fn add_all(a: u64, b: u64, c: u64, d: u64, e: u64, f: u64) -> i32 {
    (a + b + c + d + e + f) as i32
}

#[test]
fn syscall_table_register_and_dispatch() {
    let mut t: SyscallTable<fn(u64, u64, u64, u64, u64, u64) -> i32> = SyscallTable::new();
    assert_eq!(t.entries.len(), SYSCALL_TABLE_LEN);
    assert_eq!(t.dispatch(3, 1, 1, 1, 1, 1, 1), ZR_STATUS_NOT_IMPLEMENTED);
    assert!(t.register(3, add_all).is_ok());
    assert_eq!(t.dispatch(3, 1, 2, 3, 4, 5, 6), 21);
    assert!(t.register(SYSCALL_TABLE_LEN as u16, add_all).is_err());
    assert_eq!(t.dispatch(SYSCALL_TABLE_LEN as u16, 0, 0, 0, 0, 0, 0), ZR_STATUS_INVALID_PARAMETER);
}

#[test]
fn tlb_shootdown_pages_and_acks() {
    assert!(shootdown_pages(0x2000, 0x2000).is_empty());
    assert_eq!(shootdown_pages(0x1234, 0x3001), vec![0x1000, 0x2000, 0x3000]);
    assert_eq!(shootdown_pages(0x1000, 0x2000), vec![0x1000]);
    let top = shootdown_pages(u64::MAX - 10, u64::MAX);
    assert_eq!(top, vec![u64::MAX & !0xFFF]);
    let mut st = SmpTlbState::new();
    assert_eq!(smp_online_cpu_count(&st), 1);
    assert_eq!(remote_shootdown_acks(&st), None);
    smp_set_online_cpu_count(&mut st, 4);
    assert_eq!(smp_online_cpu_count(&st), 4);
    assert_eq!(remote_shootdown_acks(&st), Some(3));
    smp_set_online_cpu_count(&mut st, 0);
    assert_eq!(smp_online_cpu_count(&st), 1);
}

#[test]
fn pte_nx_bit() {
    assert_eq!(pte_with_nx(0x1003, true), 0x1003 | PTE_NX);
    assert_eq!(pte_with_nx(0x1003 | PTE_NX, false), 0x1003);
    assert_eq!(pte_with_nx(0, false), 0);
}

#[test]
fn cet_probe_reports_nothing() {
    assert_eq!(probe_cet_stub(), CetProbeResult::unavailable());
    assert!(!shadow_stack_supported());
    assert!(!probe_cet_stub().indirect_branch_tracking_supported);
}

#[test]
fn kernel_syscall_table_functions() {
    let mut t: SyscallTable<fn(u64, u64, u64, u64, u64, u64) -> i32> = SyscallTable::empty();
    assert!(zr_syscall_register(&mut t, 511, add_all).is_ok());
    assert_eq!(zr_syscall_dispatch(&t, 511, 1, 1, 1, 1, 1, 1), 6);
    assert_eq!(zr_syscall_dispatch(&t, 510, 1, 1, 1, 1, 1, 1), ZR_STATUS_NOT_IMPLEMENTED);
    assert!(zr_syscall_register(&mut t, 512, add_all).is_err());
}

type NtHandler = fn(u64, u64, u64, u64, u64, u64) -> i32;

#[test]
fn nt_bringup_stubs_register_both_numberings() {
    let ni: NtHandler = sc_not_implemented;
    let ok: NtHandler = sc_success;
    let term: NtHandler = sc_nt_terminate_process_bringup;
    let alloc: NtHandler = |_, _, _, _, _, _| 0x107;
    let numbers = NtLocalNumbers {
        terminate_process: 0x100,
        read_file: 0x101,
        write_file: 0x102,
        create_file: 0x103,
        allocate_virtual_memory: 0x104,
        output_debug_string: 0x105,
        query_system_time: 600,
    };
    let mut t: SyscallTable<NtHandler> = SyscallTable::empty();
    register_nt_syscall_stubs_bringup(&mut t, &numbers, ni, ok, term, alloc);
    assert_eq!(zr_syscall_dispatch(&t, 0x100, 1, 2, 3, 4, 5, 6), STATUS_SUCCESS);
    assert_eq!(zr_syscall_dispatch(&t, 0x101, 0, 0, 0, 0, 0, 0), STATUS_NOT_IMPLEMENTED);
    assert_eq!(zr_syscall_dispatch(&t, 0x104, 0, 0, 0, 0, 0, 0), 0x107);
    // a local number beyond the table is skipped
    assert_eq!(zr_syscall_dispatch(&t, 600, 0, 0, 0, 0, 0, 0), ZR_STATUS_INVALID_PARAMETER);
    assert_eq!(zr_syscall_dispatch(&t, NT10_22H2_NT_CLOSE, 0, 0, 0, 0, 0, 0), STATUS_SUCCESS);
    assert_eq!(zr_syscall_dispatch(&t, NT10_22H2_NT_READ_FILE, 0, 0, 0, 0, 0, 0), STATUS_NOT_IMPLEMENTED);
    assert_eq!(zr_syscall_dispatch(&t, NT10_22H2_NT_ALLOCATE_VIRTUAL_MEMORY, 0, 0, 0, 0, 0, 0), 0x107);
    assert_eq!(zr_syscall_dispatch(&t, NT10_22H2_NT_TERMINATE_PROCESS, 0, 0, 0, 0, 0, 0), STATUS_SUCCESS);
    assert_eq!(zr_syscall_dispatch(&t, NT10_22H2_NT_QUERY_SYSTEM_TIME, 0, 0, 0, 0, 0, 0), STATUS_SUCCESS);
    // untouched slots stay empty
    assert_eq!(zr_syscall_dispatch(&t, 7, 0, 0, 0, 0, 0, 0), STATUS_NOT_IMPLEMENTED);
    assert_eq!(zr_syscall_dispatch(&t, 16, 0, 0, 0, 0, 0, 0), ZR_STATUS_NOT_IMPLEMENTED);
}
