//! Guest register layout at the syscall entry and the two argument-unpacking conventions.
use vstd::prelude::*;
use crate::arch::syscall::ZR_STATUS_NOT_IMPLEMENTED;

verus! {

/// How saved guest registers map to the six syscall arguments.
#[derive(Clone, Copy, Debug, PartialEq, Eq, Structural)]
pub enum SyscallX64Unpack {
    /// Arguments in guest `rdi, rsi, rdx, r10, r8`; the sixth is zero.
    LegacyZircon,
    /// NT x64: guest `r10, rdx, r8, r9`, then user stack slots `+0x28` and `+0x30`.
    Nt10X64,
}

impl SyscallX64Unpack {
    /// Decode a stored mode byte.
    pub fn from_u8(v: u8) -> (r: Option<Self>)
        ensures
            r == if v == 0 {
                Some(SyscallX64Unpack::LegacyZircon)
            } else if v == 1 {
                Some(SyscallX64Unpack::Nt10X64)
            } else {
                None::<SyscallX64Unpack>
            },
    {
        match v {
            0 => Some(SyscallX64Unpack::LegacyZircon),
            1 => Some(SyscallX64Unpack::Nt10X64),
            _ => None,
        }
    }

    /// The stored byte of a mode.
    pub fn to_u8(self) -> (r: u8)
        ensures
            r == match self {
                SyscallX64Unpack::LegacyZircon => 0u8,
                SyscallX64Unpack::Nt10X64 => 1u8,
            },
    {
        match self {
            SyscallX64Unpack::LegacyZircon => 0,
            SyscallX64Unpack::Nt10X64 => 1,
        }
    }
}

/// The process-wide unpack mode, stored as a byte.
#[derive(Debug)]
pub struct SyscallUnpackSetting {
    pub raw: u8,
}

/// The mode a stored byte selects (unknown bytes select the legacy convention).
pub open spec fn mode_of(raw: u8) -> SyscallX64Unpack {
    if raw == 1 {
        SyscallX64Unpack::Nt10X64
    } else {
        SyscallX64Unpack::LegacyZircon
    }
}

/// Select the unpack convention.
pub fn zr_syscall_x64_unpack_set(setting: &mut SyscallUnpackSetting, mode: SyscallX64Unpack)
    ensures
        mode_of(final(setting).raw) == mode,
{
    setting.raw = mode.to_u8();
}

/// The selected unpack convention.
pub fn zr_syscall_x64_unpack_get(setting: &SyscallUnpackSetting) -> (m: SyscallX64Unpack)
    ensures
        m == mode_of(setting.raw),
{
    match SyscallX64Unpack::from_u8(setting.raw) {
        Some(m) => m,
        None => SyscallX64Unpack::LegacyZircon,
    }
}

/// Lowest address of the kernel half.
pub const USER_VA_END: u64 = 0x0000_8000_0000_0000;

/// Whether `va` is a canonical user address.
pub fn user_canonical_va_ok(va: u64) -> (ok: bool)
    ensures
        ok == (va < USER_VA_END),
{
    va < USER_VA_END
}

/// Legacy unpack of the saved block `[rdi, rsi, rdx, r10, r8, r9, r11, rcx, user_rsp]`.
pub fn unpack_six_legacy(saved: &[u64; 9]) -> (r: (u64, u64, u64, u64, u64, u64))
    ensures
        r == (saved[0], saved[1], saved[2], saved[3], saved[4], 0u64),
{
    (saved[0], saved[1], saved[2], saved[3], saved[4], 0)
}

/// `STATUS_INVALID_PARAMETER` as the signed status returned to user mode.
pub const STATUS_INVALID_PARAMETER_I32: i32 = -1_073_741_811;

/// NT-style register arguments: `(r10, rdx, r8, r9)` and the user stack pointer whose slots
/// `+0x28` and `+0x30` hold the fifth and sixth arguments; fails for a non-canonical stack.
pub fn nt10_register_args(saved: &[u64; 9]) -> (r: Result<(u64, u64, u64, u64, u64), i32>)
    ensures
        saved[8] >= USER_VA_END ==> r == Err::<(u64, u64, u64, u64, u64), i32>(STATUS_INVALID_PARAMETER_I32),
        saved[8] < USER_VA_END ==> r == Ok::<(u64, u64, u64, u64, u64), i32>((saved[3], saved[2], saved[4], saved[5], saved[8])),
{
    let user_rsp = saved[8];
    if !user_canonical_va_ok(user_rsp) {
        return Err(STATUS_INVALID_PARAMETER_I32);
    }
    Ok((saved[3], saved[2], saved[4], saved[5], user_rsp))
}

/// Magic syscall number of the ring-3 firmware probe.
pub const ZR_UEFI_R3_PROBE_SYSCALL: u64 = 0x5ED;
/// Syscall number of the user-pointer canonicality probe.
pub const ZR_USER_VA_PROBE_SYSCALL: u64 = 0x401;

/// What the kernel does with one user `syscall`.
#[derive(Clone, Copy, Debug, PartialEq, Eq)]
pub enum UserSyscallPlan {
    /// Return `status` without dispatching (`probe` names the probe that answered, if any).
    Return { status: i64, probe: bool },
    /// Dispatch `index` with the six arguments.
    Dispatch { index: u16, args: (u64, u64, u64, u64, u64, u64) },
    /// Read the fifth and sixth arguments at `user_rsp + 0x28` / `+ 0x30`, then dispatch.
    DispatchWithStack { index: u16, regs: (u64, u64, u64, u64), user_rsp: u64 },
}

/// Route a user syscall number `num` with saved guest registers `saved` under `mode`.
pub open spec fn plan_spec(num: u64, saved: [u64; 9], mode: SyscallX64Unpack) -> UserSyscallPlan {
    if num > 0xFFFF {
        UserSyscallPlan::Return { status: ZR_STATUS_NOT_IMPLEMENTED as i64, probe: false }
    } else if num == ZR_UEFI_R3_PROBE_SYSCALL {
        UserSyscallPlan::Return { status: 0, probe: true }
    } else if num == ZR_USER_VA_PROBE_SYSCALL {
        if saved[0] < USER_VA_END {
            UserSyscallPlan::Return { status: 0, probe: true }
        } else {
            UserSyscallPlan::Return { status: ZR_STATUS_NOT_IMPLEMENTED as i64, probe: false }
        }
    } else {
        match mode {
            SyscallX64Unpack::LegacyZircon => UserSyscallPlan::Dispatch {
                index: num as u16,
                args: (saved[0], saved[1], saved[2], saved[3], saved[4], 0u64),
            },
            SyscallX64Unpack::Nt10X64 => if saved[8] < USER_VA_END {
                UserSyscallPlan::DispatchWithStack {
                    index: num as u16,
                    regs: (saved[3], saved[2], saved[4], saved[5]),
                    user_rsp: saved[8],
                }
            } else {
                UserSyscallPlan::Return { status: STATUS_INVALID_PARAMETER_I32 as i64, probe: false }
            },
        }
    }
}

/// Decide how to serve a user syscall (the entry stub's decisions, without the memory reads).
pub fn plan_user_syscall(num: u64, saved: &[u64; 9], mode: SyscallX64Unpack) -> (p: UserSyscallPlan)
    ensures
        p == plan_spec(num, *saved, mode),
{
    if num > 0xFFFF {
        return UserSyscallPlan::Return { status: ZR_STATUS_NOT_IMPLEMENTED as i64, probe: false };
    }
    if num == ZR_UEFI_R3_PROBE_SYSCALL {
        return UserSyscallPlan::Return { status: 0, probe: true };
    }
    if num == ZR_USER_VA_PROBE_SYSCALL {
        if !user_canonical_va_ok(saved[0]) {
            return UserSyscallPlan::Return { status: ZR_STATUS_NOT_IMPLEMENTED as i64, probe: false };
        }
        return UserSyscallPlan::Return { status: 0, probe: true };
    }
    match mode {
        SyscallX64Unpack::LegacyZircon => UserSyscallPlan::Dispatch {
            index: num as u16,
            args: unpack_six_legacy(saved),
        },
        SyscallX64Unpack::Nt10X64 => match nt10_register_args(saved) {
            Ok((a1, a2, a3, a4, rsp)) => UserSyscallPlan::DispatchWithStack {
                index: num as u16,
                regs: (a1, a2, a3, a4),
                user_rsp: rsp,
            },
            Err(e) => UserSyscallPlan::Return { status: e as i64, probe: false },
        },
    }
}

} // verus!
