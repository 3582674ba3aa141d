//! TLB maintenance planning: which 4 KiB pages a range shootdown touches, and whether other
//! CPUs must be interrupted.
use vstd::prelude::*;

verus! {

/// LAPIC vector of the remote shootdown IPI.
pub const TLB_FLUSH_IPI_VECTOR: u8 = 0xFD;

/// Logical CPUs that have the shootdown IPI handler installed.
#[derive(Debug)]
pub struct SmpTlbState {
    pub online_logical_cpus: u32,
}

impl SmpTlbState {
    /// Only the bootstrap processor is online.
    pub fn new() -> (s: Self)
        ensures
            s.online_logical_cpus == 1,
    {
        SmpTlbState { online_logical_cpus: 1 }
    }
}

/// Record `n` online CPUs (at least one: the bootstrap processor).
pub fn smp_set_online_cpu_count(state: &mut SmpTlbState, n: u32)
    ensures
        final(state).online_logical_cpus == if n >= 1 { n } else { 1 },
{
    state.online_logical_cpus = if n >= 1 { n } else { 1 };
}

/// Number of online logical CPUs.
pub fn smp_online_cpu_count(state: &SmpTlbState) -> (n: u32)
    ensures
        n == state.online_logical_cpus,
{
    state.online_logical_cpus
}

/// Page size of an `invlpg` step.
pub const PAGE_SIZE: u64 = 4096;

/// The 4 KiB-aligned page addresses from `a` (already aligned) up to, not including, `end`.
pub open spec fn pages_from(a: nat, end: nat) -> Seq<u64>
    decreases (if a < end { end - a } else { 0 }),
{
    if a >= end || a > u64::MAX {
        Seq::empty()
    } else {
        seq![a as u64] + pages_from(a + 4096, end)
    }
}

/// Pages invalidated for `[va_start, va_end)`: from the page containing `va_start` in 4 KiB
/// steps while below `va_end`; nothing for an empty range.
pub open spec fn shootdown_pages_spec(va_start: u64, va_end: u64) -> Seq<u64> {
    if va_start >= va_end {
        Seq::empty()
    } else {
        pages_from((va_start - va_start % 4096) as nat, va_end as nat)
    }
}

/// The page addresses a local shootdown of `[va_start, va_end)` invalidates, in order.
pub fn shootdown_pages(va_start: u64, va_end: u64) -> (pages: Vec<u64>)
    ensures
        pages@ == shootdown_pages_spec(va_start, va_end),
{
    let mut out: Vec<u64> = Vec::new();
    if va_start >= va_end {
        return out;
    }
    let a0 = va_start & !0xFFFu64;
    assert(va_start & !0xFFFu64 == va_start - va_start % 4096) by (bit_vector);
    let mut a = a0;
    assert(pages_from(a0 as nat, va_end as nat) == shootdown_pages_spec(va_start, va_end));
    while a < va_end
        invariant
            a0 <= a,
            pages_from(a0 as nat, va_end as nat) == shootdown_pages_spec(va_start, va_end),
            a % 4096 == 0 || a == u64::MAX,
            out@ + pages_from(a as nat, va_end as nat) == pages_from(a0 as nat, va_end as nat),
        decreases (if a < va_end { va_end - a } else { 0 }),
    {
        let ghost before = out@;
        out.push(a);
        assert(pages_from(a as nat, va_end as nat) == seq![a] + pages_from(a as nat + 4096, va_end as nat));
        if a > u64::MAX - 4096 {
            assert(pages_from(a as nat + 4096, va_end as nat) =~= Seq::<u64>::empty());
            assert(out@ =~= before + pages_from(a as nat, va_end as nat));
            return out;
        }
        assert(out@ + pages_from(a as nat + 4096, va_end as nat) =~= before + pages_from(a as nat, va_end as nat));
        a = a + 4096;
    }
    assert(out@ + pages_from(a as nat, va_end as nat) =~= out@);
    out
}

/// Remote CPUs that must acknowledge a shootdown IPI (`None` when this CPU is alone).
pub fn remote_shootdown_acks(state: &SmpTlbState) -> (r: Option<u32>)
    ensures
        state.online_logical_cpus <= 1 ==> r is None,
        state.online_logical_cpus > 1 ==> r == Some((state.online_logical_cpus - 1) as u32),
{
    if state.online_logical_cpus <= 1 {
        None
    } else {
        Some(state.online_logical_cpus - 1)
    }
}

} // verus!
