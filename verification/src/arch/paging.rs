//! Page-table entry bits.
use vstd::prelude::*;

verus! {

/// PTE bit 63: no-execute when `EFER.NXE` is set.
pub const PTE_NX: u64 = 0x8000_0000_0000_0000;

/// Apply or clear NX on a leaf PTE value.
pub fn pte_with_nx(pte: u64, nx: bool) -> (r: u64)
    ensures
        r == if nx { pte | PTE_NX } else { pte & !PTE_NX },
{
    if nx {
        pte | PTE_NX
    } else {
        pte & !PTE_NX
    }
}

/// Setting or clearing NX only changes bit 63: afterwards bit 63 is `nx` and bits 0..63 are
/// those of `pte`.
pub proof fn lemma_pte_with_nx_only_bit63(pte: u64, nx: bool)
    ensures
        ((if nx { pte | PTE_NX } else { pte & !PTE_NX }) & PTE_NX != 0) == nx,
        (if nx { pte | PTE_NX } else { pte & !PTE_NX }) & 0x7FFF_FFFF_FFFF_FFFF == pte
            & 0x7FFF_FFFF_FFFF_FFFF,
{
    if nx {
        assert((pte | 0x8000_0000_0000_0000u64) & 0x8000_0000_0000_0000u64 != 0) by (bit_vector);
        assert((pte | 0x8000_0000_0000_0000u64) & 0x7FFF_FFFF_FFFF_FFFFu64 == pte
            & 0x7FFF_FFFF_FFFF_FFFFu64) by (bit_vector);
    } else {
        assert((pte & !0x8000_0000_0000_0000u64) & 0x8000_0000_0000_0000u64 == 0) by (bit_vector);
        assert((pte & !0x8000_0000_0000_0000u64) & 0x7FFF_FFFF_FFFF_FFFFu64 == pte
            & 0x7FFF_FFFF_FFFF_FFFFu64) by (bit_vector);
    }
}

} // verus!
