//! Decisions of the loader's hand-off to the kernel: which firmware configuration tables are
//! passed on, how the memory-map buffer is sized and copied, and how the kernel image is read.
use vstd::prelude::*;
use crate::boot::chainload::EfiStatus;

verus! {

/// One firmware configuration table entry: its vendor GUID bytes and the table's address.
#[derive(Clone, Copy, Debug)]
pub struct ConfigTableEntry {
    pub guid: [u8; 16],
    pub table: u64,
}

/// Index of the first entry from `k` on whose GUID is `guid`.
pub open spec fn first_with_guid(entries: Seq<ConfigTableEntry>, guid: Seq<u8>, k: nat) -> Option<nat>
    decreases entries.len() - k,
{
    if k >= entries.len() {
        None
    } else if entries[k as int].guid@ == guid {
        Some(k)
    } else {
        first_with_guid(entries, guid, k + 1)
    }
}

/// The address of the first table with GUID `guid`, or 0 when there is none.
pub open spec fn table_for(entries: Seq<ConfigTableEntry>, guid: Seq<u8>) -> u64 {
    match first_with_guid(entries, guid, 0) {
        Some(i) => entries[i as int].table,
        None => 0,
    }
}

/// Whether two GUIDs are the same bytes.
fn guid_eq(a: &[u8; 16], b: &[u8; 16]) -> (r: bool)
    ensures
        r == (a@ == b@),
{
    let mut i: usize = 0;
    while i < 16
        invariant
            0 <= i <= 16,
            forall|k: int| 0 <= k < i ==> a@[k] == b@[k],
        decreases 16 - i,
    {
        if a[i] != b[i] {
            return false;
        }
        i = i + 1;
    }
    assert(a@ =~= b@);
    true
}

/// The first entry is never beyond the table.
proof fn lemma_first_with_guid_bound(entries: Seq<ConfigTableEntry>, guid: Seq<u8>, k: nat)
    ensures
        first_with_guid(entries, guid, k) matches Some(i) ==> k <= i < entries.len()
            && entries[i as int].guid@ == guid,
    decreases entries.len() - k,
{
    if k < entries.len() && entries[k as int].guid@ != guid {
        lemma_first_with_guid_bound(entries, guid, k + 1);
    }
}

/// Address of the first configuration table with GUID `guid` (0 when there is none).
pub fn find_config_table(entries: &[ConfigTableEntry], guid: &[u8; 16]) -> (r: u64)
    ensures
        r == table_for(entries@, guid@),
{
    proof {
        lemma_first_with_guid_bound(entries@, guid@, 0);
    }
    let mut i: usize = 0;
    while i < entries.len()
        invariant
            0 <= i <= entries@.len(),
            first_with_guid(entries@, guid@, 0) == first_with_guid(entries@, guid@, i as nat),
        decreases entries@.len() - i,
    {
        if guid_eq(&entries[i].guid, guid) {
            return entries[i].table;
        }
        i = i + 1;
    }
    0
}

/// The SMBIOS entry point passed to the kernel: the SMBIOS 3 table when the firmware has one,
/// otherwise the SMBIOS 2 table, otherwise 0.
pub open spec fn smbios_anchor(entries: Seq<ConfigTableEntry>, smbios3: Seq<u8>, smbios: Seq<u8>) -> u64 {
    if first_with_guid(entries, smbios3, 0) is Some {
        table_for(entries, smbios3)
    } else {
        table_for(entries, smbios)
    }
}

/// Find the SMBIOS entry point (see [`smbios_anchor`]); `smbios3` and `smbios` are the GUIDs
/// of the two table versions.
pub fn find_smbios_anchor(entries: &[ConfigTableEntry], smbios3: &[u8; 16], smbios: &[u8; 16]) -> (r: u64)
    ensures
        r == smbios_anchor(entries@, smbios3@, smbios@),
{
    let mut i: usize = 0;
    while i < entries.len()
        invariant
            0 <= i <= entries@.len(),
            first_with_guid(entries@, smbios3@, 0) == first_with_guid(entries@, smbios3@, i as nat),
        decreases entries@.len() - i,
    {
        if guid_eq(&entries[i].guid, smbios3) {
            proof {
                lemma_first_with_guid_bound(entries@, smbios3@, 0);
            }
            return entries[i].table;
        }
        i = i + 1;
    }
    find_config_table(entries, smbios)
}

/// The larger of two `usize`.
pub open spec fn max_usize(a: usize, b: usize) -> usize {
    if a >= b {
        a
    } else {
        b
    }
}

/// Pool size for reading the memory map: the size the firmware reported plus room for four
/// more descriptors of the larger of the reported and the UEFI descriptor sizes.
pub fn memory_map_initial_alloc(map_size: usize, desc_size: usize, efi_desc_size: usize) -> (r: usize)
    requires
        map_size + 4 * max_usize(desc_size, efi_desc_size) <= usize::MAX,
    ensures
        r == map_size + 4 * max_usize(desc_size, efi_desc_size),
{
    let d = if desc_size >= efi_desc_size { desc_size } else { efi_desc_size };
    map_size + 4 * d
}

/// Pool size for another try after the buffer was too small: the new size plus room for two
/// more descriptors.
pub fn memory_map_retry_alloc(size: usize, desc_size: usize) -> (r: usize)
    requires
        size + 2 * max_usize(desc_size, 1) <= usize::MAX,
    ensures
        r == size + 2 * max_usize(desc_size, 1),
{
    let d = if desc_size >= 1 { desc_size } else { 1 };
    size + 2 * d
}

/// How many descriptors of a `size`-byte map with stride `desc_size` fit `max_entries`
/// hand-off slots; `Unsupported` when the firmware's descriptors are shorter than the
/// hand-off descriptor (`entry_size` bytes, at least one).
pub fn memory_map_copy_count(size: usize, desc_size: usize, max_entries: usize, entry_size: usize) -> (r: Result<usize, EfiStatus>)
    requires
        entry_size >= 1,
    ensures
        desc_size < entry_size ==> r == Err::<usize, EfiStatus>(EfiStatus::Unsupported),
        desc_size >= entry_size ==> r == Ok::<usize, EfiStatus>(
            if size / desc_size <= max_entries { size / desc_size } else { max_entries },
        ),
{
    if desc_size < entry_size {
        return Err(EfiStatus::Unsupported);
    }
    let n = size / desc_size;
    Ok(if n <= max_entries { n } else { max_entries })
}

/// Page size of the kernel image allocation.
pub const KERNEL_PAGE: u64 = 4096;
/// Largest single read of the kernel file.
pub const KERNEL_READ_CHUNK: u64 = 4 * 1024 * 1024;

/// 4 KiB pages that hold a `size`-byte kernel image (at least one).
pub fn kernel_image_pages(size: u64) -> (r: u64)
    ensures
        r == if size == 0 { 1 } else { (size + 4095) / 4096 },
{
    let p = size / 4096 + if size % 4096 == 0 { 0 } else { 1 };
    assert(p == (if size == 0 { 1int } else { (size + 4095) / 4096 }) || size == 0) by (nonlinear_arith)
        requires
            p == size / 4096 + if size % 4096 == 0 { 0int } else { 1int },
    ;
    if p >= 1 { p } else { 1 }
}

/// Length of the next read of the kernel file at offset `off` of `size` bytes: the rest, at
/// most 4 MiB.
pub fn kernel_read_chunk(size: u64, off: u64) -> (r: u64)
    requires
        off <= size,
    ensures
        r == if size - off <= KERNEL_READ_CHUNK { size - off } else { KERNEL_READ_CHUNK as int },
{
    let rest = size - off;
    if rest <= KERNEL_READ_CHUNK { rest } else { KERNEL_READ_CHUNK }
}

} // verus!
