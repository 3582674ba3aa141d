//! Handoff structures between the boot manager and the kernel.
use vstd::prelude::*;

verus! {

/// Magic `"ZIRNON10"`.
pub const ZIRNON10_MAGIC: u64 = 0x5A49_524E_4F4E_3130;

/// Incremented when the handoff layout breaks compatibility.
pub const ZIRCON_BOOT_INFO_VERSION: u32 = 2;

/// UEFI `EFI_MEMORY_DESCRIPTOR` leading fields.
#[derive(Clone, Copy, Debug, PartialEq, Eq, Structural)]
pub struct HandoffMemoryDescriptor {
    pub kind: u32,
    pub _padding: u32,
    pub physical_start: u64,
    pub virtual_start: u64,
    pub number_of_pages: u64,
    pub attribute: u64,
}

/// Framebuffer as reported by the graphics output protocol.
#[derive(Clone, Copy, Debug, PartialEq, Eq, Structural)]
pub struct FramebufferInfo {
    pub base: u64,
    pub size: usize,
    pub horizontal_resolution: u32,
    pub vertical_resolution: u32,
    pub pixels_per_scan_line: u32,
    /// Opaque pixel format value from firmware.
    pub pixel_format: u32,
}

/// Parameters passed from the boot manager to the kernel entry.
#[derive(Clone, Copy, Debug)]
pub struct ZirconBootInfo {
    pub magic: u64,
    pub version: u32,
    pub reserved0: u32,
    /// Physical address of the `HandoffMemoryDescriptor` array.
    pub mem_map: u64,
    pub mem_map_count: usize,
    /// Bytes per descriptor (from `GetMemoryMap`).
    pub mem_map_descriptor_size: usize,
    pub framebuffer: FramebufferInfo,
    /// ACPI 2.0 RSDP (physical), or 0 if not found.
    pub acpi_rsdp: u64,
    /// Physical entry point jumped to after handoff; 0 if not used yet.
    pub kernel_entry_phys: u64,
    pub cmdline: [u8; 256],
    /// Optional initrd base (physical), 0 if none.
    pub initrd_phys: u64,
    pub initrd_size: u64,
    /// MMIO base for TPM, 0 if unknown.
    pub tpm_mmio_phys: u64,
    pub tpm_mmio_size: u64,
    /// SMBIOS entry anchor (physical), 0 if unknown.
    pub smbios_anchor_phys: u64,
    /// Optional entropy from the firmware RNG protocol (may be zeroed).
    pub firmware_rng_seed: [u8; 16],
    /// ACPI RSDP revision field when available.
    pub acpi_rsdp_revision: u8,
    pub _reserved_tail: [u8; 7],
}

/// An all-zero framebuffer description.
pub open spec fn empty_framebuffer() -> FramebufferInfo {
    FramebufferInfo {
        base: 0,
        size: 0,
        horizontal_resolution: 0,
        vertical_resolution: 0,
        pixels_per_scan_line: 0,
        pixel_format: 0,
    }
}

impl ZirconBootInfo {
    /// Every field other than the magic and version is zero.
    pub open spec fn is_blank(&self) -> bool {
        &&& self.reserved0 == 0
        &&& self.mem_map == 0
        &&& self.mem_map_count == 0
        &&& self.mem_map_descriptor_size == 0
        &&& self.framebuffer == empty_framebuffer()
        &&& self.acpi_rsdp == 0
        &&& self.kernel_entry_phys == 0
        &&& self.cmdline@ == Seq::new(256, |i: int| 0u8)
        &&& self.initrd_phys == 0
        &&& self.initrd_size == 0
        &&& self.tpm_mmio_phys == 0
        &&& self.tpm_mmio_size == 0
        &&& self.smbios_anchor_phys == 0
        &&& self.firmware_rng_seed@ == Seq::new(16, |i: int| 0u8)
        &&& self.acpi_rsdp_revision == 0
        &&& self._reserved_tail@ == Seq::new(7, |i: int| 0u8)
    }

    /// A handoff block with the current magic and version and everything else zero.
    pub fn new() -> (b: Self)
        ensures
            b.magic == ZIRNON10_MAGIC,
            b.version == ZIRCON_BOOT_INFO_VERSION,
            b.is_blank(),
    {
        let b = ZirconBootInfo {
            magic: ZIRNON10_MAGIC,
            version: ZIRCON_BOOT_INFO_VERSION,
            reserved0: 0,
            mem_map: 0,
            mem_map_count: 0,
            mem_map_descriptor_size: 0,
            framebuffer: FramebufferInfo {
                base: 0,
                size: 0,
                horizontal_resolution: 0,
                vertical_resolution: 0,
                pixels_per_scan_line: 0,
                pixel_format: 0,
            },
            acpi_rsdp: 0,
            kernel_entry_phys: 0,
            cmdline: [0u8; 256],
            initrd_phys: 0,
            initrd_size: 0,
            tpm_mmio_phys: 0,
            tpm_mmio_size: 0,
            smbios_anchor_phys: 0,
            firmware_rng_seed: [0u8; 16],
            acpi_rsdp_revision: 0,
            _reserved_tail: [0u8; 7],
        };
        assert(b.cmdline@ =~= Seq::new(256, |i: int| 0u8));
        assert(b.firmware_rng_seed@ =~= Seq::new(16, |i: int| 0u8));
        assert(b._reserved_tail@ =~= Seq::new(7, |i: int| 0u8));
        b
    }

    /// Whether the block carries the expected magic and version.
    pub fn validate(&self) -> (ok: bool)
        ensures
            ok == (self.magic == ZIRNON10_MAGIC && self.version == ZIRCON_BOOT_INFO_VERSION),
    {
        self.magic == ZIRNON10_MAGIC && self.version == ZIRCON_BOOT_INFO_VERSION
    }
}

impl Default for ZirconBootInfo {
    fn default() -> (b: Self)
        ensures
            b.magic == ZIRNON10_MAGIC,
            b.version == ZIRCON_BOOT_INFO_VERSION,
            b.is_blank(),
    {
        ZirconBootInfo::new()
    }
}

} // verus!
