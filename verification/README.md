# zircon_nt10

Verified core of the ZirconOS NT10 boot manager (ZBM10) and of the kernel's early desktop
shell, written in Verus.

- `src/boot_protocol.rs` — the handoff block passed from the boot manager to the kernel.
- `src/boot/` — ZBM10 policy: `zbm10.cfg` parsing and rendering (with a save/load round-trip
  law), menu key / pointer / activation decisions, the auto-boot countdown, tile layout,
  ESP path and UCS-2 name handling, firmware table lookup and memory-map / image sizing.
- `src/alpc/` — ALPC ports (FIFO message queue), connections, messages and session policy.
- `src/arch/` — syscall table, the bring-up `Nt*` handlers and their registration, x64
  syscall argument unpacking, page-table entry bits, CET feature probing and TLB shootdown
  planning.
- `src/desktop/` — the desktop session state machine (keys, clicks, pointer reports, clock),
  window stack, taskbar and shell hit testing, drawing plans for the taskbar, flyout, taskbar
  menu and power dialog, window frames and the hosted applications' client areas, the
  Win32 overlay's click decisions, DWM dirty rectangles, clipboard, shell
  namespace, known folders and the wall clock.

`app/` is the UEFI application around the library: firmware services through `r-efi`,
files on the EFI system partition, the menu loops, kernel loading and the jump to the kernel.
It is not verified.

`tests/` exercises the library on concrete values.
