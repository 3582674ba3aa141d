use zircon_nt10::boot::boot_config::{
    eq_ignore_ascii_case, fmt_u64, parse_ascii_u64, parse_ascii_u8, parse_bool, parse_cfg,
    push_bytes, push_line, render_zbm10_cfg, trim_ascii, Zbm10Cfg, AUTO_BOOT_MAX_SECONDS,
    CFG_MAX, NAME_MAX,
};
use zircon_nt10::boot::boot_menu::{
    activation, adjust_setting, ascii_kernel_line, chainload_target, entry_id, fmt_u64_to_buf,
    initial_selection, menu_key, persisted_entry, settings_key, Activation, AutoBootTick,
    AutoBootTimer, EntryId, Focus, MenuKey, MenuKeyAction, SettingsKeyAction, SCAN_DOWN,
    SCAN_ESC, SCAN_UP,
};
use zircon_nt10::boot::boot_menu::{pointer_menu_step, text_menu_key};
use zircon_nt10::boot::boot_ui_gfx::{layout, Rect, ENTRY_COUNT};
use zircon_nt10::boot::handoff::{
    find_config_table, find_smbios_anchor, kernel_image_pages, kernel_read_chunk,
    memory_map_copy_count, memory_map_initial_alloc, memory_map_retry_alloc, ConfigTableEntry,
};
use zircon_nt10::boot::chainload::{
    chain_image_size_ok, CHAIN_IMAGE_MAX, ascii_to_ucs2_component, esp_path_components, kernel_name_to_ucs2, EfiStatus, EFI_ERROR_BIT,
};
use zircon_nt10::boot::pointer_input::{PointerAccum, SimplePointerState, TouchMap};
use zircon_nt10::boot_protocol::{ZirconBootInfo, ZIRCON_BOOT_INFO_VERSION, ZIRNON10_MAGIC};

fn cfg_from(text: &[u8]) -> Zbm10Cfg {
    let mut c = Zbm10Cfg::new();
    parse_cfg(text, &mut c);
    c
}

#[test]
fn lexical_helpers() {
    assert!(eq_ignore_ascii_case(b"Kernel", b"kERNEL"));
    assert!(!eq_ignore_ascii_case(b"kernel", b"kernels"));
    assert_eq!(trim_ascii(b" \t ab c \t"), b"ab c");
    assert_eq!(trim_ascii(b"   "), b"");
    assert_eq!(parse_ascii_u64(b"0042"), Some(42));
    assert_eq!(parse_ascii_u64(b""), None);
    assert_eq!(parse_ascii_u64(b"4x"), None);
    assert_eq!(parse_ascii_u64(b"99999999999999999999999"), Some(u64::MAX));
    assert_eq!(parse_ascii_u8(b"255"), Some(255));
    assert_eq!(parse_ascii_u8(b"256"), None);
    assert_eq!(parse_bool(b"YES"), Some(true));
    assert_eq!(parse_bool(b"off"), Some(false));
    assert_eq!(parse_bool(b"maybe"), None);
}

#[test]
fn config_defaults_and_parse() {
    let c = Zbm10Cfg::new();
    assert_eq!(c.auto_boot_seconds, 10);
    assert_eq!(c.default_entry, 0);
    assert!(c.remember_last);
    assert!(c.chainload_enabled);
    assert_eq!(c.kernel_name_str(), None);
    let c = cfg_from(
        b"# comment\r\n kernel = MYKRNL.BIN \nAUTO_BOOT_SECONDS=99999\r\ndefault_entry=3\nREMEMBER_LAST=no\nCHAINLOAD=0\nCHAINLOAD_PATH=EFI\\x\\y.efi\nbogus=1\nnoequals\n",
    );
    assert_eq!(c.kernel_name_str(), Some("MYKRNL.BIN"));
    assert_eq!(c.auto_boot_seconds, AUTO_BOOT_MAX_SECONDS);
    assert_eq!(c.default_entry, 3);
    assert!(!c.remember_last);
    assert!(!c.chainload_enabled);
    assert_eq!(c.chainload_path_str(), Some("EFI\\x\\y.efi"));
}

#[test]
fn config_bad_values_are_ignored() {
    let c = cfg_from(b"AUTO_BOOT_SECONDS=abc\nDEFAULT_ENTRY=300\nREMEMBER_LAST=perhaps\n");
    assert_eq!(c.auto_boot_seconds, 10);
    assert_eq!(c.default_entry, 0);
    assert!(c.remember_last);
}

#[test]
fn config_long_name_is_truncated() {
    let mut text = b"kernel=".to_vec();
    text.extend(std::iter::repeat(b'K').take(NAME_MAX + 10));
    let c = cfg_from(&text);
    assert_eq!(c.kernel_name_len, NAME_MAX);
}

#[test]
fn config_invalid_utf8_name() {
    let c = cfg_from(&[b'k', b'e', b'r', b'n', b'e', b'l', b'=', 0xFF, 0xFE]);
    assert_eq!(c.kernel_name_len, 2);
    assert_eq!(c.kernel_name_str(), None);
}

#[test]
fn apply_defaults_fills_chain_path() {
    let mut c = Zbm10Cfg::new();
    c.apply_defaults();
    assert_eq!(c.chainload_path_str(), Some("EFI\\Microsoft\\Boot\\bootmgfw.efi"));
    let mut c2 = cfg_from(b"CHAINLOAD_PATH=a.efi");
    c2.apply_defaults();
    assert_eq!(c2.chainload_path_str(), Some("a.efi"));
    let c3 = Zbm10Cfg::from_file_bytes(b"");
    assert_eq!(c3.chainload_path_str(), Some("EFI\\Microsoft\\Boot\\bootmgfw.efi"));
}

#[test]
fn render_exact_text() {
    let c = Zbm10Cfg::new();
    let mut out = [0u8; CFG_MAX];
    let n = render_zbm10_cfg(&c, &mut out);
    let expected: &[u8] = b"# Zircon Boot Manager (ZBM10) configuration\r\n# ASCII KEY=value per line\r\nkernel=NT10KRNL.BIN\r\nAUTO_BOOT_SECONDS=10\r\nDEFAULT_ENTRY=0\r\nREMEMBER_LAST=1\r\nCHAINLOAD=1\r\nCHAINLOAD_PATH=EFI\\Microsoft\\Boot\\bootmgfw.efi\r\n";
    assert_eq!(&out[..n], expected);
}

#[test]
fn render_then_load_round_trip() {
    let mut c = cfg_from(
        b"kernel=ALT.BIN\nAUTO_BOOT_SECONDS=3600\nDEFAULT_ENTRY=4\nREMEMBER_LAST=0\nCHAINLOAD=off\nCHAINLOAD_PATH=EFI/other/x.efi\n",
    );
    c.apply_defaults();
    let mut out = [0u8; CFG_MAX];
    let n = render_zbm10_cfg(&c, &mut out);
    let back = Zbm10Cfg::from_file_bytes(&out[..n]);
    assert_eq!(back.kernel_name_str(), Some("ALT.BIN"));
    assert_eq!(back.auto_boot_seconds, 3600);
    assert_eq!(back.default_entry, 4);
    assert!(!back.remember_last);
    assert!(!back.chainload_enabled);
    assert_eq!(back.chainload_path_str(), Some("EFI/other/x.efi"));
}

#[test]
fn push_helpers_respect_capacity() {
    let mut buf = [0u8; 6];
    let mut used = 0usize;
    assert!(push_bytes(&mut buf, &mut used, b"abc"));
    assert_eq!(used, 3);
    assert!(!push_bytes(&mut buf, &mut used, b"defg"));
    assert_eq!(used, 3);
    assert!(push_line(&mut buf, &mut used, b"d"));
    assert_eq!(&buf, b"abcd\r\n");
    let mut buf2 = [0u8; 6];
    let mut used2 = 3usize;
    assert!(!push_line(&mut buf2, &mut used2, b"de"));
    assert_eq!(used2, 5);
    assert_eq!(&buf2[3..5], b"de");
}

#[test]
fn decimal_formatting() {
    let mut t = [0u8; 24];
    assert_eq!(fmt_u64(0, &mut t), b"0");
    assert_eq!(fmt_u64(1234567890, &mut t), b"1234567890");
    assert_eq!(fmt_u64(u64::MAX, &mut t), b"18446744073709551615");
    let mut t20 = [0u8; 20];
    assert_eq!(fmt_u64_to_buf(u64::MAX, &mut t20), b"18446744073709551615");
    assert_eq!(parse_ascii_u64(fmt_u64(987654321, &mut t)), Some(987654321));
}

#[test]
fn clamp_default_entry_bounds() {
    let mut c = Zbm10Cfg::new();
    c.default_entry = 9;
    assert_eq!(c.clamp_default_entry(5), 4);
    assert_eq!(c.clamp_default_entry(0), 0);
    c.default_entry = 2;
    assert_eq!(c.clamp_default_entry(5), 2);
}

#[test]
fn menu_entries_and_selection() {
    assert_eq!(entry_id(0), EntryId::FluentNt10);
    assert_eq!(entry_id(2), EntryId::ChainBootMgr);
    assert_eq!(entry_id(4), EntryId::Shutdown);
    let mut c = Zbm10Cfg::new();
    c.default_entry = 2;
    assert_eq!(initial_selection(&c, Some(3)), Focus::Entry(3));
    assert_eq!(initial_selection(&c, Some(200)), Focus::Entry(ENTRY_COUNT - 1));
    assert_eq!(initial_selection(&c, None), Focus::Entry(2));
    c.remember_last = false;
    assert_eq!(initial_selection(&c, Some(3)), Focus::Entry(2));
    assert_eq!(persisted_entry(&c, 1), None);
}

fn key(scan: u16, ch: u16) -> MenuKey {
    MenuKey { scan_code: scan, unicode_char: ch }
}

#[test]
fn menu_keys() {
    assert_eq!(menu_key(Focus::Entry(0), key(SCAN_UP, 0)), MenuKeyAction::Focus(Focus::Entry(0)));
    assert_eq!(menu_key(Focus::Entry(1), key(SCAN_UP, 0)), MenuKeyAction::Focus(Focus::Entry(0)));
    assert_eq!(menu_key(Focus::Entry(4), key(SCAN_DOWN, 0)), MenuKeyAction::Focus(Focus::Footer));
    assert_eq!(menu_key(Focus::Footer, key(SCAN_UP, 0)), MenuKeyAction::Focus(Focus::Entry(4)));
    assert_eq!(menu_key(Focus::Entry(2), key(0, 13)), MenuKeyAction::Activate);
    assert_eq!(menu_key(Focus::Entry(2), key(0, b'3' as u16)), MenuKeyAction::Focus(Focus::Entry(2)));
    assert_eq!(menu_key(Focus::Entry(2), key(0, b'b' as u16)), MenuKeyAction::BootDefault);
    assert_eq!(menu_key(Focus::Entry(2), key(0, b'C' as u16)), MenuKeyAction::OpenSettings);
    assert_eq!(menu_key(Focus::Entry(2), key(0, b'z' as u16)), MenuKeyAction::Ignore);
    assert_eq!(menu_key(Focus::Footer, key(0, 9)), MenuKeyAction::Focus(Focus::Entry(0)));
}

#[test]
fn menu_activation() {
    let mut c = Zbm10Cfg::new();
    assert_eq!(activation(&c, Focus::Entry(0)), Activation::BootKernel { remember: Some(0) });
    assert_eq!(activation(&c, Focus::Entry(1)), Activation::ShowReserved);
    assert_eq!(activation(&c, Focus::Entry(2)), Activation::Chainload);
    assert_eq!(activation(&c, Focus::Entry(3)), Activation::Reboot);
    assert_eq!(activation(&c, Focus::Entry(4)), Activation::Shutdown);
    assert_eq!(activation(&c, Focus::Footer), Activation::OpenSettings);
    c.chainload_enabled = false;
    c.remember_last = false;
    assert_eq!(activation(&c, Focus::Entry(2)), Activation::ShowChainDisabled);
    assert_eq!(activation(&c, Focus::Entry(0)), Activation::BootKernel { remember: None });
}

#[test]
fn chainload_target_default_and_configured() {
    let c = Zbm10Cfg::new();
    assert_eq!(chainload_target(&c), b"EFI\\Microsoft\\Boot\\bootmgfw.efi".to_vec());
    let c2 = cfg_from(b"CHAINLOAD_PATH=\\EFI\\a.efi");
    assert_eq!(chainload_target(&c2), b"\\EFI\\a.efi".to_vec());
}

#[test]
fn settings_screen_keys_and_adjust() {
    assert_eq!(settings_key(2, key(SCAN_ESC, 0)), SettingsKeyAction::Cancel);
    assert_eq!(settings_key(0, key(SCAN_UP, 0)), SettingsKeyAction::Ignore);
    assert_eq!(settings_key(0, key(SCAN_DOWN, 0)), SettingsKeyAction::Select(1));
    assert_eq!(settings_key(1, key(0, b'+' as u16)), SettingsKeyAction::Adjust(true));
    assert_eq!(settings_key(1, key(0, b'-' as u16)), SettingsKeyAction::Adjust(false));
    assert_eq!(settings_key(4, key(0, 13)), SettingsKeyAction::SaveAndExit);
    assert_eq!(settings_key(3, key(0, 13)), SettingsKeyAction::Ignore);
    let mut c = Zbm10Cfg::new();
    adjust_setting(&mut c, 0, true);
    assert_eq!(c.auto_boot_seconds, 15);
    c.auto_boot_seconds = 3;
    adjust_setting(&mut c, 0, false);
    assert_eq!(c.auto_boot_seconds, 0);
    c.auto_boot_seconds = 3598;
    adjust_setting(&mut c, 0, true);
    assert_eq!(c.auto_boot_seconds, AUTO_BOOT_MAX_SECONDS);
    c.default_entry = 4;
    adjust_setting(&mut c, 1, true);
    assert_eq!(c.default_entry, 4);
    adjust_setting(&mut c, 2, true);
    assert!(!c.remember_last);
    adjust_setting(&mut c, 3, false);
    assert!(!c.chainload_enabled);
}

#[test]
fn kernel_line_ucs2() {
    let mut out = [0u16; 96];
    let n = ascii_kernel_line(b"NT10KRNL.BIN", &mut out);
    let expected: Vec<u16> = "     Kernel: EFI\\ZirconOSFluent\\NT10KRNL.BIN\0".encode_utf16().collect();
    assert_eq!(n, expected.len());
    assert_eq!(&out[..n], &expected[..]);
    assert_eq!(ascii_kernel_line(&[0xC3, 0xA9], &mut out), 0);
    assert_eq!(ascii_kernel_line(&[b'a'; 64], &mut out), 0);
}

#[test]
fn auto_boot_countdown() {
    let mut t = AutoBootTimer::new(2);
    assert_eq!(t.advance(500_000), AutoBootTick::Remaining(2));
    assert_eq!(t.advance(600_000), AutoBootTick::Remaining(1));
    assert_eq!(t.advance(0), AutoBootTick::Idle);
    assert_eq!(t.advance(900_000), AutoBootTick::Expired);
    let mut off = AutoBootTimer::new(0);
    assert_eq!(off.advance(10_000_000), AutoBootTick::Idle);
    let mut c = AutoBootTimer::new(10);
    c.cancel();
    assert_eq!(c.advance(20_000_000), AutoBootTick::Idle);
    let huge = AutoBootTimer::new(u64::MAX);
    assert_eq!(huge.limit_us, u64::MAX);
}

#[test]
fn ucs2_conversions_and_status() {
    let mut out = [7u16; 8];
    assert_eq!(ascii_to_ucs2_component(b"boot", &mut out), Ok(5));
    assert_eq!(&out[..5], &[b'b' as u16, b'o' as u16, b'o' as u16, b't' as u16, 0]);
    let mut small = [7u16; 3];
    assert_eq!(ascii_to_ucs2_component(b"boot", &mut small), Err(EfiStatus::InvalidParameter));
    assert_eq!(small, [7u16; 3]);
    assert_eq!(ascii_to_ucs2_component(b"a/b", &mut out), Err(EfiStatus::InvalidParameter));
    assert_eq!(ascii_to_ucs2_component(b"", &mut out), Err(EfiStatus::InvalidParameter));
    assert_eq!(kernel_name_to_ucs2(&[b'a', 0xFF], &mut out), Err(EfiStatus::Unsupported));
    assert_eq!(kernel_name_to_ucs2(b"K.BIN", &mut out), Ok(6));
    assert_eq!(EfiStatus::InvalidParameter.code(), EFI_ERROR_BIT | 2);
    assert_eq!(EfiStatus::Unsupported.code(), EFI_ERROR_BIT | 3);
    assert_eq!(EfiStatus::NotFound.code(), EFI_ERROR_BIT | 14);
}

#[test]
fn esp_path_splitting() {
    assert_eq!(esp_path_components(b"\\EFI//Boot\\x.efi\\"), vec![(1, 4), (6, 10), (11, 16)]);
    assert!(esp_path_components(b"").is_empty());
    assert!(esp_path_components(b"//\\").is_empty());
    assert_eq!(esp_path_components(b"a"), vec![(0, 1)]);
}

#[test]
fn tile_layout_is_inside_screen() {
    let l = layout(1024, 768);
    for t in l.tiles.iter() {
        assert!(t.x + t.w <= 1024);
        assert!(t.y + t.h <= 768);
    }
    let r = Rect { x: 10, y: 10, w: 5, h: 5 };
    assert!(r.contains(10, 10));
    assert!(!r.contains(15, 10));
    assert!(!r.contains(9, 12));
}

#[test]
fn pointer_accumulates_and_clamps() {
    let mut p = PointerAccum::new(100, 50);
    let st = SimplePointerState {
        relative_movement_x: 41,
        relative_movement_y: -7,
        relative_movement_z: 0,
        left_button: false,
        right_button: false,
    };
    let (x0, y0) = (p.x, p.y);
    p.feed_simple(&st);
    assert_eq!(p.x, (x0 + 20).min(100));
    assert_eq!(p.y, (y0 - 3).max(0));
    let big = SimplePointerState { relative_movement_x: 10_000, relative_movement_y: -10_000, ..st };
    p.feed_simple(&big);
    assert_eq!((p.x, p.y), (100, 0));
    let tm = TouchMap { min_x: 0, max_x: 1000, min_y: 100, max_y: 100 };
    assert_eq!(tm.to_screen(500, 50, 800, 600), (400, 0));
    assert_eq!(tm.to_screen(5000, 200, 800, 600), (800, 600));
}

#[test]
fn boot_info_handoff_block() {
    let b = ZirconBootInfo::new();
    assert!(b.validate());
    assert_eq!(b.magic, ZIRNON10_MAGIC);
    assert_eq!(b.version, ZIRCON_BOOT_INFO_VERSION);
    let mut bad = ZirconBootInfo::default();
    bad.version = 1;
    assert!(!bad.validate());
}

#[test]
fn pointer_press_and_release_on_tiles() {
    let l = layout(1024, 768);
    let t = l.tiles[1];
    let (x, y) = ((t.x + 2) as i32, (t.y + 2) as i32);
    assert_eq!(pointer_menu_step(&l, false, true, x, y, Focus::Entry(0)), (Focus::Entry(1), false));
    assert_eq!(pointer_menu_step(&l, true, false, x, y, Focus::Entry(0)), (Focus::Entry(1), true));
    assert_eq!(pointer_menu_step(&l, false, false, x, y, Focus::Entry(0)), (Focus::Entry(0), false));
    assert_eq!(pointer_menu_step(&l, true, false, -5, -5, Focus::Entry(3)), (Focus::Entry(3), false));
}

#[test]
fn handoff_tables_and_sizes() {
    let acpi = [1u8; 16];
    let smb3 = [3u8; 16];
    let smb = [2u8; 16];
    let entries = [
        ConfigTableEntry { guid: smb, table: 0x2000 },
        ConfigTableEntry { guid: acpi, table: 0x1000 },
        ConfigTableEntry { guid: smb3, table: 0x3000 },
        ConfigTableEntry { guid: acpi, table: 0x9000 },
    ];
    assert_eq!(find_config_table(&entries, &acpi), 0x1000);
    assert_eq!(find_config_table(&entries, &[7u8; 16]), 0);
    assert_eq!(find_smbios_anchor(&entries, &smb3, &smb), 0x3000);
    assert_eq!(find_smbios_anchor(&entries[..2], &smb3, &smb), 0x2000);
    assert_eq!(find_smbios_anchor(&entries[1..2], &smb3, &smb), 0);
    assert_eq!(memory_map_initial_alloc(1000, 48, 40), 1192);
    assert_eq!(memory_map_retry_alloc(2000, 0), 2002);
    assert_eq!(memory_map_copy_count(4800, 48, 512, 40), Ok(100));
    assert_eq!(memory_map_copy_count(4800, 48, 10, 40), Ok(10));
    assert_eq!(memory_map_copy_count(4800, 32, 10, 40), Err(EfiStatus::Unsupported));
    assert_eq!(kernel_image_pages(0), 1);
    assert_eq!(kernel_image_pages(4096), 1);
    assert_eq!(kernel_image_pages(4097), 2);
    assert_eq!(kernel_read_chunk(10 * 1024 * 1024, 0), 4 * 1024 * 1024);
    assert_eq!(kernel_read_chunk(10 * 1024 * 1024, 8 * 1024 * 1024), 2 * 1024 * 1024);
}

#[test]
fn settings_minus_undoes_plus() {
    let base = Zbm10Cfg::new();
    for line in 0..5usize {
        let mut c = base;
        adjust_setting(&mut c, line, true);
        adjust_setting(&mut c, line, false);
        assert_eq!(c.auto_boot_seconds, base.auto_boot_seconds);
        assert_eq!(c.default_entry, base.default_entry);
        assert_eq!(c.remember_last, base.remember_last);
        assert_eq!(c.chainload_enabled, base.chainload_enabled);
    }
    // At the upper bound `+` saturates, so `-` then lands below the start.
    let mut top = base;
    top.auto_boot_seconds = AUTO_BOOT_MAX_SECONDS;
    adjust_setting(&mut top, 0, true);
    adjust_setting(&mut top, 0, false);
    assert_eq!(top.auto_boot_seconds, AUTO_BOOT_MAX_SECONDS - 5);
}

#[test]
fn console_menu_keys_stay_on_the_rows() {
    let k = |scan_code: u16, unicode_char: u16| MenuKey { scan_code, unicode_char };
    assert_eq!(text_menu_key(0, k(SCAN_UP, 0)), MenuKeyAction::Focus(Focus::Entry(0)));
    assert_eq!(text_menu_key(2, k(SCAN_UP, 0)), MenuKeyAction::Focus(Focus::Entry(1)));
    assert_eq!(text_menu_key(4, k(SCAN_DOWN, 0)), MenuKeyAction::Focus(Focus::Entry(4)));
    assert_eq!(text_menu_key(1, k(SCAN_DOWN, 0)), MenuKeyAction::Focus(Focus::Entry(2)));
    assert_eq!(text_menu_key(1, k(0x0005, 0)), MenuKeyAction::Focus(Focus::Entry(0)));
    assert_eq!(text_menu_key(1, k(0x0006, 0)), MenuKeyAction::Focus(Focus::Entry(4)));
    assert_eq!(text_menu_key(1, k(SCAN_ESC, 0)), MenuKeyAction::Ignore);
    assert_eq!(text_menu_key(1, k(0, 9)), MenuKeyAction::Ignore);
    assert_eq!(text_menu_key(1, k(0, 13)), MenuKeyAction::Activate);
    assert_eq!(text_menu_key(1, k(0, u16::from(b'C'))), MenuKeyAction::OpenSettings);
    assert_eq!(text_menu_key(1, k(0x0012, 0)), MenuKeyAction::OpenSettings);
    assert_eq!(text_menu_key(0, k(0, u16::from(b'4'))), MenuKeyAction::Focus(Focus::Entry(3)));
    assert_eq!(text_menu_key(3, k(0, u16::from(b'b'))), MenuKeyAction::BootDefault);
    assert_eq!(text_menu_key(3, k(0, u16::from(b'x'))), MenuKeyAction::Ignore);
}

#[test]
fn chain_image_sizes() {
    assert!(!chain_image_size_ok(0));
    assert!(chain_image_size_ok(1));
    assert!(chain_image_size_ok(CHAIN_IMAGE_MAX));
    assert!(!chain_image_size_ok(CHAIN_IMAGE_MAX + 1));
}
