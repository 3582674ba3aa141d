use zircon_nt10::desktop::app_host::{AppId, WindowStack, MAX_HOSTED_WINDOWS};
use zircon_nt10::desktop::clipboard::{
    clipboard_format_active, get_clipboard_text_utf8, set_clipboard_hdrop,
    set_clipboard_unicodetext_utf8, ClipState, CF_HDROP, CF_UNICODETEXT, HDROP_CAP, TEXT_CAP,
};
use zircon_nt10::desktop::context_menu_registry::{
    extension_command_at, register_extension_command, ExtensionCommands, MAX_EXT,
};
use zircon_nt10::desktop::dwm::{CompositorSurface, DirtyRect, DwmCompositor, HWND_LAYER_COUNT};
use zircon_nt10::desktop::explorer_view::{paint_files_client, paint_window_chrome, shell_namespace_entry_count_smoke, ExplorerLayout};
use zircon_nt10::desktop::hosted_apps::{paint_calc_client, paint_controlpanel_client, paint_notepad_client, paint_properties_client, paint_run_client, paint_settings_client, paint_taskmgr_client, stack_from_bytes, stack_to_bytes, FileListing, HostUiState};
use zircon_nt10::desktop::shell_namespace::RootShellFolder;
use zircon_nt10::boot_protocol::FramebufferInfo;
use zircon_nt10::desktop::draw::{BitmapAsset, DrawOp, Rgb};
use zircon_nt10::desktop::shell::{
    desktop_shortcut_hit, paint_context_menu, paint_desktop_chrome, paint_notification_flyout, paint_power_confirm,
    paint_taskbar_context_menu,
    DesktopChromeState,
    FLYOUT_KIND_CALENDAR_STUB, FLYOUT_KIND_NONE,
};
use zircon_nt10::desktop::session_win32::{
    handle_left_down, handle_right_down, nc_hit_test_test_window, NcHit, Win32Hit, Win32LeftDown, Win32ShellState,
};
use zircon_nt10::desktop::taskbar::{HitRect, TaskbarLayout};
use zircon_nt10::desktop::wall_clock::{decode_rtc, format_clock_lines, from_bcd, CmosRegisters, RtcSnapshot};

#[test]
fn dirty_merge_and_commit() {
    let mut c = DwmCompositor::new();
    c.attach_framebuffer(4, 4);
    c.mark_dirty(DirtyRect { x0: 0, y0: 0, x1: 2, y1: 2 });
    c.mark_dirty(DirtyRect { x0: 2, y0: 2, x1: 4, y1: 4 });
    let mut px = [0u8; 64];
    assert!(c.commit_dirty_flat_bgra(&mut px, 4, [9, 8, 7, 6]).is_ok());
    assert_eq!(px[0], 9);
}

#[test]
fn shell_namespace_smoke_lists_children() {
    assert_eq!(shell_namespace_entry_count_smoke(), 2);
}

#[test]
fn dirty_merge_is_bounding_box() {
    let a = DirtyRect { x0: 5, y0: 1, x1: 9, y1: 3 };
    let b = DirtyRect { x0: 2, y0: 4, x1: 6, y1: 8 };
    let u = DirtyRect::union(a, b);
    assert_eq!(u, DirtyRect { x0: 2, y0: 1, x1: 9, y1: 8 });
    assert_eq!(DirtyRect::union(b, a), u);
    assert_eq!(DirtyRect::union(a, a), a);
    let mut c = DwmCompositor::new();
    c.mark_dirty(a);
    c.mark_dirty(b);
    assert_eq!(c.take_merged_dirty(), Some(u));
    assert_eq!(c.take_merged_dirty(), None);
}

#[test]
fn commit_without_root_keeps_damage() {
    let mut c = DwmCompositor::new();
    c.mark_dirty(DirtyRect { x0: 0, y0: 0, x1: 1, y1: 1 });
    let mut px = [0u8; 16];
    assert!(c.commit_dirty_flat_bgra(&mut px, 1, [1, 2, 3, 4]).is_ok());
    assert_eq!(px, [0u8; 16]);
    assert!(c.pending_dirty.is_some());
}

#[test]
fn commit_fills_only_dirty_pixels() {
    let mut c = DwmCompositor::new();
    c.attach_framebuffer(4, 4);
    c.mark_dirty(DirtyRect { x0: 1, y0: 1, x1: 2, y1: 2 });
    let mut px = [0u8; 64];
    assert!(c.commit_dirty_flat_bgra(&mut px, 4, [9, 8, 7, 6]).is_ok());
    let off = (1 * 4 + 1) * 4;
    assert_eq!(&px[off..off + 4], &[9, 8, 7, 6]);
    assert_eq!(px[0], 0);
    assert!(c.pending_dirty.is_none());
}

#[test]
fn commit_rejects_short_buffer() {
    let mut c = DwmCompositor::new();
    c.attach_framebuffer(4, 4);
    c.mark_dirty(DirtyRect { x0: 0, y0: 0, x1: 4, y1: 4 });
    let mut px = [0u8; 8];
    assert!(c.commit_dirty_flat_bgra(&mut px, 4, [9, 8, 7, 6]).is_err());
}

#[test]
fn hwnd_layers_fill_in_order() {
    let mut c = DwmCompositor::new();
    for i in 0..HWND_LAYER_COUNT {
        assert!(c.attach_hwnd_layer(CompositorSurface::for_hwnd(10, 10, i as u64 + 1, 1)).is_ok());
        assert_eq!(c.hwnd_layers[i].unwrap().owner_hwnd, i as u64 + 1);
    }
    assert!(c.attach_hwnd_layer(CompositorSurface::for_hwnd(10, 10, 99, 1)).is_err());
}

#[test]
fn window_stack_push_focus_and_evict() {
    let mut s = WindowStack::new();
    assert_eq!(s.top(), None);
    s.push_front(AppId::Files);
    s.push_front(AppId::Notepad);
    s.push_front(AppId::Files);
    assert_eq!(s.len, 2);
    assert_eq!(s.top(), Some(AppId::Files));
    assert_eq!(s.ids[0], AppId::Notepad);
    let all = [
        AppId::TaskMgr,
        AppId::Settings,
        AppId::ControlPanel,
        AppId::Run,
        AppId::Calculator,
        AppId::About,
        AppId::Properties,
    ];
    for a in all {
        s.push_front(a);
    }
    assert_eq!(s.len as usize, MAX_HOSTED_WINDOWS);
    assert_eq!(s.top(), Some(AppId::Properties));
    assert!(!s.contains(AppId::Notepad));
    assert!(s.contains(AppId::Files));
    assert_eq!(s.pop_top(), Some(AppId::Properties));
    assert_eq!(s.len as usize, MAX_HOSTED_WINDOWS - 1);
}

#[test]
fn window_stack_remove_and_clear() {
    let mut s = WindowStack::new();
    s.push_front(AppId::Run);
    s.push_front(AppId::About);
    s.push_front(AppId::Settings);
    s.remove(AppId::About);
    assert_eq!(s.len, 2);
    assert_eq!(s.ids[0], AppId::Run);
    assert_eq!(s.ids[1], AppId::Settings);
    assert!(!s.contains(AppId::About));
    s.remove(AppId::Notepad);
    assert_eq!(s.len, 2);
    s.clear();
    assert_eq!(s.pop_top(), None);
}

#[test]
fn pop_after_push_returns_pushed() {
    let mut s = WindowStack::new();
    s.push_front(AppId::Calculator);
    s.push_front(AppId::Run);
    s.push_front(AppId::Calculator);
    assert_eq!(s.pop_top(), Some(AppId::Calculator));
    assert_eq!(s.pop_top(), Some(AppId::Run));
    assert_eq!(s.pop_top(), None);
}

#[test]
fn app_codes_round_trip() {
    for v in 0u8..9 {
        assert_eq!(AppId::from_u8(v).unwrap().to_u8(), v);
        assert_eq!(AppId::from_u8(v).unwrap().title_idx(), v as usize);
    }
    assert_eq!(AppId::from_u8(9), None);
    assert_eq!(AppId::from_menu_row(8), Some(AppId::Files));
    assert_eq!(AppId::from_menu_row(9), Some(AppId::About));
    assert_eq!(AppId::from_menu_row(10), None);
    assert_eq!(AppId::from_menu_row(0), None);
}

#[test]
fn stack_bytes_round_trip() {
    let mut s = WindowStack::new();
    s.push_front(AppId::Notepad);
    s.push_front(AppId::TaskMgr);
    s.push_front(AppId::Properties);
    let (len, bytes) = stack_to_bytes(&s);
    assert_eq!(len, 3);
    assert_eq!(bytes, [5, 1, 8, 0, 0, 0, 0, 0]);
    let back = stack_from_bytes(len, &bytes);
    assert_eq!(back.len, 3);
    assert_eq!(&back.ids[..3], &s.ids[..3]);
    let odd = stack_from_bytes(20, &[42, 1, 1, 1, 1, 1, 1, 1]);
    assert_eq!(odd.len, 8);
    assert_eq!(odd.ids[0], AppId::Files);
}

#[test]
fn clipboard_text_round_trip() {
    let mut c = ClipState::empty();
    assert_eq!(clipboard_format_active(&c), 0);
    let mut dst = [0u8; 8];
    assert_eq!(get_clipboard_text_utf8(&c, &mut dst), None);
    assert!(set_clipboard_unicodetext_utf8(&mut c, b"hello").is_ok());
    assert_eq!(clipboard_format_active(&c), CF_UNICODETEXT);
    assert_eq!(get_clipboard_text_utf8(&c, &mut dst), Some(5));
    assert_eq!(&dst[..5], b"hello");
    let mut small = [0u8; 2];
    assert_eq!(get_clipboard_text_utf8(&c, &mut small), Some(2));
    assert_eq!(&small, b"he");
    let big = vec![b'a'; TEXT_CAP + 1];
    assert!(set_clipboard_unicodetext_utf8(&mut c, &big).is_err());
    assert_eq!(get_clipboard_text_utf8(&c, &mut dst), Some(5));
}

#[test]
fn clipboard_hdrop_switches_format() {
    let mut c = ClipState::empty();
    assert!(set_clipboard_unicodetext_utf8(&mut c, b"x").is_ok());
    assert!(set_clipboard_hdrop(&mut c, &[1, 2, 3]).is_ok());
    assert_eq!(clipboard_format_active(&c), CF_HDROP);
    let mut dst = [0u8; 4];
    assert_eq!(get_clipboard_text_utf8(&c, &mut dst), None);
    let big = vec![0u8; HDROP_CAP + 1];
    assert!(set_clipboard_hdrop(&mut c, &big).is_err());
    assert_eq!(clipboard_format_active(&c), CF_HDROP);
}

#[test]
fn extension_commands_fill_slots() {
    let mut reg = ExtensionCommands::new();
    for i in 0..MAX_EXT {
        assert_eq!(register_extension_command(&mut reg, 100 + i as u32), Ok(i));
    }
    assert!(register_extension_command(&mut reg, 999).is_err());
    assert_eq!(extension_command_at(&reg, 0), Some(100));
    assert_eq!(extension_command_at(&reg, MAX_EXT), None);
}

#[test]
fn root_folder_children() {
    let r = RootShellFolder;
    assert_eq!(r.children(), vec!["Zircon Files", "This PC"]);
    assert_eq!(r.enumerate_into(1), 1);
    assert_eq!(r.enumerate_into(0), 0);
    assert_eq!(r.enumerate_into(10), 2);
}

#[test]
fn hit_rect_contains_is_half_open() {
    let r = HitRect { x: 10, y: 20, w: 5, h: 5 };
    assert!(r.contains(10, 20));
    assert!(r.contains(14, 24));
    assert!(!r.contains(15, 24));
    assert!(!r.contains(14, 25));
    assert!(!r.contains(9, 20));
}

#[test]
fn bcd_and_rtc_decode() {
    assert_eq!(from_bcd(0x59), 59);
    assert_eq!(from_bcd(0x00), 0);
    let regs = CmosRegisters {
        status_b: 2,
        seconds: 0x30,
        minutes: 0x45,
        hours: 0x13,
        day: 0x31,
        month: 0x12,
        year: 0x24,
    };
    assert_eq!(
        decode_rtc(regs),
        Some(RtcSnapshot { hour: 13, minute: 45, second: 30, year: 2024, month: 12, day: 31 })
    );
    let pm = CmosRegisters { status_b: 0, hours: 0x81, ..regs };
    assert_eq!(decode_rtc(pm).unwrap().hour, 13);
    let midnight = CmosRegisters { status_b: 0, hours: 0x12, ..regs };
    assert_eq!(decode_rtc(midnight).unwrap().hour, 0);
    let bad = CmosRegisters { month: 0x13, ..regs };
    assert_eq!(decode_rtc(bad), None);
}

#[test]
fn clock_lines_from_rtc_and_uptime() {
    let mut t = [0u8; 16];
    let mut d = [0u8; 20];
    let rtc = RtcSnapshot { hour: 9, minute: 5, second: 7, year: 2025, month: 3, day: 14 };
    let (nt, nd) = format_clock_lines(Some(rtc), 0, &mut t, &mut d);
    assert_eq!(&t[..nt], b"09:05:07");
    assert_eq!(&d[..nd], b"2025/03/14");
    let (nt, nd) = format_clock_lines(None, 3661, &mut t, &mut d);
    assert_eq!(&t[..nt], b"01:01:01");
    assert_eq!(&d[..nd], b"2020/01/01");
}

#[test]
fn desktop_shortcut_slots_stack_down_the_left_column() {
    // Bar top at 720, so slots must end by 708; 58-pixel slots with 10-pixel gaps.
    let l = TaskbarLayout::for_surface(1024, 768);
    assert_eq!(l.bar.y, 720);
    assert_eq!(desktop_shortcut_hit(16, 16, &l, 32, 20, 4), Some(0));
    assert_eq!(desktop_shortcut_hit(167, 73, &l, 32, 20, 4), Some(0));
    assert_eq!(desktop_shortcut_hit(168, 20, &l, 32, 20, 4), None);
    assert_eq!(desktop_shortcut_hit(20, 80, &l, 32, 20, 4), None);
    assert_eq!(desktop_shortcut_hit(20, 84, &l, 32, 20, 4), Some(1));
    assert_eq!(desktop_shortcut_hit(20, 220, &l, 32, 20, 4), Some(3));
    assert_eq!(desktop_shortcut_hit(20, 300, &l, 32, 20, 4), None);
    assert_eq!(desktop_shortcut_hit(20, 220, &l, 32, 20, 3), None);
    // A short surface leaves room for no slot at all.
    let tiny = TaskbarLayout::for_surface(1024, 100);
    assert_eq!(desktop_shortcut_hit(20, 20, &tiny, 32, 20, 4), None);
}

fn fb(w: u32, h: u32) -> FramebufferInfo {
    FramebufferInfo { base: 0x8000_0000, size: (w * h * 4) as usize, horizontal_resolution: w, vertical_resolution: h, pixels_per_scan_line: w, pixel_format: 1 }
}

#[test]
fn taskbar_paint_plan() {
    let l = TaskbarLayout::for_surface(1024, 768);
    let mut st = DesktopChromeState::default();
    st.clock_time[..8].copy_from_slice(b"12:34:56");
    st.clock_time_n = 8;
    st.clock_date[..10].copy_from_slice(b"2024/05/01");
    st.clock_date_n = 10;
    let mut stack = WindowStack::new();
    stack.push_front(AppId::Files);
    stack.push_front(AppId::Notepad);
    let ops = paint_desktop_chrome(&fb(1024, 768), &l, &st, &stack);
    // bar, Start, Start inset, 2 + 2 + 1 + 1 + 1 task buttons, clock area, 3 x 2 tray, 2 text lines, strip
    assert_eq!(ops.len(), 20);
    match &ops[0] {
        DrawOp::Fill { x, y, w, h, color } => {
            assert_eq!((*x, *y, *w, *h), (0, 720, 1024, 48));
            assert_eq!(*color, Rgb { r: 0x20, g: 0x20, b: 0x28 });
        }
        other => panic!("unexpected {:?}", other),
    }
    match &ops[2] {
        DrawOp::Fill { x, y, w, h, .. } => assert_eq!((*x, *y, *w, *h), (12, 732, 28, 24)),
        other => panic!("unexpected {:?}", other),
    }
    match (&ops[3], &ops[4], &ops[5], &ops[6]) {
        (DrawOp::Fill { color: c0, .. }, DrawOp::Glyph { ch: n, .. }, DrawOp::Fill { color: c1, .. }, DrawOp::Glyph { ch: f, .. }) => {
            assert_eq!(*c0, Rgb { r: 0x00, g: 0x78, b: 0xd7 });
            assert_eq!(*n, b'N');
            assert_eq!(*c1, Rgb { r: 0x2c, g: 0x2c, b: 0x36 });
            assert_eq!(*f, b'F');
        }
        other => panic!("unexpected {:?}", other),
    }
    match (&ops[17], &ops[18]) {
        (DrawOp::Text { text: t, scale: 2, .. }, DrawOp::Text { text: d, scale: 1, .. }) => {
            assert_eq!(t.as_slice(), b"12:34:56");
            assert_eq!(d.as_slice(), b"2024/05/01");
        }
        other => panic!("unexpected {:?}", other),
    }
    match &ops[19] {
        DrawOp::Fill { x, y, w, h, .. } => assert_eq!((*x, *y, *w, *h), (1019, 720, 5, 48)),
        other => panic!("unexpected {:?}", other),
    }
    // Start lights up while its menu is open; nothing is planned without pixels.
    st.menu_open = true;
    let lit = paint_desktop_chrome(&fb(1024, 768), &l, &st, &WindowStack::new());
    assert_eq!(lit.len(), 3 + 5 + 1 + 6 + 2 + 1);
    match &lit[1] {
        DrawOp::Fill { color, .. } => assert_eq!(*color, Rgb { r: 0x50, g: 0xc8, b: 0xff }),
        other => panic!("unexpected {:?}", other),
    }
    assert_eq!(paint_desktop_chrome(&fb(0, 768), &l, &st, &stack).len(), 0);
}

#[test]
fn notification_flyout_paint_plan() {
    let f = fb(1024, 768);
    assert_eq!(paint_notification_flyout(&f, FLYOUT_KIND_NONE, 900, 730).len(), 0);
    let ops = paint_notification_flyout(&f, FLYOUT_KIND_CALENDAR_STUB, 900, 730);
    assert_eq!(ops.len(), 4);
    // 280 x 118 panel centred on the anchor, kept on screen, 6 px above it.
    match &ops[0] {
        DrawOp::Fill { x, y, w, h, .. } => assert_eq!((*x, *y, *w, *h), (744, 606, 280, 118)),
        other => panic!("unexpected {:?}", other),
    }
    match (&ops[2], &ops[3]) {
        (DrawOp::Text { x, y, max_w, text, .. }, DrawOp::Text { y: y2, text: cap, .. }) => {
            assert_eq!((*x, *y, *max_w), (756, 620, 256));
            assert_eq!(text.as_slice(), b"Calendar (stub)");
            assert_eq!(*y2, 646);
            assert_eq!(cap.as_slice(), b"Tray / clock flyout");
        }
        other => panic!("unexpected {:?}", other),
    }
    match &paint_notification_flyout(&f, 2, 100, 730)[2] {
        DrawOp::Text { text, .. } => assert_eq!(text.as_slice(), b"Volume (stub)"),
        other => panic!("unexpected {:?}", other),
    }
}

#[test]
fn taskbar_context_menu_paint_plan() {
    let f = fb(1024, 768);
    let ops = paint_taskbar_context_menu(&f, 900, 700, 1);
    assert_eq!(ops.len(), 2 + 4 * 2);
    match &ops[0] {
        DrawOp::Fill { x, y, w, h, .. } => assert_eq!((*x, *y, *w, *h), (784, 608, 240, 160)),
        other => panic!("unexpected {:?}", other),
    }
    let faces: Vec<Rgb> = (0..4)
        .map(|i| match &ops[2 + 2 * i] {
            DrawOp::Fill { color, .. } => *color,
            other => panic!("unexpected {:?}", other),
        })
        .collect();
    let accent = Rgb { r: 0x00, g: 0x78, b: 0xd7 };
    let plain = Rgb { r: 0x36, g: 0x36, b: 0x40 };
    assert_eq!(faces, vec![plain, accent, plain, plain]);
    match &ops[3] {
        DrawOp::Text { x, y, max_w, text, .. } => {
            assert_eq!((*x, *y, *max_w), (794, 621, 216));
            assert_eq!(text.as_slice(), b"Task Manager");
        }
        other => panic!("unexpected {:?}", other),
    }
    match &ops[9] {
        DrawOp::Text { y, text, .. } => {
            assert_eq!(*y, 741);
            assert_eq!(text.as_slice(), b"Taskbar settings (stub)");
        }
        other => panic!("unexpected {:?}", other),
    }
    // A selection past the end highlights the last row.
    match &paint_taskbar_context_menu(&f, 0, 0, 9)[8] {
        DrawOp::Fill { color, .. } => assert_eq!(*color, accent),
        other => panic!("unexpected {:?}", other),
    }
    let mut dark = f;
    dark.base = 0;
    assert_eq!(paint_taskbar_context_menu(&dark, 0, 0, 0).len(), 0);
}

#[test]
fn power_dialog_paint_plan() {
    let ops = paint_power_confirm(&TaskbarLayout::for_surface(1024, 768));
    assert_eq!(ops.len(), 4);
    match (&ops[0], &ops[2], &ops[3]) {
        (DrawOp::Fill { x, y, w, h, .. }, DrawOp::Text { x: tx, y: ty, max_w, text: t1, .. }, DrawOp::Text { y: ty2, text: t2, .. }) => {
            assert_eq!((*x, *y, *w, *h), (352, 300, 320, 120));
            assert_eq!((*tx, *ty, *max_w), (368, 324, 288));
            assert_eq!(t1.as_slice(), b"Power actions use firmware.");
            assert_eq!(*ty2, 344);
            assert_eq!(t2.as_slice(), b"(stub - no shutdown from shell)");
        }
        other => panic!("unexpected {:?}", other),
    }
}

#[test]
fn dirty_marks_fold_left_to_right() {
    let rs = [
        DirtyRect { x0: 10, y0: 10, x1: 20, y1: 20 },
        DirtyRect { x0: 5, y0: 30, x1: 8, y1: 40 },
        DirtyRect { x0: 50, y0: 2, x1: 60, y1: 3 },
    ];
    let mut c = DwmCompositor::new();
    assert_eq!(c.take_merged_dirty(), None);
    for r in rs {
        c.mark_dirty(r);
    }
    assert_eq!(c.take_merged_dirty(), Some(DirtyRect { x0: 5, y0: 2, x1: 60, y1: 40 }));
    assert_eq!(c.take_merged_dirty(), None);
}

fn overlay() -> Win32ShellState {
    let mut s = Win32ShellState::default();
    s.desktop_ready = true;
    s.hwnd_wallpaper = 1;
    s.hwnd_taskbar = 2;
    s.hwnd_icon = 3;
    s.hwnd_test = 4;
    s.hwnd_clock = 5;
    s.hwnd_menu = 6;
    s.test_win_x = 100;
    s.test_win_y = 100;
    s
}

fn hit_on(topmost: Option<u64>) -> Win32Hit {
    Win32Hit { topmost, clock_minimized: true, test_minimized: false, title_px: 24, surf_h: 120 }
}

#[test]
fn overlay_left_press_menu_drag_and_clock() {
    let l = TaskbarLayout::for_surface(1024, 768);
    let mut stack = WindowStack::new();
    let mut off = Win32ShellState::default();
    assert_eq!(handle_left_down(&mut off, &mut stack, 10, 10, &l, &hit_on(Some(4))), Win32LeftDown::NotConsumed);

    let mut s = overlay();
    s.win32_menu_open = true;
    s.win32_menu_x = 100;
    s.win32_menu_y = 100;
    assert_eq!(handle_left_down(&mut s, &mut stack, 150, 185, &l, &hit_on(None)), Win32LeftDown::MenuCommand { row: 2 });
    assert_eq!(s.win32_menu_sel, 2);
    assert_eq!(handle_left_down(&mut s, &mut stack, 400, 400, &l, &hit_on(None)), Win32LeftDown::MenuDismissed);
    assert!(!s.win32_menu_open);

    s.capture_hwnd = Some(4);
    s.dragging = true;
    assert_eq!(handle_left_down(&mut s, &mut stack, 400, 400, &l, &hit_on(None)), Win32LeftDown::DragEnded);
    assert_eq!((s.capture_hwnd, s.dragging), (None, false));

    s.capture_hwnd = Some(9);
    assert_eq!(handle_left_down(&mut s, &mut stack, 400, 400, &l, &hit_on(None)), Win32LeftDown::NotConsumed);
    assert_eq!(s.capture_hwnd, None);

    assert_eq!(handle_left_down(&mut s, &mut stack, 400, 400, &l, &hit_on(Some(6))), Win32LeftDown::MenuWindow);
    let mut open_clock = hit_on(Some(5));
    open_clock.clock_minimized = false;
    assert_eq!(handle_left_down(&mut s, &mut stack, 900, 700, &l, &open_clock), Win32LeftDown::ClockClosed);
    assert!(!s.clock_open);
    // The clock text sits at x 940..1016, y 726..762; opening places the popup above the bar.
    assert_eq!(
        handle_left_down(&mut s, &mut stack, 950, 740, &l, &hit_on(Some(2))),
        Win32LeftDown::ClockToggled { open: true, x: 932, y: 664 }
    );
    assert!(s.clock_open);
}

#[test]
fn overlay_left_press_task_buttons_and_test_window() {
    let l = TaskbarLayout::for_surface(1024, 768);
    let mut s = overlay();
    let mut stack = WindowStack::new();
    stack.push_front(AppId::Files);
    stack.push_front(AppId::Notepad);
    // Task buttons are 56 px wide from x = 58, 4 px apart, at y 726..762.
    assert_eq!(
        handle_left_down(&mut s, &mut stack, 120, 730, &l, &hit_on(Some(2))),
        Win32LeftDown::TaskRestored { app: AppId::Files }
    );
    assert_eq!(stack.top(), Some(AppId::Files));
    assert_eq!(
        handle_left_down(&mut s, &mut stack, 60, 730, &l, &hit_on(Some(2))),
        Win32LeftDown::TaskMinimized { app: AppId::Files }
    );
    assert_eq!(stack.top(), Some(AppId::Notepad));
    stack.remove(AppId::Notepad);
    assert_eq!(
        handle_left_down(&mut s, &mut stack, 60, 730, &l, &hit_on(Some(2))),
        Win32LeftDown::TestWindowToggled { minimize: true }
    );
    assert_eq!(handle_left_down(&mut s, &mut stack, 120, 730, &l, &hit_on(Some(2))), Win32LeftDown::NotConsumed);

    // Test window at (100, 100), 200 x 120, with a 24-pixel title bar.
    assert_eq!(nc_hit_test_test_window(&s, 50, 50, 24, 120), NcHit::Nowhere);
    assert_eq!(nc_hit_test_test_window(&s, 295, 160, 24, 120), NcHit::Border);
    assert_eq!(handle_left_down(&mut s, &mut stack, 150, 160, &l, &hit_on(Some(4))), Win32LeftDown::ClientClick);
    assert_eq!(handle_left_down(&mut s, &mut stack, 295, 160, &l, &hit_on(Some(4))), Win32LeftDown::NotConsumed);
    assert_eq!(handle_left_down(&mut s, &mut stack, 150, 110, &l, &hit_on(Some(4))), Win32LeftDown::DragStarted);
    assert!(s.dragging);
    assert_eq!(s.capture_hwnd, Some(4));
    assert_eq!((s.drag_anchor_x, s.drag_anchor_y), (150, 110));
}

#[test]
fn overlay_right_press_opens_menu() {
    let l = TaskbarLayout::for_surface(1024, 768);
    let mut off = Win32ShellState::default();
    assert!(!handle_right_down(&mut off, 500, 300, &l, None, 1024, 768));
    let mut s = overlay();
    assert!(!handle_right_down(&mut s, 500, 740, &l, None, 1024, 768));
    assert!(!handle_right_down(&mut s, 500, 300, &l, Some(4), 1024, 768));
    assert!(!s.win32_menu_open);
    assert!(handle_right_down(&mut s, 1000, 700, &l, None, 1024, 768));
    assert!(s.win32_menu_open);
    assert_eq!((s.win32_menu_x, s.win32_menu_y, s.win32_menu_sel), (824, 608, 0));
}

fn frame() -> ExplorerLayout {
    let r = HitRect { x: 96, y: 60, w: 408, h: 344 };
    ExplorerLayout {
        window: r,
        title_bar: HitRect { x: 96, y: 60, w: 408, h: 36 },
        close_btn: HitRect { x: 468, y: 64, w: 28, h: 28 },
        client: HitRect { x: 100, y: 100, w: 400, h: 300 },
    }
}

fn text_of(op: &DrawOp) -> Vec<u8> {
    match op {
        DrawOp::Text { text, .. } => text.clone(),
        other => panic!("unexpected {:?}", other),
    }
}

#[test]
fn task_manager_paint_plan() {
    let el = frame();
    let mut ui = HostUiState::with_listing(FileListing { rows: vec![] });
    ui.taskmgr.sel = 5;
    let ops = paint_taskmgr_client(&el, &ui, &[7, 1_234_567_890_123_456], 99);
    // background, strip, two tabs with labels, column header, two rows of face + text
    assert_eq!(ops.len(), 6 + 1 + 4);
    assert_eq!(text_of(&ops[3]), b"Processes".to_vec());
    assert_eq!(text_of(&ops[6]), b"Name          PID   State".to_vec());
    assert_eq!(text_of(&ops[8]), b"Thread 7  Ready".to_vec());
    // only the last twelve digits of a long id are shown
    assert_eq!(text_of(&ops[10]), b"Thread 567890123456  Ready".to_vec());
    match (&ops[7], &ops[9]) {
        (DrawOp::Fill { x, y, w, h, color: c0 }, DrawOp::Fill { y: y1, color: c1, .. }) => {
            assert_eq!((*x, *y, *w, *h, *y1), (104, 152, 392, 20, 174));
            // the selection is clamped to the last row
            assert_eq!(*c0, Rgb { r: 0x32, g: 0x32, b: 0x3c });
            assert_eq!(*c1, Rgb { r: 0x00, g: 0x58, b: 0xa0 });
        }
        other => panic!("unexpected {:?}", other),
    }
    let empty = paint_taskmgr_client(&el, &ui, &[], 99);
    assert_eq!(empty.len(), 8);
    assert_eq!(text_of(&empty[7]), b"(no RR threads - run non-UEFI timer path)".to_vec());

    ui.taskmgr.tab = 1;
    let perf = paint_taskmgr_client(&el, &ui, &[7], 0);
    assert_eq!(perf.len(), 8);
    assert_eq!(text_of(&perf[6]), b"Timer ticks: 0".to_vec());
    match &perf[7] {
        DrawOp::Fill { x, y, w, h, .. } => assert_eq!((*x, *y, *w, *h), (112, 174, 200, 8)),
        other => panic!("unexpected {:?}", other),
    }
    match &perf[2] {
        DrawOp::Fill { color, .. } => assert_eq!(*color, Rgb { r: 0x40, g: 0x40, b: 0x48 }),
        other => panic!("unexpected {:?}", other),
    }
}

#[test]
fn run_and_calculator_paint_plans() {
    let el = frame();
    let mut ui = HostUiState::with_listing(FileListing { rows: vec![] });
    let ops = paint_run_client(&el, &ui);
    assert_eq!(ops.len(), 3 + 4);
    assert_eq!(text_of(&ops[1]), b"Open:".to_vec());
    // OK and Cancel sit 168 px from the right edge, 40 px from the bottom.
    match (&ops[3], &ops[5]) {
        (DrawOp::Fill { x, y, w, h, .. }, DrawOp::Fill { x: cx, .. }) => {
            assert_eq!((*x, *y, *w, *h, *cx), (332, 360, 72, 28, 412));
        }
        other => panic!("unexpected {:?}", other),
    }
    assert_eq!(text_of(&ops[6]), b"Cancel".to_vec());
    ui.run.buf[..7].copy_from_slice(b"notepad");
    ui.run.len = 7;
    let typed = paint_run_client(&el, &ui);
    assert_eq!(typed.len(), 8);
    assert_eq!(text_of(&typed[3]), b"notepad".to_vec());

    ui.calculator.entry = -1205;
    let calc = paint_calc_client(&el, &ui);
    assert_eq!(calc.len(), 4);
    assert_eq!(text_of(&calc[2]), b"-1205".to_vec());
    ui.calculator.entry = 0;
    assert_eq!(text_of(&paint_calc_client(&el, &ui)[2]), b"0".to_vec());
    ui.calculator.entry = i64::MIN;
    assert_eq!(text_of(&paint_calc_client(&el, &ui)[2]), b"-9223372036854775808".to_vec());
}

#[test]
fn settings_paint_plan() {
    let el = frame();
    let mut ui = HostUiState::with_listing(FileListing { rows: vec![] });
    ui.settings.cat = 1;
    ui.settings.toggles[0] = true;
    ui.settings.toggles[1] = false;
    let ops = paint_settings_client(&el, &ui);
    // two backgrounds, six categories, the caption, four toggles
    assert_eq!(ops.len(), 2 + 12 + 1 + 12);
    match (&ops[1], &ops[2], &ops[4]) {
        (DrawOp::Fill { w: split, .. }, DrawOp::Fill { color: c0, .. }, DrawOp::Fill { x, y, w, h, color: c1 }) => {
            assert_eq!(*split, 133);
            assert_eq!(*c0, Rgb { r: 0x2e, g: 0x2e, b: 0x36 });
            assert_eq!((*x, *y, *w, *h), (104, 140, 125, 28));
            assert_eq!(*c1, Rgb { r: 0x00, g: 0x78, b: 0xd7 });
        }
        other => panic!("unexpected {:?}", other),
    }
    assert_eq!(text_of(&ops[5]), b"Devices".to_vec());
    assert_eq!(text_of(&ops[14]), b"Category options (stub toggles)".to_vec());
    match (&ops[15], &ops[16], &ops[19]) {
        (DrawOp::Fill { x, y, w, h, .. }, DrawOp::Fill { x: sx, y: sy, color: on, .. }, DrawOp::Fill { color: off, .. }) => {
            assert_eq!((*x, *y, *w, *h, *sx, *sy), (241, 140, 251, 30, 444, 146));
            assert_eq!(*on, Rgb { r: 0x00, g: 0x78, b: 0xd7 });
            assert_eq!(*off, Rgb { r: 0x55, g: 0x78, b: 0xd7 });
        }
        other => panic!("unexpected {:?}", other),
    }
    assert_eq!(text_of(&ops[17]), b"Night mode".to_vec());
    assert_eq!(text_of(&ops[26]), b"Location".to_vec());
}

#[test]
fn control_panel_paint_plan() {
    let el = frame();
    let mut ui = HostUiState::with_listing(FileListing { rows: vec![] });
    ui.control.open_sub = None;
    ui.control.sel = 3;
    let ops = paint_controlpanel_client(&el, &ui);
    assert_eq!(ops.len(), 1 + 8);
    let tiles: Vec<(u32, u32)> = [1usize, 3, 5, 7]
        .iter()
        .map(|&k| match &ops[k] {
            DrawOp::Fill { x, y, w, h, .. } => {
                assert_eq!((*w, *h), (180, 130));
                (*x, *y)
            }
            other => panic!("unexpected {:?}", other),
        })
        .collect();
    assert_eq!(tiles, vec![(112, 112), (300, 112), (112, 250), (300, 250)]);
    match (&ops[1], &ops[7], &ops[2]) {
        (DrawOp::Fill { color: off, .. }, DrawOp::Fill { color: on, .. }, DrawOp::Text { x, y, max_w, .. }) => {
            assert_eq!(*off, Rgb { r: 0x36, g: 0x36, b: 0x40 });
            assert_eq!(*on, Rgb { r: 0x00, g: 0x78, b: 0xd7 });
            assert_eq!((*x, *y, *max_w), (162, 173, 172));
        }
        other => panic!("unexpected {:?}", other),
    }
    assert_eq!(text_of(&ops[2]), b"Display".to_vec());
    assert_eq!(text_of(&ops[8]), b"Programs".to_vec());

    ui.control.open_sub = Some(1);
    let sub = paint_controlpanel_client(&el, &ui);
    assert_eq!(sub.len(), 3);
    match &sub[1] {
        DrawOp::Fill { x, y, w, h, .. } => assert_eq!((*x, *y, *w, *h), (108, 108, 384, 284)),
        other => panic!("unexpected {:?}", other),
    }
    assert_eq!(text_of(&sub[2]), b"Sound settings (stub)".to_vec());
    ui.control.open_sub = Some(9);
    assert_eq!(text_of(&paint_controlpanel_client(&el, &ui)[2]), b"Programs (stub)".to_vec());
}

#[test]
fn properties_paint_plan() {
    let el = frame();
    let mut ui = HostUiState::with_listing(FileListing { rows: vec![] });
    ui.properties.target_line = 0;
    let ops = paint_properties_client(&el, &ui);
    assert_eq!(ops.len(), 3);
    assert_eq!(text_of(&ops[1]), b"Item properties (stub)".to_vec());
    assert_eq!(text_of(&ops[2]), b"Target row index: 0".to_vec());
    ui.properties.target_line = 1234;
    assert_eq!(text_of(&paint_properties_client(&el, &ui)[2]), b"Target row index: 1234".to_vec());
    // only the last eight digits are shown
    ui.properties.target_line = 123_456_789;
    assert_eq!(text_of(&paint_properties_client(&el, &ui)[2]), b"Target row index: 23456789".to_vec());
}

fn notepad_with(text: &[u8]) -> HostUiState {
    let mut ui = HostUiState::with_listing(FileListing { rows: vec![] });
    ui.notepad.buf = [0u8; 512];
    ui.notepad.buf[..text.len()].copy_from_slice(text);
    ui.notepad.len = text.len();
    ui
}

fn lines_of(ops: &[DrawOp]) -> Vec<(u32, Vec<u8>)> {
    ops[2..]
        .iter()
        .map(|op| match op {
            DrawOp::Text { x, y, max_w, text, .. } => {
                assert_eq!((*x, *max_w), (116, 368));
                (*y, text.clone())
            }
            other => panic!("unexpected {:?}", other),
        })
        .collect()
}

#[test]
fn notepad_paint_plan() {
    let el = frame();
    let ops = paint_notepad_client(&el, &notepad_with(b"ab\n\ncd"));
    match &ops[1] {
        DrawOp::Fill { x, y, w, h, .. } => assert_eq!((*x, *y, *w, *h), (108, 108, 384, 284)),
        other => panic!("unexpected {:?}", other),
    }
    // the empty line takes its height but draws nothing
    assert_eq!(lines_of(&ops), vec![(116, b"ab".to_vec()), (136, b"cd".to_vec())]);
    // 400 px wide: 40 characters per line
    let long = [b'x'; 45];
    assert_eq!(
        lines_of(&paint_notepad_client(&el, &notepad_with(&long))),
        vec![(116, vec![b'x'; 40]), (126, vec![b'x'; 5])]
    );
    assert_eq!(lines_of(&paint_notepad_client(&el, &notepad_with(&long[..40]))), vec![(116, vec![b'x'; 40])]);
    assert_eq!(lines_of(&paint_notepad_client(&el, &notepad_with(b""))), vec![]);
    // a short page stops at its bottom margin
    let mut short = frame();
    short.client.h = 40;
    assert_eq!(lines_of(&paint_notepad_client(&short, &notepad_with(b"a\nb"))), vec![(116, b"a".to_vec())]);
}

#[test]
fn window_chrome_paint_plan() {
    let el = frame();
    let ops = paint_window_chrome(&el, 2, true, Some((100, 16)));
    assert_eq!(ops.len(), 5);
    match (&ops[0], &ops[1], &ops[3], &ops[4]) {
        (
            DrawOp::Fill { x, y, w, h, .. },
            DrawOp::Fill { h: line_h, color: acc, .. },
            DrawOp::Bitmap { x: bx, y: by, w: bw, h: bh, asset },
            DrawOp::Fill { x: cx, color: close, .. },
        ) => {
            assert_eq!((*x, *y, *w, *h, *line_h), (96, 60, 408, 344, 2));
            assert_eq!(*acc, Rgb { r: 0x00, g: 0x99, b: 0xff });
            assert_eq!((*bx, *by, *bw, *bh), (106, 70, 100, 16));
            assert_eq!(*asset, BitmapAsset::WindowTitle(2));
            assert_eq!(*cx, 468);
            assert_eq!(*close, Rgb { r: 0xc4, g: 0x2b, b: 0x1e });
        }
        other => panic!("unexpected {:?}", other),
    }
    // a title wider than the bar less 48 px, or none at all, is left out
    let wide = paint_window_chrome(&el, 2, false, Some((361, 16)));
    assert_eq!(wide.len(), 4);
    match &wide[1] {
        DrawOp::Fill { color, .. } => assert_eq!(*color, Rgb { r: 0x00, g: 0x78, b: 0xd7 }),
        other => panic!("unexpected {:?}", other),
    }
    assert_eq!(paint_window_chrome(&el, 0, true, None).len(), 4);
    assert_eq!(paint_window_chrome(&el, 0, true, Some((360, 40))).len(), 5);
}

#[test]
fn files_client_paint_plan() {
    let cl = HitRect { x: 100, y: 100, w: 400, h: 300 };
    let rows = vec![b"Documents".to_vec()];
    let ops = paint_files_client(cl, 7, 3, &rows, 24, 24, &[Some((50, 12)), Some((500, 12)), None]);
    // row 0 with its name; row 1's label is too wide; row 2 has no label
    assert_eq!(ops.len(), 3 + 2 + 2);
    match (&ops[0], &ops[1], &ops[2]) {
        (DrawOp::Fill { x, y, w, h, color }, DrawOp::Bitmap { x: ix, y: iy, w: iw, h: ih, asset }, DrawOp::Text { x: tx, y: ty, max_w, .. }) => {
            assert_eq!((*x, *y, *w, *h), (100, 100, 400, 34));
            assert_eq!(*color, Rgb { r: 0x32, g: 0x32, b: 0x3c });
            assert_eq!((*ix, *iy, *iw, *ih), (106, 106, 24, 24));
            assert_eq!(*asset, BitmapAsset::ExplorerRowIcon(0));
            assert_eq!((*tx, *ty, *max_w), (138, 114, 356));
        }
        other => panic!("unexpected {:?}", other),
    }
    assert_eq!(text_of(&ops[2]), b"Documents".to_vec());
    // the selection is clamped to the last row
    match &ops[5] {
        DrawOp::Fill { y, color, .. } => {
            assert_eq!(*y, 172);
            assert_eq!(*color, Rgb { r: 0x00, g: 0x78, b: 0xd7 });
        }
        other => panic!("unexpected {:?}", other),
    }
    let labelled = paint_files_client(cl, 0, 2, &vec![], 24, 24, &[None, Some((50, 12))]);
    assert_eq!(labelled.len(), 2 + 3);
    match &labelled[4] {
        DrawOp::Bitmap { x, y, w, h, asset } => {
            assert_eq!((*x, *y, *w, *h), (138, 148, 50, 12));
            assert_eq!(*asset, BitmapAsset::ExplorerRowLabel(1));
        }
        other => panic!("unexpected {:?}", other),
    }
    // rows below the client's bottom edge are left out
    let short = HitRect { x: 100, y: 100, w: 400, h: 80 };
    assert_eq!(paint_files_client(short, 0, 3, &vec![], 24, 24, &[]).len(), 2 * 2);
    assert_eq!(paint_files_client(cl, 0, 0, &rows, 24, 24, &[]).len(), 0);
}

#[test]
fn desktop_context_menu_paint_plan() {
    let fb = FramebufferInfo {
        base: 0x8000_0000,
        size: 1024 * 768 * 4,
        horizontal_resolution: 1024,
        vertical_resolution: 768,
        pixels_per_scan_line: 1024,
        pixel_format: 1,
    };
    let labels = [Some((80, 16)), Some((200, 16)), None];
    let ops = paint_context_menu(&fb, 1000, 700, 5, &labels);
    // panel, accent, row 0 with its label, row 1 (label too wide), row 2 (no label)
    assert_eq!(ops.len(), 6);
    match (&ops[0], &ops[2], &ops[3], &ops[5]) {
        (
            DrawOp::Fill { x, y, w, h, .. },
            DrawOp::Fill { x: rx, y: ry, w: rw, h: rh, color: c0 },
            DrawOp::Bitmap { x: lx, y: ly, w: lw, h: lh, asset },
            DrawOp::Fill { y: y2, color: c2, .. },
        ) => {
            assert_eq!((*x, *y, *w, *h), (824, 660, 200, 108));
            assert_eq!((*rx, *ry, *rw, *rh), (826, 662, 196, 34));
            assert_eq!(*c0, Rgb { r: 0x36, g: 0x36, b: 0x40 });
            assert_eq!((*lx, *ly, *lw, *lh), (832, 671, 80, 16));
            assert_eq!(*asset, BitmapAsset::ContextMenuLabel(0));
            assert_eq!(*y2, 734);
            assert_eq!(*c2, Rgb { r: 0x00, g: 0x78, b: 0xd7 });
        }
        other => panic!("unexpected {:?}", other),
    }
    let no_fb = FramebufferInfo { base: 0, ..fb };
    assert!(paint_context_menu(&no_fb, 10, 10, 0, &labels).is_empty());
}
