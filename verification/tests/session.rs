use zircon_nt10::desktop::app_host::AppId;
use zircon_nt10::desktop::hosted_apps::{FileListing, HostUiState};
use zircon_nt10::desktop::session::{
    calc_key, sanitize_ps2_mouse_buttons, scancode_printable, DesktopSession, KeyCodes, KeyEvent,
    SessionEffects, XHCI_INIT_AFTER_POLLS,
};
use zircon_nt10::desktop::session_pointer::{MouseSource, PointerReport};
use zircon_nt10::desktop::hosted_apps::CalcState;
use zircon_nt10::desktop::shell::{ShortcutMetrics, FLYOUT_KIND_CALENDAR_STUB, FLYOUT_KIND_NONE};

const CODES: KeyCodes = KeyCodes { esc: 0x01, tab: 0x0F, enter: 0x1C, up: 0x48, down: 0x50, win: 0x5B };

fn key(code: u8) -> KeyEvent {
    KeyEvent { code, down: true }
}

fn session() -> DesktopSession {
    let listing = FileListing { rows: vec![b"a.txt".to_vec(), b"b.txt".to_vec(), b"c.txt".to_vec()] };
    DesktopSession::new_uefi(1024, 768, HostUiState::with_listing(listing))
}

const NO_SHORTCUTS: ShortcutMetrics = ShortcutMetrics { icon_h: 32, caption_h: 20, icon_count: 0 };
const SHORTCUTS: ShortcutMetrics = ShortcutMetrics { icon_h: 32, caption_h: 20, icon_count: 4 };

const REFRESH: SessionEffects = SessionEffects { refresh: true, reload_files: false };
const NONE: SessionEffects = SessionEffects { refresh: false, reload_files: false };

#[test]
fn printable_scancodes() {
    assert_eq!(scancode_printable(0x1e, false), Some(b'a'));
    assert_eq!(scancode_printable(0x1e, true), Some(b'A'));
    assert_eq!(scancode_printable(0x02, false), Some(b'1'));
    assert_eq!(scancode_printable(0x0b, true), Some(b'0'));
    assert_eq!(scancode_printable(0x39, false), Some(b' '));
    assert_eq!(scancode_printable(0x35, true), Some(b'?'));
    assert_eq!(scancode_printable(0x01, false), None);
}

#[test]
fn ps2_button_cleanup() {
    assert_eq!(sanitize_ps2_mouse_buttons(0b101, 0, 0, false, false), 1);
    assert_eq!(sanitize_ps2_mouse_buttons(0b011, 5, 3, false, false), 0);
    assert_eq!(sanitize_ps2_mouse_buttons(0b011, 1, 1, false, false), 3);
    assert_eq!(sanitize_ps2_mouse_buttons(0b010, 20, 0, false, false), 0);
    assert_eq!(sanitize_ps2_mouse_buttons(0b010, 20, 0, false, true), 2);
    assert_eq!(sanitize_ps2_mouse_buttons(0b011, -20, 0, true, false), 1);
}

#[test]
fn calculator_arithmetic() {
    let mut c = CalcState::default();
    assert!(calc_key(&mut c, 0x02));
    assert!(calc_key(&mut c, 0x03));
    assert_eq!(c.entry, 12);
    assert!(calc_key(&mut c, 0x4A));
    assert!(calc_key(&mut c, 0x04));
    assert!(calc_key(&mut c, 0x1C));
    assert_eq!(c.entry, 15);
    assert!(calc_key(&mut c, 0x0E));
    assert!(calc_key(&mut c, 0x0A));
    assert!(calc_key(&mut c, 0x0A));
    assert!(calc_key(&mut c, 0x1C));
    assert_eq!(c.entry, -84);
    assert!(calc_key(&mut c, 0x0D));
    assert!(calc_key(&mut c, 0x0B));
    assert!(calc_key(&mut c, 0x1C));
    assert_eq!(c.entry, -84);
    assert!(calc_key(&mut c, 0x0D));
    assert!(calc_key(&mut c, 0x05));
    assert!(calc_key(&mut c, 0x1C));
    assert_eq!(c.entry, -21);
    assert!(!calc_key(&mut c, 0x30));
    assert!(calc_key(&mut c, 0x2E));
    assert_eq!((c.acc, c.entry, c.op, c.fresh), (0, 0, 0, false));
}

#[test]
fn calculator_saturates() {
    let mut c = CalcState { acc: i64::MAX, entry: 2, op: 2, fresh: false };
    assert!(calc_key(&mut c, 0x1C));
    assert_eq!(c.entry, i64::MAX);
    let mut d = CalcState { acc: 0, entry: i64::MAX, op: 0, fresh: false };
    assert!(calc_key(&mut d, 0x0A));
    assert_eq!(d.entry, i64::MAX);
}

#[test]
fn start_key_and_menu_navigation() {
    let mut s = session();
    assert_eq!(s.handle_key(&CODES, key(0x5B), 0, &NO_SHORTCUTS), REFRESH);
    assert!(s.menu_open);
    assert_eq!(s.handle_key(&CODES, key(0x48), 0, &NO_SHORTCUTS), REFRESH);
    assert_eq!(s.menu_sel, 0);
    s.handle_key(&CODES, key(0x50), 0, &NO_SHORTCUTS);
    s.handle_key(&CODES, key(0x50), 0, &NO_SHORTCUTS);
    assert_eq!(s.menu_sel, 2);
    let fx = s.handle_key(&CODES, key(0x1C), 0, &NO_SHORTCUTS);
    assert_eq!(fx, REFRESH);
    assert!(!s.menu_open);
    assert_eq!(s.stack.top(), Some(AppId::TaskMgr));
    assert_eq!(s.handle_key(&CODES, KeyEvent { code: 0x5B, down: false }, 0, &NO_SHORTCUTS), NONE);
}

#[test]
fn menu_tab_wraps_and_power_row() {
    let mut s = session();
    s.handle_key(&CODES, key(0x5B), 0, &NO_SHORTCUTS);
    s.usb_shift_down = true;
    s.handle_key(&CODES, key(0x0F), 0, &NO_SHORTCUTS);
    assert_eq!(s.menu_sel, 10);
    s.usb_shift_down = false;
    s.handle_key(&CODES, key(0x1C), 0, &NO_SHORTCUTS);
    assert!(s.power_confirm_open);
    assert_eq!(s.handle_key(&CODES, key(0x1C), 0, &NO_SHORTCUTS), NONE);
    assert_eq!(s.handle_key(&CODES, key(0x01), 0, &NO_SHORTCUTS), REFRESH);
    assert!(!s.power_confirm_open);
}

#[test]
fn files_window_keys() {
    let mut s = session();
    s.handle_key(&CODES, key(0x5B), 0, &NO_SHORTCUTS);
    s.handle_key(&CODES, key(0x50), 0, &NO_SHORTCUTS);
    let fx = s.handle_key(&CODES, key(0x1C), 0, &NO_SHORTCUTS);
    assert_eq!(fx, SessionEffects { refresh: true, reload_files: true });
    assert_eq!(s.stack.top(), Some(AppId::Files));
    s.handle_key(&CODES, key(0x50), 0, &NO_SHORTCUTS);
    s.handle_key(&CODES, key(0x50), 0, &NO_SHORTCUTS);
    s.handle_key(&CODES, key(0x50), 0, &NO_SHORTCUTS);
    assert_eq!(s.host_ui.files.sel, 2);
    s.handle_key(&CODES, key(0x0F), 0, &NO_SHORTCUTS);
    assert_eq!(s.host_ui.files.sel, 0);
    assert_eq!(s.handle_key(&CODES, key(0x30), 0, &NO_SHORTCUTS), NONE);
    assert_eq!(s.handle_key(&CODES, key(0x01), 0, &NO_SHORTCUTS), REFRESH);
    assert_eq!(s.stack.top(), None);
}

#[test]
fn notepad_typing() {
    let mut s = session();
    s.activate_menu_item(6);
    assert_eq!(s.stack.top(), Some(AppId::Notepad));
    s.handle_key(&CODES, key(0x23), 0, &NO_SHORTCUTS);
    s.usb_shift_down = true;
    s.handle_key(&CODES, key(0x17), 0, &NO_SHORTCUTS);
    s.usb_shift_down = false;
    s.handle_key(&CODES, key(0x1C), 0, &NO_SHORTCUTS);
    assert_eq!(&s.host_ui.notepad.buf[..s.host_ui.notepad.len], b"hI\n");
    s.handle_key(&CODES, key(0x0E), 0, &NO_SHORTCUTS);
    assert_eq!(s.host_ui.notepad.len, 2);
}

#[test]
fn run_dialog_enter_closes() {
    let mut s = session();
    s.activate_menu_item(5);
    s.handle_key(&CODES, key(0x2E), 0, &NO_SHORTCUTS);
    s.handle_key(&CODES, key(0x32), 0, &NO_SHORTCUTS);
    s.handle_key(&CODES, key(0x20), 0, &NO_SHORTCUTS);
    assert_eq!(&s.host_ui.run.buf[..s.host_ui.run.len], b"cmd");
    assert_eq!(s.handle_key(&CODES, key(0x1C), 0, &NO_SHORTCUTS), REFRESH);
    assert_eq!(s.stack.top(), None);
}

#[test]
fn calculator_window_keys() {
    let mut s = session();
    s.activate_menu_item(7);
    s.handle_key(&CODES, key(0x04), 0, &NO_SHORTCUTS);
    s.handle_key(&CODES, key(0x0C), 0, &NO_SHORTCUTS);
    s.handle_key(&CODES, key(0x05), 0, &NO_SHORTCUTS);
    s.handle_key(&CODES, key(0x1C), 0, &NO_SHORTCUTS);
    assert_eq!(s.host_ui.calculator.entry, 12);
}

#[test]
fn taskmgr_tab_and_rows() {
    let mut s = session();
    s.activate_tb_ctx_item();
    assert_eq!(s.stack.top(), Some(AppId::TaskMgr));
    s.handle_key(&CODES, key(0x50), 3, &NO_SHORTCUTS);
    s.handle_key(&CODES, key(0x50), 3, &NO_SHORTCUTS);
    s.handle_key(&CODES, key(0x50), 3, &NO_SHORTCUTS);
    assert_eq!(s.host_ui.taskmgr.sel, 2);
    s.handle_key(&CODES, key(0x0F), 3, &NO_SHORTCUTS);
    assert_eq!(s.host_ui.taskmgr.tab, 1);
    assert_eq!(s.handle_key(&CODES, key(0x48), 3, &NO_SHORTCUTS), NONE);
}

#[test]
fn left_click_on_start_button_opens_menu() {
    let mut s = session();
    s.cx = 10;
    s.cy = 730;
    assert_eq!(s.on_left_down(false, 0, &NO_SHORTCUTS), REFRESH);
    assert!(s.menu_open);
    s.cx = 900;
    s.cy = 100;
    assert_eq!(s.on_left_down(false, 0, &NO_SHORTCUTS), REFRESH);
    assert!(!s.menu_open);
    assert_eq!(s.on_left_down(true, 0, &NO_SHORTCUTS), NONE);
}

#[test]
fn right_click_menus() {
    let mut s = session();
    s.cx = 500;
    s.cy = 300;
    assert_eq!(s.on_right_down(false), REFRESH);
    assert!(s.ctx_open);
    assert_eq!((s.ctx_x, s.ctx_y), (500, 300));
    assert!(!s.ctx_from_files);
    s.cx = 500;
    s.cy = 740;
    s.on_right_down(false);
    assert!(s.tb_ctx_open);
    assert!(!s.ctx_open);
    assert_eq!(s.tb_ctx_x, 500);
    assert_eq!(s.tb_ctx_y, 580);
    s.cx = 10;
    s.cy = 10;
    assert_eq!(s.on_left_down(false, 0, &NO_SHORTCUTS), REFRESH);
    assert!(!s.tb_ctx_open);
}

#[test]
fn double_click_shortcut_opens_files() {
    let mut s = session();
    // Shortcut slots of 32 + 6 + 20 px from y = 16, 10 px apart: (30, 90) is on shortcut 1.
    s.cx = 30;
    s.cy = 90;
    assert_eq!(s.on_left_down(false, 0, &SHORTCUTS), NONE);
    s.poll_seq = s.poll_seq.wrapping_add(5);
    assert_eq!(s.on_left_down(false, 0, &SHORTCUTS), SessionEffects { refresh: true, reload_files: true });
    assert_eq!(s.stack.top(), Some(AppId::Files));
}

#[test]
fn clock_click_toggles_calendar() {
    let mut s = session();
    s.cx = 1000;
    s.cy = 740;
    s.on_left_down(false, 0, &NO_SHORTCUTS);
    assert_eq!(s.flyout, FLYOUT_KIND_CALENDAR_STUB);
    s.cx = 10;
    s.cy = 10;
    s.on_left_down(false, 0, &NO_SHORTCUTS);
    assert_eq!(s.flyout, FLYOUT_KIND_NONE);
}

#[test]
fn pointer_reports_and_clicks() {
    let mut s = session();
    let r = s.pointer_set_absolute(0, 5000, 10, MouseSource::Usb);
    assert_eq!(r, PointerReport { moved: true, old_x: 512, old_y: 384, right_click: false, left_click: false });
    assert_eq!((s.cx, s.cy), (1023, 10));
    let r = s.pointer_set_absolute(1, 1023, 10, MouseSource::Usb);
    assert!(r.left_click && !r.moved);
    let r = s.pointer_set_absolute(1, 1023, 10, MouseSource::Usb);
    assert!(!r.left_click);
    let r1 = s.pointer_set_absolute(2, 1023, 10, MouseSource::Usb);
    assert!(!r1.right_click);
    let r2 = s.pointer_set_absolute(2, 1023, 10, MouseSource::Usb);
    assert!(r2.right_click);
    let r3 = s.pointer_set_absolute(2, 1023, 10, MouseSource::Usb);
    assert!(!r3.right_click);
    assert_eq!(s.pointer_target(-2000, 5), Some((0, 15)));
}

#[test]
fn clock_strings_and_uptime() {
    let mut s = session();
    s.update_clock_strings(None);
    assert_eq!(&s.clock_time[..s.clock_time_n as usize], b"00:00:00");
    assert_eq!(&s.clock_date[..s.clock_date_n as usize], b"2020/01/01");
    s.poll_seq = 48_000;
    s.advance_uptime_if_no_rtc(false);
    assert_eq!(s.uptime_secs, 1);
    s.advance_uptime_if_no_rtc(false);
    assert_eq!(s.uptime_secs, 1);
    assert!(s.rtc_second_changed(5));
    assert!(!s.rtc_second_changed(5));
    s.poll_seq = 511;
    assert!(s.begin_poll());
    assert!(!s.begin_poll());
    assert!(!s.has_xhci_hid());
    let st = s.chrome_state();
    assert_eq!(st.win_stack_len, 0);
}

#[test]
fn usb_modifier_byte_tracks_shift_and_windows_key() {
    let mut s = session();
    assert_eq!(s.apply_usb_modifiers(0x02, &CODES), None);
    assert!(s.usb_shift_down);
    assert_eq!(s.apply_usb_modifiers(0x08, &CODES), Some(KeyEvent { code: 0x5B, down: true }));
    assert!(!s.usb_shift_down);
    assert_eq!(s.apply_usb_modifiers(0x09, &CODES), None);
    assert!(s.usb_shift_down);
    assert_eq!(s.apply_usb_modifiers(0x00, &CODES), Some(KeyEvent { code: 0x5B, down: false }));
    assert!(!s.usb.prev_gui);
}

#[test]
fn usb_controller_bringup_is_deferred_and_tried_once() {
    let mut s = session();
    for _ in 0..XHCI_INIT_AFTER_POLLS {
        assert!(!s.xhci_bringup_due(false));
    }
    assert!(!s.usb.probe_attempted);
    assert!(s.xhci_bringup_due(false));
    assert!(s.usb.probe_attempted);
    assert!(!s.xhci_bringup_due(false));
    assert_eq!(s.usb.poll_tick, XHCI_INIT_AFTER_POLLS + 2);

    let mut skipped = session();
    assert!(!skipped.xhci_bringup_due(true));
    assert!(skipped.usb.probe_attempted);
}
