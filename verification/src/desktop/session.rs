//! Input handling of the UEFI desktop session: keyboard events and pointer clicks against the
//! shell state (Start menu, context menus, flyouts, hosted windows).
//!
//! The session keeps plain state only; repainting, reloading the Files listing and the Win32
//! overlay are done by the caller, which learns what to do from [`SessionEffects`].
use vstd::prelude::*;
use crate::desktop::app_host::{AppId, WindowStack, pushed_front, app_of_menu_row};
use crate::desktop::app_host::app_code;
use crate::desktop::explorer_view::MAX_FILE_ROWS;
use crate::desktop::hosted_apps::{
    CalcState, ControlPanelState, FilesState, HostUiState, NotepadState, PropertiesState, RunState,
    SettingsState, TaskMgrState, stack_to_bytes,
};
use crate::desktop::shell::{
    desktop_shortcut_hit, shortcut_under, tb_ctx_label, ShortcutMetrics, DesktopChromeState, CONTEXT_MENU_ROWS, FLYOUT_KIND_NONE, TASKBAR_CTX_MENU_ROWS,
};
use crate::desktop::explorer_view::surface_ok;
use crate::desktop::taskbar::{TaskbarLayout, START_MENU_ROW_COUNT, taskbar_for};
use crate::desktop::wall_clock::{RtcSnapshot, format_clock_lines, time_text, date_text, clock_fields};

verus! {

/// Virtual-key codes of the input layer for the keys the shell reacts to by name.
#[derive(Clone, Copy, Debug, PartialEq, Eq, Structural)]
pub struct KeyCodes {
    pub esc: u8,
    pub tab: u8,
    pub enter: u8,
    pub up: u8,
    pub down: u8,
    pub win: u8,
}

/// One key transition from the input layer.
#[derive(Clone, Copy, Debug, PartialEq, Eq, Structural)]
pub struct KeyEvent {
    pub code: u8,
    pub down: bool,
}

/// What the caller must do after an input step.
#[derive(Clone, Copy, Debug, PartialEq, Eq, Structural)]
pub struct SessionEffects {
    /// Repaint the desktop.
    pub refresh: bool,
    /// The Files window was opened: reload its listing from the file system.
    pub reload_files: bool,
}

/// Nothing to do.
pub open spec fn no_effects() -> SessionEffects {
    SessionEffects { refresh: false, reload_files: false }
}

/// Repaint only.
pub open spec fn refresh_only() -> SessionEffects {
    SessionEffects { refresh: true, reload_files: false }
}

// ---------------------------------------------------------------- PS/2 helpers

/// Backspace make code.
pub const SCAN_BACKSPACE: u8 = 0x0E;

/// Polls of the PS/2 devices before the USB controller is brought up.
pub const XHCI_INIT_AFTER_POLLS: u32 = 100_000;

/// The lower-case letter a PS/2 set-1 make code types, if it is a letter key.
pub open spec fn letter_of(code: u8) -> Option<u8> {
    if code == 0x10 { Some(113u8) }
    else if code == 0x11 { Some(119u8) }
    else if code == 0x12 { Some(101u8) }
    else if code == 0x13 { Some(114u8) }
    else if code == 0x14 { Some(116u8) }
    else if code == 0x15 { Some(121u8) }
    else if code == 0x16 { Some(117u8) }
    else if code == 0x17 { Some(105u8) }
    else if code == 0x18 { Some(111u8) }
    else if code == 0x19 { Some(112u8) }
    else if code == 0x1e { Some(97u8) }
    else if code == 0x1f { Some(115u8) }
    else if code == 0x20 { Some(100u8) }
    else if code == 0x21 { Some(102u8) }
    else if code == 0x22 { Some(103u8) }
    else if code == 0x23 { Some(104u8) }
    else if code == 0x24 { Some(106u8) }
    else if code == 0x25 { Some(107u8) }
    else if code == 0x26 { Some(108u8) }
    else if code == 0x2c { Some(122u8) }
    else if code == 0x2d { Some(120u8) }
    else if code == 0x2e { Some(99u8) }
    else if code == 0x2f { Some(118u8) }
    else if code == 0x30 { Some(98u8) }
    else if code == 0x31 { Some(110u8) }
    else if code == 0x32 { Some(109u8) }
    else { None }
}

/// The ASCII byte a PS/2 set-1 make code types (a subset for the Run box and Notepad):
/// space, digits, letters (upper case with `shift`) and `, . /` (`< > ?` with `shift`).
pub open spec fn printable_spec(code: u8, shift: bool) -> Option<u8> {
    if code == 0x39 {
        Some(32u8)
    } else if 0x02 <= code <= 0x0a {
        Some((49 + (code - 2)) as u8)
    } else if code == 0x0b {
        Some(48u8)
    } else if letter_of(code) is Some {
        Some(if shift { (letter_of(code)->0 - 32) as u8 } else { letter_of(code)->0 })
    } else if code == 0x33 {
        Some(if shift { 60u8 } else { 44u8 })
    } else if code == 0x34 {
        Some(if shift { 62u8 } else { 46u8 })
    } else if code == 0x35 {
        Some(if shift { 63u8 } else { 47u8 })
    } else {
        None
    }
}

/// The lower-case letter of a letter key.
fn letter_key(code: u8) -> (r: Option<u8>)
    ensures
        r == letter_of(code),
{
    match code {
        0x10 => Some(113),
        0x11 => Some(119),
        0x12 => Some(101),
        0x13 => Some(114),
        0x14 => Some(116),
        0x15 => Some(121),
        0x16 => Some(117),
        0x17 => Some(105),
        0x18 => Some(111),
        0x19 => Some(112),
        0x1e => Some(97),
        0x1f => Some(115),
        0x20 => Some(100),
        0x21 => Some(102),
        0x22 => Some(103),
        0x23 => Some(104),
        0x24 => Some(106),
        0x25 => Some(107),
        0x26 => Some(108),
        0x2c => Some(122),
        0x2d => Some(120),
        0x2e => Some(99),
        0x2f => Some(118),
        0x30 => Some(98),
        0x31 => Some(110),
        0x32 => Some(109),
        _ => None,
    }
}

/// PS/2 set-1 make code to ASCII (see [`printable_spec`]).
pub fn scancode_printable(code: u8, shift: bool) -> (r: Option<u8>)
    ensures
        r == printable_spec(code, shift),
{
    if code == 0x39 {
        return Some(32);
    }
    if 0x02 <= code && code <= 0x0a {
        return Some(49 + (code - 2));
    }
    if code == 0x0b {
        return Some(48);
    }
    if let Some(lc) = letter_key(code) {
        return Some(if shift { lc - 32 } else { lc });
    }
    if code == 0x33 {
        return Some(if shift { 60 } else { 44 });
    }
    if code == 0x34 {
        return Some(if shift { 62 } else { 46 });
    }
    if code == 0x35 {
        return Some(if shift { 63 } else { 47 });
    }
    None
}

/// `|v|` of a 16-bit delta.
pub open spec fn abs16(v: i16) -> nat {
    if v >= 0 {
        v as nat
    } else {
        (-(v as int)) as nat
    }
}

/// Mouse buttons kept from a PS/2 packet: the middle button is dropped; a two-button chord
/// during a fast first motion is discarded, and a fresh right press during a large motion is
/// ignored. Bit 0 is the left button, bit 1 the right one.
pub open spec fn sanitized_buttons(buttons: u8, dx: i16, dy: i16, prev_l: bool, prev_r: bool) -> u8 {
    let left = buttons & 1 != 0;
    let right = buttons & 2 != 0;
    let motion: nat = if abs16(dx) + abs16(dy) <= 0xFFFF { abs16(dx) + abs16(dy) } else { 0xFFFF };
    if left && right && motion >= 6 && !prev_l && !prev_r {
        0
    } else if right && !prev_r && motion > 12 {
        if left { 1 } else { 0 }
    } else {
        ((if left { 1int } else { 0int }) + (if right { 2int } else { 0int })) as u8
    }
}

/// Clean up the button bits of a PS/2 mouse packet (see [`sanitized_buttons`]).
pub fn sanitize_ps2_mouse_buttons(buttons: u8, dx: i16, dy: i16, prev_l: bool, prev_r: bool) -> (r: u8)
    ensures
        r == sanitized_buttons(buttons, dx, dy, prev_l, prev_r),
{
    let left = buttons & 1 != 0;
    let right = buttons & 2 != 0;
    let ax: u32 = if dx >= 0 { dx as u32 } else { (-(dx as i32)) as u32 };
    let ay: u32 = if dy >= 0 { dy as u32 } else { (-(dy as i32)) as u32 };
    let sum = ax + ay;
    let motion: u32 = if sum <= 0xFFFF { sum } else { 0xFFFF };
    if left && right && motion >= 6 && !prev_l && !prev_r {
        return 0;
    }
    if right && !prev_r && motion > 12 {
        return if left { 1 } else { 0 };
    }
    (if left { 1u8 } else { 0u8 }) + (if right { 2u8 } else { 0u8 })
}

// ---------------------------------------------------------------- calculator

/// `v` clamped to the `i64` range.
pub open spec fn clamp_i64(v: int) -> i64 {
    if v > i64::MAX {
        i64::MAX
    } else if v < i64::MIN {
        i64::MIN
    } else {
        v as i64
    }
}

/// Division rounding toward zero, as Rust's `/` on integers.
pub open spec fn trunc_div(x: int, d: int) -> int {
    if x >= 0 && d > 0 {
        x / d
    } else if x < 0 && d < 0 {
        (-x) / (-d)
    } else if x < 0 {
        -((-x) / d)
    } else {
        -(x / (-d))
    }
}

/// The digit a calculator key code enters (`0x0B` is 0, `0x02..=0x0A` are 1 to 9).
pub open spec fn calc_digit(code: u8) -> Option<int> {
    if code == 0x0B {
        Some(0)
    } else if 0x02 <= code <= 0x0A {
        Some(code - 1)
    } else {
        None
    }
}

/// The pending operation an operator key selects: `0x4A` add, `0x0E` subtract, `0x0C`
/// multiply, `0x0D` divide.
pub open spec fn calc_op_of(code: u8) -> Option<u8> {
    if code == 0x4A {
        Some(0u8)
    } else if code == 0x0E {
        Some(1u8)
    } else if code == 0x0C {
        Some(2u8)
    } else if code == 0x0D {
        Some(3u8)
    } else {
        None
    }
}

/// The result of applying the pending operation (saturating; division by zero keeps the
/// accumulator; an unknown operation gives the entry).
pub open spec fn calc_result(c: CalcState) -> i64 {
    if c.op == 0 {
        clamp_i64(c.acc + c.entry)
    } else if c.op == 1 {
        clamp_i64(c.acc - c.entry)
    } else if c.op == 2 {
        clamp_i64(c.acc * c.entry)
    } else if c.op == 3 {
        if c.entry == 0 {
            c.acc
        } else {
            trunc_div(c.acc as int, c.entry as int) as i64
        }
    } else {
        c.entry
    }
}

/// The one division the calculator cannot carry out: `i64::MIN / -1`.
pub open spec fn calc_div_overflows(c: CalcState) -> bool {
    c.op == 3 && c.acc == i64::MIN && c.entry == -1
}

/// The calculator after key `code`, and whether the key was one of its keys.
pub open spec fn calc_key_spec(c: CalcState, code: u8) -> (CalcState, bool) {
    match calc_digit(code) {
        Some(d) => (
            if c.fresh {
                CalcState { entry: d as i64, fresh: false, ..c }
            } else {
                CalcState { entry: clamp_i64(clamp_i64(c.entry * 10) + d), ..c }
            },
            true,
        ),
        None => match calc_op_of(code) {
            Some(op) => (CalcState { op, acc: c.entry, fresh: true, ..c }, true),
            None => if code == 0x1C {
                (CalcState { entry: calc_result(c), fresh: true, ..c }, true)
            } else if code == 0x01 || code == 0x2E {
                (CalcState { acc: 0, entry: 0, op: 0, fresh: false }, true)
            } else {
                (c, false)
            },
        },
    }
}

/// The calculator after the keys `keys`, in order.
pub open spec fn calc_after_keys(c: CalcState, keys: Seq<u8>) -> CalcState
    decreases keys.len(),
{
    if keys.len() == 0 {
        c
    } else {
        calc_after_keys(calc_key_spec(c, keys[0]).0, keys.drop_first())
    }
}

/// The key code of decimal digit `d` on the keyboard's top row (`1`..`9` then `0`).
pub open spec fn digit_key(d: int) -> u8 {
    if d == 0 { 0x0B } else { (d + 1) as u8 }
}

/// The calculator computes: after clearing it (Esc), typing a digit `a`, an operator key,
/// a digit `b` and Enter shows `a + b`, `a - b`, `a * b`, or `a / b` (`a` when `b` is 0);
/// typing two digits enters the two-digit number.
pub proof fn lemma_calc_computes(c: CalcState, a: int, b: int)
    requires
        0 <= a <= 9,
        0 <= b <= 9,
    ensures
        calc_after_keys(c, seq![0x01u8, digit_key(a), 0x4Au8, digit_key(b), 0x1Cu8]).entry == a + b,
        calc_after_keys(c, seq![0x01u8, digit_key(a), 0x0Eu8, digit_key(b), 0x1Cu8]).entry == a - b,
        calc_after_keys(c, seq![0x01u8, digit_key(a), 0x0Cu8, digit_key(b), 0x1Cu8]).entry == a * b,
        calc_after_keys(c, seq![0x01u8, digit_key(a), 0x0Du8, digit_key(b), 0x1Cu8]).entry == (if b == 0 { a } else { a / b }),
        calc_after_keys(c, seq![0x01u8, digit_key(a), digit_key(b)]).entry == a * 10 + b,
{
    reveal_with_fuel(calc_after_keys, 6);
    assert(0 <= a * b <= 81 && 0 <= a * 10 + b <= 99) by (nonlinear_arith)
        requires
            0 <= a <= 9,
            0 <= b <= 9,
    ;
    let keys_add: Seq<u8> = seq![0x01u8, digit_key(a), 0x4Au8, digit_key(b), 0x1Cu8];
    let keys_sub: Seq<u8> = seq![0x01u8, digit_key(a), 0x0Eu8, digit_key(b), 0x1Cu8];
    let keys_mul: Seq<u8> = seq![0x01u8, digit_key(a), 0x0Cu8, digit_key(b), 0x1Cu8];
    let keys_div: Seq<u8> = seq![0x01u8, digit_key(a), 0x0Du8, digit_key(b), 0x1Cu8];
    let keys_two: Seq<u8> = seq![0x01u8, digit_key(a), digit_key(b)];
    assert(calc_digit(digit_key(a)) == Some(a) && calc_digit(digit_key(b)) == Some(b));
    let cleared = CalcState { acc: 0, entry: 0, op: 0, fresh: false };
    let typed = CalcState { entry: a as i64, ..cleared };
    assert(calc_key_spec(c, 0x01u8).0 == cleared);
    assert(calc_key_spec(cleared, digit_key(a)).0 == typed);
    assert(keys_add.drop_first().drop_first().drop_first().drop_first() =~= seq![0x1Cu8]);
    assert(keys_sub.drop_first().drop_first().drop_first().drop_first() =~= seq![0x1Cu8]);
    assert(keys_mul.drop_first().drop_first().drop_first().drop_first() =~= seq![0x1Cu8]);
    assert(keys_div.drop_first().drop_first().drop_first().drop_first() =~= seq![0x1Cu8]);
    assert(keys_two.drop_first().drop_first() =~= seq![digit_key(b)]);
    assert(keys_add.drop_first().drop_first().drop_first() =~= seq![digit_key(b), 0x1Cu8]);
    assert(keys_sub.drop_first().drop_first().drop_first() =~= seq![digit_key(b), 0x1Cu8]);
    assert(keys_mul.drop_first().drop_first().drop_first() =~= seq![digit_key(b), 0x1Cu8]);
    assert(keys_div.drop_first().drop_first().drop_first() =~= seq![digit_key(b), 0x1Cu8]);
    assert(keys_add.drop_first().drop_first() =~= seq![0x4Au8, digit_key(b), 0x1Cu8]);
    assert(keys_sub.drop_first().drop_first() =~= seq![0x0Eu8, digit_key(b), 0x1Cu8]);
    assert(keys_mul.drop_first().drop_first() =~= seq![0x0Cu8, digit_key(b), 0x1Cu8]);
    assert(keys_div.drop_first().drop_first() =~= seq![0x0Du8, digit_key(b), 0x1Cu8]);
    assert(keys_add.drop_first() =~= seq![digit_key(a), 0x4Au8, digit_key(b), 0x1Cu8]);
    assert(keys_sub.drop_first() =~= seq![digit_key(a), 0x0Eu8, digit_key(b), 0x1Cu8]);
    assert(keys_mul.drop_first() =~= seq![digit_key(a), 0x0Cu8, digit_key(b), 0x1Cu8]);
    assert(keys_div.drop_first() =~= seq![digit_key(a), 0x0Du8, digit_key(b), 0x1Cu8]);
    assert(keys_two.drop_first() =~= seq![digit_key(a), digit_key(b)]);
    if b > 0 {
        assert(trunc_div(a, b) == a / b);
        assert(0 <= a / b <= 9) by (nonlinear_arith)
            requires
                0 <= a <= 9,
                1 <= b <= 9,
        ;
    }
}

/// `a + b`, saturating at the `i64` bounds.
fn sat_add_i64(a: i64, b: i64) -> (r: i64)
    ensures
        r == clamp_i64(a + b),
{
    match a.checked_add(b) {
        Some(v) => v,
        None => if b > 0 { i64::MAX } else { i64::MIN },
    }
}

/// `a - b`, saturating at the `i64` bounds.
fn sat_sub_i64(a: i64, b: i64) -> (r: i64)
    ensures
        r == clamp_i64(a - b),
{
    match a.checked_sub(b) {
        Some(v) => v,
        None => if b < 0 { i64::MAX } else { i64::MIN },
    }
}

/// `a * b`, saturating at the `i64` bounds.
fn sat_mul_i64(a: i64, b: i64) -> (r: i64)
    ensures
        r == clamp_i64(a * b),
{
    match a.checked_mul(b) {
        Some(v) => v,
        None => {
            if (a < 0) == (b < 0) {
                assert(a * b >= 0) by (nonlinear_arith)
                    requires
                        (a < 0) == (b < 0),
                ;
                i64::MAX
            } else {
                assert(a * b <= 0) by (nonlinear_arith)
                    requires
                        (a < 0) != (b < 0),
                ;
                i64::MIN
            }
        },
    }
}

/// Rounding toward zero keeps the quotient within `i64` except for `i64::MIN / -1`.
proof fn lemma_trunc_div_fits(x: int, d: int)
    requires
        i64::MIN <= x <= i64::MAX,
        i64::MIN <= d <= i64::MAX,
        d != 0,
        !(x == i64::MIN && d == -1),
    ensures
        i64::MIN <= trunc_div(x, d) <= i64::MAX,
{
    if x >= 0 && d > 0 {
        assert(0 <= x / d <= x) by (nonlinear_arith)
            requires
                x >= 0,
                d > 0,
        ;
    } else if x < 0 && d < 0 {
        if d == -1 {
            assert(-d == 1);
            assert((-x) / 1 == -x) by (nonlinear_arith);
        } else {
            assert(0 <= (-x) / (-d) <= (-x) / 2) by (nonlinear_arith)
                requires
                    -x > 0,
                    -d >= 2,
            ;
        }
    } else if x < 0 {
        assert(0 <= (-x) / d <= -x) by (nonlinear_arith)
            requires
                -x > 0,
                d > 0,
        ;
    } else {
        assert(0 <= x / (-d) <= x) by (nonlinear_arith)
            requires
                x >= 0,
                -d > 0,
        ;
    }
}

/// `a / b` rounded toward zero.
fn div_trunc_i64(a: i64, b: i64) -> (r: i64)
    requires
        b != 0,
        !(a == i64::MIN && b == -1),
    ensures
        r as int == trunc_div(a as int, b as int),
{
    proof {
        lemma_trunc_div_fits(a as int, b as int);
        let x = a as int;
        let d = b as int;
        assert((x * -1) == -x && (d * -1) == -d);
    }
    match a.checked_div(b) {
        Some(v) => v,
        None => 0,
    }
}

/// Apply calculator key `code`; returns whether the key was a calculator key.
pub fn calc_key(c: &mut CalcState, code: u8) -> (consumed: bool)
    requires
        !(code == 0x1C && calc_div_overflows(*old(c))),
    ensures
        (*final(c), consumed) == calc_key_spec(*old(c), code),
{
    let d: i64 = if code == 0x0B {
        0
    } else if 0x02 <= code && code <= 0x0A {
        (code - 1) as i64
    } else {
        -1
    };
    if d >= 0 {
        if c.fresh {
            c.entry = d;
            c.fresh = false;
        } else {
            c.entry = sat_add_i64(sat_mul_i64(c.entry, 10), d);
        }
        return true;
    }
    let op: u8 = if code == 0x4A {
        0
    } else if code == 0x0E {
        1
    } else if code == 0x0C {
        2
    } else if code == 0x0D {
        3
    } else {
        4
    };
    if op < 4 {
        c.op = op;
        c.acc = c.entry;
        c.fresh = true;
        return true;
    }
    if code == 0x1C {
        let res = if c.op == 0 {
            sat_add_i64(c.acc, c.entry)
        } else if c.op == 1 {
            sat_sub_i64(c.acc, c.entry)
        } else if c.op == 2 {
            sat_mul_i64(c.acc, c.entry)
        } else if c.op == 3 {
            if c.entry == 0 {
                c.acc
            } else {
                div_trunc_i64(c.acc, c.entry)
            }
        } else {
            c.entry
        };
        c.entry = res;
        c.fresh = true;
        return true;
    }
    if code == 0x01 || code == 0x2E {
        *c = CalcState::default();
        return true;
    }
    false
}

// ---------------------------------------------------------------- session state

/// Plain state of the desktop session: pointer, shell menus and flyouts, hosted windows.
#[derive(Debug)]
pub struct DesktopSession {
    /// Pointer hotspot.
    pub cx: u32,
    pub cy: u32,
    /// Framebuffer size in pixels.
    pub screen_w: u32,
    pub screen_h: u32,
    pub layout: TaskbarLayout,
    /// Incremented once per poll of the input devices.
    pub poll_seq: u32,
    /// `poll_seq` of the last accepted right click.
    pub last_rclick_poll_seq: u32,
    /// Consecutive reports with the right button held.
    pub ptr_right_stable_reports: u8,
    pub menu_open: bool,
    pub menu_sel: usize,
    pub ptr_left_down: bool,
    pub ptr_right_down: bool,
    pub stack: WindowStack,
    pub host_ui: HostUiState,
    pub power_confirm_open: bool,
    /// The context menu was opened on a Files row (otherwise on the desktop).
    pub ctx_from_files: bool,
    pub last_lclick_seq: u32,
    pub last_lclick_slot: Option<u8>,
    pub ctx_open: bool,
    pub ctx_sel: usize,
    pub ctx_x: u32,
    pub ctx_y: u32,
    pub usb_shift_down: bool,
    pub clock_time: [u8; 16],
    pub clock_date: [u8; 20],
    pub clock_time_n: u8,
    pub clock_date_n: u8,
    /// Second of the last RTC sample that repainted the clock.
    pub last_rtc_second: u8,
    /// Seconds counted from polls when no RTC is readable.
    pub uptime_secs: u32,
    pub last_uptime_adv_poll: u32,
    pub flyout: u8,
    pub flyout_anchor_x: u32,
    pub flyout_anchor_y: u32,
    pub tb_ctx_open: bool,
    pub tb_ctx_sel: usize,
    pub tb_ctx_x: u32,
    pub tb_ctx_y: u32,
    /// A USB HID controller was brought up.
    pub xhci_hid: bool,
    /// USB keyboard modifier and controller bring-up bookkeeping.
    pub usb: UsbInputState,
}

/// USB keyboard modifier and controller bring-up bookkeeping of a session.
#[derive(Clone, Copy, Debug, PartialEq, Eq, Structural)]
pub struct UsbInputState {
    /// The GUI (Windows) modifier was held in the last USB keyboard report.
    pub prev_gui: bool,
    /// Polls counted towards the deferred USB controller bring-up.
    pub poll_tick: u32,
    /// The USB controller bring-up has been tried (or skipped) already.
    pub probe_attempted: bool,
}

/// The outcome of an input step: the session's fields (its `stack` field aside), the open
/// windows, and what the caller must do.
pub struct Step {
    pub s: DesktopSession,
    pub stack: Seq<AppId>,
    pub fx: SessionEffects,
}

/// `after` and `fx` are the outcome `step`.
pub open spec fn realizes(after: DesktopSession, fx: SessionEffects, step: Step) -> bool {
    &&& after == (DesktopSession { stack: after.stack, ..step.s })
    &&& after.stack@ == step.stack
    &&& fx == step.fx
}

/// `st` without its front window (unchanged when empty).
pub open spec fn popped(st: Seq<AppId>) -> Seq<AppId> {
    if st.len() > 0 {
        st.drop_last()
    } else {
        st
    }
}

/// `a - 1` saturating at zero.
pub open spec fn dec_sat(a: usize) -> usize {
    if a >= 1 {
        (a - 1) as usize
    } else {
        0
    }
}

/// The smaller of two `usize`.
pub open spec fn min_usize(a: usize, b: usize) -> usize {
    if a <= b {
        a
    } else {
        b
    }
}

/// The taskbar context menu entry `s.tb_ctx_sel` (Task Manager, cascade, show desktop,
/// taskbar settings) is carried out and the menu closes.
pub open spec fn tb_ctx_step(s: DesktopSession, st: Seq<AppId>) -> Step {
    Step {
        s: DesktopSession { tb_ctx_open: false, ..s },
        stack: if s.tb_ctx_sel == 0 {
            pushed_front(st, AppId::TaskMgr)
        } else if s.tb_ctx_sel == 2 {
            Seq::empty()
        } else {
            st
        },
        fx: refresh_only(),
    }
}

/// Activating a taskbar context menu row does what its label says: "Show desktop" closes
/// every window, "Task Manager" brings the Task Manager to the front, and the two stub
/// rows ("Cascade windows (stub)", "Taskbar settings (stub)") leave the windows alone;
/// the menu closes in every case.
pub proof fn lemma_tb_ctx_rows(s: DesktopSession, st: Seq<AppId>)
    ensures
        !tb_ctx_step(s, st).s.tb_ctx_open,
        tb_ctx_label(s.tb_ctx_sel as nat) == seq![83u8, 104, 111, 119, 32, 100, 101, 115, 107, 116, 111, 112]
            ==> tb_ctx_step(s, st).stack == Seq::<AppId>::empty(),
        tb_ctx_label(s.tb_ctx_sel as nat) == seq![84u8, 97, 115, 107, 32, 77, 97, 110, 97, 103, 101, 114]
            ==> tb_ctx_step(s, st).stack.len() > 0 && tb_ctx_step(s, st).stack.last() == AppId::TaskMgr,
        tb_ctx_label(s.tb_ctx_sel as nat) == seq![
            67u8, 97, 115, 99, 97, 100, 101, 32, 119, 105, 110, 100, 111, 119, 115, 32, 40, 115, 116, 117, 98, 41
        ] ==> tb_ctx_step(s, st).stack == st,
        tb_ctx_label(s.tb_ctx_sel as nat) == seq![
            84u8, 97, 115, 107, 98, 97, 114, 32, 115, 101, 116, 116, 105, 110, 103, 115, 32, 40, 115, 116, 117, 98, 41
        ] ==> tb_ctx_step(s, st).stack == st,
{
    let l = tb_ctx_label(s.tb_ctx_sel as nat);
    let show: Seq<u8> = seq![83u8, 104, 111, 119, 32, 100, 101, 115, 107, 116, 111, 112];
    let task: Seq<u8> = seq![84u8, 97, 115, 107, 32, 77, 97, 110, 97, 103, 101, 114];
    let cascade: Seq<u8> = seq![
        67u8, 97, 115, 99, 97, 100, 101, 32, 119, 105, 110, 100, 111, 119, 115, 32, 40, 115, 116, 117, 98, 41
    ];
    let settings: Seq<u8> = seq![
        84u8, 97, 115, 107, 98, 97, 114, 32, 115, 101, 116, 116, 105, 110, 103, 115, 32, 40, 115, 116, 117, 98, 41
    ];
    assert(show[0] == 83u8 && task[0] == 84u8 && task[4] == 32u8 && settings[4] == 98u8);
    assert(show.len() == 12 && task.len() == 12 && cascade.len() == 22 && settings.len() == 23);
    if s.tb_ctx_sel == 0 {
        assert(l == task);
    } else if s.tb_ctx_sel == 1 {
        assert(l == cascade);
    } else if s.tb_ctx_sel == 2 {
        assert(l == show);
    } else {
        assert(l == settings);
    }
}

/// The desktop context menu's first entry opens Files, except on the recycle shortcut.
pub open spec fn ctx_opens_files(s: DesktopSession, shortcut: Option<usize>) -> bool {
    s.ctx_sel == 0 && (s.ctx_from_files || shortcut != Some(2usize))
}

/// The desktop context menu entry `s.ctx_sel` (open, properties, close) is carried out and
/// the menu closes; `shortcut` is the desktop shortcut under the pointer.
pub open spec fn ctx_step(s: DesktopSession, st: Seq<AppId>, shortcut: Option<usize>) -> Step {
    Step {
        s: DesktopSession {
            ctx_open: false,
            host_ui: if s.ctx_sel == 1 {
                HostUiState {
                    properties: PropertiesState {
                        target_line: if s.ctx_from_files { s.host_ui.files.sel } else { 0 },
                    },
                    ..s.host_ui
                }
            } else {
                s.host_ui
            },
            ..s
        },
        stack: if ctx_opens_files(s, shortcut) {
            pushed_front(st, AppId::Files)
        } else if s.ctx_sel == 1 {
            pushed_front(st, AppId::Properties)
        } else if s.ctx_sel == 2 {
            popped(st)
        } else {
            st
        },
        fx: SessionEffects { refresh: true, reload_files: ctx_opens_files(s, shortcut) },
    }
}

/// Start menu row `idx` is carried out (opening its application, or the power dialog for the
/// last row) and the menu closes.
pub open spec fn menu_step(s: DesktopSession, st: Seq<AppId>, idx: usize) -> Step {
    Step {
        s: DesktopSession {
            menu_open: false,
            power_confirm_open: if idx == 10 { true } else { s.power_confirm_open },
            ..s
        },
        stack: match app_of_menu_row(idx as nat) {
            Some(a) => pushed_front(st, a),
            None => st,
        },
        fx: SessionEffects {
            refresh: true,
            reload_files: app_of_menu_row(idx as nat) == Some(AppId::Files),
        },
    }
}

/// `(len, buf)` after typing `ch` into a text box of capacity `buf.len()` (ignored when full).
pub open spec fn typed(buf: Seq<u8>, len: usize, ch: u8) -> (Seq<u8>, usize) {
    if len < buf.len() {
        (buf.update(len as int, ch), (len + 1) as usize)
    } else {
        (buf, len)
    }
}

/// `after` is `s` with the open windows `st`.
pub open spec fn is_state(after: DesktopSession, s: DesktopSession, st: Seq<AppId>) -> bool {
    after == (DesktopSession { stack: after.stack, ..s }) && after.stack@ == st
}

/// The key closes the front window.
pub open spec fn closes(s: DesktopSession, st: Seq<AppId>, after: DesktopSession, used: bool, refresh: bool) -> bool {
    is_state(after, s, popped(st)) && used && refresh
}

/// The key is not for the window.
pub open spec fn unused_key(s: DesktopSession, st: Seq<AppId>, after: DesktopSession, used: bool, refresh: bool) -> bool {
    is_state(after, s, st) && !used && !refresh
}

/// The key changed the hosted-application state to `ui` and was used.
pub open spec fn ui_is(s: DesktopSession, st: Seq<AppId>, ui: HostUiState, after: DesktopSession, used: bool, refresh: bool) -> bool {
    is_state(after, DesktopSession { host_ui: ui, ..s }, st) && used && refresh
}

/// Files: Esc closes; Up, Down and Tab (Shift+Tab backwards) move the selection.
pub open spec fn files_key_post(s: DesktopSession, st: Seq<AppId>, codes: KeyCodes, code: u8, after: DesktopSession, used: bool, refresh: bool) -> bool {
    let ui = s.host_ui;
    let max_r: usize = if ui.files.row_count >= 1 { (ui.files.row_count - 1) as usize } else { 0 };
    let sel: usize = if code == codes.up {
        dec_sat(ui.files.sel)
    } else if code == codes.down {
        min_usize((ui.files.sel + 1) as usize, max_r)
    } else if s.usb_shift_down {
        ((ui.files.sel + max_r) % (max_r + 1)) as usize
    } else {
        ((ui.files.sel + 1) % (max_r + 1)) as usize
    };
    if code == codes.esc {
        closes(s, st, after, used, refresh)
    } else if code == codes.up || code == codes.down || code == codes.tab {
        ui_is(s, st, HostUiState { files: FilesState { sel, ..ui.files }, ..ui }, after, used, refresh)
    } else {
        unused_key(s, st, after, used, refresh)
    }
}

/// Task Manager: Esc closes, Tab switches tabs; on the Processes tab Up and Down move the
/// selection among the `ready` listed threads.
pub open spec fn taskmgr_key_post(s: DesktopSession, st: Seq<AppId>, codes: KeyCodes, code: u8, ready: usize, after: DesktopSession, used: bool, refresh: bool) -> bool {
    let ui = s.host_ui;
    let tm = ui.taskmgr;
    if code == codes.esc {
        closes(s, st, after, used, refresh)
    } else if code == codes.tab {
        ui_is(s, st, HostUiState { taskmgr: TaskMgrState { tab: tm.tab ^ 1, ..tm }, ..ui }, after, used, refresh)
    } else if tm.tab == 0 && code == codes.up {
        ui_is(s, st, HostUiState { taskmgr: TaskMgrState { sel: dec_sat(tm.sel), ..tm }, ..ui }, after, used, refresh)
    } else if tm.tab == 0 && code == codes.down {
        ui_is(s, st, HostUiState { taskmgr: TaskMgrState { sel: min_usize((tm.sel + 1) as usize, dec_sat(ready)), ..tm }, ..ui }, after, used, refresh)
    } else {
        unused_key(s, st, after, used, refresh)
    }
}

/// Settings: Esc closes; Up and Down move among the six categories.
pub open spec fn settings_key_post(s: DesktopSession, st: Seq<AppId>, codes: KeyCodes, code: u8, after: DesktopSession, used: bool, refresh: bool) -> bool {
    let ui = s.host_ui;
    let cat: usize = if code == codes.up { dec_sat(ui.settings.cat) } else { min_usize((ui.settings.cat + 1) as usize, 5) };
    if code == codes.esc {
        closes(s, st, after, used, refresh)
    } else if code == codes.up || code == codes.down {
        ui_is(s, st, HostUiState { settings: SettingsState { cat, ..ui.settings }, ..ui }, after, used, refresh)
    } else {
        unused_key(s, st, after, used, refresh)
    }
}

/// Control Panel: Esc leaves an open sub-page, otherwise closes.
pub open spec fn control_key_post(s: DesktopSession, st: Seq<AppId>, codes: KeyCodes, code: u8, after: DesktopSession, used: bool, refresh: bool) -> bool {
    let ui = s.host_ui;
    if ui.control.open_sub is Some && code == codes.esc {
        ui_is(s, st, HostUiState { control: ControlPanelState { open_sub: None, ..ui.control }, ..ui }, after, used, refresh)
    } else if code == codes.esc {
        closes(s, st, after, used, refresh)
    } else {
        unused_key(s, st, after, used, refresh)
    }
}

/// `after` is `s` with the Run box holding `buf` and `len`.
pub open spec fn run_is(s: DesktopSession, st: Seq<AppId>, buf: Seq<u8>, len: usize, after: DesktopSession) -> bool {
    &&& is_state(after, DesktopSession { host_ui: HostUiState { run: RunState { buf: after.host_ui.run.buf, len }, ..s.host_ui }, ..s }, st)
    &&& after.host_ui.run.buf@ == buf
}

/// Run: Esc and Enter close; printable keys type into the box; Backspace deletes.
pub open spec fn run_key_post(s: DesktopSession, st: Seq<AppId>, codes: KeyCodes, code: u8, after: DesktopSession, used: bool, refresh: bool) -> bool {
    let run = s.host_ui.run;
    let ch = printable_spec(code, s.usb_shift_down);
    if code == codes.esc || code == codes.enter {
        closes(s, st, after, used, refresh)
    } else if ch is Some {
        run_is(s, st, typed(run.buf@, run.len, ch->0).0, typed(run.buf@, run.len, ch->0).1, after) && used
            && refresh == (run.len < 128)
    } else if code == SCAN_BACKSPACE && run.len > 0 {
        run_is(s, st, run.buf@, (run.len - 1) as usize, after) && used && refresh
    } else {
        unused_key(s, st, after, used, refresh)
    }
}

/// `after` is `s` with the Notepad text `buf` and `len`.
pub open spec fn notepad_is(s: DesktopSession, st: Seq<AppId>, buf: Seq<u8>, len: usize, after: DesktopSession) -> bool {
    &&& is_state(after, DesktopSession { host_ui: HostUiState { notepad: NotepadState { buf: after.host_ui.notepad.buf, len }, ..s.host_ui }, ..s }, st)
    &&& after.host_ui.notepad.buf@ == buf
}

/// Notepad: Esc closes; Enter types a line feed and printable keys their byte; Backspace
/// deletes.
pub open spec fn notepad_key_post(s: DesktopSession, st: Seq<AppId>, codes: KeyCodes, code: u8, after: DesktopSession, used: bool, refresh: bool) -> bool {
    let np = s.host_ui.notepad;
    let ch: Option<u8> = if code == codes.enter { Some(10u8) } else { printable_spec(code, s.usb_shift_down) };
    if code == codes.esc {
        closes(s, st, after, used, refresh)
    } else if ch is Some {
        notepad_is(s, st, typed(np.buf@, np.len, ch->0).0, typed(np.buf@, np.len, ch->0).1, after) && used
            && refresh == (np.len < 512)
    } else if code == SCAN_BACKSPACE && np.len > 0 {
        notepad_is(s, st, np.buf@, (np.len - 1) as usize, after) && used && refresh
    } else {
        unused_key(s, st, after, used, refresh)
    }
}

/// Calculator: Esc closes; other keys go to the calculator.
pub open spec fn calculator_key_post(s: DesktopSession, st: Seq<AppId>, codes: KeyCodes, code: u8, after: DesktopSession, used: bool, refresh: bool) -> bool {
    let (c, u) = calc_key_spec(s.host_ui.calculator, code);
    if code == codes.esc {
        closes(s, st, after, used, refresh)
    } else {
        is_state(after, DesktopSession { host_ui: HostUiState { calculator: c, ..s.host_ui }, ..s }, st) && used == u && refresh == u
    }
}

/// A key for the front window `id` took session `s` (open windows `st`) to `after`, with
/// `used` telling whether the window used the key and `refresh` whether the desktop must be
/// repainted. `ready` is the number of ready threads the Task Manager lists.
pub open spec fn top_key_post(
    s: DesktopSession,
    st: Seq<AppId>,
    id: AppId,
    codes: KeyCodes,
    code: u8,
    ready: usize,
    after: DesktopSession,
    used: bool,
    refresh: bool,
) -> bool {
    match id {
        AppId::Files => files_key_post(s, st, codes, code, after, used, refresh),
        AppId::TaskMgr => taskmgr_key_post(s, st, codes, code, ready, after, used, refresh),
        AppId::Settings => settings_key_post(s, st, codes, code, after, used, refresh),
        AppId::ControlPanel => control_key_post(s, st, codes, code, after, used, refresh),
        AppId::Run => run_key_post(s, st, codes, code, after, used, refresh),
        AppId::Notepad => notepad_key_post(s, st, codes, code, after, used, refresh),
        AppId::Calculator => calculator_key_post(s, st, codes, code, after, used, refresh),
        AppId::About | AppId::Properties => if code == codes.esc {
            closes(s, st, after, used, refresh)
        } else {
            unused_key(s, st, after, used, refresh)
        },
    }
}

impl DesktopSession {
    /// Bookkeeping bounds every reachable session keeps.
    pub open spec fn wf(&self) -> bool {
        &&& self.stack.wf()
        &&& self.menu_sel < START_MENU_ROW_COUNT
        &&& self.ctx_sel < CONTEXT_MENU_ROWS
        &&& self.tb_ctx_sel < TASKBAR_CTX_MENU_ROWS
        &&& self.host_ui.files.row_count <= MAX_FILE_ROWS
        &&& self.host_ui.files.sel <= MAX_FILE_ROWS
        &&& self.host_ui.taskmgr.sel <= 8
        &&& self.host_ui.settings.cat <= 5
        &&& self.ptr_right_stable_reports <= 4
        &&& self.cx <= self.screen_w
        &&& self.cy <= self.screen_h
        &&& self.layout == taskbar_for(self.screen_w, self.screen_h)
        &&& surface_ok(self.layout)
    }

    /// Whether a USB HID controller is attached.
    pub fn has_xhci_hid(&self) -> (r: bool)
        ensures
            r == self.xhci_hid,
    {
        self.xhci_hid
    }

    /// A session on a `w` x `h` screen: pointer centred, nothing open, `host_ui` for the
    /// hosted applications.
    pub fn new_uefi(w: u32, h: u32, host_ui: HostUiState) -> (s: Self)
        requires
            w as int * 7 <= u32::MAX,
            h as int * 65 <= u32::MAX,
            host_ui.files.row_count <= MAX_FILE_ROWS,
            host_ui.files.sel <= MAX_FILE_ROWS,
            host_ui.taskmgr.sel <= 8,
            host_ui.settings.cat <= 5,
        ensures
            s.wf(),
            s.cx == w / 2 && s.cy == h / 2,
            s.screen_w == w && s.screen_h == h,
            s.layout == taskbar_for(w, h),
            s.stack@ == Seq::<AppId>::empty(),
            s.host_ui == host_ui,
            s.poll_seq == 0,
            s.last_rclick_poll_seq == 0u32.wrapping_sub(12),
            !s.menu_open && s.menu_sel == 0 && !s.ctx_open && s.ctx_sel == 0,
            !s.tb_ctx_open && s.tb_ctx_sel == 0 && s.flyout == FLYOUT_KIND_NONE,
            !s.power_confirm_open && !s.ptr_left_down && !s.ptr_right_down,
            s.last_lclick_slot is None && !s.xhci_hid,
            s.usb == (UsbInputState { prev_gui: false, poll_tick: 0, probe_attempted: false }),
    {
        DesktopSession {
            cx: w / 2,
            cy: h / 2,
            screen_w: w,
            screen_h: h,
            layout: TaskbarLayout::for_surface(w, h),
            poll_seq: 0,
            last_rclick_poll_seq: 0u32.wrapping_sub(12),
            ptr_right_stable_reports: 0,
            menu_open: false,
            menu_sel: 0,
            ptr_left_down: false,
            ptr_right_down: false,
            stack: WindowStack::new(),
            host_ui,
            power_confirm_open: false,
            ctx_from_files: false,
            last_lclick_seq: 0,
            last_lclick_slot: None,
            ctx_open: false,
            ctx_sel: 0,
            ctx_x: 0,
            ctx_y: 0,
            usb_shift_down: false,
            clock_time: [0u8; 16],
            clock_date: [0u8; 20],
            clock_time_n: 0,
            clock_date_n: 0,
            last_rtc_second: 0xff,
            uptime_secs: 0,
            last_uptime_adv_poll: 0,
            flyout: FLYOUT_KIND_NONE,
            flyout_anchor_x: 0,
            flyout_anchor_y: 0,
            tb_ctx_open: false,
            tb_ctx_sel: 0,
            tb_ctx_x: 0,
            tb_ctx_y: 0,
            xhci_hid: false,
            usb: UsbInputState { prev_gui: false, poll_tick: 0, probe_attempted: false },
        }
    }

    /// The paint flags of the shell chrome for the current state.
    pub fn chrome_state(&self) -> (st: DesktopChromeState)
        requires
            self.wf(),
        ensures
            st.menu_open == self.menu_open && st.menu_sel == self.menu_sel,
            st.ctx_open == self.ctx_open && st.ctx_sel == self.ctx_sel,
            st.ctx_x == self.ctx_x && st.ctx_y == self.ctx_y,
            st.win_stack_len == self.stack.len,
            forall|i: int| 0 <= i < self.stack@.len() ==> #[trigger] st.win_stack[i] as nat == app_code(self.stack@[i]),
            forall|i: int| self.stack@.len() <= i < 8 ==> #[trigger] st.win_stack[i] == 0,
            st.power_confirm_open == self.power_confirm_open,
            st.clock_time == self.clock_time && st.clock_time_n == self.clock_time_n,
            st.clock_date == self.clock_date && st.clock_date_n == self.clock_date_n,
            st.flyout == self.flyout && st.flyout_x == self.flyout_anchor_x && st.flyout_y == self.flyout_anchor_y,
            st.tb_ctx_open == self.tb_ctx_open && st.tb_ctx_sel == self.tb_ctx_sel,
            st.tb_ctx_x == self.tb_ctx_x && st.tb_ctx_y == self.tb_ctx_y,
    {
        let (win_stack_len, win_stack) = stack_to_bytes(&self.stack);
        DesktopChromeState {
            menu_open: self.menu_open,
            menu_sel: self.menu_sel,
            ctx_open: self.ctx_open,
            ctx_sel: self.ctx_sel,
            ctx_x: self.ctx_x,
            ctx_y: self.ctx_y,
            win_stack_len,
            win_stack,
            power_confirm_open: self.power_confirm_open,
            clock_time: self.clock_time,
            clock_time_n: self.clock_time_n,
            clock_date: self.clock_date,
            clock_date_n: self.clock_date_n,
            flyout: self.flyout,
            flyout_x: self.flyout_anchor_x,
            flyout_y: self.flyout_anchor_y,
            tb_ctx_open: self.tb_ctx_open,
            tb_ctx_sel: self.tb_ctx_sel,
            tb_ctx_x: self.tb_ctx_x,
            tb_ctx_y: self.tb_ctx_y,
        }
    }

    /// Bring `id` to the front; returns whether the Files listing must be reloaded.
    pub fn open_app(&mut self, id: AppId) -> (reload_files: bool)
        requires
            old(self).wf(),
        ensures
            final(self).wf(),
            *final(self) == (DesktopSession { stack: final(self).stack, ..*old(self) }),
            final(self).stack@ == pushed_front(old(self).stack@, id),
            reload_files == (id == AppId::Files),
    {
        self.stack.push_front(id);
        id == AppId::Files
    }

    /// Carry out the selected taskbar context menu entry and close the menu.
    #[verifier::rlimit(40)]
    #[verifier::spinoff_prover]
    pub fn activate_tb_ctx_item(&mut self) -> (fx: SessionEffects)
        requires
            old(self).wf(),
        ensures
            final(self).wf(),
            realizes(*final(self), fx, tb_ctx_step(*old(self), old(self).stack@)),
    {
        if self.tb_ctx_sel == 0 {
            let _ = self.open_app(AppId::TaskMgr);
        } else if self.tb_ctx_sel == 2 {
            self.stack.clear();
        }
        self.tb_ctx_open = false;
        SessionEffects { refresh: true, reload_files: false }
    }

    /// Carry out the selected desktop context menu entry and close the menu; the desktop
    /// shortcut under the pointer (shortcut sizes `metrics`) decides what the first entry does.
    pub fn activate_ctx_item(&mut self, metrics: &ShortcutMetrics) -> (fx: SessionEffects)
        requires
            old(self).wf(),
            metrics.wf(),
        ensures
            final(self).wf(),
            realizes(
                *final(self),
                fx,
                ctx_step(*old(self), old(self).stack@, shortcut_under(old(self).cx, old(self).cy, old(self).layout, *metrics)),
            ),
    {
        let shortcut = desktop_shortcut_hit(self.cx, self.cy, &self.layout, metrics.icon_h, metrics.caption_h, metrics.icon_count);
        self.activate_ctx_item_with_shortcut(shortcut)
    }

    /// `activate_ctx_item` with the shortcut under the pointer already known.
    pub(crate) fn activate_ctx_item_with_shortcut(&mut self, shortcut: Option<usize>) -> (fx: SessionEffects)
        requires
            old(self).wf(),
        ensures
            final(self).wf(),
            realizes(*final(self), fx, ctx_step(*old(self), old(self).stack@, shortcut)),
    {
        let mut reload = false;
        if self.ctx_sel == 0 {
            let open = if self.ctx_from_files {
                true
            } else {
                match shortcut {
                    Some(slot) => slot != 2,
                    None => true,
                }
            };
            if open {
                reload = self.open_app(AppId::Files);
            }
        } else if self.ctx_sel == 1 {
            self.host_ui.properties.target_line = if self.ctx_from_files {
                self.host_ui.files.sel
            } else {
                0
            };
            let _ = self.open_app(AppId::Properties);
        } else if self.ctx_sel == 2 {
            let _ = self.stack.pop_top();
        }
        self.ctx_open = false;
        SessionEffects { refresh: true, reload_files: reload }
    }

    /// Carry out Start menu row `idx` and close the menu.
    pub fn activate_menu_item(&mut self, idx: usize) -> (fx: SessionEffects)
        requires
            old(self).wf(),
        ensures
            final(self).wf(),
            realizes(*final(self), fx, menu_step(*old(self), old(self).stack@, idx)),
    {
        let ghost s0 = *self;
        let app = AppId::from_menu_row(idx);
        let mut reload = false;
        if let Some(a) = app {
            assert(idx != 10);
            reload = self.open_app(a);
        } else if idx == 10 {
            self.power_confirm_open = true;
        }
        self.menu_open = false;
        let fx = SessionEffects { refresh: true, reload_files: reload };
        assert(realizes(*self, fx, menu_step(s0, s0.stack@, idx)));
        fx
    }
}

/// A key event reaches the front window: it is a press, no menu, dialog or flyout takes it,
/// and it is not the Start key.
pub open spec fn key_reaches_window(s: DesktopSession, st: Seq<AppId>, codes: KeyCodes, ev: KeyEvent) -> bool {
    &&& ev.down
    &&& !s.power_confirm_open
    &&& !s.tb_ctx_open
    &&& s.flyout == FLYOUT_KIND_NONE
    &&& !s.ctx_open
    &&& !s.menu_open
    &&& ev.code != codes.win
    &&& st.len() > 0
}

/// `after` and `fx` are `s2` with the open windows `st`, repainted.
pub open spec fn repainted(after: DesktopSession, fx: SessionEffects, s2: DesktopSession, st: Seq<AppId>) -> bool {
    realizes(after, fx, Step { s: s2, stack: st, fx: refresh_only() })
}

/// Nothing changed and nothing is to be done.
pub open spec fn unchanged(after: DesktopSession, fx: SessionEffects, s: DesktopSession, st: Seq<AppId>) -> bool {
    realizes(after, fx, Step { s, stack: st, fx: no_effects() })
}

/// Keys on the open taskbar context menu: Esc closes it, Tab (Shift+Tab) cycles its four
/// rows, Enter carries out the selected row.
pub open spec fn tb_ctx_key_post(s: DesktopSession, st: Seq<AppId>, codes: KeyCodes, code: u8, after: DesktopSession, fx: SessionEffects) -> bool {
    if code == codes.esc {
        repainted(after, fx, DesktopSession { tb_ctx_open: false, ..s }, st)
    } else if code == codes.tab {
        let sel = (if s.usb_shift_down { (s.tb_ctx_sel + 3) % 4 } else { (s.tb_ctx_sel + 1) % 4 }) as usize;
        repainted(after, fx, DesktopSession { tb_ctx_sel: sel, ..s }, st)
    } else if code == codes.enter {
        realizes(after, fx, tb_ctx_step(s, st))
    } else {
        unchanged(after, fx, s, st)
    }
}

/// Keys on the open desktop context menu: Esc closes it, Tab (Shift+Tab) cycles its three
/// rows, Enter carries out the selected row.
pub open spec fn ctx_key_post(s: DesktopSession, st: Seq<AppId>, codes: KeyCodes, code: u8, shortcut: Option<usize>, after: DesktopSession, fx: SessionEffects) -> bool {
    if code == codes.esc {
        repainted(after, fx, DesktopSession { ctx_open: false, ..s }, st)
    } else if code == codes.tab {
        let sel = (if s.usb_shift_down { (s.ctx_sel + 2) % 3 } else { (s.ctx_sel + 1) % 3 }) as usize;
        repainted(after, fx, DesktopSession { ctx_sel: sel, ..s }, st)
    } else if code == codes.enter {
        realizes(after, fx, ctx_step(s, st, shortcut))
    } else {
        unchanged(after, fx, s, st)
    }
}

/// Keys on the open Start menu: Esc closes it, Up and Down move (stopping at the ends), Tab
/// (Shift+Tab) cycles the eleven rows, Enter carries out the selected row.
pub open spec fn menu_key_post(s: DesktopSession, st: Seq<AppId>, codes: KeyCodes, code: u8, after: DesktopSession, fx: SessionEffects) -> bool {
    let sel: usize = if code == codes.up {
        dec_sat(s.menu_sel)
    } else if code == codes.down {
        min_usize((s.menu_sel + 1) as usize, 10)
    } else if s.usb_shift_down {
        ((s.menu_sel + 10) % 11) as usize
    } else {
        ((s.menu_sel + 1) % 11) as usize
    };
    if code == codes.esc {
        repainted(after, fx, DesktopSession { menu_open: false, ..s }, st)
    } else if code == codes.up || code == codes.down || code == codes.tab {
        repainted(after, fx, DesktopSession { menu_sel: sel, ..s }, st)
    } else if code == codes.enter {
        realizes(after, fx, menu_step(s, st, s.menu_sel))
    } else {
        unchanged(after, fx, s, st)
    }
}

/// A key for the front window `id` left `after` and asked for a repaint when `fx.refresh`.
pub open spec fn window_key_post(s: DesktopSession, st: Seq<AppId>, id: AppId, codes: KeyCodes, code: u8, ready: usize, after: DesktopSession, fx: SessionEffects) -> bool {
    &&& !fx.reload_files
    &&& (top_key_post(s, st, id, codes, code, ready, after, true, fx.refresh)
        || top_key_post(s, st, id, codes, code, ready, after, false, fx.refresh))
}

/// A key event took session `s` (open windows `st`) to `after` with effects `fx`.
/// Releases change nothing. The power dialog, then the taskbar context menu, the flyout, the
/// desktop context menu and the Start menu take keys first (Esc closes the dialog or the
/// flyout); otherwise the Start key opens the Start menu and other keys go to the front
/// window. `ready` is the number of threads the Task Manager lists; `shortcut` is the
/// desktop shortcut under the pointer.
pub open spec fn key_post(
    s: DesktopSession,
    st: Seq<AppId>,
    codes: KeyCodes,
    ev: KeyEvent,
    ready: usize,
    shortcut: Option<usize>,
    after: DesktopSession,
    fx: SessionEffects,
) -> bool {
    let code = ev.code;
    if !ev.down {
        unchanged(after, fx, s, st)
    } else if s.power_confirm_open {
        if code == codes.esc {
            repainted(after, fx, DesktopSession { power_confirm_open: false, ..s }, st)
        } else {
            unchanged(after, fx, s, st)
        }
    } else if s.tb_ctx_open {
        tb_ctx_key_post(s, st, codes, code, after, fx)
    } else if s.flyout != FLYOUT_KIND_NONE {
        if code == codes.esc {
            repainted(after, fx, DesktopSession { flyout: FLYOUT_KIND_NONE, ..s }, st)
        } else {
            unchanged(after, fx, s, st)
        }
    } else if s.ctx_open {
        ctx_key_post(s, st, codes, code, shortcut, after, fx)
    } else if s.menu_open {
        menu_key_post(s, st, codes, code, after, fx)
    } else if code == codes.win {
        repainted(
            after,
            fx,
            DesktopSession { menu_open: true, menu_sel: 0, flyout: FLYOUT_KIND_NONE, tb_ctx_open: false, ..s },
            st,
        )
    } else if st.len() > 0 {
        window_key_post(s, st, st.last(), codes, code, ready, after, fx)
    } else {
        unchanged(after, fx, s, st)
    }
}

/// Type `ch` at `*len` when the box has room; returns whether it did.
fn type_into<const N: usize>(buf: &mut [u8; N], len: &mut usize, ch: u8) -> (typed_in: bool)
    ensures
        (final(buf)@, *final(len)) == typed(old(buf)@, *old(len), ch),
        typed_in == (*old(len) < N),
{
    let l = *len;
    if l < N {
        buf[l] = ch;
        *len = l + 1;
        true
    } else {
        false
    }
}

impl DesktopSession {
    #[verifier::rlimit(40)]
    #[verifier::spinoff_prover]
    fn files_key(&mut self, codes: &KeyCodes, code: u8) -> (r: (bool, bool))
        requires
            old(self).wf(),
        ensures
            final(self).wf(),
            files_key_post(*old(self), old(self).stack@, *codes, code, *final(self), r.0, r.1),
    {
        if code == codes.esc {
            let _ = self.stack.pop_top();
            return (true, true);
        }
        let n = if self.host_ui.files.row_count >= 1 { self.host_ui.files.row_count } else { 1 };
        let max_r = n - 1;
        let sel = self.host_ui.files.sel;
        if !(code == codes.up || code == codes.down || code == codes.tab) {
            return (false, false);
        }
        let v = if code == codes.up {
            if sel >= 1 { sel - 1 } else { 0 }
        } else if code == codes.down {
            if sel + 1 <= max_r { sel + 1 } else { max_r }
        } else if self.usb_shift_down {
            let t = (sel + max_r) % (max_r + 1);
            assert(t < max_r + 1) by (nonlinear_arith)
                requires
                    t == (sel + max_r) % (max_r + 1),
                    max_r + 1 >= 1,
            ;
            t
        } else {
            let t = (sel + 1) % (max_r + 1);
            assert(t < max_r + 1) by (nonlinear_arith)
                requires
                    t == (sel + 1) % (max_r + 1),
                    max_r + 1 >= 1,
            ;
            t
        };
        self.host_ui.files.sel = v;
        (true, true)
    }

    #[verifier::rlimit(40)]
    #[verifier::spinoff_prover]
    fn taskmgr_key(&mut self, codes: &KeyCodes, code: u8, ready: usize) -> (r: (bool, bool))
        requires
            old(self).wf(),
            ready <= 8,
        ensures
            final(self).wf(),
            taskmgr_key_post(*old(self), old(self).stack@, *codes, code, ready, *final(self), r.0, r.1),
    {
        if code == codes.esc {
            let _ = self.stack.pop_top();
            return (true, true);
        }
        if code == codes.tab {
            self.host_ui.taskmgr.tab = self.host_ui.taskmgr.tab ^ 1;
            return (true, true);
        }
        if self.host_ui.taskmgr.tab == 0 {
            let max_r = if ready >= 1 { ready - 1 } else { 0 };
            let sel = self.host_ui.taskmgr.sel;
            if code == codes.up {
                self.host_ui.taskmgr.sel = if sel >= 1 { sel - 1 } else { 0 };
                return (true, true);
            }
            if code == codes.down {
                self.host_ui.taskmgr.sel = if sel + 1 <= max_r { sel + 1 } else { max_r };
                return (true, true);
            }
        }
        (false, false)
    }

    #[verifier::rlimit(40)]
    #[verifier::spinoff_prover]
    fn settings_key(&mut self, codes: &KeyCodes, code: u8) -> (r: (bool, bool))
        requires
            old(self).wf(),
        ensures
            final(self).wf(),
            settings_key_post(*old(self), old(self).stack@, *codes, code, *final(self), r.0, r.1),
    {
        if code == codes.esc {
            let _ = self.stack.pop_top();
            return (true, true);
        }
        let cat = self.host_ui.settings.cat;
        if code == codes.up {
            self.host_ui.settings.cat = if cat >= 1 { cat - 1 } else { 0 };
            return (true, true);
        }
        if code == codes.down {
            self.host_ui.settings.cat = if cat + 1 <= 5 { cat + 1 } else { 5 };
            return (true, true);
        }
        (false, false)
    }

    fn control_key(&mut self, codes: &KeyCodes, code: u8) -> (r: (bool, bool))
        requires
            old(self).wf(),
        ensures
            final(self).wf(),
            control_key_post(*old(self), old(self).stack@, *codes, code, *final(self), r.0, r.1),
    {
        if self.host_ui.control.open_sub.is_some() && code == codes.esc {
            self.host_ui.control.open_sub = None;
            return (true, true);
        }
        if code == codes.esc {
            let _ = self.stack.pop_top();
            return (true, true);
        }
        (false, false)
    }

    #[verifier::rlimit(40)]
    #[verifier::spinoff_prover]
    fn run_key(&mut self, codes: &KeyCodes, code: u8) -> (r: (bool, bool))
        requires
            old(self).wf(),
        ensures
            final(self).wf(),
            run_key_post(*old(self), old(self).stack@, *codes, code, *final(self), r.0, r.1),
    {
        if code == codes.esc || code == codes.enter {
            let _ = self.stack.pop_top();
            return (true, true);
        }
        if let Some(ch) = scancode_printable(code, self.usb_shift_down) {
            let refresh = type_into(&mut self.host_ui.run.buf, &mut self.host_ui.run.len, ch);
            return (true, refresh);
        }
        if code == SCAN_BACKSPACE && self.host_ui.run.len > 0 {
            self.host_ui.run.len = self.host_ui.run.len - 1;
            return (true, true);
        }
        (false, false)
    }

    #[verifier::rlimit(40)]
    #[verifier::spinoff_prover]
    fn notepad_key(&mut self, codes: &KeyCodes, code: u8) -> (r: (bool, bool))
        requires
            old(self).wf(),
        ensures
            final(self).wf(),
            notepad_key_post(*old(self), old(self).stack@, *codes, code, *final(self), r.0, r.1),
    {
        if code == codes.esc {
            let _ = self.stack.pop_top();
            return (true, true);
        }
        let ch = if code == codes.enter { Some(10u8) } else { scancode_printable(code, self.usb_shift_down) };
        if let Some(c) = ch {
            let refresh = type_into(&mut self.host_ui.notepad.buf, &mut self.host_ui.notepad.len, c);
            return (true, refresh);
        }
        if code == SCAN_BACKSPACE && self.host_ui.notepad.len > 0 {
            self.host_ui.notepad.len = self.host_ui.notepad.len - 1;
            return (true, true);
        }
        (false, false)
    }

    fn calculator_key(&mut self, codes: &KeyCodes, code: u8) -> (r: (bool, bool))
        requires
            old(self).wf(),
            !(code != codes.esc && code == 0x1C && calc_div_overflows(old(self).host_ui.calculator)),
        ensures
            final(self).wf(),
            calculator_key_post(*old(self), old(self).stack@, *codes, code, *final(self), r.0, r.1),
    {
        if code == codes.esc {
            let _ = self.stack.pop_top();
            return (true, true);
        }
        let used = self.handle_calc_scancode(code);
        (used, used)
    }

    /// Calculator key `code` (digits, `+ - * /` operators, `=`, clear); returns whether it was
    /// a calculator key (and so whether the desktop must be repainted).
    pub fn handle_calc_scancode(&mut self, code: u8) -> (used: bool)
        requires
            old(self).wf(),
            !(code == 0x1C && calc_div_overflows(old(self).host_ui.calculator)),
        ensures
            final(self).wf(),
            is_state(
                *final(self),
                DesktopSession {
                    host_ui: HostUiState { calculator: calc_key_spec(old(self).host_ui.calculator, code).0, ..old(self).host_ui },
                    ..*old(self)
                },
                old(self).stack@,
            ),
            used == calc_key_spec(old(self).host_ui.calculator, code).1,
    {
        calc_key(&mut self.host_ui.calculator, code)
    }

    /// Give key event `ev` to the front window `id`; returns whether the window used the key
    /// and whether the desktop must be repainted. `ready_threads` is the number of ready
    /// threads the Task Manager lists.
    pub fn handle_top_window_key(&mut self, id: AppId, codes: &KeyCodes, ev: KeyEvent, ready_threads: usize) -> (r: (bool, bool))
        requires
            old(self).wf(),
            ready_threads <= 8,
            !(id == AppId::Calculator && ev.code != codes.esc && ev.code == 0x1C && calc_div_overflows(
                old(self).host_ui.calculator,
            )),
        ensures
            final(self).wf(),
            top_key_post(*old(self), old(self).stack@, id, *codes, ev.code, ready_threads, *final(self), r.0, r.1),
    {
        let code = ev.code;
        match id {
            AppId::Files => self.files_key(codes, code),
            AppId::TaskMgr => self.taskmgr_key(codes, code, ready_threads),
            AppId::Settings => self.settings_key(codes, code),
            AppId::ControlPanel => self.control_key(codes, code),
            AppId::Run => self.run_key(codes, code),
            AppId::Notepad => self.notepad_key(codes, code),
            AppId::Calculator => self.calculator_key(codes, code),
            AppId::About | AppId::Properties => {
                if code == codes.esc {
                    let _ = self.stack.pop_top();
                    (true, true)
                } else {
                    (false, false)
                }
            },
        }
    }
}

impl DesktopSession {
    #[verifier::rlimit(40)]
    #[verifier::spinoff_prover]
    fn tb_ctx_key(&mut self, codes: &KeyCodes, code: u8) -> (fx: SessionEffects)
        requires
            old(self).wf(),
        ensures
            final(self).wf(),
            tb_ctx_key_post(*old(self), old(self).stack@, *codes, code, *final(self), fx),
    {
        if code == codes.esc {
            self.tb_ctx_open = false;
            return SessionEffects { refresh: true, reload_files: false };
        }
        if code == codes.tab {
            self.tb_ctx_sel = if self.usb_shift_down {
                (self.tb_ctx_sel + 3) % 4
            } else {
                (self.tb_ctx_sel + 1) % 4
            };
            return SessionEffects { refresh: true, reload_files: false };
        }
        if code == codes.enter {
            return self.activate_tb_ctx_item();
        }
        SessionEffects { refresh: false, reload_files: false }
    }

    #[verifier::rlimit(40)]
    #[verifier::spinoff_prover]
    fn ctx_key(&mut self, codes: &KeyCodes, code: u8, shortcut: Option<usize>) -> (fx: SessionEffects)
        requires
            old(self).wf(),
        ensures
            final(self).wf(),
            ctx_key_post(*old(self), old(self).stack@, *codes, code, shortcut, *final(self), fx),
    {
        if code == codes.esc {
            self.ctx_open = false;
            return SessionEffects { refresh: true, reload_files: false };
        }
        if code == codes.tab {
            self.ctx_sel = if self.usb_shift_down {
                (self.ctx_sel + 2) % 3
            } else {
                (self.ctx_sel + 1) % 3
            };
            return SessionEffects { refresh: true, reload_files: false };
        }
        if code == codes.enter {
            return self.activate_ctx_item_with_shortcut(shortcut);
        }
        SessionEffects { refresh: false, reload_files: false }
    }

    #[verifier::rlimit(40)]
    #[verifier::spinoff_prover]
    fn menu_key(&mut self, codes: &KeyCodes, code: u8) -> (fx: SessionEffects)
        requires
            old(self).wf(),
        ensures
            final(self).wf(),
            menu_key_post(*old(self), old(self).stack@, *codes, code, *final(self), fx),
    {
        if code == codes.esc {
            self.menu_open = false;
            return SessionEffects { refresh: true, reload_files: false };
        }
        if code == codes.up || code == codes.down || code == codes.tab {
            let sel = self.menu_sel;
            self.menu_sel = if code == codes.up {
                if sel >= 1 { sel - 1 } else { 0 }
            } else if code == codes.down {
                if sel + 1 <= 10 { sel + 1 } else { 10 }
            } else if self.usb_shift_down {
                (sel + 10) % 11
            } else {
                (sel + 1) % 11
            };
            return SessionEffects { refresh: true, reload_files: false };
        }
        if code == codes.enter {
            let idx = self.menu_sel;
            return self.activate_menu_item(idx);
        }
        SessionEffects { refresh: false, reload_files: false }
    }

    fn window_key(&mut self, codes: &KeyCodes, ev: KeyEvent, ready_threads: usize) -> (fx: SessionEffects)
        requires
            old(self).wf(),
            ready_threads <= 8,
            old(self).stack@.len() > 0,
            !(old(self).stack@.last() == AppId::Calculator && ev.code != codes.esc && ev.code == 0x1C
                && calc_div_overflows(old(self).host_ui.calculator)),
        ensures
            final(self).wf(),
            window_key_post(*old(self), old(self).stack@, old(self).stack@.last(), *codes, ev.code, ready_threads, *final(self), fx),
    {
        let top_id = match self.stack.top() {
            Some(t) => t,
            None => AppId::Files,
        };
        let (used, r) = self.handle_top_window_key(top_id, codes, ev, ready_threads);
        let fx = SessionEffects { refresh: r, reload_files: false };
        proof {
            if used {
                assert(top_key_post(*old(self), old(self).stack@, top_id, *codes, ev.code, ready_threads, *self, true, fx.refresh));
            } else {
                assert(top_key_post(*old(self), old(self).stack@, top_id, *codes, ev.code, ready_threads, *self, false, fx.refresh));
            }
        }
        fx
    }

    /// Handle one key event; `ready_threads` is the number of threads the Task Manager lists
    /// and `metrics` the sizes of the desktop shortcuts (the one under the pointer matters to
    /// the desktop context menu).
    pub fn handle_key(&mut self, codes: &KeyCodes, ev: KeyEvent, ready_threads: usize, metrics: &ShortcutMetrics) -> (fx: SessionEffects)
        requires
            old(self).wf(),
            metrics.wf(),
            ready_threads <= 8,
            !(key_reaches_window(*old(self), old(self).stack@, *codes, ev) && old(self).stack@.last()
                == AppId::Calculator && ev.code != codes.esc && ev.code == 0x1C && calc_div_overflows(
                old(self).host_ui.calculator,
            )),
        ensures
            final(self).wf(),
            key_post(
                *old(self),
                old(self).stack@,
                *codes,
                ev,
                ready_threads,
                shortcut_under(old(self).cx, old(self).cy, old(self).layout, *metrics),
                *final(self),
                fx,
            ),
    {
        let shortcut = desktop_shortcut_hit(self.cx, self.cy, &self.layout, metrics.icon_h, metrics.caption_h, metrics.icon_count);
        self.handle_key_with_shortcut(codes, ev, ready_threads, shortcut)
    }

    /// `handle_key` with the shortcut under the pointer already known.
    fn handle_key_with_shortcut(&mut self, codes: &KeyCodes, ev: KeyEvent, ready_threads: usize, shortcut: Option<usize>) -> (fx: SessionEffects)
        requires
            old(self).wf(),
            ready_threads <= 8,
            !(key_reaches_window(*old(self), old(self).stack@, *codes, ev) && old(self).stack@.last()
                == AppId::Calculator && ev.code != codes.esc && ev.code == 0x1C && calc_div_overflows(
                old(self).host_ui.calculator,
            )),
        ensures
            final(self).wf(),
            key_post(*old(self), old(self).stack@, *codes, ev, ready_threads, shortcut, *final(self), fx),
    {
        if !ev.down {
            return SessionEffects { refresh: false, reload_files: false };
        }
        let code = ev.code;
        if self.power_confirm_open {
            if code == codes.esc {
                self.power_confirm_open = false;
                return SessionEffects { refresh: true, reload_files: false };
            }
            return SessionEffects { refresh: false, reload_files: false };
        }
        if self.tb_ctx_open {
            return self.tb_ctx_key(codes, code);
        }
        if self.flyout != FLYOUT_KIND_NONE {
            if code == codes.esc {
                self.flyout = FLYOUT_KIND_NONE;
                return SessionEffects { refresh: true, reload_files: false };
            }
            return SessionEffects { refresh: false, reload_files: false };
        }
        if self.ctx_open {
            return self.ctx_key(codes, code, shortcut);
        }
        if self.menu_open {
            return self.menu_key(codes, code);
        }
        if code == codes.win {
            self.menu_open = true;
            self.menu_sel = 0;
            self.flyout = FLYOUT_KIND_NONE;
            self.tb_ctx_open = false;
            return SessionEffects { refresh: true, reload_files: false };
        }
        if self.stack.len == 0 {
            return SessionEffects { refresh: false, reload_files: false };
        }
        self.window_key(codes, ev, ready_threads)
    }
}

impl DesktopSession {
    /// Count one poll of the input devices; returns whether this poll samples the RTC (every
    /// 512th poll).
    pub fn begin_poll(&mut self) -> (sample_rtc: bool)
        requires
            old(self).wf(),
        ensures
            final(self).wf(),
            *final(self) == (DesktopSession { poll_seq: old(self).poll_seq.wrapping_add(1), ..*old(self) }),
            sample_rtc == (old(self).poll_seq.wrapping_add(1) % 512 == 0),
    {
        self.poll_seq = self.poll_seq.wrapping_add(1);
        self.poll_seq % 512 == 0
    }

    /// Count one poll towards the deferred USB controller bring-up; returns whether the
    /// controller should be probed now. It is probed once, after more than
    /// `XHCI_INIT_AFTER_POLLS` polls, unless `skip_init` (then it is marked as tried).
    pub fn xhci_bringup_due(&mut self, skip_init: bool) -> (probe: bool)
        requires
            old(self).wf(),
        ensures
            final(self).wf(),
            final(self).usb.poll_tick == old(self).usb.poll_tick.wrapping_add(1),
            final(self).usb.prev_gui == old(self).usb.prev_gui,
            probe == (!old(self).usb.probe_attempted && !skip_init
                && old(self).usb.poll_tick.wrapping_add(1) > XHCI_INIT_AFTER_POLLS),
            final(self).usb.probe_attempted == (old(self).usb.probe_attempted || skip_init
                || old(self).usb.poll_tick.wrapping_add(1) > XHCI_INIT_AFTER_POLLS),
            *final(self) == (DesktopSession { usb: final(self).usb, ..*old(self) }),
    {
        let tick = self.usb.poll_tick.wrapping_add(1);
        let attempted = self.usb.probe_attempted;
        let (probe, now_attempted) = if attempted {
            (false, true)
        } else if skip_init {
            (false, true)
        } else if tick <= XHCI_INIT_AFTER_POLLS {
            (false, false)
        } else {
            (true, true)
        };
        self.usb = UsbInputState { prev_gui: self.usb.prev_gui, poll_tick: tick, probe_attempted: now_attempted };
        probe
    }

    /// The modifier byte of a USB boot keyboard report: Shift (either side) is remembered, and
    /// a change of the GUI modifier becomes a Windows-key press or release.
    pub fn apply_usb_modifiers(&mut self, mods: u8, codes: &KeyCodes) -> (edge: Option<KeyEvent>)
        requires
            old(self).wf(),
        ensures
            final(self).wf(),
            *final(self) == (DesktopSession {
                usb_shift_down: (mods & 0x03) != 0,
                usb: UsbInputState { prev_gui: (mods & 0x08) != 0, ..old(self).usb },
                ..*old(self)
            }),
            edge == if ((mods & 0x08) != 0) != old(self).usb.prev_gui {
                Some(KeyEvent { code: codes.win, down: (mods & 0x08) != 0 })
            } else {
                None::<KeyEvent>
            },
    {
        let gui = (mods & 0x08) != 0;
        let prev = self.usb.prev_gui;
        let edge = if gui && !prev {
            Some(KeyEvent { code: codes.win, down: true })
        } else if !gui && prev {
            Some(KeyEvent { code: codes.win, down: false })
        } else {
            None
        };
        self.usb_shift_down = (mods & 0x03) != 0;
        self.usb = UsbInputState { prev_gui: gui, ..self.usb };
        edge
    }

    /// A new RTC sample: returns whether its second differs from the last one seen (the clock
    /// then needs repainting), remembering it.
    pub fn rtc_second_changed(&mut self, second: u8) -> (changed: bool)
        requires
            old(self).wf(),
        ensures
            final(self).wf(),
            changed == (second != old(self).last_rtc_second),
            *final(self) == (DesktopSession { last_rtc_second: second, ..*old(self) }),
    {
        let changed = second != self.last_rtc_second;
        self.last_rtc_second = second;
        changed
    }

    /// Without an RTC, count one second of uptime every 48000 polls.
    pub fn advance_uptime_if_no_rtc(&mut self, rtc_present: bool)
        requires
            old(self).wf(),
        ensures
            final(self).wf(),
            *final(self) == if !rtc_present && old(self).poll_seq.wrapping_sub(old(self).last_uptime_adv_poll) >= 48000 {
                DesktopSession {
                    last_uptime_adv_poll: old(self).poll_seq,
                    uptime_secs: old(self).uptime_secs.wrapping_add(1),
                    ..*old(self)
                }
            } else {
                *old(self)
            },
    {
        if rtc_present {
            return;
        }
        if self.poll_seq.wrapping_sub(self.last_uptime_adv_poll) >= 48000 {
            self.last_uptime_adv_poll = self.poll_seq;
            self.uptime_secs = self.uptime_secs.wrapping_add(1);
        }
    }

    /// Format the taskbar clock from the RTC sample `rtc` (or the uptime when there is none).
    pub fn update_clock_strings(&mut self, rtc: Option<RtcSnapshot>)
        requires
            old(self).wf(),
        ensures
            final(self).wf(),
            *final(self) == (DesktopSession {
                clock_time: final(self).clock_time,
                clock_date: final(self).clock_date,
                clock_time_n: 8,
                clock_date_n: 10,
                ..*old(self)
            }),
            final(self).clock_time@.take(8) == time_text(clock_fields(rtc, old(self).uptime_secs)),
            final(self).clock_time@.skip(8) == old(self).clock_time@.skip(8),
            final(self).clock_date@.take(10) == date_text(clock_fields(rtc, old(self).uptime_secs)),
            final(self).clock_date@.skip(10) == old(self).clock_date@.skip(10),
    {
        let (tn, dn) = format_clock_lines(rtc, self.uptime_secs, &mut self.clock_time, &mut self.clock_date);
        self.clock_time_n = (if tn <= 16 { tn } else { 16 }) as u8;
        self.clock_date_n = (if dn <= 20 { dn } else { 20 }) as u8;
    }
}

} // verus!
