//! Win32 shell overlay state of the desktop session: the shell window handles, the taskbar
//! timer, mouse capture and dragging of the test window.
use vstd::prelude::*;
use crate::desktop::app_host::{other_than, pushed_front, AppId, WindowStack};
use crate::desktop::hosted_apps::task_slot_app;
use crate::desktop::taskbar::{clock_display_area_spec, task_slot_spec, HitRect, TaskbarLayout, TASK_SLOT_COUNT};

verus! {

/// Window handle.
pub type Hwnd = u64;

/// Polls between taskbar `WM_TIMER` posts.
pub const TIMER_POLL_INTERVAL: u32 = 1024;
/// Dedicated Win32 bring-up thread id.
pub const NT10_UEFI_WIN32_TID: u32 = 0x5A01_0000;

/// Per-session Win32 shell windows and interaction state.
#[derive(Clone, Debug)]
pub struct Win32ShellState {
    pub desktop_ready: bool,
    pub hwnd_wallpaper: Hwnd,
    pub hwnd_taskbar: Hwnd,
    pub hwnd_icon: Hwnd,
    pub hwnd_test: Hwnd,
    pub hwnd_clock: Hwnd,
    pub hwnd_menu: Hwnd,
    pub capture_hwnd: Option<Hwnd>,
    pub dragging: bool,
    pub drag_anchor_x: i32,
    pub drag_anchor_y: i32,
    pub test_win_x: u32,
    pub test_win_y: u32,
    pub test_win_w: u32,
    pub test_win_h: u32,
    pub icon_x: u32,
    pub icon_y: u32,
    pub win32_menu_open: bool,
    pub win32_menu_x: u32,
    pub win32_menu_y: u32,
    pub win32_menu_sel: usize,
    pub clock_open: bool,
    pub taskbar_timer_armed: bool,
    pub timer_last_poll: u32,
}

impl Default for Win32ShellState {
    fn default() -> (s: Self)
        ensures
            !s.desktop_ready,
            s.hwnd_wallpaper == 0 && s.hwnd_taskbar == 0 && s.hwnd_icon == 0,
            s.hwnd_test == 0 && s.hwnd_clock == 0 && s.hwnd_menu == 0,
            s.capture_hwnd is None && !s.dragging && s.drag_anchor_x == 0 && s.drag_anchor_y == 0,
            s.test_win_x == 0 && s.test_win_y == 0 && s.test_win_w == 200 && s.test_win_h == 120,
            s.icon_x == 48 && s.icon_y == 80,
            !s.win32_menu_open && s.win32_menu_x == 0 && s.win32_menu_y == 0 && s.win32_menu_sel == 0,
            !s.clock_open && !s.taskbar_timer_armed && s.timer_last_poll == 0,
    {
        Win32ShellState {
            desktop_ready: false,
            hwnd_wallpaper: 0,
            hwnd_taskbar: 0,
            hwnd_icon: 0,
            hwnd_test: 0,
            hwnd_clock: 0,
            hwnd_menu: 0,
            capture_hwnd: None,
            dragging: false,
            drag_anchor_x: 0,
            drag_anchor_y: 0,
            test_win_x: 0,
            test_win_y: 0,
            test_win_w: 200,
            test_win_h: 120,
            icon_x: 48,
            icon_y: 80,
            win32_menu_open: false,
            win32_menu_x: 0,
            win32_menu_y: 0,
            win32_menu_sel: 0,
            clock_open: false,
            taskbar_timer_armed: false,
            timer_last_poll: 0,
        }
    }
}

/// Arm the periodic taskbar timer.
pub fn set_timer_taskbar_bringup(shell: &mut Win32ShellState)
    ensures
        *final(shell) == (Win32ShellState { taskbar_timer_armed: true, ..*old(shell) }),
{
    shell.taskbar_timer_armed = true;
}

/// Disarm the taskbar timer.
pub fn kill_timer_taskbar_bringup(shell: &mut Win32ShellState)
    ensures
        *final(shell) == (Win32ShellState { taskbar_timer_armed: false, ..*old(shell) }),
{
    shell.taskbar_timer_armed = false;
}

/// Route mouse input to `hwnd`.
pub fn set_capture_bringup(shell: &mut Win32ShellState, hwnd: Hwnd)
    ensures
        *final(shell) == (Win32ShellState { capture_hwnd: Some(hwnd), ..*old(shell) }),
{
    shell.capture_hwnd = Some(hwnd);
}

/// Stop routing mouse input to a captured window.
pub fn release_capture_bringup(shell: &mut Win32ShellState)
    ensures
        *final(shell) == (Win32ShellState { capture_hwnd: None, ..*old(shell) }),
{
    shell.capture_hwnd = None;
}

/// Decide whether poll `poll_seq` fires the taskbar timer; returns the window to post
/// `WM_TIMER` to and restarts the interval.
pub fn maybe_post_timer(shell: &mut Win32ShellState, poll_seq: u32) -> (r: Option<Hwnd>)
    ensures
        (!old(shell).desktop_ready || !old(shell).taskbar_timer_armed
            || poll_seq.wrapping_sub(old(shell).timer_last_poll) < TIMER_POLL_INTERVAL) ==> r is None
            && *final(shell) == *old(shell),
        (old(shell).desktop_ready && old(shell).taskbar_timer_armed
            && poll_seq.wrapping_sub(old(shell).timer_last_poll) >= TIMER_POLL_INTERVAL) ==> r == Some(old(shell).hwnd_taskbar)
            && *final(shell) == (Win32ShellState { timer_last_poll: poll_seq, ..*old(shell) }),
{
    if !shell.desktop_ready || !shell.taskbar_timer_armed {
        return None;
    }
    if poll_seq.wrapping_sub(shell.timer_last_poll) < TIMER_POLL_INTERVAL {
        return None;
    }
    shell.timer_last_poll = poll_seq;
    Some(shell.hwnd_taskbar)
}

/// `v` limited to `lo..=hi`.
pub open spec fn clamp_i(v: int, lo: int, hi: int) -> int {
    if v < lo {
        lo
    } else if v > hi {
        hi
    } else {
        v
    }
}

/// Drag the test window with the pointer at `(cx, cy)` on a `w` x `h` screen; returns the new
/// top-left when the window moved.
pub fn handle_pointer_move(shell: &mut Win32ShellState, cx: u32, cy: u32, w: u32, h: u32) -> (r: Option<(u32, u32)>)
    requires
        cx <= i32::MAX && cy <= i32::MAX,
        old(shell).test_win_x <= i32::MAX && old(shell).test_win_y <= i32::MAX,
        i32::MIN <= cx - old(shell).drag_anchor_x <= i32::MAX,
        i32::MIN <= cy - old(shell).drag_anchor_y <= i32::MAX,
        i32::MIN <= old(shell).test_win_x + (cx - old(shell).drag_anchor_x) <= i32::MAX,
        i32::MIN <= old(shell).test_win_y + (cy - old(shell).drag_anchor_y) <= i32::MAX,
        w.saturating_sub(old(shell).test_win_w) <= i32::MAX,
        h.saturating_sub(old(shell).test_win_h) <= i32::MAX,
    ensures
        (!old(shell).desktop_ready || !old(shell).dragging || (cx == old(shell).drag_anchor_x && cy
            == old(shell).drag_anchor_y)) ==> r is None && *final(shell) == *old(shell),
        (old(shell).desktop_ready && old(shell).dragging && !(cx == old(shell).drag_anchor_x && cy
            == old(shell).drag_anchor_y)) ==> {
            let nx = clamp_i(old(shell).test_win_x + (cx - old(shell).drag_anchor_x), 0, w.saturating_sub(old(shell).test_win_w) as int);
            let ny = clamp_i(old(shell).test_win_y + (cy - old(shell).drag_anchor_y), 0, h.saturating_sub(old(shell).test_win_h) as int);
            &&& r == Some((nx as u32, ny as u32))
            &&& *final(shell) == (Win32ShellState {
                drag_anchor_x: cx as i32,
                drag_anchor_y: cy as i32,
                test_win_x: nx as u32,
                test_win_y: ny as u32,
                ..*old(shell)
            })
        },
{
    if !shell.desktop_ready || !shell.dragging {
        return None;
    }
    let px = cx as i32;
    let py = cy as i32;
    let dx = px - shell.drag_anchor_x;
    let dy = py - shell.drag_anchor_y;
    if dx == 0 && dy == 0 {
        return None;
    }
    shell.drag_anchor_x = px;
    shell.drag_anchor_y = py;
    let max_x = w.saturating_sub(shell.test_win_w) as i32;
    let max_y = h.saturating_sub(shell.test_win_h) as i32;
    let vx = shell.test_win_x as i32 + dx;
    let vy = shell.test_win_y as i32 + dy;
    let nx = if vx < 0 { 0 } else if vx > max_x { max_x } else { vx };
    let ny = if vy < 0 { 0 } else if vy > max_y { max_y } else { vy };
    shell.test_win_x = nx as u32;
    shell.test_win_y = ny as u32;
    Some((nx as u32, ny as u32))
}

// ---------------------------------------------------------------- overlay clicks

/// Non-client hit of the test window.
#[derive(Clone, Copy, Debug, PartialEq, Eq, Structural)]
pub enum NcHit {
    /// Outside the window.
    Nowhere,
    /// On the title bar.
    Caption,
    /// On the 6-pixel frame at the right or bottom edge.
    Border,
    /// In the client area.
    Client,
}

/// Height on screen of the test window's title bar: `title_px` of the `surf_h` rows of its
/// surface, scaled to the window height `th` (the product saturates at `u32::MAX`).
pub open spec fn test_title_h(th: u32, title_px: u32, surf_h: u32) -> int {
    let p: int = if th * title_px <= u32::MAX { th * title_px } else { u32::MAX as int };
    p / (if surf_h >= 1 { surf_h as int } else { 1 })
}

/// Where `(px, py)` falls on the test window of `s`.
pub open spec fn nc_hit_spec(s: Win32ShellState, px: u32, py: u32, title_px: u32, surf_h: u32) -> NcHit {
    let tx = s.test_win_x;
    let ty = s.test_win_y;
    let tw = s.test_win_w;
    let th = s.test_win_h;
    if px < tx || py < ty || px >= tx.saturating_add(tw) || py >= ty.saturating_add(th) {
        NcHit::Nowhere
    } else if py - ty < test_title_h(th, title_px, surf_h) {
        NcHit::Caption
    } else if (px - tx) + 6 >= tw || (py - ty) + 6 >= th {
        NcHit::Border
    } else {
        NcHit::Client
    }
}

/// Hit-test the test window's frame; `title_px` and `surf_h` are the title height and the
/// height of the window's surface.
pub fn nc_hit_test_test_window(shell: &Win32ShellState, px: u32, py: u32, title_px: u32, surf_h: u32) -> (r: NcHit)
    ensures
        r == nc_hit_spec(*shell, px, py, title_px, surf_h),
{
    let tx = shell.test_win_x;
    let ty = shell.test_win_y;
    let tw = shell.test_win_w;
    let th = shell.test_win_h;
    if px < tx || py < ty || px >= tx.saturating_add(tw) || py >= ty.saturating_add(th) {
        return NcHit::Nowhere;
    }
    let rel_x = px - tx;
    let rel_y = py - ty;
    let on_edge = rel_x.saturating_add(6) >= tw || rel_y.saturating_add(6) >= th;
    assert((th as u64) * (title_px as u64) <= u64::MAX) by (nonlinear_arith)
        requires
            th <= u32::MAX,
            title_px <= u32::MAX,
    ;
    let prod: u64 = (th as u64) * (title_px as u64);
    let p: u32 = if prod <= u32::MAX as u64 { prod as u32 } else { u32::MAX };
    let d: u32 = if surf_h >= 1 { surf_h } else { 1 };
    let title_screen = p / d;
    if rel_y < title_screen {
        NcHit::Caption
    } else if on_edge {
        NcHit::Border
    } else {
        NcHit::Client
    }
}

/// What the Win32 window manager reports about a left press.
#[derive(Clone, Copy, Debug, PartialEq, Eq, Structural)]
pub struct Win32Hit {
    /// Top-most overlay window under the pointer.
    pub topmost: Option<Hwnd>,
    /// The clock popup window is minimised.
    pub clock_minimized: bool,
    /// The test window is minimised.
    pub test_minimized: bool,
    /// Title-bar height of the test window's surface, in surface rows.
    pub title_px: u32,
    /// Height of the test window's surface.
    pub surf_h: u32,
}

/// What a left press on the Win32 overlay asks of the window manager and the shell.
#[derive(Clone, Copy, Debug, PartialEq, Eq, Structural)]
pub enum Win32LeftDown {
    /// The overlay is not up or the press is not its business.
    NotConsumed,
    /// Row `row` of the overlay menu: post the menu command to the wallpaper window.
    MenuCommand { row: usize },
    /// A press outside the open overlay menu closes it (minimise the menu window, repaint).
    MenuDismissed,
    /// The drag of the test window ends (post button-up, raise the test window, repaint).
    DragEnded,
    /// A press on the menu window itself is swallowed.
    MenuWindow,
    /// The open clock popup closes (minimise it, repaint).
    ClockClosed,
    /// The taskbar clock toggles the popup; `open` tells the new state, and an opened popup is
    /// placed at `(x, y)`, 128 x 48.
    ClockToggled { open: bool, x: u32, y: u32 },
    /// The task button of the front window minimised it (it left the window stack).
    TaskMinimized { app: AppId },
    /// The task button of a back window brought it to the front.
    TaskRestored { app: AppId },
    /// The first task button without a hosted window toggles the test window.
    TestWindowToggled { minimize: bool },
    /// A drag of the test window by its caption starts.
    DragStarted,
    /// A press in the test window's client area: post button-down to it, repaint.
    ClientClick,
}

/// The first task button at or after `i` that contains `(px, py)`.
pub open spec fn first_slot_from(l: TaskbarLayout, px: u32, py: u32, i: nat) -> Option<nat>
    decreases TASK_SLOT_COUNT - i,
{
    if i >= TASK_SLOT_COUNT {
        None
    } else if task_slot_spec(l, i).contains_spec(px, py) {
        Some(i)
    } else {
        first_slot_from(l, px, py, i + 1)
    }
}

/// A press on task button `i` with window stack `st`: the request and the stack after it.
pub open spec fn task_button_press(st: Seq<AppId>, i: nat, h: Win32Hit) -> (Win32LeftDown, Seq<AppId>) {
    if i < st.len() {
        let app = st[st.len() - 1 - i];
        if st.last() == app {
            (Win32LeftDown::TaskMinimized { app }, st.filter(other_than(app)))
        } else {
            (Win32LeftDown::TaskRestored { app }, pushed_front(st, app))
        }
    } else if i == 0 {
        (Win32LeftDown::TestWindowToggled { minimize: !h.test_minimized }, st)
    } else {
        (Win32LeftDown::NotConsumed, st)
    }
}

/// A press at `(px, py)` on overlay window `hit` once the menu and any capture are dealt
/// with (`s` has no capture any more).
pub open spec fn overlay_window_press(s: Win32ShellState, px: u32, py: u32, l: TaskbarLayout, st: Seq<AppId>, h: Win32Hit, hit: Hwnd) -> (Win32ShellState, Win32LeftDown, Seq<AppId>) {
    let c = clock_display_area_spec(l);
    if hit == s.hwnd_menu {
        (s, Win32LeftDown::MenuWindow, st)
    } else if hit == s.hwnd_clock && !h.clock_minimized {
        (Win32ShellState { clock_open: false, ..s }, Win32LeftDown::ClockClosed, st)
    } else if hit == s.hwnd_taskbar && c.contains_spec(px, py) {
        (
            Win32ShellState { clock_open: h.clock_minimized, ..s },
            Win32LeftDown::ClockToggled { open: h.clock_minimized, x: c.x.saturating_sub(8), y: l.bar.y.saturating_sub(56) },
            st,
        )
    } else if hit == s.hwnd_taskbar && first_slot_from(l, px, py, 0) is Some {
        let t = task_button_press(st, first_slot_from(l, px, py, 0)->0, h);
        (s, t.0, t.1)
    } else if hit == s.hwnd_test {
        let nc = nc_hit_spec(s, px, py, h.title_px, h.surf_h);
        if nc == NcHit::Caption {
            (
                Win32ShellState {
                    dragging: true,
                    capture_hwnd: Some(s.hwnd_test),
                    drag_anchor_x: px as i32,
                    drag_anchor_y: py as i32,
                    ..s
                },
                Win32LeftDown::DragStarted,
                st,
            )
        } else if nc == NcHit::Client {
            (s, Win32LeftDown::ClientClick, st)
        } else {
            (s, Win32LeftDown::NotConsumed, st)
        }
    } else {
        (s, Win32LeftDown::NotConsumed, st)
    }
}

/// A left press at `(px, py)` on the Win32 overlay: nothing before the overlay is up; with
/// its menu open, a press on the 180 x 120 menu picks one of its three 40-pixel rows and any
/// other press closes it; an ongoing drag of the test window ends; otherwise any capture is
/// released and the top-most window under the pointer decides.
pub open spec fn left_down_step(s: Win32ShellState, px: u32, py: u32, l: TaskbarLayout, st: Seq<AppId>, h: Win32Hit) -> (Win32ShellState, Win32LeftDown, Seq<AppId>) {
    let mx = s.win32_menu_x;
    let my = s.win32_menu_y;
    if !s.desktop_ready {
        (s, Win32LeftDown::NotConsumed, st)
    } else if s.win32_menu_open {
        if px >= mx && px < mx + 180 && py >= my && py < my + 120 {
            let row: usize = if (py - my) / 40 <= 2 { ((py - my) / 40) as usize } else { 2 };
            (Win32ShellState { win32_menu_sel: row, ..s }, Win32LeftDown::MenuCommand { row }, st)
        } else {
            (Win32ShellState { win32_menu_open: false, ..s }, Win32LeftDown::MenuDismissed, st)
        }
    } else if s.capture_hwnd == Some(s.hwnd_test) && s.dragging {
        (Win32ShellState { dragging: false, capture_hwnd: None, ..s }, Win32LeftDown::DragEnded, st)
    } else {
        let s1 = Win32ShellState { capture_hwnd: None, ..s };
        match h.topmost {
            None => (s1, Win32LeftDown::NotConsumed, st),
            Some(hit) => overlay_window_press(s1, px, py, l, st, h, hit),
        }
    }
}

fn press_task_button(stack: &mut WindowStack, i: usize, h: &Win32Hit) -> (r: Win32LeftDown)
    requires
        old(stack).wf(),
        i < TASK_SLOT_COUNT,
    ensures
        final(stack).wf(),
        (r, final(stack)@) == task_button_press(old(stack)@, i as nat, *h),
{
    match task_slot_app(stack, i) {
        Some(app) => {
            let is_top = match stack.top() {
                Some(t) => t == app,
                None => false,
            };
            if is_top {
                stack.remove(app);
                Win32LeftDown::TaskMinimized { app }
            } else {
                stack.push_front(app);
                Win32LeftDown::TaskRestored { app }
            }
        },
        None => {
            if i == 0 {
                Win32LeftDown::TestWindowToggled { minimize: !h.test_minimized }
            } else {
                Win32LeftDown::NotConsumed
            }
        },
    }
}

fn press_overlay_window(
    shell: &mut Win32ShellState,
    stack: &mut WindowStack,
    px: u32,
    py: u32,
    layout: &TaskbarLayout,
    h: &Win32Hit,
    hit: Hwnd,
) -> (r: Win32LeftDown)
    requires
        old(stack).wf(),
        layout.wf(),
    ensures
        final(stack).wf(),
        (*final(shell), r, final(stack)@) == overlay_window_press(*old(shell), px, py, *layout, old(stack)@, *h, hit),
{
    if hit == shell.hwnd_menu {
        return Win32LeftDown::MenuWindow;
    }
    if hit == shell.hwnd_clock && !h.clock_minimized {
        shell.clock_open = false;
        return Win32LeftDown::ClockClosed;
    }
    if hit == shell.hwnd_taskbar {
        let c = layout.clock_display_area();
        if c.contains(px, py) {
            shell.clock_open = h.clock_minimized;
            return Win32LeftDown::ClockToggled { open: h.clock_minimized, x: c.x.saturating_sub(8), y: layout.bar.y.saturating_sub(56) };
        }
        let slots = layout.task_slots();
        let mut i: usize = 0;
        while i < TASK_SLOT_COUNT
            invariant
                i <= TASK_SLOT_COUNT,
                stack.wf(),
                *stack == *old(stack),
                *shell == *old(shell),
                layout.wf(),
                hit == shell.hwnd_taskbar,
                hit != shell.hwnd_menu,
                !(hit == shell.hwnd_clock && !h.clock_minimized),
                !clock_display_area_spec(*layout).contains_spec(px, py),
                forall|k: int| 0 <= k < TASK_SLOT_COUNT ==> #[trigger] slots[k] == task_slot_spec(*layout, k as nat),
                first_slot_from(*layout, px, py, 0) == first_slot_from(*layout, px, py, i as nat),
            decreases TASK_SLOT_COUNT - i,
        {
            if slots[i].contains(px, py) {
                return press_task_button(stack, i, h);
            }
            i = i + 1;
        }
    }
    if hit == shell.hwnd_test {
        let nc = nc_hit_test_test_window(shell, px, py, h.title_px, h.surf_h);
        if nc == NcHit::Caption {
            shell.dragging = true;
            shell.capture_hwnd = Some(shell.hwnd_test);
            shell.drag_anchor_x = px as i32;
            shell.drag_anchor_y = py as i32;
            return Win32LeftDown::DragStarted;
        }
        if nc == NcHit::Client {
            return Win32LeftDown::ClientClick;
        }
    }
    Win32LeftDown::NotConsumed
}

/// Handle a left press at `(px, py)` on the Win32 overlay (window manager results in `h`);
/// updates the overlay state and the hosted-window stack and says what the window manager
/// and the shell must do (`NotConsumed` leaves the press to the shell).
pub fn handle_left_down(
    shell: &mut Win32ShellState,
    stack: &mut WindowStack,
    px: u32,
    py: u32,
    layout: &TaskbarLayout,
    h: &Win32Hit,
) -> (r: Win32LeftDown)
    requires
        old(stack).wf(),
        layout.wf(),
        old(shell).desktop_ready && old(shell).win32_menu_open ==> old(shell).win32_menu_x + 180 <= u32::MAX
            && old(shell).win32_menu_y + 120 <= u32::MAX,
    ensures
        final(stack).wf(),
        (*final(shell), r, final(stack)@) == left_down_step(*old(shell), px, py, *layout, old(stack)@, *h),
        !old(shell).desktop_ready ==> r == Win32LeftDown::NotConsumed && *final(shell) == *old(shell)
            && final(stack)@ == old(stack)@,
{
    if !shell.desktop_ready {
        return Win32LeftDown::NotConsumed;
    }
    if shell.win32_menu_open {
        let mx = shell.win32_menu_x;
        let my = shell.win32_menu_y;
        if px >= mx && px < mx + 180 && py >= my && py < my + 120 {
            let q = (py - my) / 40;
            let row: usize = if q <= 2 { q as usize } else { 2 };
            shell.win32_menu_sel = row;
            return Win32LeftDown::MenuCommand { row };
        }
        shell.win32_menu_open = false;
        return Win32LeftDown::MenuDismissed;
    }
    let drag_end = match shell.capture_hwnd {
        Some(cap) => cap == shell.hwnd_test && shell.dragging,
        None => false,
    };
    if drag_end {
        shell.dragging = false;
        shell.capture_hwnd = None;
        return Win32LeftDown::DragEnded;
    }
    shell.capture_hwnd = None;
    match h.topmost {
        None => Win32LeftDown::NotConsumed,
        Some(hit) => press_overlay_window(shell, stack, px, py, layout, h, hit),
    }
}

/// A right press at `(px, py)`: with the overlay up, off the taskbar and off every overlay
/// window, it opens the overlay menu (row 0 selected) at the pointer, kept 200 x 160 inside the
/// `fb_w` x `fb_h` screen; otherwise nothing changes and the shell handles the press.
pub open spec fn right_down_step(s: Win32ShellState, px: u32, py: u32, l: TaskbarLayout, topmost: Option<Hwnd>, fb_w: u32, fb_h: u32) -> (Win32ShellState, bool) {
    if !s.desktop_ready || l.bar.contains_spec(px, py) || topmost is Some {
        (s, false)
    } else {
        (
            Win32ShellState {
                win32_menu_open: true,
                win32_menu_sel: 0,
                win32_menu_x: if px <= fb_w.saturating_sub(200) { px } else { fb_w.saturating_sub(200) },
                win32_menu_y: if py <= fb_h.saturating_sub(160) { py } else { fb_h.saturating_sub(160) },
                ..s
            },
            true,
        )
    }
}

/// Handle a right press at `(px, py)` on the Win32 overlay (`topmost` is the overlay window
/// under the pointer); returns whether the overlay took it.
pub fn handle_right_down(
    shell: &mut Win32ShellState,
    px: u32,
    py: u32,
    layout: &TaskbarLayout,
    topmost: Option<Hwnd>,
    fb_w: u32,
    fb_h: u32,
) -> (consumed: bool)
    ensures
        (*final(shell), consumed) == right_down_step(*old(shell), px, py, *layout, topmost, fb_w, fb_h),
        !old(shell).desktop_ready ==> !consumed && *final(shell) == *old(shell),
{
    if !shell.desktop_ready {
        return false;
    }
    if layout.bar.contains(px, py) {
        return false;
    }
    if topmost.is_some() {
        return false;
    }
    shell.win32_menu_open = true;
    shell.win32_menu_sel = 0;
    let mx = fb_w.saturating_sub(200);
    let my = fb_h.saturating_sub(160);
    shell.win32_menu_x = if px <= mx { px } else { mx };
    shell.win32_menu_y = if py <= my { py } else { my };
    true
}

} // verus!
