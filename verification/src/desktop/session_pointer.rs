//! Pointer handling of the desktop session: pointer reports, button edges, and what a left or
//! right click does on the shell (menus, flyouts, hosted windows, taskbar, shortcuts).
use vstd::prelude::*;
use crate::desktop::app_host::{AppId, pushed_front, other_than};
use crate::desktop::explorer_view::{
    frame_spec, depth_offset, surface_ok, layout_for_stack_depth, ExplorerLayout,
};
use crate::desktop::hosted_apps::{
    files_row_at, taskmgr_tab_at, taskmgr_row_at, settings_cat_at, settings_toggle_at, tile_from,
    run_button_at, top_hit, toggle_from, toggle_row_hit, control_tile, hit_window_at, hit_close, hit_files_row, hit_taskmgr_tab,
    hit_taskmgr_row, hit_settings_cat, hit_settings_toggle, hit_controlpanel_tile,
    hit_run_ok_cancel, task_slot_app, ControlPanelState, FilesState, HostUiState, SettingsState,
    TaskMgrState,
};
use crate::desktop::session::{
    DesktopSession, SessionEffects, Step, realizes, repainted, unchanged, refresh_only,
    no_effects, is_state, popped, tb_ctx_step, ctx_step, menu_step,
};
use crate::desktop::shell::{
    desktop_shortcut_hit, shortcut_under, ShortcutMetrics, menu_panel, panel_contains, menu_row, flyout_panel, context_menu_hit_row,
    context_menu_panel_contains, taskbar_ctx_hit_row, taskbar_ctx_panel_contains,
    flyout_panel_contains, hit_test_clock_display, hit_test_tray_volume,
    hit_test_show_desktop_corner, CONTEXT_MENU_W, CONTEXT_MENU_ROW_H, TASKBAR_CTX_MENU_W,
    TASKBAR_CTX_MENU_ROW_H, FLYOUT_KIND_NONE, FLYOUT_KIND_CALENDAR_STUB, FLYOUT_KIND_VOLUME_STUB,
};
use crate::desktop::taskbar::{
    HitRect, TaskbarLayout, taskbar_for, start_menu_panel, start_menu_item, task_slot_spec,
    clock_display_area_spec, tray_icon_spec, min_u32, START_MENU_ROW_COUNT, TASK_SLOT_COUNT,
};

verus! {

// ---------------------------------------------------------------- geometry of the session

/// The desktop context menu panel of `s`.
pub open spec fn ctx_panel(s: DesktopSession) -> HitRect {
    menu_panel(CONTEXT_MENU_W, CONTEXT_MENU_ROW_H, 3, s.ctx_x, s.ctx_y, s.screen_w, s.screen_h)
}

/// The taskbar context menu panel of `s`.
pub open spec fn tb_ctx_panel(s: DesktopSession) -> HitRect {
    menu_panel(TASKBAR_CTX_MENU_W, TASKBAR_CTX_MENU_ROW_H, 4, s.tb_ctx_x, s.tb_ctx_y, s.screen_w, s.screen_h)
}

/// The frame of the hosted window at stack depth `depth`.
pub open spec fn frame_at(l: TaskbarLayout, depth: nat) -> ExplorerLayout {
    frame_spec(l, depth_offset(depth), depth_offset(depth))
}

/// The first Start menu row from `k` on that contains `(px, py)`.
pub open spec fn menu_item_from(l: TaskbarLayout, px: u32, py: u32, k: nat) -> Option<usize>
    decreases START_MENU_ROW_COUNT - k,
{
    if k >= START_MENU_ROW_COUNT {
        None
    } else if start_menu_item(l, k).contains_spec(px, py) {
        Some(k as usize)
    } else {
        menu_item_from(l, px, py, k + 1)
    }
}

/// The first task button from `k` on that contains `(px, py)`.
pub open spec fn slot_from(l: TaskbarLayout, px: u32, py: u32, k: nat) -> Option<usize>
    decreases TASK_SLOT_COUNT - k,
{
    if k >= TASK_SLOT_COUNT {
        None
    } else if task_slot_spec(l, k).contains_spec(px, py) {
        Some(k as usize)
    } else {
        slot_from(l, px, py, k + 1)
    }
}

/// The thin "show desktop" strip at the right end of the taskbar.
pub open spec fn corner_rect(l: TaskbarLayout) -> HitRect {
    HitRect { x: l.surface_w.saturating_sub(5), y: l.bar.y, w: 5, h: l.bar.h }
}

/// The window found under the pointer is one of the `n` windows searched.
proof fn lemma_top_hit_bound(px: u32, py: u32, l: TaskbarLayout, n: nat)
    ensures
        top_hit(px, py, l, n) matches Some(i) ==> i < n,
    decreases n,
{
    if n > 0 {
        lemma_top_hit_bound(px, py, l, (n - 1) as nat);
    }
}

/// Every window frame of a screen that fits the window arithmetic lies within the screen
/// (plus a few pixels), so the per-window hit tests cannot overflow.
proof fn lemma_frame_fits(w: u32, h: u32, depth: nat)
    requires
        surface_ok(taskbar_for(w, h)),
    ensures
        frame_at(taskbar_for(w, h), depth).client.x >= 4,
        frame_at(taskbar_for(w, h), depth).client.x + frame_at(taskbar_for(w, h), depth).client.w <= w + 4,
        frame_at(taskbar_for(w, h), depth).client.y + frame_at(taskbar_for(w, h), depth).client.h <= h + 4,
        frame_at(taskbar_for(w, h), depth).client.y <= h + 4,
        w as int * 7 <= u32::MAX,
        h as int * 65 <= u32::MAX,
{
}

// ---------------------------------------------------------------- clicks on a hosted window

/// A toggle row found from `k` on is one of the four rows.
proof fn lemma_toggle_from_bound(cl_y: u32, py: u32, k: nat)
    ensures
        toggle_from(cl_y, py, k) matches Some(t) ==> t < 4,
    decreases 4 - k,
{
    if k < 4 && !toggle_row_hit(cl_y, py, k as int) {
        lemma_toggle_from_bound(cl_y, py, k + 1);
    }
}

/// A tile found from `k` on is one of the four tiles.
proof fn lemma_tile_from_bound(cl: HitRect, px: u32, py: u32, k: nat)
    ensures
        tile_from(cl, px, py, k) matches Some(t) ==> t < 4,
    decreases 4 - k,
{
    if k < 4 && !control_tile(cl, k).contains_spec(px, py) {
        lemma_tile_from_bound(cl, px, py, k + 1);
    }
}

/// The hosted-application state after a click at `(px, py)` inside window `id` framed by
/// `el` (toggle clicks in Settings aside): selecting a Files row, a Task Manager tab or
/// process, a Settings category, or opening a Control Panel tile.
pub open spec fn window_click_ui(ui: HostUiState, id: AppId, el: ExplorerLayout, px: u32, py: u32, ready: usize) -> HostUiState {
    match id {
        AppId::Files => match files_row_at(el, px, py, ui.files.row_count as nat) {
            Some(row) => HostUiState { files: FilesState { sel: row, ..ui.files }, ..ui },
            None => ui,
        },
        AppId::TaskMgr => match taskmgr_tab_at(el, px, py) {
            Some(t) => HostUiState { taskmgr: TaskMgrState { tab: t, ..ui.taskmgr }, ..ui },
            None => if ui.taskmgr.tab == 0 {
                match taskmgr_row_at(el, px, py, ready as nat) {
                    Some(r) => HostUiState { taskmgr: TaskMgrState { sel: r, ..ui.taskmgr }, ..ui },
                    None => ui,
                }
            } else {
                ui
            },
        },
        AppId::Settings => match settings_cat_at(el, px, py) {
            Some(c) => HostUiState { settings: SettingsState { cat: c, ..ui.settings }, ..ui },
            None => ui,
        },
        AppId::ControlPanel => if ui.control.open_sub is None {
            match tile_from(el.client, px, py, 0) {
                Some(t) => HostUiState { control: ControlPanelState { sel: t, open_sub: Some(t as u8) }, ..ui },
                None => ui,
            }
        } else {
            ui
        },
        _ => ui,
    }
}

/// A left click at `(px, py)` on the window `id` at stack depth `depth`: the close box closes
/// every window of `id`; elsewhere the window comes to the front and the click goes to its
/// controls (a Run dialog button closes the dialog). The desktop is repainted.
pub open spec fn window_click_post(
    s: DesktopSession,
    st: Seq<AppId>,
    depth: nat,
    id: AppId,
    ready: usize,
    after: DesktopSession,
    fx: SessionEffects,
) -> bool {
    let px = s.cx;
    let py = s.cy;
    let el = frame_at(s.layout, depth);
    let ui = s.host_ui;
    let st2 = pushed_front(st, id);
    if el.close_btn.contains_spec(px, py) {
        repainted(after, fx, s, st.filter(other_than(id)))
    } else if id == AppId::Settings && settings_cat_at(el, px, py) is None && settings_toggle_at(el, px, py) is Some {
        let t = settings_toggle_at(el, px, py)->0;
        &&& is_state(
            after,
            DesktopSession {
                host_ui: HostUiState { settings: SettingsState { toggles: after.host_ui.settings.toggles, ..ui.settings }, ..ui },
                ..s
            },
            st2,
        )
        &&& after.host_ui.settings.toggles@ == ui.settings.toggles@.update(t as int, !ui.settings.toggles@[t as int])
        &&& fx == refresh_only()
    } else {
        let st3 = if id == AppId::Run && run_button_at(el, px, py) is Some { popped(st2) } else { st2 };
        repainted(after, fx, DesktopSession { host_ui: window_click_ui(ui, id, el, px, py, ready), ..s }, st3)
    }
}

/// The click reaches the Control Panel tiles of window `st[depth]`.
pub open spec fn reaches_cp_tiles(s: DesktopSession, st: Seq<AppId>, depth: nat) -> bool {
    &&& st[depth as int] == AppId::ControlPanel
    &&& !frame_at(s.layout, depth).close_btn.contains_spec(s.cx, s.cy)
    &&& s.host_ui.control.open_sub is None
}

// ---------------------------------------------------------------- left button

/// Nothing above the windows takes a left click: no Win32 window, dialog, menu or flyout.
pub open spec fn left_click_reaches_windows(s: DesktopSession, win32_consumed: bool) -> bool {
    !win32_consumed && !s.power_confirm_open && !s.tb_ctx_open && s.flyout == FLYOUT_KIND_NONE && !s.ctx_open
        && !s.menu_open
}

/// A left click at the pointer on a desktop shortcut (`shortcut`): a second click on the same
/// shortcut soon after the first opens it (the recycle shortcut is a stub).
pub open spec fn shortcut_click_post(s: DesktopSession, st: Seq<AppId>, shortcut: Option<usize>, after: DesktopSession, fx: SessionEffects) -> bool {
    match shortcut {
        Some(si) => {
            let dbl = s.last_lclick_slot == Some(si as u8) && s.poll_seq.wrapping_sub(s.last_lclick_seq) < 48;
            let s2 = DesktopSession { last_lclick_seq: s.poll_seq, last_lclick_slot: Some(si as u8), ..s };
            if dbl && (si == 0 || si == 1 || si == 3) {
                realizes(after, fx, Step { s: s2, stack: pushed_front(st, AppId::Files), fx: SessionEffects { refresh: true, reload_files: true } })
            } else if dbl {
                repainted(after, fx, s2, st)
            } else {
                unchanged(after, fx, s2, st)
            }
        },
        None => unchanged(after, fx, s, st),
    }
}

/// A left click at the pointer on the notification area, the Start button or the desktop:
/// the show-desktop strip closes every window, the clock and the volume icon toggle their
/// flyouts, Start opens the Start menu.
pub open spec fn bar_click_post(s: DesktopSession, st: Seq<AppId>, shortcut: Option<usize>, after: DesktopSession, fx: SessionEffects) -> bool {
    let px = s.cx;
    let py = s.cy;
    let l = s.layout;
    if corner_rect(l).contains_spec(px, py) {
        repainted(after, fx, DesktopSession { flyout: FLYOUT_KIND_NONE, ..s }, Seq::empty())
    } else if clock_display_area_spec(l).contains_spec(px, py) {
        let c = clock_display_area_spec(l);
        repainted(
            after,
            fx,
            DesktopSession {
                flyout: if s.flyout == FLYOUT_KIND_CALENDAR_STUB { FLYOUT_KIND_NONE } else { FLYOUT_KIND_CALENDAR_STUB },
                flyout_anchor_x: (c.x + c.w / 2) as u32,
                flyout_anchor_y: c.y,
                ..s
            },
            st,
        )
    } else if tray_icon_spec(l, 1).contains_spec(px, py) {
        let r = tray_icon_spec(l, 1);
        repainted(
            after,
            fx,
            DesktopSession {
                flyout: if s.flyout == FLYOUT_KIND_VOLUME_STUB { FLYOUT_KIND_NONE } else { FLYOUT_KIND_VOLUME_STUB },
                flyout_anchor_x: (r.x + r.w / 2) as u32,
                flyout_anchor_y: r.y,
                ..s
            },
            st,
        )
    } else if l.start_button.contains_spec(px, py) {
        repainted(after, fx, DesktopSession { menu_open: true, menu_sel: 0, ..s }, st)
    } else {
        shortcut_click_post(s, st, shortcut, after, fx)
    }
}

/// A left click at the pointer on the taskbar or the desktop (no window under it): a task
/// button brings its window to the front; otherwise see [`bar_click_post`].
pub open spec fn taskbar_click_post(s: DesktopSession, st: Seq<AppId>, shortcut: Option<usize>, after: DesktopSession, fx: SessionEffects) -> bool {
    let px = s.cx;
    let py = s.cy;
    let l = s.layout;
    if slot_from(l, px, py, 0) is Some {
        let k = slot_from(l, px, py, 0)->0;
        if k < st.len() {
            repainted(after, fx, s, pushed_front(st, st[st.len() - 1 - k]))
        } else {
            unchanged(after, fx, s, st)
        }
    } else {
        bar_click_post(s, st, shortcut, after, fx)
    }
}

/// A left click at the pointer took session `s` (open windows `st`) to `after` with effects
/// `fx`. A click the Win32 overlay consumed changes nothing here. Otherwise the power dialog
/// closes; an open context menu or the Start menu carries out the row clicked (a click
/// elsewhere on its panel does nothing, outside it closes the menu); an open flyout closes on
/// a click outside it; otherwise the click goes to the topmost window under the pointer, then
/// to the taskbar and the desktop shortcuts. `ready` is the number of threads the Task
/// Manager lists; `shortcut` is the desktop shortcut under the pointer.
pub open spec fn left_down_post(
    s: DesktopSession,
    st: Seq<AppId>,
    win32_consumed: bool,
    ready: usize,
    shortcut: Option<usize>,
    after: DesktopSession,
    fx: SessionEffects,
) -> bool {
    let px = s.cx;
    let py = s.cy;
    let l = s.layout;
    if win32_consumed {
        unchanged(after, fx, s, st)
    } else if s.power_confirm_open {
        repainted(after, fx, DesktopSession { power_confirm_open: false, ..s }, st)
    } else if s.tb_ctx_open {
        match menu_row(tb_ctx_panel(s), TASKBAR_CTX_MENU_ROW_H, 4, px, py) {
            Some(row) => realizes(after, fx, tb_ctx_step(DesktopSession { tb_ctx_sel: row, ..s }, st)),
            None => if panel_contains(tb_ctx_panel(s), px, py) {
                unchanged(after, fx, s, st)
            } else {
                repainted(after, fx, DesktopSession { tb_ctx_open: false, ..s }, st)
            },
        }
    } else if s.flyout != FLYOUT_KIND_NONE {
        if panel_contains(flyout_panel(s.flyout_anchor_x, s.flyout_anchor_y, s.screen_w, s.screen_h), px, py) {
            unchanged(after, fx, s, st)
        } else {
            repainted(after, fx, DesktopSession { flyout: FLYOUT_KIND_NONE, ..s }, st)
        }
    } else if s.ctx_open {
        match menu_row(ctx_panel(s), CONTEXT_MENU_ROW_H, 3, px, py) {
            Some(row) => realizes(after, fx, ctx_step(DesktopSession { ctx_sel: row, ..s }, st, shortcut)),
            None => if panel_contains(ctx_panel(s), px, py) {
                unchanged(after, fx, s, st)
            } else {
                repainted(after, fx, DesktopSession { ctx_open: false, ..s }, st)
            },
        }
    } else if s.menu_open {
        if !start_menu_panel(l).contains_spec(px, py) {
            repainted(after, fx, DesktopSession { menu_open: false, ..s }, st)
        } else {
            match menu_item_from(l, px, py, 0) {
                Some(i) => realizes(after, fx, menu_step(s, st, i)),
                None => unchanged(after, fx, s, st),
            }
        }
    } else {
        match top_hit(px, py, l, st.len()) {
            Some(d) => window_click_post(s, st, d, st[d as int], ready, after, fx),
            None => taskbar_click_post(s, st, shortcut, after, fx),
        }
    }
}

// ---------------------------------------------------------------- right button

/// A right click at the pointer took session `s` (open windows `st`) to `after` with effects
/// `fx`. Nothing happens while the Start menu is open, when the Win32 overlay consumed the
/// click, or on an open context menu. On the taskbar the taskbar context menu opens above the
/// click; elsewhere the desktop context menu opens (kept above the taskbar), marking the Files
/// row under the pointer when there is one.
pub open spec fn right_down_post(s: DesktopSession, st: Seq<AppId>, win32_consumed: bool, after: DesktopSession, fx: SessionEffects) -> bool {
    let px = s.cx;
    let py = s.cy;
    let sw = s.screen_w;
    let sh = s.screen_h;
    if s.menu_open || win32_consumed {
        unchanged(after, fx, s, st)
    } else if s.ctx_open && panel_contains(ctx_panel(s), px, py) {
        unchanged(after, fx, s, st)
    } else if s.layout.bar.contains_spec(px, py) {
        repainted(
            after,
            fx,
            DesktopSession {
                tb_ctx_open: true,
                tb_ctx_sel: 0,
                tb_ctx_x: min_u32(px, sw.saturating_sub(TASKBAR_CTX_MENU_W)),
                tb_ctx_y: min_u32(py.saturating_sub(160), sh.saturating_sub(160)),
                ctx_open: false,
                flyout: FLYOUT_KIND_NONE,
                ..s
            },
            st,
        )
    } else {
        let max_y = s.layout.bar.y.saturating_sub(108);
        let s2 = DesktopSession {
            tb_ctx_open: false,
            ctx_sel: 0,
            ctx_x: min_u32(px, sw.saturating_sub(CONTEXT_MENU_W)),
            ctx_y: min_u32(if py <= max_y { py } else { max_y }, sh.saturating_sub(108)),
            ctx_open: true,
            ctx_from_files: false,
            ..s
        };
        let row: Option<usize> = match top_hit(px, py, s.layout, st.len()) {
            Some(d) => if st[d as int] == AppId::Files {
                files_row_at(frame_at(s.layout, d), px, py, s.host_ui.files.row_count as nat)
            } else {
                None
            },
            None => None,
        };
        match row {
            Some(i) => repainted(
                after,
                fx,
                DesktopSession { host_ui: HostUiState { files: FilesState { sel: i, ..s.host_ui.files }, ..s.host_ui }, ctx_from_files: true, ..s2 },
                st,
            ),
            None => repainted(after, fx, s2, st),
        }
    }
}

/// The per-window hit tests of `el` cannot overflow.
pub open spec fn frame_in_range(el: ExplorerLayout) -> bool {
    &&& el.client.x >= 4
    &&& el.client.x + el.client.w + 300 <= u32::MAX
    &&& el.client.y + el.client.h + 200 <= u32::MAX
}

/// Apply a click at `(px, py)` inside window `id` framed by `el` to the application state.
fn click_ui(ui: &mut HostUiState, id: AppId, el: &ExplorerLayout, px: u32, py: u32, ready: usize)
    requires
        frame_in_range(*el),
        ready <= 8,
        old(ui).taskmgr.sel <= 8,
        old(ui).settings.cat <= 5,
        old(ui).files.row_count <= 32,
        id == AppId::ControlPanel && old(ui).control.open_sub is None ==> el.client.w >= 40 && el.client.h >= 40,
    ensures
        final(ui).taskmgr.sel <= 8,
        final(ui).settings.cat <= 5,
        final(ui).files.row_count == old(ui).files.row_count,
        final(ui).files.sel <= 32 || final(ui).files.sel == old(ui).files.sel,
        id == AppId::Settings && settings_cat_at(*el, px, py) is None && settings_toggle_at(*el, px, py) is Some ==> {
            &&& *final(ui) == (HostUiState { settings: SettingsState { toggles: final(ui).settings.toggles, ..old(ui).settings }, ..*old(ui) })
            &&& final(ui).settings.toggles@ == old(ui).settings.toggles@.update(
                settings_toggle_at(*el, px, py)->0 as int,
                !old(ui).settings.toggles@[settings_toggle_at(*el, px, py)->0 as int],
            )
        },
        !(id == AppId::Settings && settings_cat_at(*el, px, py) is None && settings_toggle_at(*el, px, py) is Some)
            ==> *final(ui) == window_click_ui(*old(ui), id, *el, px, py, ready),
{
    match id {
        AppId::Files => {
            if let Some(row) = hit_files_row(el, px, py, ui.files.row_count) {
                ui.files.sel = row;
            }
        },
        AppId::TaskMgr => {
            if let Some(t) = hit_taskmgr_tab(el, px, py) {
                ui.taskmgr.tab = t;
            } else if ui.taskmgr.tab == 0 {
                if let Some(r) = hit_taskmgr_row(el, px, py, ready) {
                    ui.taskmgr.sel = r;
                }
            }
        },
        AppId::Settings => {
            if let Some(c) = hit_settings_cat(el, px, py) {
                ui.settings.cat = c;
            } else if let Some(t) = hit_settings_toggle(el, px, py) {
                proof {
                    lemma_toggle_from_bound(el.client.y, py, 0);
                }
                ui.settings.toggles[t] = !ui.settings.toggles[t];
            }
        },
        AppId::ControlPanel => {
            if ui.control.open_sub.is_none() {
                if let Some(tile) = hit_controlpanel_tile(el, px, py) {
                    proof {
                        lemma_tile_from_bound(el.client, px, py, 0);
                    }
                    ui.control.sel = tile;
                    ui.control.open_sub = Some(tile as u8);
                }
            }
        },
        _ => {},
    }
}

impl DesktopSession {
    #[verifier::rlimit(40)]
    fn click_window(&mut self, depth: usize, id: AppId, ready_threads: usize) -> (fx: SessionEffects)
        requires
            old(self).wf(),
            ready_threads <= 8,
            depth < old(self).stack@.len(),
            old(self).stack@[depth as int] == id,
            reaches_cp_tiles(*old(self), old(self).stack@, depth as nat) ==> frame_at(old(self).layout, depth as nat).client.w
                >= 40 && frame_at(old(self).layout, depth as nat).client.h >= 40,
        ensures
            final(self).wf(),
            window_click_post(*old(self), old(self).stack@, depth as nat, id, ready_threads, *final(self), fx),
    {
        let px = self.cx;
        let py = self.cy;
        let ghost s0 = *self;
        proof {
            lemma_frame_fits(self.screen_w, self.screen_h, depth as nat);
        }
        let el = layout_for_stack_depth(&self.layout, depth);
        assert(el == frame_at(s0.layout, depth as nat));
        if hit_close(&el, px, py) {
            self.stack.remove(id);
            return SessionEffects { refresh: true, reload_files: false };
        }
        self.stack.push_front(id);
        click_ui(&mut self.host_ui, id, &el, px, py, ready_threads);
        if id == AppId::Run {
            if hit_run_ok_cancel(&el, px, py).is_some() {
                let _ = self.stack.pop_top();
            }
        }
        SessionEffects { refresh: true, reload_files: false }
    }
}

impl DesktopSession {
    fn left_down_tb_ctx(&mut self) -> (fx: SessionEffects)
        requires
            old(self).wf(),
        ensures
            final(self).wf(),
            match menu_row(tb_ctx_panel(*old(self)), TASKBAR_CTX_MENU_ROW_H, 4, old(self).cx, old(self).cy) {
                Some(row) => realizes(*final(self), fx, tb_ctx_step(DesktopSession { tb_ctx_sel: row, ..*old(self) }, old(self).stack@)),
                None => if panel_contains(tb_ctx_panel(*old(self)), old(self).cx, old(self).cy) {
                    unchanged(*final(self), fx, *old(self), old(self).stack@)
                } else {
                    repainted(*final(self), fx, DesktopSession { tb_ctx_open: false, ..*old(self) }, old(self).stack@)
                },
            },
    {
        let (px, py, sw, sh) = (self.cx, self.cy, self.screen_w, self.screen_h);
        if let Some(row) = taskbar_ctx_hit_row(px, py, self.tb_ctx_x, self.tb_ctx_y, sw, sh) {
            self.tb_ctx_sel = row;
            return self.activate_tb_ctx_item();
        }
        if taskbar_ctx_panel_contains(px, py, self.tb_ctx_x, self.tb_ctx_y, sw, sh) {
            return SessionEffects { refresh: false, reload_files: false };
        }
        self.tb_ctx_open = false;
        SessionEffects { refresh: true, reload_files: false }
    }

    fn left_down_ctx(&mut self, shortcut: Option<usize>) -> (fx: SessionEffects)
        requires
            old(self).wf(),
        ensures
            final(self).wf(),
            match menu_row(ctx_panel(*old(self)), CONTEXT_MENU_ROW_H, 3, old(self).cx, old(self).cy) {
                Some(row) => realizes(*final(self), fx, ctx_step(DesktopSession { ctx_sel: row, ..*old(self) }, old(self).stack@, shortcut)),
                None => if panel_contains(ctx_panel(*old(self)), old(self).cx, old(self).cy) {
                    unchanged(*final(self), fx, *old(self), old(self).stack@)
                } else {
                    repainted(*final(self), fx, DesktopSession { ctx_open: false, ..*old(self) }, old(self).stack@)
                },
            },
    {
        let (px, py, sw, sh) = (self.cx, self.cy, self.screen_w, self.screen_h);
        if let Some(row) = context_menu_hit_row(px, py, self.ctx_x, self.ctx_y, sw, sh) {
            self.ctx_sel = row;
            return self.activate_ctx_item_with_shortcut(shortcut);
        }
        if context_menu_panel_contains(px, py, self.ctx_x, self.ctx_y, sw, sh) {
            return SessionEffects { refresh: false, reload_files: false };
        }
        self.ctx_open = false;
        SessionEffects { refresh: true, reload_files: false }
    }

    fn left_down_menu(&mut self) -> (fx: SessionEffects)
        requires
            old(self).wf(),
        ensures
            final(self).wf(),
            if !start_menu_panel(old(self).layout).contains_spec(old(self).cx, old(self).cy) {
                repainted(*final(self), fx, DesktopSession { menu_open: false, ..*old(self) }, old(self).stack@)
            } else {
                match menu_item_from(old(self).layout, old(self).cx, old(self).cy, 0) {
                    Some(i) => realizes(*final(self), fx, menu_step(*old(self), old(self).stack@, i)),
                    None => unchanged(*final(self), fx, *old(self), old(self).stack@),
                }
            },
    {
        let (px, py) = (self.cx, self.cy);
        let sm = self.layout.start_menu();
        if !sm.panel.contains(px, py) {
            self.menu_open = false;
            return SessionEffects { refresh: true, reload_files: false };
        }
        let ghost l = self.layout;
        let mut i: usize = 0;
        while i < START_MENU_ROW_COUNT
            invariant
                0 <= i <= START_MENU_ROW_COUNT,
                *self == *old(self),
                old(self).wf(),
                l == self.layout,
                px == self.cx && py == self.cy,
                forall|k: int| 0 <= k < START_MENU_ROW_COUNT ==> #[trigger] sm.items[k] == start_menu_item(l, k as nat),
                sm.panel == start_menu_panel(l),
                sm.panel.contains_spec(px, py),
                menu_item_from(l, px, py, 0) == menu_item_from(l, px, py, i as nat),
            decreases START_MENU_ROW_COUNT - i,
        {
            if sm.items[i].contains(px, py) {
                assert(start_menu_item(l, i as nat).contains_spec(px, py));
                assert(menu_item_from(l, px, py, i as nat) == Some(i));
                return self.activate_menu_item(i);
            }
            i = i + 1;
        }
        SessionEffects { refresh: false, reload_files: false }
    }

    fn left_down_taskbar(&mut self, shortcut: Option<usize>) -> (fx: SessionEffects)
        requires
            old(self).wf(),
        ensures
            final(self).wf(),
            taskbar_click_post(*old(self), old(self).stack@, shortcut, *final(self), fx),
    {
        let (px, py) = (self.cx, self.cy);
        let ghost l = self.layout;
        let slots = self.layout.task_slots();
        let mut k: usize = 0;
        while k < TASK_SLOT_COUNT
            invariant
                0 <= k <= TASK_SLOT_COUNT,
                *self == *old(self),
                old(self).wf(),
                l == self.layout,
                px == self.cx && py == self.cy,
                forall|j: int| 0 <= j < TASK_SLOT_COUNT ==> #[trigger] slots[j] == task_slot_spec(l, j as nat),
                slot_from(l, px, py, 0) == slot_from(l, px, py, k as nat),
            decreases TASK_SLOT_COUNT - k,
        {
            if slots[k].contains(px, py) {
                if let Some(aid) = task_slot_app(&self.stack, k) {
                    self.stack.push_front(aid);
                    return SessionEffects { refresh: true, reload_files: false };
                }
                return SessionEffects { refresh: false, reload_files: false };
            }
            k = k + 1;
        }
        self.left_down_bar(shortcut)
    }

    fn left_down_bar(&mut self, shortcut: Option<usize>) -> (fx: SessionEffects)
        requires
            old(self).wf(),
        ensures
            final(self).wf(),
            bar_click_post(*old(self), old(self).stack@, shortcut, *final(self), fx),
    {
        let (px, py) = (self.cx, self.cy);
        if hit_test_show_desktop_corner(&self.layout, px, py) {
            self.stack.clear();
            self.flyout = FLYOUT_KIND_NONE;
            return SessionEffects { refresh: true, reload_files: false };
        }
        if hit_test_clock_display(&self.layout, px, py) {
            self.flyout = if self.flyout == FLYOUT_KIND_CALENDAR_STUB { FLYOUT_KIND_NONE } else { FLYOUT_KIND_CALENDAR_STUB };
            let c = self.layout.clock_display_area();
            self.flyout_anchor_x = c.x + c.w / 2;
            self.flyout_anchor_y = c.y;
            return SessionEffects { refresh: true, reload_files: false };
        }
        if hit_test_tray_volume(&self.layout, px, py) {
            self.flyout = if self.flyout == FLYOUT_KIND_VOLUME_STUB { FLYOUT_KIND_NONE } else { FLYOUT_KIND_VOLUME_STUB };
            if let Some(r) = self.layout.tray_icon_rect(1) {
                self.flyout_anchor_x = r.x + r.w / 2;
                self.flyout_anchor_y = r.y;
            }
            return SessionEffects { refresh: true, reload_files: false };
        }
        if self.layout.start_button.contains(px, py) {
            self.menu_open = true;
            self.menu_sel = 0;
            return SessionEffects { refresh: true, reload_files: false };
        }
        self.left_down_shortcut(shortcut)
    }

    fn left_down_shortcut(&mut self, shortcut: Option<usize>) -> (fx: SessionEffects)
        requires
            old(self).wf(),
        ensures
            final(self).wf(),
            shortcut_click_post(*old(self), old(self).stack@, shortcut, *final(self), fx),
    {
        match shortcut {
            Some(si) => {
                let dbl = match self.last_lclick_slot {
                    Some(v) => v == si as u8,
                    None => false,
                } && self.poll_seq.wrapping_sub(self.last_lclick_seq) < 48;
                self.last_lclick_seq = self.poll_seq;
                self.last_lclick_slot = Some(si as u8);
                if dbl {
                    if si == 0 || si == 1 || si == 3 {
                        let reload = self.open_app(AppId::Files);
                        return SessionEffects { refresh: true, reload_files: reload };
                    }
                    return SessionEffects { refresh: true, reload_files: false };
                }
                SessionEffects { refresh: false, reload_files: false }
            },
            None => SessionEffects { refresh: false, reload_files: false },
        }
    }

    /// Handle a left button press at the pointer. `win32_consumed` tells whether the Win32
    /// overlay took the click; `ready_threads` is the number of threads the Task Manager lists;
    /// `metrics` are the sizes of the desktop shortcuts, which locate the one under the pointer.
    pub fn on_left_down(&mut self, win32_consumed: bool, ready_threads: usize, metrics: &ShortcutMetrics) -> (fx: SessionEffects)
        requires
            metrics.wf(),
            old(self).wf(),
            ready_threads <= 8,
            left_click_reaches_windows(*old(self), win32_consumed) ==> match top_hit(
                old(self).cx,
                old(self).cy,
                old(self).layout,
                old(self).stack@.len(),
            ) {
                Some(d) => reaches_cp_tiles(*old(self), old(self).stack@, d) ==> frame_at(old(self).layout, d).client.w >= 40
                    && frame_at(old(self).layout, d).client.h >= 40,
                None => true,
            },
        ensures
            final(self).wf(),
            left_down_post(
                *old(self),
                old(self).stack@,
                win32_consumed,
                ready_threads,
                shortcut_under(old(self).cx, old(self).cy, old(self).layout, *metrics),
                *final(self),
                fx,
            ),
    {
        let shortcut = desktop_shortcut_hit(self.cx, self.cy, &self.layout, metrics.icon_h, metrics.caption_h, metrics.icon_count);
        self.on_left_down_with_shortcut(win32_consumed, ready_threads, shortcut)
    }

    /// `on_left_down` with the shortcut under the pointer already known.
    fn on_left_down_with_shortcut(&mut self, win32_consumed: bool, ready_threads: usize, shortcut: Option<usize>) -> (fx: SessionEffects)
        requires
            old(self).wf(),
            ready_threads <= 8,
            left_click_reaches_windows(*old(self), win32_consumed) ==> match top_hit(
                old(self).cx,
                old(self).cy,
                old(self).layout,
                old(self).stack@.len(),
            ) {
                Some(d) => reaches_cp_tiles(*old(self), old(self).stack@, d) ==> frame_at(old(self).layout, d).client.w >= 40
                    && frame_at(old(self).layout, d).client.h >= 40,
                None => true,
            },
        ensures
            final(self).wf(),
            left_down_post(*old(self), old(self).stack@, win32_consumed, ready_threads, shortcut, *final(self), fx),
    {
        if win32_consumed {
            return SessionEffects { refresh: false, reload_files: false };
        }
        if self.power_confirm_open {
            self.power_confirm_open = false;
            return SessionEffects { refresh: true, reload_files: false };
        }
        if self.tb_ctx_open {
            return self.left_down_tb_ctx();
        }
        if self.flyout != FLYOUT_KIND_NONE {
            if flyout_panel_contains(self.flyout, self.flyout_anchor_x, self.flyout_anchor_y, self.cx, self.cy, self.screen_w, self.screen_h) {
                return SessionEffects { refresh: false, reload_files: false };
            }
            self.flyout = FLYOUT_KIND_NONE;
            return SessionEffects { refresh: true, reload_files: false };
        }
        if self.ctx_open {
            return self.left_down_ctx(shortcut);
        }
        if self.menu_open {
            return self.left_down_menu();
        }
        proof {
            lemma_top_hit_bound(self.cx, self.cy, self.layout, self.stack@.len());
        }
        match hit_window_at(self.cx, self.cy, &self.layout, &self.stack) {
            Some((depth, id)) => self.click_window(depth, id, ready_threads),
            None => self.left_down_taskbar(shortcut),
        }
    }

    /// The right click opens the taskbar context menu above the click.
    fn open_taskbar_ctx(&mut self)
        requires
            old(self).wf(),
        ensures
            final(self).wf(),
            *final(self) == (DesktopSession {
                tb_ctx_open: true,
                tb_ctx_sel: 0,
                tb_ctx_x: min_u32(old(self).cx, old(self).screen_w.saturating_sub(TASKBAR_CTX_MENU_W)),
                tb_ctx_y: min_u32(old(self).cy.saturating_sub(160), old(self).screen_h.saturating_sub(160)),
                ctx_open: false,
                flyout: FLYOUT_KIND_NONE,
                ..*old(self)
            }),
    {
        let (px, py, sw, sh) = (self.cx, self.cy, self.screen_w, self.screen_h);
        self.tb_ctx_open = true;
        self.tb_ctx_sel = 0;
        let lx = sw.saturating_sub(TASKBAR_CTX_MENU_W);
        self.tb_ctx_x = if px <= lx { px } else { lx };
        let ay = py.saturating_sub(160);
        let ly = sh.saturating_sub(160);
        self.tb_ctx_y = if ay <= ly { ay } else { ly };
        self.ctx_open = false;
        self.flyout = FLYOUT_KIND_NONE;
    }

    /// The right click opens the desktop context menu at the click, kept above the taskbar.
    fn open_desktop_ctx(&mut self)
        requires
            old(self).wf(),
        ensures
            final(self).wf(),
            *final(self) == (DesktopSession {
                tb_ctx_open: false,
                ctx_sel: 0,
                ctx_x: min_u32(old(self).cx, old(self).screen_w.saturating_sub(CONTEXT_MENU_W)),
                ctx_y: min_u32(
                    if old(self).cy <= old(self).layout.bar.y.saturating_sub(108) { old(self).cy } else { old(self).layout.bar.y.saturating_sub(108) },
                    old(self).screen_h.saturating_sub(108),
                ),
                ctx_open: true,
                ctx_from_files: false,
                ..*old(self)
            }),
    {
        let (px, py, sw, sh) = (self.cx, self.cy, self.screen_w, self.screen_h);
        self.tb_ctx_open = false;
        self.ctx_sel = 0;
        let lx = sw.saturating_sub(CONTEXT_MENU_W);
        self.ctx_x = if px <= lx { px } else { lx };
        let max_y = self.layout.bar.y.saturating_sub(108);
        let y0 = if py <= max_y { py } else { max_y };
        let ly = sh.saturating_sub(108);
        self.ctx_y = if y0 <= ly { y0 } else { ly };
        self.ctx_open = true;
        self.ctx_from_files = false;
    }

    /// Handle a right button press at the pointer. `win32_consumed` tells whether the Win32
    /// overlay took the click (it is asked only while the Start menu is closed).
    #[verifier::rlimit(40)]
    #[verifier::spinoff_prover]
    pub fn on_right_down(&mut self, win32_consumed: bool) -> (fx: SessionEffects)
        requires
            old(self).wf(),
        ensures
            final(self).wf(),
            right_down_post(*old(self), old(self).stack@, win32_consumed, *final(self), fx),
    {
        let (px, py, sw, sh) = (self.cx, self.cy, self.screen_w, self.screen_h);
        if self.menu_open || win32_consumed {
            return SessionEffects { refresh: false, reload_files: false };
        }
        if self.ctx_open && context_menu_panel_contains(px, py, self.ctx_x, self.ctx_y, sw, sh) {
            return SessionEffects { refresh: false, reload_files: false };
        }
        if self.layout.bar.contains(px, py) {
            self.open_taskbar_ctx();
            return SessionEffects { refresh: true, reload_files: false };
        }
        proof {
            lemma_top_hit_bound(px, py, self.layout, self.stack@.len());
        }
        let hit = hit_window_at(px, py, &self.layout, &self.stack);
        self.open_desktop_ctx();
        if let Some((depth, id)) = hit {
            if id == AppId::Files {
                proof {
                    lemma_frame_fits(self.screen_w, self.screen_h, depth as nat);
                }
                let el = layout_for_stack_depth(&self.layout, depth);
                if let Some(i) = hit_files_row(&el, px, py, self.host_ui.files.row_count) {
                    self.host_ui.files.sel = i;
                    self.ctx_from_files = true;
                }
            }
        }
        SessionEffects { refresh: true, reload_files: false }
    }
}

// ---------------------------------------------------------------- pointer reports

/// Which input device sent a pointer report.
#[derive(Clone, Copy, Debug, PartialEq, Eq, Structural)]
pub enum MouseSource {
    Ps2,
    Usb,
}

/// What a pointer report asks of the caller: repaint the pointer when it `moved` (from
/// `(old_x, old_y)`), then deliver a right click and a left click when set, in that order.
#[derive(Clone, Copy, Debug, PartialEq, Eq, Structural)]
pub struct PointerReport {
    pub moved: bool,
    pub old_x: u32,
    pub old_y: u32,
    pub right_click: bool,
    pub left_click: bool,
}

/// Minimum polls between two accepted right clicks.
pub const RCLICK_DEBOUNCE_POLLS: u32 = 12;

/// A pointer report with `buttons` at `(nx, ny)` took session `s` to `after` and asked `r`.
/// The position is clamped to the screen. A left click is a left press edge. A right click
/// needs the right button held for several consecutive reports (two for USB, four for PS/2,
/// which glitches more) and at least `RCLICK_DEBOUNCE_POLLS` polls since the last one.
pub open spec fn pointer_report_post(s: DesktopSession, buttons: u8, nx: u32, ny: u32, source: MouseSource, after: DesktopSession, r: PointerReport) -> bool {
    if s.screen_w == 0 || s.screen_h == 0 {
        after == s && r == (PointerReport { moved: false, old_x: s.cx, old_y: s.cy, right_click: false, left_click: false })
    } else {
        let x = min_u32(nx, (s.screen_w - 1) as u32);
        let y = min_u32(ny, (s.screen_h - 1) as u32);
        let left = buttons & 1 != 0;
        let right = buttons & 2 != 0;
        let stable_max: u8 = if source == MouseSource::Usb { 2 } else { 4 };
        let prev = s.ptr_right_stable_reports;
        let stable: u8 = if right { if prev + 1 <= stable_max { (prev + 1) as u8 } else { stable_max } } else { 0 };
        let rclick = right && stable == stable_max && prev < stable_max
            && s.poll_seq.wrapping_sub(s.last_rclick_poll_seq) >= RCLICK_DEBOUNCE_POLLS;
        &&& after == (DesktopSession {
            cx: x,
            cy: y,
            ptr_left_down: left,
            ptr_right_down: right,
            ptr_right_stable_reports: stable,
            last_rclick_poll_seq: if rclick { s.poll_seq } else { s.last_rclick_poll_seq },
            ..s
        })
        &&& r == (PointerReport {
            moved: x != s.cx || y != s.cy,
            old_x: s.cx,
            old_y: s.cy,
            right_click: rclick,
            left_click: left && !s.ptr_left_down,
        })
    }
}

/// `v` clamped to `lo..=hi`.
pub open spec fn clamp_to(v: int, lo: int, hi: int) -> int {
    if v < lo {
        lo
    } else if v > hi {
        hi
    } else {
        v
    }
}

impl DesktopSession {
    /// Take a pointer report (absolute position `(nx, ny)`, button bits `buttons`).
    #[verifier::rlimit(40)]
    #[verifier::spinoff_prover]
    pub fn pointer_set_absolute(&mut self, buttons: u8, nx: u32, ny: u32, source: MouseSource) -> (r: PointerReport)
        requires
            old(self).wf(),
        ensures
            final(self).wf(),
            pointer_report_post(*old(self), buttons, nx, ny, source, *final(self), r),
    {
        let w = self.screen_w;
        let h = self.screen_h;
        let ox = self.cx;
        let oy = self.cy;
        if w == 0 || h == 0 {
            return PointerReport { moved: false, old_x: ox, old_y: oy, right_click: false, left_click: false };
        }
        let x = if nx <= w - 1 { nx } else { w - 1 };
        let y = if ny <= h - 1 { ny } else { h - 1 };
        let prev_l = self.ptr_left_down;
        let left = buttons & 1 != 0;
        let right = buttons & 2 != 0;
        let click = left && !prev_l;
        let prev_stable = self.ptr_right_stable_reports;
        let stable_max: u8 = match source {
            MouseSource::Usb => 2,
            MouseSource::Ps2 => 4,
        };
        let stable: u8 = if right {
            if prev_stable + 1 <= stable_max { prev_stable + 1 } else { stable_max }
        } else {
            0
        };
        let rclick_edge = right && stable == stable_max && prev_stable < stable_max;
        self.ptr_right_stable_reports = stable;
        let debounce_ok = self.poll_seq.wrapping_sub(self.last_rclick_poll_seq) >= RCLICK_DEBOUNCE_POLLS;
        let rclick = rclick_edge && debounce_ok;
        self.ptr_left_down = left;
        self.ptr_right_down = right;
        let moved = x != ox || y != oy;
        self.cx = x;
        self.cy = y;
        if rclick {
            self.last_rclick_poll_seq = self.poll_seq;
        }
        PointerReport { moved, old_x: ox, old_y: oy, right_click: rclick, left_click: click }
    }

    /// Where a relative motion `(dx, dy)` takes the pointer (clamped to the screen); `None`
    /// on an empty screen.
    pub fn pointer_target(&self, dx: i16, dy: i16) -> (r: Option<(u32, u32)>)
        requires
            self.wf(),
        ensures
            r == if self.screen_w == 0 || self.screen_h == 0 {
                None::<(u32, u32)>
            } else {
                Some((
                    clamp_to(self.cx + dx, 0, self.screen_w - 1) as u32,
                    clamp_to(self.cy + dy, 0, self.screen_h - 1) as u32,
                ))
            },
    {
        let w = self.screen_w;
        let h = self.screen_h;
        if w == 0 || h == 0 {
            return None;
        }
        let tx = self.cx as i64 + dx as i64;
        let ty = self.cy as i64 + dy as i64;
        let mx = (w - 1) as i64;
        let my = (h - 1) as i64;
        let x = if tx < 0 { 0 } else if tx > mx { mx } else { tx };
        let y = if ty < 0 { 0 } else if ty > my { my } else { ty };
        Some((x as u32, y as u32))
    }
}

} // verus!
