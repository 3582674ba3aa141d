//! Taskbar / Start: bar layout, notification cluster, task buttons and Start menu hit boxes.
use vstd::prelude::*;

verus! {

/// Rows of the Start menu.
pub const START_MENU_ROW_COUNT: usize = 11;
/// Pinned taskbar buttons (front-most windows first).
pub const TASK_SLOT_COUNT: usize = 5;
/// Notification-area icons (network / volume / input).
pub const TRAY_ICON_COUNT: usize = 3;

/// Axis-aligned hit region in surface space.
#[derive(Clone, Copy, Debug, PartialEq, Eq, Structural)]
pub struct HitRect {
    pub x: u32,
    pub y: u32,
    pub w: u32,
    pub h: u32,
}

/// The smaller of two `u32`.
pub open spec fn min_u32(a: u32, b: u32) -> u32 {
    if a <= b {
        a
    } else {
        b
    }
}

/// The larger of two `u32`.
pub open spec fn max_u32(a: u32, b: u32) -> u32 {
    if a >= b {
        a
    } else {
        b
    }
}

impl HitRect {
    /// Whether `(px, py)` is inside (far edges saturate at `u32::MAX`).
    pub open spec fn contains_spec(self, px: u32, py: u32) -> bool {
        &&& px >= self.x
        &&& py >= self.y
        &&& px < self.x.saturating_add(self.w)
        &&& py < self.y.saturating_add(self.h)
    }

    /// Point-in-rectangle test.
    pub fn contains(self, px: u32, py: u32) -> (r: bool)
        ensures
            r == self.contains_spec(px, py),
    {
        px >= self.x && py >= self.y && px < self.x.saturating_add(self.w) && py < self.y.saturating_add(
            self.h,
        )
    }
}

/// Start menu panel and row hit boxes.
#[derive(Clone, Copy, Debug)]
pub struct StartMenuLayout {
    pub panel: HitRect,
    pub items: [HitRect; START_MENU_ROW_COUNT],
}

/// Shell chrome geometry for one surface.
#[derive(Clone, Copy, Debug, PartialEq, Eq, Structural)]
pub struct TaskbarLayout {
    pub bar: HitRect,
    pub start_button: HitRect,
    pub surface_w: u32,
    pub surface_h: u32,
}

/// The taskbar geometry for a `w` x `h` surface.
pub open spec fn taskbar_for(w: u32, h: u32) -> TaskbarLayout {
    let bar_h = min_u32(48, h);
    TaskbarLayout {
        bar: HitRect { x: 0, y: h.saturating_sub(bar_h), w, h: bar_h },
        start_button: HitRect {
            x: 4,
            y: (h.saturating_sub(bar_h) + 4) as u32,
            w: 44,
            h: bar_h.saturating_sub(8),
        },
        surface_w: w,
        surface_h: h,
    }
}

/// Right-side notification cluster of `l`.
pub open spec fn clock_area_spec(l: TaskbarLayout) -> HitRect {
    let cw = min_u32(128, l.surface_w.saturating_sub(64));
    HitRect {
        x: l.surface_w.saturating_sub((cw + 8) as u32),
        y: (l.bar.y + 6) as u32,
        w: cw,
        h: l.bar.h.saturating_sub(12),
    }
}

/// Left part of the notification cluster (tray icons).
pub open spec fn tray_area_spec(l: TaskbarLayout) -> HitRect {
    let c = clock_area_spec(l);
    HitRect { x: c.x, y: c.y, w: min_u32(52, c.w), h: c.h }
}

/// Right part of the notification cluster (time and date text).
pub open spec fn clock_display_area_spec(l: TaskbarLayout) -> HitRect {
    let c = clock_area_spec(l);
    let tray_w = min_u32(52, c.w);
    HitRect { x: (c.x + tray_w) as u32, y: c.y, w: c.w.saturating_sub(tray_w), h: c.h }
}

/// Tray icon `i` (16 px slots, 3 px apart, centred in the tray area).
pub open spec fn tray_icon_spec(l: TaskbarLayout, i: nat) -> HitRect {
    let t = tray_area_spec(l);
    let total: u32 = 54;
    HitRect {
        x: ((t.x + t.w.saturating_sub(total) / 2) as u32).saturating_add((i * 19) as u32),
        y: (t.y + t.h.saturating_sub(16) / 2) as u32,
        w: 16,
        h: 16,
    }
}

/// Width of each task button: the room between Start and the clock shared by five buttons,
/// clamped to `36..=56`.
pub open spec fn task_slot_width(l: TaskbarLayout) -> u32 {
    let ck = clock_area_spec(l);
    let x0 = (l.start_button.x + l.start_button.w + 10) as u32;
    let avail = ck.x.saturating_sub(12).saturating_sub(x0);
    min_u32(max_u32(avail.saturating_sub(16) / 5, 36), 56)
}

/// Left edge of task button `i`.
pub open spec fn task_slot_x(l: TaskbarLayout, i: nat) -> u32
    decreases i,
{
    if i == 0 {
        (l.start_button.x + l.start_button.w + 10) as u32
    } else {
        task_slot_x(l, (i - 1) as nat).saturating_add(task_slot_width(l)).saturating_add(4)
    }
}

/// Task button `i`.
pub open spec fn task_slot_spec(l: TaskbarLayout, i: nat) -> HitRect {
    HitRect {
        x: task_slot_x(l, i),
        y: (l.bar.y + 6) as u32,
        w: task_slot_width(l),
        h: l.bar.h.saturating_sub(12),
    }
}

/// Height of the Start menu panel.
pub open spec fn start_menu_height(l: TaskbarLayout) -> u32 {
    max_u32(min_u32(328, l.bar.y.saturating_sub(8)), 160)
}

/// Start menu panel, left-aligned above the taskbar.
pub open spec fn start_menu_panel(l: TaskbarLayout) -> HitRect {
    let menu_h = start_menu_height(l);
    HitRect {
        x: 4,
        y: l.bar.y.saturating_sub(menu_h).saturating_sub(4),
        w: min_u32(300, l.surface_w.saturating_sub(8)),
        h: menu_h,
    }
}

/// Start menu row `i`.
pub open spec fn start_menu_item(l: TaskbarLayout, i: nat) -> HitRect {
    let p = start_menu_panel(l);
    let row = p.h.saturating_sub(20) / 11;
    HitRect {
        x: 14,
        y: (p.y + 10 + i * row) as u32,
        w: p.w.saturating_sub(20),
        h: max_u32(row.saturating_sub(4), 1),
    }
}

impl TaskbarLayout {
    /// The taskbar and Start button rows fit below `u32::MAX`.
    pub open spec fn wf(&self) -> bool {
        &&& self.bar.y + 6 <= u32::MAX
        &&& self.bar.y + self.bar.h <= u32::MAX
        &&& self.start_button.x + self.start_button.w + 10 <= u32::MAX
    }

    /// Layout for a `w` x `h` surface: a 48 px bar at the bottom with Start at its left.
    pub fn for_surface(w: u32, h: u32) -> (l: Self)
        ensures
            l == taskbar_for(w, h),
            l.wf(),
    {
        let bar_h = if 48 <= h { 48 } else { h };
        TaskbarLayout {
            bar: HitRect { x: 0, y: h.saturating_sub(bar_h), w, h: bar_h },
            start_button: HitRect { x: 4, y: h.saturating_sub(bar_h) + 4, w: 44, h: bar_h.saturating_sub(8) },
            surface_w: w,
            surface_h: h,
        }
    }

    /// Right-side notification cluster (tray + clock text), inside the taskbar.
    pub fn clock_area(self) -> (r: HitRect)
        requires
            self.wf(),
        ensures
            r == clock_area_spec(self),
    {
        let cw = if 128 <= self.surface_w.saturating_sub(64) { 128 } else { self.surface_w.saturating_sub(64) };
        HitRect {
            x: self.surface_w.saturating_sub(cw + 8),
            y: self.bar.y + 6,
            w: cw,
            h: self.bar.h.saturating_sub(12),
        }
    }

    /// Left part of the clock area reserved for tray icons.
    pub fn tray_area(self) -> (r: HitRect)
        requires
            self.wf(),
        ensures
            r == tray_area_spec(self),
    {
        let c = self.clock_area();
        let tray_w = if 52 <= c.w { 52 } else { c.w };
        HitRect { x: c.x, y: c.y, w: tray_w, h: c.h }
    }

    /// Time and date text region.
    pub fn clock_display_area(self) -> (r: HitRect)
        requires
            self.wf(),
        ensures
            r == clock_display_area_spec(self),
    {
        let c = self.clock_area();
        let tray_w = if 52 <= c.w { 52 } else { c.w };
        HitRect { x: c.x + tray_w, y: c.y, w: c.w.saturating_sub(tray_w), h: c.h }
    }

    /// Hit rect for tray icon `i` (`None` beyond the three icons).
    pub fn tray_icon_rect(self, i: usize) -> (r: Option<HitRect>)
        requires
            self.wf(),
        ensures
            i >= TRAY_ICON_COUNT ==> r is None,
            i < TRAY_ICON_COUNT ==> r == Some(tray_icon_spec(self, i as nat)),
    {
        if i >= TRAY_ICON_COUNT {
            return None;
        }
        let t = self.tray_area();
        let slot = 16u32;
        let gap = 3u32;
        let total = 54u32;
        let x0 = t.x + t.w.saturating_sub(total) / 2;
        let y = t.y + t.h.saturating_sub(slot) / 2;
        let iu = i as u32;
        assert(iu * 19 <= 38) by (nonlinear_arith)
            requires
                iu < 3,
        ;
        Some(HitRect { x: x0.saturating_add(iu * (slot + gap)), y, w: slot, h: slot })
    }

    /// Thin "show desktop" strip at the far right of the bar.
    pub fn show_desktop_corner(self) -> (r: HitRect)
        ensures
            r == (HitRect { x: self.surface_w.saturating_sub(5), y: self.bar.y, w: 5, h: self.bar.h }),
    {
        HitRect { x: self.surface_w.saturating_sub(5), y: self.bar.y, w: 5, h: self.bar.h }
    }

    /// Task buttons between Start and the clock.
    pub fn task_slots(self) -> (r: [HitRect; TASK_SLOT_COUNT])
        requires
            self.wf(),
        ensures
            forall|i: int| 0 <= i < TASK_SLOT_COUNT ==> #[trigger] r[i] == task_slot_spec(self, i as nat),
    {
        let ck = self.clock_area();
        let x0 = self.start_button.x + self.start_button.w + 10;
        let right = ck.x.saturating_sub(12);
        let avail = right.saturating_sub(x0);
        let q = avail.saturating_sub(16) / 5;
        let slot_w = if q >= 36 { q } else { 36 };
        let slot_w = if slot_w <= 56 { slot_w } else { 56 };
        assert(slot_w == task_slot_width(self));
        let mut out = [HitRect { x: 0, y: 0, w: 0, h: 0 };TASK_SLOT_COUNT];
        let mut x = x0;
        let y = self.bar.y + 6;
        let h = self.bar.h.saturating_sub(12);
        let mut i: usize = 0;
        while i < TASK_SLOT_COUNT
            invariant
                0 <= i <= TASK_SLOT_COUNT,
                self.wf(),
                slot_w == task_slot_width(self),
                y == self.bar.y + 6,
                h == self.bar.h.saturating_sub(12),
                x == task_slot_x(self, i as nat),
                forall|k: int| 0 <= k < i ==> #[trigger] out[k] == task_slot_spec(self, k as nat),
            decreases TASK_SLOT_COUNT - i,
        {
            out[i] = HitRect { x, y, w: slot_w, h };
            x = x.saturating_add(slot_w).saturating_add(4);
            i = i + 1;
        }
        out
    }

    /// Start menu flyout above the taskbar, left-aligned with Start.
    pub fn start_menu(self) -> (r: StartMenuLayout)
        ensures
            r.panel == start_menu_panel(self),
            forall|i: int| 0 <= i < START_MENU_ROW_COUNT ==> #[trigger] r.items[i] == start_menu_item(self, i as nat),
    {
        let menu_w = if 300 <= self.surface_w.saturating_sub(8) { 300 } else { self.surface_w.saturating_sub(8) };
        let lim = self.bar.y.saturating_sub(8);
        let menu_h = if 328 <= lim { 328 } else { lim };
        let menu_h = if menu_h >= 160 { menu_h } else { 160 };
        let x = 4u32;
        let y = self.bar.y.saturating_sub(menu_h).saturating_sub(4);
        let panel = HitRect { x, y, w: menu_w, h: menu_h };
        assert(panel == start_menu_panel(self));
        let inner_h = menu_h.saturating_sub(20);
        let row = inner_h / 11;
        let mut items = [HitRect { x: 0, y: 0, w: 0, h: 0 };START_MENU_ROW_COUNT];
        let mut i: usize = 0;
        while i < START_MENU_ROW_COUNT
            invariant
                0 <= i <= START_MENU_ROW_COUNT,
                panel == start_menu_panel(self),
                x == 4,
                y == panel.y,
                menu_w == panel.w,
                row == panel.h.saturating_sub(20) / 11,
                y + 10 + 11 * row <= u32::MAX,
                forall|k: int| 0 <= k < i ==> #[trigger] items[k] == start_menu_item(self, k as nat),
            decreases START_MENU_ROW_COUNT - i,
        {
            assert((i as u32) * row <= 11 * row) by (nonlinear_arith)
                requires
                    i < 11,
            ;
            let rh = row.saturating_sub(4);
            items[i] = HitRect {
                x: x + 10,
                y: y + 10 + (i as u32) * row,
                w: menu_w.saturating_sub(20),
                h: if rh >= 1 { rh } else { 1 },
            };
            i = i + 1;
        }
        StartMenuLayout { panel, items }
    }
}

} // verus!
