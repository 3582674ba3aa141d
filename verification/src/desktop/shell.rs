//! Shell chrome state and the hit tests of the desktop context menus, notification flyout and
//! taskbar areas.
use vstd::prelude::*;
use crate::boot_protocol::FramebufferInfo;
use crate::desktop::app_host::{app_code, AppId, WindowStack};
use crate::desktop::draw::{ops_view, push_fill, push_op, push_text, rgb, BitmapAsset, DrawCmd, DrawOp, Rgb};
use crate::desktop::hosted_apps::task_slot_app;
use crate::desktop::taskbar::{
    HitRect, TaskbarLayout, min_u32, clock_area_spec, clock_display_area_spec, tray_icon_spec, task_slot_spec,
    task_slot_width, task_slot_x, TASK_SLOT_COUNT, TRAY_ICON_COUNT,
};

verus! {

/// No flyout open.
pub const FLYOUT_KIND_NONE: u8 = 0;
/// Calendar flyout.
pub const FLYOUT_KIND_CALENDAR_STUB: u8 = 1;
/// Volume flyout.
pub const FLYOUT_KIND_VOLUME_STUB: u8 = 2;

/// Aggregated shell paint flags (Start menu, context menus, clock, flyouts).
#[derive(Clone, Copy, Debug)]
pub struct DesktopChromeState {
    pub menu_open: bool,
    pub menu_sel: usize,
    pub ctx_open: bool,
    pub ctx_sel: usize,
    pub ctx_x: u32,
    pub ctx_y: u32,
    pub win_stack_len: u8,
    pub win_stack: [u8; 8],
    pub power_confirm_open: bool,
    /// ASCII clock `HH:MM:SS`.
    pub clock_time: [u8; 16],
    pub clock_time_n: u8,
    /// ASCII date `YYYY/MM/DD`.
    pub clock_date: [u8; 20],
    pub clock_date_n: u8,
    pub flyout: u8,
    pub flyout_x: u32,
    pub flyout_y: u32,
    pub tb_ctx_open: bool,
    pub tb_ctx_sel: usize,
    pub tb_ctx_x: u32,
    pub tb_ctx_y: u32,
}

impl Default for DesktopChromeState {
    fn default() -> (s: Self)
        ensures
            !s.menu_open && s.menu_sel == 0 && !s.ctx_open && s.ctx_sel == 0 && s.ctx_x == 0 && s.ctx_y == 0,
            s.win_stack_len == 0 && s.win_stack@ == Seq::new(8, |i: int| 0u8),
            !s.power_confirm_open,
            s.clock_time@ == Seq::new(16, |i: int| 0u8) && s.clock_time_n == 0,
            s.clock_date@ == Seq::new(20, |i: int| 0u8) && s.clock_date_n == 0,
            s.flyout == FLYOUT_KIND_NONE && s.flyout_x == 0 && s.flyout_y == 0,
            !s.tb_ctx_open && s.tb_ctx_sel == 0 && s.tb_ctx_x == 0 && s.tb_ctx_y == 0,
    {
        let s = DesktopChromeState {
            menu_open: false,
            menu_sel: 0,
            ctx_open: false,
            ctx_sel: 0,
            ctx_x: 0,
            ctx_y: 0,
            win_stack_len: 0,
            win_stack: [0u8; 8],
            power_confirm_open: false,
            clock_time: [0u8; 16],
            clock_time_n: 0,
            clock_date: [0u8; 20],
            clock_date_n: 0,
            flyout: FLYOUT_KIND_NONE,
            flyout_x: 0,
            flyout_y: 0,
            tb_ctx_open: false,
            tb_ctx_sel: 0,
            tb_ctx_x: 0,
            tb_ctx_y: 0,
        };
        assert(s.win_stack@ =~= Seq::new(8, |i: int| 0u8));
        assert(s.clock_time@ =~= Seq::new(16, |i: int| 0u8));
        assert(s.clock_date@ =~= Seq::new(20, |i: int| 0u8));
        s
    }
}

/// Largest cached desktop layer (1920 x 1080 BGRA).
pub const DESKTOP_BASE_LAYER_CAP_BYTES: usize = 1920 * 1080 * 4;

/// Bytes of a tight `w` x `h` BGRA layer, when that fits in `usize`.
pub fn desktop_base_layer_byte_len(w: u32, h: u32) -> (r: Option<usize>)
    ensures
        r == if (w as int) * (h as int) * 4 <= usize::MAX { Some(((w as int) * (h as int) * 4) as usize) } else { None::<usize> },
{
    match (w as usize).checked_mul(h as usize) {
        Some(n) => {
            let r = n.checked_mul(4);
            proof {
                assert((w as int) * (h as int) * 4 == ((w as int) * (h as int)) * 4) by (nonlinear_arith);
            }
            r
        },
        None => {
            assert((w as int) * (h as int) * 4 > usize::MAX) by (nonlinear_arith)
                requires
                    (w as int) * (h as int) > usize::MAX,
            ;
            None
        },
    }
}

/// Horizontal pointer hotspot offset within the sprite.
pub const POINTER_HOTSPOT_X: u32 = 0;
/// Vertical pointer hotspot offset within the sprite.
pub const POINTER_HOTSPOT_Y: u32 = 0;

/// Top-left of the pointer sprite for hotspot `(hotspot_x, hotspot_y)`.
pub fn pointer_sprite_top_left(hotspot_x: u32, hotspot_y: u32) -> (r: (u32, u32))
    ensures
        r == (hotspot_x.saturating_sub(POINTER_HOTSPOT_X), hotspot_y.saturating_sub(POINTER_HOTSPOT_Y)),
{
    (hotspot_x.saturating_sub(POINTER_HOTSPOT_X), hotspot_y.saturating_sub(POINTER_HOTSPOT_Y))
}

/// Left margin of the desktop shortcut column.
pub const DESKTOP_SHORTCUT_MARGIN_X: u32 = 16;
/// Top margin of the first desktop shortcut.
pub const DESKTOP_SHORTCUT_MARGIN_Y: u32 = 16;
/// Gap between a shortcut icon and its caption.
pub const DESKTOP_SHORTCUT_ICON_LABEL_GAP: u32 = 6;
/// Vertical gap between two shortcuts.
pub const DESKTOP_SHORTCUT_ROW_GAP: u32 = 10;
/// Width of the shortcut column.
pub const DESKTOP_COLUMN_W: u32 = 152;

/// Height of one shortcut slot: icon, gap, caption.
pub open spec fn shortcut_slot_h(icon_h: u32, caption_h: u32) -> int {
    icon_h + DESKTOP_SHORTCUT_ICON_LABEL_GAP + caption_h
}

/// Hit box of the shortcut slot whose top is at `y`.
pub open spec fn shortcut_rect(y: u32, slot_h: u32) -> HitRect {
    HitRect { x: DESKTOP_SHORTCUT_MARGIN_X, y, w: DESKTOP_COLUMN_W, h: slot_h }
}

/// The shortcut under `(px, py)` among slots `i..count`, the slot `i` having its top at `y`:
/// slots are stacked downwards and stop before one would pass `max_y`.
pub open spec fn shortcut_from(px: u32, py: u32, max_y: u32, slot_h: u32, y: u32, i: nat, count: nat) -> Option<usize>
    decreases count - i,
{
    if i >= count {
        None
    } else if y.saturating_add(slot_h) > max_y {
        None
    } else if shortcut_rect(y, slot_h).contains_spec(px, py) {
        Some(i as usize)
    } else {
        shortcut_from(px, py, max_y, slot_h, y.saturating_add((slot_h + DESKTOP_SHORTCUT_ROW_GAP) as u32), i + 1, count)
    }
}

proof fn lemma_shortcut_from_bound(px: u32, py: u32, max_y: u32, slot_h: u32, y: u32, i: nat, count: nat)
    requires
        count <= usize::MAX,
    ensures
        shortcut_from(px, py, max_y, slot_h, y, i, count) matches Some(j) ==> i <= j < count,
    decreases count - i,
{
    if i < count && y.saturating_add(slot_h) <= max_y && !shortcut_rect(y, slot_h).contains_spec(px, py) {
        lemma_shortcut_from_bound(px, py, max_y, slot_h, y.saturating_add((slot_h + DESKTOP_SHORTCUT_ROW_GAP) as u32), i + 1, count);
    }
}

/// Sizes of the desktop shortcuts (from the generated icon and caption assets).
#[derive(Clone, Copy, Debug, PartialEq, Eq, Structural)]
pub struct ShortcutMetrics {
    /// Icon height in pixels.
    pub icon_h: u32,
    /// Tallest caption in pixels.
    pub caption_h: u32,
    /// Number of shortcuts.
    pub icon_count: usize,
}

impl ShortcutMetrics {
    /// A slot and the gap below it fit in 32-bit coordinates.
    pub open spec fn wf(&self) -> bool {
        shortcut_slot_h(self.icon_h, self.caption_h) + DESKTOP_SHORTCUT_ROW_GAP <= u32::MAX
    }
}

/// The desktop shortcut under `(px, py)` on a desktop with taskbar `layout` and shortcut
/// sizes `m`.
pub open spec fn shortcut_under(px: u32, py: u32, layout: TaskbarLayout, m: ShortcutMetrics) -> Option<usize> {
    shortcut_from(
        px,
        py,
        layout.bar.y.saturating_sub(12),
        shortcut_slot_h(m.icon_h, m.caption_h) as u32,
        DESKTOP_SHORTCUT_MARGIN_Y,
        0,
        m.icon_count as nat,
    )
}

/// Which of the `icon_count` desktop shortcuts lies under `(px, py)`; slots hold an `icon_h`
/// icon and a caption up to `caption_h` high and end 12 pixels above the taskbar.
pub fn desktop_shortcut_hit(px: u32, py: u32, layout: &TaskbarLayout, icon_h: u32, caption_h: u32, icon_count: usize) -> (r: Option<usize>)
    requires
        shortcut_slot_h(icon_h, caption_h) + DESKTOP_SHORTCUT_ROW_GAP <= u32::MAX,
    ensures
        r == shortcut_from(
            px,
            py,
            layout.bar.y.saturating_sub(12),
            shortcut_slot_h(icon_h, caption_h) as u32,
            DESKTOP_SHORTCUT_MARGIN_Y,
            0,
            icon_count as nat,
        ),
        r matches Some(i) ==> i < icon_count,
{
    let max_y = layout.bar.y.saturating_sub(12);
    let slot_h = icon_h + DESKTOP_SHORTCUT_ICON_LABEL_GAP + caption_h;
    assert(slot_h == shortcut_slot_h(icon_h, caption_h) as u32);
    let ghost goal = shortcut_from(px, py, max_y, slot_h, DESKTOP_SHORTCUT_MARGIN_Y, 0, icon_count as nat);
    proof {
        lemma_shortcut_from_bound(px, py, max_y, slot_h, DESKTOP_SHORTCUT_MARGIN_Y, 0, icon_count as nat);
    }
    let mut y = DESKTOP_SHORTCUT_MARGIN_Y;
    let mut i: usize = 0;
    while i < icon_count
        invariant
            i <= icon_count,
            slot_h + DESKTOP_SHORTCUT_ROW_GAP <= u32::MAX,
            max_y == layout.bar.y.saturating_sub(12),
            slot_h == shortcut_slot_h(icon_h, caption_h) as u32,
            goal == shortcut_from(px, py, max_y, slot_h, DESKTOP_SHORTCUT_MARGIN_Y, 0, icon_count as nat),
            shortcut_from(px, py, max_y, slot_h, y, i as nat, icon_count as nat) == goal,
            goal matches Some(j) ==> i <= j < icon_count,
        decreases icon_count - i,
    {
        if y.saturating_add(slot_h) > max_y {
            return None;
        }
        let rect = HitRect { x: DESKTOP_SHORTCUT_MARGIN_X, y, w: DESKTOP_COLUMN_W, h: slot_h };
        assert(rect == shortcut_rect(y, slot_h));
        if rect.contains(px, py) {
            return Some(i);
        }
        y = y.saturating_add(slot_h + DESKTOP_SHORTCUT_ROW_GAP);
        i = i + 1;
        proof {
            lemma_shortcut_from_bound(px, py, max_y, slot_h, y, i as nat, icon_count as nat);
        }
    }
    None
}

/// Row height of the desktop context menu.
pub const CONTEXT_MENU_ROW_H: u32 = 36;
/// Rows of the desktop context menu.
pub const CONTEXT_MENU_ROWS: usize = 3;
/// Width of the desktop context menu.
pub const CONTEXT_MENU_W: u32 = 200;
/// Row height of the taskbar context menu.
pub const TASKBAR_CTX_MENU_ROW_H: u32 = 40;
/// Rows of the taskbar context menu.
pub const TASKBAR_CTX_MENU_ROWS: usize = 4;
/// Width of the taskbar context menu.
pub const TASKBAR_CTX_MENU_W: u32 = 240;

/// Panel of a popup menu of width `menu_w` and `rows` rows of `row_h`, anchored at
/// `(anchor_x, anchor_y)` and kept on a `surf_w` x `surf_h` surface.
pub open spec fn menu_panel(menu_w: u32, row_h: u32, rows: nat, anchor_x: u32, anchor_y: u32, surf_w: u32, surf_h: u32) -> HitRect {
    let w = min_u32(menu_w, surf_w.saturating_sub(4));
    let h = (row_h * rows) as u32;
    HitRect { x: min_u32(anchor_x, surf_w.saturating_sub(w)), y: min_u32(anchor_y, surf_h.saturating_sub(h)), w, h }
}

/// Inside the panel (far edges computed exactly).
pub open spec fn panel_contains(p: HitRect, px: u32, py: u32) -> bool {
    px >= p.x && py >= p.y && px < p.x + p.w && py < p.y + p.h
}

/// Menu row under `(px, py)`: inside the 2 px border, rows counted from the top border.
pub open spec fn menu_row(p: HitRect, row_h: u32, rows: nat, px: u32, py: u32) -> Option<usize> {
    if px < p.x + 2 || px >= p.x + p.w.saturating_sub(2) || py < p.y + 2 || py >= p.y + p.h {
        None
    } else {
        let row = ((py - p.y - 2) / (row_h as int)) as nat;
        if row < rows {
            Some(row as usize)
        } else {
            None
        }
    }
}

/// Whether `(px, py)` is on the desktop context menu anchored at `(anchor_x, anchor_y)`.
pub fn context_menu_panel_contains(px: u32, py: u32, anchor_x: u32, anchor_y: u32, surf_w: u32, surf_h: u32) -> (r: bool)
    ensures
        r == panel_contains(menu_panel(CONTEXT_MENU_W, CONTEXT_MENU_ROW_H, 3, anchor_x, anchor_y, surf_w, surf_h), px, py),
{
    let w = if CONTEXT_MENU_W <= surf_w.saturating_sub(4) { CONTEXT_MENU_W } else { surf_w.saturating_sub(4) };
    let h = CONTEXT_MENU_ROW_H * 3;
    let x = if anchor_x <= surf_w.saturating_sub(w) { anchor_x } else { surf_w.saturating_sub(w) };
    let y = if anchor_y <= surf_h.saturating_sub(h) { anchor_y } else { surf_h.saturating_sub(h) };
    px >= x && py >= y && px < x + w && py < y + h
}

/// Row `i` of the desktop context menu panel `p`: its face (lit when it is row `sel`) and
/// the label bitmap of size `label` when there is one and it fits inside the 8 px insets.
pub open spec fn context_menu_row_cmds(p: HitRect, sel: int, label: Option<(u32, u32)>, i: nat) -> Seq<DrawCmd> {
    let ry = (p.y + 2 + i * CONTEXT_MENU_ROW_H) as u32;
    let max_w = p.w.saturating_sub(4).saturating_sub(16);
    let face = DrawCmd::Fill {
        x: (p.x + 2) as u32,
        y: ry,
        w: p.w.saturating_sub(4),
        h: 34,
        color: if i == sel { rgb(0x00, 0x78, 0xd7) } else { rgb(0x36, 0x36, 0x40) },
    };
    match label {
        Some((lw, lh)) => if lw <= max_w {
            seq![face, DrawCmd::Bitmap { x: (p.x + 8) as u32, y: ry.saturating_add(34u32.saturating_sub(lh) / 2), w: lw, h: lh, asset: BitmapAsset::ContextMenuLabel(i as usize) }]
        } else {
            seq![face]
        },
        None => seq![face],
    }
}

/// Rows `0..n` of the desktop context menu.
pub open spec fn context_menu_rows_upto(p: HitRect, sel: int, labels: Seq<Option<(u32, u32)>>, n: nat) -> Seq<DrawCmd>
    decreases n,
{
    if n == 0 {
        Seq::empty()
    } else {
        context_menu_rows_upto(p, sel, labels, (n - 1) as nat) + context_menu_row_cmds(p, sel, labels[n - 1], (n - 1) as nat)
    }
}

/// The desktop context menu: nothing without a framebuffer; else the panel kept on the
/// surface, its accent line and the three rows, the selection clamped to the last row.
pub open spec fn context_menu_plan(fb: FramebufferInfo, anchor_x: u32, anchor_y: u32, selected: usize, labels: Seq<Option<(u32, u32)>>) -> Seq<DrawCmd> {
    let sw = fb.horizontal_resolution;
    let sh = fb.vertical_resolution;
    if fb.base == 0 || sw == 0 || sh == 0 {
        Seq::empty()
    } else {
        let p = menu_panel(CONTEXT_MENU_W, CONTEXT_MENU_ROW_H, 3, anchor_x, anchor_y, sw, sh);
        let sel = if selected < 2 { selected as int } else { 2 };
        seq![
            DrawCmd::Fill { x: p.x, y: p.y, w: p.w, h: p.h, color: rgb(0x2a, 0x2a, 0x34) },
            DrawCmd::Fill { x: p.x, y: p.y, w: p.w, h: 2, color: rgb(0x00, 0x78, 0xd7) },
        ] + context_menu_rows_upto(p, sel, labels, 3)
    }
}

/// Plan the painting of the desktop context menu anchored at `(anchor_x, anchor_y)`.
/// `labels[i]` is the size of the label bitmap generated for row `i`, `None` where there
/// is none.
pub fn paint_context_menu(fb: &FramebufferInfo, anchor_x: u32, anchor_y: u32, selected: usize, labels: &[Option<(u32, u32)>; 3]) -> (ops: Vec<DrawOp>)
    ensures
        ops_view(ops@) == context_menu_plan(*fb, anchor_x, anchor_y, selected, labels@),
{
    let mut ops: Vec<DrawOp> = Vec::new();
    let sw = fb.horizontal_resolution;
    let sh = fb.vertical_resolution;
    if fb.base == 0 || sw == 0 || sh == 0 {
        assert(ops_view(ops@) =~= Seq::<DrawCmd>::empty());
        return ops;
    }
    let w = if CONTEXT_MENU_W <= sw.saturating_sub(4) { CONTEXT_MENU_W } else { sw.saturating_sub(4) };
    let h = CONTEXT_MENU_ROW_H * 3;
    let x = if anchor_x <= sw.saturating_sub(w) { anchor_x } else { sw.saturating_sub(w) };
    let y = if anchor_y <= sh.saturating_sub(h) { anchor_y } else { sh.saturating_sub(h) };
    let ghost p = menu_panel(CONTEXT_MENU_W, CONTEXT_MENU_ROW_H, 3, anchor_x, anchor_y, sw, sh);
    assert(p == HitRect { x, y, w, h });
    push_fill(&mut ops, x, y, w, h, Rgb { r: 0x2a, g: 0x2a, b: 0x34 });
    push_fill(&mut ops, x, y, w, 2, Rgb { r: 0x00, g: 0x78, b: 0xd7 });
    let sel: usize = if selected < 2 { selected } else { 2 };
    let ghost head = ops_view(ops@);
    assert(head + context_menu_rows_upto(p, sel as int, labels@, 0) =~= head);
    let mut i: usize = 0;
    while i < 3
        invariant
            i <= 3,
            p == (HitRect { x, y, w, h }),
            x <= 4 || x + 200 <= u32::MAX,
            y + 108 <= u32::MAX,
            ops_view(ops@) == head + context_menu_rows_upto(p, sel as int, labels@, i as nat),
        decreases 3 - i,
    {
        let ry = y + 2 + (i as u32) * CONTEXT_MENU_ROW_H;
        let c = if i == sel { Rgb { r: 0x00, g: 0x78, b: 0xd7 } } else { Rgb { r: 0x36, g: 0x36, b: 0x40 } };
        push_fill(&mut ops, x + 2, ry, w.saturating_sub(4), 34, c);
        if let Some((lw, lh)) = labels[i] {
            let max_w = w.saturating_sub(4).saturating_sub(16);
            if lw <= max_w {
                push_op(&mut ops, DrawOp::Bitmap { x: x + 8, y: ry.saturating_add(34u32.saturating_sub(lh) / 2), w: lw, h: lh, asset: BitmapAsset::ContextMenuLabel(i) });
            }
        }
        assert(ops_view(ops@) =~= head + context_menu_rows_upto(p, sel as int, labels@, (i + 1) as nat));
        i = i + 1;
    }
    assert(ops_view(ops@) =~= context_menu_plan(*fb, anchor_x, anchor_y, selected, labels@));
    ops
}

/// Desktop context menu row under `(px, py)`.
pub fn context_menu_hit_row(px: u32, py: u32, anchor_x: u32, anchor_y: u32, surf_w: u32, surf_h: u32) -> (r: Option<usize>)
    ensures
        r == menu_row(menu_panel(CONTEXT_MENU_W, CONTEXT_MENU_ROW_H, 3, anchor_x, anchor_y, surf_w, surf_h), CONTEXT_MENU_ROW_H, 3, px, py),
{
    let w = if CONTEXT_MENU_W <= surf_w.saturating_sub(4) { CONTEXT_MENU_W } else { surf_w.saturating_sub(4) };
    let h = CONTEXT_MENU_ROW_H * 3;
    let x = if anchor_x <= surf_w.saturating_sub(w) { anchor_x } else { surf_w.saturating_sub(w) };
    let y = if anchor_y <= surf_h.saturating_sub(h) { anchor_y } else { surf_h.saturating_sub(h) };
    if px < x + 2 || px >= x + w.saturating_sub(2) || py < y + 2 || py >= y + h {
        return None;
    }
    let rel = py - y - 2;
    let row = (rel / CONTEXT_MENU_ROW_H) as usize;
    if row < CONTEXT_MENU_ROWS {
        Some(row)
    } else {
        None
    }
}

/// Whether `(px, py)` is on the taskbar context menu anchored at `(anchor_x, anchor_y)`.
pub fn taskbar_ctx_panel_contains(px: u32, py: u32, anchor_x: u32, anchor_y: u32, surf_w: u32, surf_h: u32) -> (r: bool)
    ensures
        r == panel_contains(menu_panel(TASKBAR_CTX_MENU_W, TASKBAR_CTX_MENU_ROW_H, 4, anchor_x, anchor_y, surf_w, surf_h), px, py),
{
    let w = if TASKBAR_CTX_MENU_W <= surf_w.saturating_sub(4) { TASKBAR_CTX_MENU_W } else { surf_w.saturating_sub(4) };
    let h = TASKBAR_CTX_MENU_ROW_H * 4;
    let x = if anchor_x <= surf_w.saturating_sub(w) { anchor_x } else { surf_w.saturating_sub(w) };
    let y = if anchor_y <= surf_h.saturating_sub(h) { anchor_y } else { surf_h.saturating_sub(h) };
    px >= x && py >= y && px < x + w && py < y + h
}

/// Taskbar context menu row under `(px, py)`.
pub fn taskbar_ctx_hit_row(px: u32, py: u32, anchor_x: u32, anchor_y: u32, surf_w: u32, surf_h: u32) -> (r: Option<usize>)
    ensures
        r == menu_row(menu_panel(TASKBAR_CTX_MENU_W, TASKBAR_CTX_MENU_ROW_H, 4, anchor_x, anchor_y, surf_w, surf_h), TASKBAR_CTX_MENU_ROW_H, 4, px, py),
{
    let w = if TASKBAR_CTX_MENU_W <= surf_w.saturating_sub(4) { TASKBAR_CTX_MENU_W } else { surf_w.saturating_sub(4) };
    let h = TASKBAR_CTX_MENU_ROW_H * 4;
    let x = if anchor_x <= surf_w.saturating_sub(w) { anchor_x } else { surf_w.saturating_sub(w) };
    let y = if anchor_y <= surf_h.saturating_sub(h) { anchor_y } else { surf_h.saturating_sub(h) };
    if px < x + 2 || px >= x + w.saturating_sub(2) || py < y + 2 || py >= y + h {
        return None;
    }
    let rel = py - y - 2;
    let row = (rel / TASKBAR_CTX_MENU_ROW_H) as usize;
    if row < TASKBAR_CTX_MENU_ROWS {
        Some(row)
    } else {
        None
    }
}

/// Flyout width.
pub const FLYOUT_W: u32 = 280;
/// Flyout height.
pub const FLYOUT_H: u32 = 118;

/// Flyout panel centred on `anchor_x` above `anchor_y`, kept on screen.
pub open spec fn flyout_panel(anchor_x: u32, anchor_y: u32, surf_w: u32, surf_h: u32) -> HitRect {
    let w = min_u32(FLYOUT_W, surf_w.saturating_sub(4));
    let h = min_u32(FLYOUT_H, surf_h.saturating_sub(4));
    HitRect {
        x: min_u32(anchor_x.saturating_sub(w / 2), surf_w.saturating_sub(w)),
        y: min_u32(anchor_y.saturating_sub((h + 6) as u32), surf_h.saturating_sub(h)),
        w,
        h,
    }
}

/// Top-left of the flyout panel.
pub fn flyout_panel_xy(anchor_x: u32, anchor_y: u32, surf_w: u32, surf_h: u32) -> (r: (u32, u32))
    ensures
        r == (flyout_panel(anchor_x, anchor_y, surf_w, surf_h).x, flyout_panel(anchor_x, anchor_y, surf_w, surf_h).y),
{
    let w = if FLYOUT_W <= surf_w.saturating_sub(4) { FLYOUT_W } else { surf_w.saturating_sub(4) };
    let h = if FLYOUT_H <= surf_h.saturating_sub(4) { FLYOUT_H } else { surf_h.saturating_sub(4) };
    let xa = anchor_x.saturating_sub(w / 2);
    let x = if xa <= surf_w.saturating_sub(w) { xa } else { surf_w.saturating_sub(w) };
    let ya = anchor_y.saturating_sub(h + 6);
    let y = if ya <= surf_h.saturating_sub(h) { ya } else { surf_h.saturating_sub(h) };
    (x, y)
}

/// Whether `(px, py)` is on the open flyout of kind `kind`.
pub fn flyout_panel_contains(kind: u8, anchor_x: u32, anchor_y: u32, px: u32, py: u32, surf_w: u32, surf_h: u32) -> (r: bool)
    ensures
        r == (kind != FLYOUT_KIND_NONE && panel_contains(flyout_panel(anchor_x, anchor_y, surf_w, surf_h), px, py)),
{
    if kind == FLYOUT_KIND_NONE {
        return false;
    }
    let (x, y) = flyout_panel_xy(anchor_x, anchor_y, surf_w, surf_h);
    let w = if FLYOUT_W <= surf_w.saturating_sub(4) { FLYOUT_W } else { surf_w.saturating_sub(4) };
    let h = if FLYOUT_H <= surf_h.saturating_sub(4) { FLYOUT_H } else { surf_h.saturating_sub(4) };
    px >= x && py >= y && px < x + w && py < y + h
}

/// Whether `(px, py)` is on the clock text of the taskbar.
pub fn hit_test_clock_display(layout: &TaskbarLayout, px: u32, py: u32) -> (r: bool)
    requires
        layout.wf(),
    ensures
        r == clock_display_area_spec(*layout).contains_spec(px, py),
{
    layout.clock_display_area().contains(px, py)
}

/// Whether `(px, py)` is on the volume tray icon (the second icon).
pub fn hit_test_tray_volume(layout: &TaskbarLayout, px: u32, py: u32) -> (r: bool)
    requires
        layout.wf(),
    ensures
        r == tray_icon_spec(*layout, 1).contains_spec(px, py),
{
    match layout.tray_icon_rect(1) {
        Some(rc) => rc.contains(px, py),
        None => false,
    }
}

/// Whether `(px, py)` is on the show-desktop strip.
pub fn hit_test_show_desktop_corner(layout: &TaskbarLayout, px: u32, py: u32) -> (r: bool)
    ensures
        r == (HitRect { x: layout.surface_w.saturating_sub(5), y: layout.bar.y, w: 5, h: layout.bar.h }).contains_spec(px, py),
{
    layout.show_desktop_corner().contains(px, py)
}

// ---------------------------------------------------------------- taskbar painting

/// A fill of rectangle `r`.
pub open spec fn fill_of(r: HitRect, c: Rgb) -> DrawCmd {
    DrawCmd::Fill { x: r.x, y: r.y, w: r.w, h: r.h, color: c }
}

/// Letter shown on the task button of an application.
pub open spec fn task_letter(id: AppId) -> u8 {
    match id {
        AppId::Files => 70,
        AppId::TaskMgr => 84,
        AppId::Settings => 83,
        AppId::ControlPanel => 67,
        AppId::Run => 82,
        AppId::Notepad => 78,
        AppId::Calculator => 75,
        AppId::About => 65,
        AppId::Properties => 80,
    }
}

/// Task button `s` (front-most window first): its face, and the application's letter when a
/// window sits on it; the front window's button is highlighted.
pub open spec fn task_button_cmds(l: TaskbarLayout, stack: Seq<AppId>, s: nat) -> Seq<DrawCmd> {
    let r = task_slot_spec(l, s);
    if s < stack.len() {
        let aid = stack[stack.len() - 1 - s];
        let active = app_code(stack[stack.len() - 1]) == app_code(aid);
        seq![
            fill_of(r, if active { rgb(0x00, 0x78, 0xd7) } else { rgb(0x2c, 0x2c, 0x36) }),
            DrawCmd::Glyph {
                x: (r.x + r.w / 2 - 4) as u32,
                y: (r.y + r.h / 2 - 4) as u32,
                ch: task_letter(aid),
                color: rgb(0xf8, 0xf8, 0xfc),
                scale: 1,
            },
        ]
    } else {
        seq![fill_of(r, rgb(0x1c, 0x1c, 0x26))]
    }
}

/// Task buttons `0..n`, left to right.
pub open spec fn task_buttons_upto(l: TaskbarLayout, stack: Seq<AppId>, n: nat) -> Seq<DrawCmd>
    decreases n,
{
    if n == 0 {
        Seq::empty()
    } else {
        task_buttons_upto(l, stack, (n - 1) as nat) + task_button_cmds(l, stack, (n - 1) as nat)
    }
}

/// Colour of tray icon `i`.
pub open spec fn tray_color(i: nat) -> Rgb {
    if i == 0 {
        rgb(0x4c, 0xb4, 0xff)
    } else if i == 1 {
        rgb(0x6c, 0xd9, 0x7a)
    } else {
        rgb(0xff, 0xd4, 0x6c)
    }
}

/// Tray icon `i`: its slot, then its coloured square inset by 3 pixels.
pub open spec fn tray_icon_cmds(l: TaskbarLayout, i: nat) -> Seq<DrawCmd> {
    let r = tray_icon_spec(l, i);
    seq![
        fill_of(r, rgb(0x28, 0x28, 0x32)),
        DrawCmd::Fill { x: (r.x + 3) as u32, y: (r.y + 3) as u32, w: (r.w - 6) as u32, h: (r.h - 6) as u32, color: tray_color(i) },
    ]
}

/// The time (large) and date (small) lines of the clock, each when it has 1 to its capacity bytes.
pub open spec fn clock_text_cmds(l: TaskbarLayout, st: DesktopChromeState) -> Seq<DrawCmd> {
    let cd = clock_display_area_spec(l);
    let tn = st.clock_time_n as int;
    let dn = st.clock_date_n as int;
    (if 0 < tn <= 16 {
        seq![DrawCmd::Text {
            x: (cd.x + 2) as u32,
            y: (cd.y + 2) as u32,
            max_w: cd.w.saturating_sub(4),
            text: st.clock_time@.take(tn),
            color: rgb(0xfc, 0xfc, 0xff),
            scale: 2,
        }]
    } else {
        Seq::empty()
    }) + (if 0 < dn <= 20 {
        seq![DrawCmd::Text {
            x: (cd.x + 2) as u32,
            y: cd.y.saturating_add(20),
            max_w: cd.w.saturating_sub(4),
            text: st.clock_date@.take(dn),
            color: rgb(0xc8, 0xc8, 0xd4),
            scale: 1,
        }]
    } else {
        Seq::empty()
    })
}

/// Bar, Start button (lit while the Start menu is open, with a white inset when it is large
/// enough), the five task buttons, the clock area with three tray icons and the clock text, and
/// the show-desktop strip; nothing on a surface without pixels.
pub open spec fn chrome_plan(fb_w: u32, fb_h: u32, l: TaskbarLayout, st: DesktopChromeState, stack: Seq<AppId>) -> Seq<DrawCmd> {
    let sb = l.start_button;
    if fb_w == 0 || fb_h == 0 {
        Seq::empty()
    } else {
        seq![
            fill_of(l.bar, rgb(0x20, 0x20, 0x28)),
            fill_of(sb, if st.menu_open { rgb(0x50, 0xc8, 0xff) } else { rgb(0x00, 0x99, 0xff) }),
        ] + (if sb.w > 16 && sb.h > 16 {
            seq![DrawCmd::Fill {
                x: (sb.x + 8) as u32,
                y: (sb.y + 8) as u32,
                w: (sb.w - 16) as u32,
                h: (sb.h - 16) as u32,
                color: rgb(0xff, 0xff, 0xff),
            }]
        } else {
            Seq::empty()
        }) + task_buttons_upto(l, stack, 5) + seq![fill_of(clock_area_spec(l), rgb(0x14, 0x14, 0x1c))]
            + tray_icon_cmds(l, 0) + tray_icon_cmds(l, 1) + tray_icon_cmds(l, 2) + clock_text_cmds(l, st)
            + seq![fill_of(HitRect { x: l.surface_w.saturating_sub(5), y: l.bar.y, w: 5, h: l.bar.h }, rgb(0x3a, 0x3a, 0x44))]
    }
}

/// The painting of the taskbar fits in 32-bit coordinates.
pub open spec fn chrome_fits(l: TaskbarLayout) -> bool {
    &&& l.wf()
    &&& l.start_button.x + l.start_button.w + 310 <= u32::MAX
    &&& l.start_button.y + l.start_button.h <= u32::MAX
    &&& l.surface_w + 64 <= u32::MAX
    &&& l.bar.y + 32 <= u32::MAX
}

proof fn lemma_task_slot_x_range(l: TaskbarLayout, i: nat)
    requires
        l.wf(),
        l.start_button.x + l.start_button.w + 10 + i * 60 <= u32::MAX,
    ensures
        l.start_button.x + l.start_button.w + 10 <= task_slot_x(l, i),
        task_slot_x(l, i) <= l.start_button.x + l.start_button.w + 10 + i * 60,
    decreases i,
{
    if i > 0 {
        lemma_task_slot_x_range(l, (i - 1) as nat);
    }
}

fn task_button_letter(id: AppId) -> (c: u8)
    ensures
        c == task_letter(id),
{
    match id {
        AppId::Files => 70,
        AppId::TaskMgr => 84,
        AppId::Settings => 83,
        AppId::ControlPanel => 67,
        AppId::Run => 82,
        AppId::Notepad => 78,
        AppId::Calculator => 75,
        AppId::About => 65,
        AppId::Properties => 80,
    }
}

fn push_task_button(ops: &mut Vec<DrawOp>, layout: &TaskbarLayout, r: HitRect, stack: &WindowStack, s: usize)
    requires
        chrome_fits(*layout),
        stack.wf(),
        s < TASK_SLOT_COUNT,
        r == task_slot_spec(*layout, s as nat),
    ensures
        ops_view(final(ops)@) == ops_view(old(ops)@) + task_button_cmds(*layout, stack@, s as nat),
{
    let ghost before = ops_view(ops@);
    match task_slot_app(stack, s) {
        Some(aid) => {
            let n = stack.len as usize;
            let top = stack.ids[n - 1];
            assert(top == stack@[stack@.len() - 1]);
            let active = top.to_u8() == aid.to_u8();
            let c = if active { Rgb { r: 0x00, g: 0x78, b: 0xd7 } } else { Rgb { r: 0x2c, g: 0x2c, b: 0x36 } };
            push_fill(ops, r.x, r.y, r.w, r.h, c);
            proof {
                lemma_task_slot_x_range(*layout, s as nat);
                assert(task_slot_width(*layout) <= 56);
            }
            let gx = r.x + r.w / 2 - 4;
            let gy = r.y + r.h / 2 - 4;
            push_op(ops, DrawOp::Glyph { x: gx, y: gy, ch: task_button_letter(aid), color: Rgb { r: 0xf8, g: 0xf8, b: 0xfc }, scale: 1 });
        },
        None => {
            push_fill(ops, r.x, r.y, r.w, r.h, Rgb { r: 0x1c, g: 0x1c, b: 0x26 });
        },
    }
    assert(ops_view(ops@) =~= before + task_button_cmds(*layout, stack@, s as nat));
}

fn push_tray_icon(ops: &mut Vec<DrawOp>, layout: &TaskbarLayout, i: usize)
    requires
        chrome_fits(*layout),
        i < TRAY_ICON_COUNT,
    ensures
        ops_view(final(ops)@) == ops_view(old(ops)@) + tray_icon_cmds(*layout, i as nat),
{
    let ghost before = ops_view(ops@);
    let r = match layout.tray_icon_rect(i) {
        Some(r) => r,
        None => HitRect { x: 0, y: 0, w: 0, h: 0 },
    };
    let c = if i == 0 {
        Rgb { r: 0x4c, g: 0xb4, b: 0xff }
    } else if i == 1 {
        Rgb { r: 0x6c, g: 0xd9, b: 0x7a }
    } else {
        Rgb { r: 0xff, g: 0xd4, b: 0x6c }
    };
    push_fill(ops, r.x, r.y, r.w, r.h, Rgb { r: 0x28, g: 0x28, b: 0x32 });
    push_fill(ops, r.x + 3, r.y + 3, r.w - 6, r.h - 6, c);
    assert(ops_view(ops@) =~= before + tray_icon_cmds(*layout, i as nat));
}

fn push_clock_text(ops: &mut Vec<DrawOp>, layout: &TaskbarLayout, st: &DesktopChromeState)
    requires
        chrome_fits(*layout),
    ensures
        ops_view(final(ops)@) == ops_view(old(ops)@) + clock_text_cmds(*layout, *st),
{
    let ghost before = ops_view(ops@);
    let cd = layout.clock_display_area();
    let tn = st.clock_time_n as usize;
    let dn = st.clock_date_n as usize;
    if tn > 0 && tn <= 16 {
        push_text(ops, cd.x + 2, cd.y + 2, cd.w.saturating_sub(4), &st.clock_time[0..tn], Rgb { r: 0xfc, g: 0xfc, b: 0xff }, 2);
    }
    let ghost mid = ops_view(ops@);
    if dn > 0 && dn <= 20 {
        push_text(ops, cd.x + 2, cd.y.saturating_add(20), cd.w.saturating_sub(4), &st.clock_date[0..dn], Rgb { r: 0xc8, g: 0xc8, b: 0xd4 }, 1);
    }
    assert(ops_view(ops@) =~= before + clock_text_cmds(*layout, *st));
}

/// Plan the taskbar painting: bar, Start button, task buttons, tray, clock and show-desktop
/// strip, in painting order.
pub fn paint_desktop_chrome(fb: &FramebufferInfo, layout: &TaskbarLayout, st: &DesktopChromeState, stack: &WindowStack) -> (ops: Vec<DrawOp>)
    requires
        chrome_fits(*layout),
        stack.wf(),
    ensures
        ops_view(ops@) == chrome_plan(fb.horizontal_resolution, fb.vertical_resolution, *layout, *st, stack@),
{
    let mut ops: Vec<DrawOp> = Vec::new();
    if fb.horizontal_resolution == 0 || fb.vertical_resolution == 0 {
        assert(ops_view(ops@) =~= Seq::<DrawCmd>::empty());
        return ops;
    }
    let bar = layout.bar;
    push_fill(&mut ops, bar.x, bar.y, bar.w, bar.h, Rgb { r: 0x20, g: 0x20, b: 0x28 });
    let sb = layout.start_button;
    let start_color = if st.menu_open { Rgb { r: 0x50, g: 0xc8, b: 0xff } } else { Rgb { r: 0x00, g: 0x99, b: 0xff } };
    push_fill(&mut ops, sb.x, sb.y, sb.w, sb.h, start_color);
    let inset = 8u32;
    if sb.w > inset * 2 && sb.h > inset * 2 {
        push_fill(&mut ops, sb.x + inset, sb.y + inset, sb.w - inset * 2, sb.h - inset * 2, Rgb { r: 0xff, g: 0xff, b: 0xff });
    }
    let ghost head = ops_view(ops@);
    let slots = layout.task_slots();
    let mut s: usize = 0;
    assert(head + task_buttons_upto(*layout, stack@, 0) =~= head);
    while s < TASK_SLOT_COUNT
        invariant
            s <= TASK_SLOT_COUNT,
            chrome_fits(*layout),
            stack.wf(),
            forall|i: int| 0 <= i < TASK_SLOT_COUNT ==> #[trigger] slots[i] == task_slot_spec(*layout, i as nat),
            ops_view(ops@) == head + task_buttons_upto(*layout, stack@, s as nat),
        decreases TASK_SLOT_COUNT - s,
    {
        let ghost prev = ops_view(ops@);
        push_task_button(&mut ops, layout, slots[s], stack, s);
        assert(ops_view(ops@) =~= head + task_buttons_upto(*layout, stack@, (s + 1) as nat));
        s = s + 1;
    }
    let ghost mid = ops_view(ops@);
    let ck = layout.clock_area();
    push_fill(&mut ops, ck.x, ck.y, ck.w, ck.h, Rgb { r: 0x14, g: 0x14, b: 0x1c });
    push_tray_icon(&mut ops, layout, 0);
    push_tray_icon(&mut ops, layout, 1);
    push_tray_icon(&mut ops, layout, 2);
    push_clock_text(&mut ops, layout, st);
    let sd = layout.show_desktop_corner();
    push_fill(&mut ops, sd.x, sd.y, sd.w, sd.h, Rgb { r: 0x3a, g: 0x3a, b: 0x44 });
    assert(ops_view(ops@) =~= chrome_plan(fb.horizontal_resolution, fb.vertical_resolution, *layout, *st, stack@));
    ops
}

// ---------------------------------------------------------------- flyout painting

/// `Calendar (stub)`.
pub open spec fn calendar_stub_text() -> Seq<u8> {
    seq![67u8, 97, 108, 101, 110, 100, 97, 114, 32, 40, 115, 116, 117, 98, 41]
}

/// `Volume (stub)`.
pub open spec fn volume_stub_text() -> Seq<u8> {
    seq![86u8, 111, 108, 117, 109, 101, 32, 40, 115, 116, 117, 98, 41]
}

/// `Tray / clock flyout`.
pub open spec fn flyout_caption_text() -> Seq<u8> {
    seq![84u8, 114, 97, 121, 32, 47, 32, 99, 108, 111, 99, 107, 32, 102, 108, 121, 111, 117, 116]
}

/// The first line of a flyout of kind `kind` (empty for an unknown kind).
pub open spec fn flyout_body_text(kind: u8) -> Seq<u8> {
    if kind == FLYOUT_KIND_CALENDAR_STUB {
        calendar_stub_text()
    } else if kind == FLYOUT_KIND_VOLUME_STUB {
        volume_stub_text()
    } else {
        Seq::empty()
    }
}

/// The flyout panel with an accent line on top, its title and its caption; nothing when no
/// flyout is open or there is no framebuffer.
pub open spec fn flyout_plan(fb: FramebufferInfo, kind: u8, anchor_x: u32, anchor_y: u32) -> Seq<DrawCmd> {
    let p = flyout_panel(anchor_x, anchor_y, fb.horizontal_resolution, fb.vertical_resolution);
    if kind == FLYOUT_KIND_NONE || fb.base == 0 {
        Seq::empty()
    } else {
        seq![
            fill_of(p, rgb(0x2e, 0x2e, 0x38)),
            DrawCmd::Fill { x: p.x, y: p.y, w: p.w, h: 2, color: rgb(0x00, 0x78, 0xd7) },
            DrawCmd::Text {
                x: (p.x + 12) as u32,
                y: (p.y + 14) as u32,
                max_w: (p.w - 24) as u32,
                text: flyout_body_text(kind),
                color: rgb(0xf8, 0xf8, 0xff),
                scale: 2,
            },
            DrawCmd::Text {
                x: (p.x + 12) as u32,
                y: (p.y + 40) as u32,
                max_w: (p.w - 24) as u32,
                text: flyout_caption_text(),
                color: rgb(0xc8, 0xc8, 0xd4),
                scale: 2,
            },
        ]
    }
}

/// Plan the painting of the notification flyout of kind `kind` anchored at `(anchor_x, anchor_y)`.
pub fn paint_notification_flyout(fb: &FramebufferInfo, kind: u8, anchor_x: u32, anchor_y: u32) -> (ops: Vec<DrawOp>)
    requires
        kind != FLYOUT_KIND_NONE && fb.base != 0 ==> fb.horizontal_resolution >= 28,
    ensures
        ops_view(ops@) == flyout_plan(*fb, kind, anchor_x, anchor_y),
{
    let mut ops: Vec<DrawOp> = Vec::new();
    if kind == FLYOUT_KIND_NONE || fb.base == 0 {
        assert(ops_view(ops@) =~= Seq::<DrawCmd>::empty());
        return ops;
    }
    let surf_w = fb.horizontal_resolution;
    let surf_h = fb.vertical_resolution;
    let (x, y) = flyout_panel_xy(anchor_x, anchor_y, surf_w, surf_h);
    let w = if FLYOUT_W <= surf_w.saturating_sub(4) { FLYOUT_W } else { surf_w.saturating_sub(4) };
    let h = if FLYOUT_H <= surf_h.saturating_sub(4) { FLYOUT_H } else { surf_h.saturating_sub(4) };
    let ghost p = flyout_panel(anchor_x, anchor_y, surf_w, surf_h);
    assert(x == p.x && y == p.y && w == p.w && h == p.h);
    push_fill(&mut ops, x, y, w, h, Rgb { r: 0x2e, g: 0x2e, b: 0x38 });
    push_fill(&mut ops, x, y, w, 2, Rgb { r: 0x00, g: 0x78, b: 0xd7 });
    let cal: [u8; 15] = [67u8, 97, 108, 101, 110, 100, 97, 114, 32, 40, 115, 116, 117, 98, 41];
    let vol: [u8; 13] = [86u8, 111, 108, 117, 109, 101, 32, 40, 115, 116, 117, 98, 41];
    let cap: [u8; 19] = [84u8, 114, 97, 121, 32, 47, 32, 99, 108, 111, 99, 107, 32, 102, 108, 121, 111, 117, 116];
    assert(cal@ == calendar_stub_text() && vol@ == volume_stub_text() && cap@ == flyout_caption_text());
    let empty: [u8; 0] = [];
    let body: &[u8] = if kind == FLYOUT_KIND_CALENDAR_STUB {
        &cal
    } else if kind == FLYOUT_KIND_VOLUME_STUB {
        &vol
    } else {
        &empty
    };
    assert(body@ =~= flyout_body_text(kind));
    push_text(&mut ops, x + 12, y + 14, w - 24, body, Rgb { r: 0xf8, g: 0xf8, b: 0xff }, 2);
    push_text(&mut ops, x + 12, y + 14 + 8 * 2 + 10, w - 24, &cap, Rgb { r: 0xc8, g: 0xc8, b: 0xd4 }, 2);
    assert(ops_view(ops@) =~= flyout_plan(*fb, kind, anchor_x, anchor_y));
    ops
}

// ---------------------------------------------------------------- taskbar context menu painting

/// Labels of the taskbar context menu rows.
pub open spec fn tb_ctx_label(i: nat) -> Seq<u8> {
    if i == 0 {
        seq![84u8, 97, 115, 107, 32, 77, 97, 110, 97, 103, 101, 114]
    } else if i == 1 {
        seq![67u8, 97, 115, 99, 97, 100, 101, 32, 119, 105, 110, 100, 111, 119, 115, 32, 40, 115, 116, 117, 98, 41]
    } else if i == 2 {
        seq![83u8, 104, 111, 119, 32, 100, 101, 115, 107, 116, 111, 112]
    } else {
        seq![84u8, 97, 115, 107, 98, 97, 114, 32, 115, 101, 116, 116, 105, 110, 103, 115, 32, 40, 115, 116, 117, 98, 41]
    }
}

/// Row `i` of the taskbar context menu panel `p`: its face (accent when it is the selected row,
/// `selected` clamped to the last row) and its label, vertically centred.
pub open spec fn tb_ctx_row_cmds(p: HitRect, selected: usize, i: nat) -> Seq<DrawCmd> {
    let ry = (p.y + 2 + i * TASKBAR_CTX_MENU_ROW_H) as u32;
    let sel = i == (if selected <= 3 { selected as nat } else { 3 });
    seq![
        DrawCmd::Fill {
            x: (p.x + 2) as u32,
            y: ry,
            w: p.w.saturating_sub(4),
            h: 38,
            color: if sel { rgb(0x00, 0x78, 0xd7) } else { rgb(0x36, 0x36, 0x40) },
        },
        DrawCmd::Text {
            x: (p.x + 10) as u32,
            y: ry.saturating_add(11),
            max_w: p.w.saturating_sub(4).saturating_sub(20),
            text: tb_ctx_label(i),
            color: rgb(0xf8, 0xf8, 0xff),
            scale: 2,
        },
    ]
}

/// Rows `0..n` of the taskbar context menu.
pub open spec fn tb_ctx_rows_upto(p: HitRect, selected: usize, n: nat) -> Seq<DrawCmd>
    decreases n,
{
    if n == 0 {
        Seq::empty()
    } else {
        tb_ctx_rows_upto(p, selected, (n - 1) as nat) + tb_ctx_row_cmds(p, selected, (n - 1) as nat)
    }
}

/// The taskbar context menu: panel, accent line and four rows; nothing without a framebuffer.
pub open spec fn tb_ctx_menu_plan(fb: FramebufferInfo, anchor_x: u32, anchor_y: u32, selected: usize) -> Seq<DrawCmd> {
    let p = menu_panel(TASKBAR_CTX_MENU_W, TASKBAR_CTX_MENU_ROW_H, 4, anchor_x, anchor_y, fb.horizontal_resolution, fb.vertical_resolution);
    if fb.base == 0 || fb.horizontal_resolution == 0 || fb.vertical_resolution == 0 {
        Seq::empty()
    } else {
        seq![fill_of(p, rgb(0x2a, 0x2a, 0x34)), DrawCmd::Fill { x: p.x, y: p.y, w: p.w, h: 2, color: rgb(0x00, 0x78, 0xd7) }]
            + tb_ctx_rows_upto(p, selected, 4)
    }
}

fn push_tb_ctx_label(ops: &mut Vec<DrawOp>, i: usize, x: u32, y: u32, max_w: u32)
    requires
        i < TASKBAR_CTX_MENU_ROWS,
    ensures
        ops_view(final(ops)@) == ops_view(old(ops)@).push(DrawCmd::Text {
            x,
            y,
            max_w,
            text: tb_ctx_label(i as nat),
            color: rgb(0xf8, 0xf8, 0xff),
            scale: 2,
        }),
{
    let c = Rgb { r: 0xf8, g: 0xf8, b: 0xff };
    if i == 0 {
        let a: [u8; 12] = [84u8, 97, 115, 107, 32, 77, 97, 110, 97, 103, 101, 114];
        assert(a@ == tb_ctx_label(0));
        push_text(ops, x, y, max_w, &a, c, 2);
    } else if i == 1 {
        let a: [u8; 22] = [67u8, 97, 115, 99, 97, 100, 101, 32, 119, 105, 110, 100, 111, 119, 115, 32, 40, 115, 116, 117, 98, 41];
        assert(a@ == tb_ctx_label(1));
        push_text(ops, x, y, max_w, &a, c, 2);
    } else if i == 2 {
        let a: [u8; 12] = [83u8, 104, 111, 119, 32, 100, 101, 115, 107, 116, 111, 112];
        assert(a@ == tb_ctx_label(2));
        push_text(ops, x, y, max_w, &a, c, 2);
    } else {
        let a: [u8; 23] = [84u8, 97, 115, 107, 98, 97, 114, 32, 115, 101, 116, 116, 105, 110, 103, 115, 32, 40, 115, 116, 117, 98, 41];
        assert(a@ == tb_ctx_label(3));
        push_text(ops, x, y, max_w, &a, c, 2);
    }
}

/// Plan the painting of the taskbar context menu anchored at `(anchor_x, anchor_y)` with row
/// `selected` highlighted.
pub fn paint_taskbar_context_menu(fb: &FramebufferInfo, anchor_x: u32, anchor_y: u32, selected: usize) -> (ops: Vec<DrawOp>)
    ensures
        ops_view(ops@) == tb_ctx_menu_plan(*fb, anchor_x, anchor_y, selected),
{
    let mut ops: Vec<DrawOp> = Vec::new();
    let surf_w = fb.horizontal_resolution;
    let surf_h = fb.vertical_resolution;
    if fb.base == 0 || surf_w == 0 || surf_h == 0 {
        assert(ops_view(ops@) =~= Seq::<DrawCmd>::empty());
        return ops;
    }
    let w = if TASKBAR_CTX_MENU_W <= surf_w.saturating_sub(4) { TASKBAR_CTX_MENU_W } else { surf_w.saturating_sub(4) };
    let h = TASKBAR_CTX_MENU_ROW_H * 4;
    let x = if anchor_x <= surf_w.saturating_sub(w) { anchor_x } else { surf_w.saturating_sub(w) };
    let y = if anchor_y <= surf_h.saturating_sub(h) { anchor_y } else { surf_h.saturating_sub(h) };
    let ghost p = menu_panel(TASKBAR_CTX_MENU_W, TASKBAR_CTX_MENU_ROW_H, 4, anchor_x, anchor_y, surf_w, surf_h);
    assert(x == p.x && y == p.y && w == p.w && h == p.h);
    push_fill(&mut ops, x, y, w, h, Rgb { r: 0x2a, g: 0x2a, b: 0x34 });
    push_fill(&mut ops, x, y, w, 2, Rgb { r: 0x00, g: 0x78, b: 0xd7 });
    let ghost head = ops_view(ops@);
    let sel_row = if selected <= TASKBAR_CTX_MENU_ROWS - 1 { selected } else { TASKBAR_CTX_MENU_ROWS - 1 };
    let mut i: usize = 0;
    assert(head + tb_ctx_rows_upto(p, selected, 0) =~= head);
    while i < TASKBAR_CTX_MENU_ROWS
        invariant
            i <= TASKBAR_CTX_MENU_ROWS,
            x == p.x && y == p.y && w == p.w,
            y <= surf_h.saturating_sub(h) || y == anchor_y && anchor_y <= surf_h.saturating_sub(h),
            p.x <= surf_w,
            p.w == min_u32(TASKBAR_CTX_MENU_W, surf_w.saturating_sub(4)),
            p.x == min_u32(anchor_x, surf_w.saturating_sub(p.w)),
            p.y == min_u32(anchor_y, surf_h.saturating_sub(160)),
            h == 160,
            sel_row == (if selected <= 3 { selected } else { 3 }),
            ops_view(ops@) == head + tb_ctx_rows_upto(p, selected, i as nat),
        decreases TASKBAR_CTX_MENU_ROWS - i,
    {
        let ry = y + 2 + (i as u32) * TASKBAR_CTX_MENU_ROW_H;
        let c = if i == sel_row { Rgb { r: 0x00, g: 0x78, b: 0xd7 } } else { Rgb { r: 0x36, g: 0x36, b: 0x40 } };
        push_fill(&mut ops, x + 2, ry, w.saturating_sub(4), TASKBAR_CTX_MENU_ROW_H.saturating_sub(2), c);
        let ly = ry.saturating_add((TASKBAR_CTX_MENU_ROW_H.saturating_sub(2)).saturating_sub(16) / 2);
        push_tb_ctx_label(&mut ops, i, x + 10, ly, w.saturating_sub(4).saturating_sub(20));
        assert(ops_view(ops@) =~= head + tb_ctx_rows_upto(p, selected, (i + 1) as nat));
        i = i + 1;
    }
    assert(ops_view(ops@) =~= tb_ctx_menu_plan(*fb, anchor_x, anchor_y, selected));
    ops
}

// ---------------------------------------------------------------- power dialog painting

/// `Power actions use firmware.`
pub open spec fn power_line_1() -> Seq<u8> {
    seq![80u8, 111, 119, 101, 114, 32, 97, 99, 116, 105, 111, 110, 115, 32, 117, 115, 101, 32, 102, 105, 114, 109, 119, 97, 114, 101, 46]
}

/// `(stub - no shutdown from shell)`
pub open spec fn power_line_2() -> Seq<u8> {
    seq![40u8, 115, 116, 117, 98, 32, 45, 32, 110, 111, 32, 115, 104, 117, 116, 100, 111, 119, 110, 32, 102, 114, 111, 109, 32, 115, 104, 101, 108, 108, 41]
}

/// The power dialog: up to 320 x 120, centred above the taskbar, with an accent line and two
/// lines of text.
pub open spec fn power_confirm_plan(l: TaskbarLayout) -> Seq<DrawCmd> {
    let dw = min_u32(320, l.surface_w.saturating_sub(40));
    let dh = min_u32(120, l.bar.y.saturating_sub(40));
    let x = l.surface_w.saturating_sub(dw) / 2;
    let y = l.bar.y.saturating_sub(dh) / 2;
    seq![
        DrawCmd::Fill { x, y, w: dw, h: dh, color: rgb(0x2e, 0x2e, 0x38) },
        DrawCmd::Fill { x, y, w: dw, h: 2, color: rgb(0x00, 0x78, 0xd7) },
        DrawCmd::Text { x: (x + 16) as u32, y: (y + 24) as u32, max_w: (dw - 32) as u32, text: power_line_1(), color: rgb(0xe8, 0xe8, 0xf0), scale: 1 },
        DrawCmd::Text { x: (x + 16) as u32, y: (y + 44) as u32, max_w: (dw - 32) as u32, text: power_line_2(), color: rgb(0xb0, 0xb0, 0xb8), scale: 1 },
    ]
}

/// Plan the painting of the power dialog (the surface must be at least 72 pixels wide).
pub fn paint_power_confirm(layout: &TaskbarLayout) -> (ops: Vec<DrawOp>)
    requires
        layout.surface_w >= 72,
    ensures
        ops_view(ops@) == power_confirm_plan(*layout),
{
    let mut ops: Vec<DrawOp> = Vec::new();
    let w = layout.surface_w;
    let h = layout.bar.y;
    let dw = if 320 <= w.saturating_sub(40) { 320 } else { w.saturating_sub(40) };
    let dh = if 120 <= h.saturating_sub(40) { 120 } else { h.saturating_sub(40) };
    let x = w.saturating_sub(dw) / 2;
    let y = h.saturating_sub(dh) / 2;
    push_fill(&mut ops, x, y, dw, dh, Rgb { r: 0x2e, g: 0x2e, b: 0x38 });
    push_fill(&mut ops, x, y, dw, 2, Rgb { r: 0x00, g: 0x78, b: 0xd7 });
    let l1: [u8; 27] = [80u8, 111, 119, 101, 114, 32, 97, 99, 116, 105, 111, 110, 115, 32, 117, 115, 101, 32, 102, 105, 114, 109, 119, 97, 114, 101, 46];
    let l2: [u8; 31] = [40u8, 115, 116, 117, 98, 32, 45, 32, 110, 111, 32, 115, 104, 117, 116, 100, 111, 119, 110, 32, 102, 114, 111, 109, 32, 115, 104, 101, 108, 108, 41];
    assert(l1@ == power_line_1() && l2@ == power_line_2());
    push_text(&mut ops, x + 16, y + 24, dw - 32, &l1, Rgb { r: 0xe8, g: 0xe8, b: 0xf0 }, 1);
    push_text(&mut ops, x + 16, y + 44, dw - 32, &l2, Rgb { r: 0xb0, g: 0xb0, b: 0xb8 }, 1);
    assert(ops_view(ops@) =~= power_confirm_plan(*layout));
    ops
}

} // verus!
