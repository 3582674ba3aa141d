//! Placement of the kernel-hosted windows (title bar, close box, client area) and row hit tests.
use vstd::prelude::*;
use crate::desktop::taskbar::{HitRect, TaskbarLayout, min_u32, max_u32};
use crate::desktop::shell_namespace::RootShellFolder;
use crate::desktop::draw::{ops_view, push_fill, push_op, push_text, rgb, BitmapAsset, DrawCmd, DrawOp, Rgb};

verus! {

/// Rows of the default Files listing.
pub const STATIC_ENTRY_COUNT: usize = 6;
/// Capacity of the Files listing.
pub const MAX_FILE_ROWS: usize = 32;
/// Height of one list row.
pub const ROW_H: u32 = 36;

/// Window frame parts.
#[derive(Clone, Copy, Debug, PartialEq, Eq, Structural)]
pub struct ExplorerLayout {
    pub window: HitRect,
    pub title_bar: HitRect,
    pub close_btn: HitRect,
    pub client: HitRect,
}

/// Surfaces small enough for the window arithmetic.
pub open spec fn surface_ok(layout: TaskbarLayout) -> bool {
    &&& layout.surface_w as int * 7 <= u32::MAX
    &&& layout.surface_h as int * 65 <= u32::MAX
    &&& layout.bar.y as int + 64 <= u32::MAX
}

/// Window width: 70% of the surface, at least 320, at most the surface less 16.
pub open spec fn window_width(layout: TaskbarLayout) -> u32 {
    let w = layout.surface_w;
    min_u32(max_u32((w * 7 / 10) as u32, 320), w.saturating_sub(16))
}

/// Window height: 65% of the surface, at least 220, leaving 24 px above the taskbar.
pub open spec fn window_height(layout: TaskbarLayout) -> u32 {
    let h = layout.surface_h;
    min_u32(max_u32((h * 65 / 100) as u32, 220), layout.bar.y.saturating_sub(24))
}

/// The frame of a window centred above the taskbar and shifted by `(dx, dy)`, kept on screen.
pub open spec fn frame_spec(layout: TaskbarLayout, dx: u32, dy: u32) -> ExplorerLayout {
    let w = layout.surface_w;
    let win_w = window_width(layout);
    let win_h = window_height(layout);
    let x0 = w.saturating_sub(win_w) / 2;
    let y0 = layout.bar.y.saturating_sub(win_h) / 2;
    let x = min_u32(x0.saturating_add(dx), w.saturating_sub(win_w));
    let y = min_u32(y0.saturating_add(dy), layout.bar.y.saturating_sub(win_h));
    let title_h = min_u32(36, win_h.saturating_sub(40));
    ExplorerLayout {
        window: HitRect { x, y, w: win_w, h: win_h },
        title_bar: HitRect { x, y, w: win_w, h: title_h },
        close_btn: HitRect {
            x: (x + win_w.saturating_sub(36)) as u32,
            y: (y + 4) as u32,
            w: 28,
            h: max_u32(title_h.saturating_sub(8), 20),
        },
        client: HitRect {
            x: (x + 4) as u32,
            y: (y + title_h + 4) as u32,
            w: win_w.saturating_sub(8),
            h: win_h.saturating_sub((title_h + 8) as u32),
        },
    }
}

/// Stagger offset of the window at stack depth `depth`.
pub open spec fn depth_offset(depth: nat) -> u32 {
    ((if depth <= 7 { depth } else { 7 }) * 22) as u32
}

fn base_layout(layout: &TaskbarLayout, dx: u32, dy: u32) -> (r: ExplorerLayout)
    requires
        surface_ok(*layout),
    ensures
        r == frame_spec(*layout, dx, dy),
{
    let w = layout.surface_w;
    let h = layout.surface_h;
    let a = w * 7 / 10;
    let a = if a >= 320 { a } else { 320 };
    let win_w = if a <= w.saturating_sub(16) { a } else { w.saturating_sub(16) };
    let b = h * 65 / 100;
    let b = if b >= 220 { b } else { 220 };
    let win_h = if b <= layout.bar.y.saturating_sub(24) { b } else { layout.bar.y.saturating_sub(24) };
    let x0 = (w.saturating_sub(win_w)) / 2;
    let y0 = (layout.bar.y.saturating_sub(win_h)) / 2;
    let xa = x0.saturating_add(dx);
    let x = if xa <= w.saturating_sub(win_w) { xa } else { w.saturating_sub(win_w) };
    let ya = y0.saturating_add(dy);
    let y = if ya <= layout.bar.y.saturating_sub(win_h) { ya } else { layout.bar.y.saturating_sub(win_h) };
    let window = HitRect { x, y, w: win_w, h: win_h };
    let th = win_h.saturating_sub(40);
    let title_h = if 36 <= th { 36 } else { th };
    let title_bar = HitRect { x, y, w: win_w, h: title_h };
    let ch = title_h.saturating_sub(8);
    let close_btn = HitRect {
        x: x + win_w.saturating_sub(36),
        y: y + 4,
        w: 28,
        h: if ch >= 20 { ch } else { 20 },
    };
    let client = HitRect {
        x: x + 4,
        y: y + title_h + 4,
        w: win_w.saturating_sub(8),
        h: win_h.saturating_sub(title_h + 8),
    };
    ExplorerLayout { window, title_bar, close_btn, client }
}

/// The single Files window frame.
pub fn layout_for_surface(layout: &TaskbarLayout) -> (r: ExplorerLayout)
    requires
        surface_ok(*layout),
    ensures
        r == frame_spec(*layout, 0, 0),
{
    base_layout(layout, 0, 0)
}

/// Frame of the window at stack depth `depth` (0 = back), staggered 22 px per level up to 7.
pub fn layout_for_stack_depth(layout: &TaskbarLayout, depth: usize) -> (r: ExplorerLayout)
    requires
        surface_ok(*layout),
    ensures
        r == frame_spec(*layout, depth_offset(depth as nat), depth_offset(depth as nat)),
{
    let d = if depth <= 7 { depth as u32 } else { 7 };
    let off = d * 22;
    base_layout(layout, off, off)
}

/// Row under `py` in a list drawn in `client` with `row_count` rows.
pub open spec fn row_at_y_spec(client: HitRect, py: u32, row_count: nat) -> Option<usize> {
    if py < client.y || py >= client.y + client.h {
        None
    } else {
        let idx = ((py - client.y) / (ROW_H as int)) as nat;
        if idx < row_count {
            Some(idx as usize)
        } else {
            None
        }
    }
}

/// The list row under vertical position `py`, if any.
pub fn row_index_at_y(client: HitRect, py: u32, row_count: usize) -> (r: Option<usize>)
    requires
        client.y + client.h <= u32::MAX,
    ensures
        r == row_at_y_spec(client, py, row_count as nat),
{
    if py < client.y || py >= client.y + client.h {
        return None;
    }
    let rel = py - client.y;
    let idx = (rel / ROW_H) as usize;
    if idx < row_count {
        Some(idx)
    } else {
        None
    }
}

/// The list row under `(px, py)`, if any.
pub fn row_hit(client: HitRect, px: u32, py: u32, row_count: usize) -> (r: Option<usize>)
    requires
        client.y + client.h <= u32::MAX,
        client.x + client.w <= u32::MAX,
    ensures
        r == if px < client.x || px >= client.x + client.w { None } else { row_at_y_spec(client, py, row_count as nat) },
{
    if px < client.x || px >= client.x + client.w {
        return None;
    }
    row_index_at_y(client, py, row_count)
}

/// Child count of the namespace root, listed into four slots.
pub fn shell_namespace_entry_count_smoke() -> (n: usize)
    ensures
        n == 2,
{
    RootShellFolder.enumerate_into(4)
}

/// The frame of a hosted window: body, a 2-pixel accent line (brighter when focused),
/// title bar, the title bitmap of size `title_size` when there is one and it is at most
/// the title bar's width less 48, and the close box.
pub open spec fn window_chrome_plan(el: ExplorerLayout, title_idx: usize, focused: bool, title_size: Option<(u32, u32)>) -> Seq<DrawCmd> {
    let win = el.window;
    let tb = el.title_bar;
    let cb = el.close_btn;
    let title = match title_size {
        Some((tw, th)) => if tw <= tb.w.saturating_sub(48) {
            seq![DrawCmd::Bitmap {
                x: (tb.x + 10) as u32,
                y: tb.y.saturating_add(tb.h.saturating_sub(th) / 2),
                w: tw,
                h: th,
                asset: BitmapAsset::WindowTitle(title_idx),
            }]
        } else {
            Seq::empty()
        },
        None => Seq::empty(),
    };
    seq![
        DrawCmd::Fill { x: win.x, y: win.y, w: win.w, h: win.h, color: rgb(0x28, 0x28, 0x32) },
        DrawCmd::Fill { x: win.x, y: win.y, w: win.w, h: 2, color: if focused { rgb(0x00, 0x99, 0xff) } else { rgb(0x00, 0x78, 0xd7) } },
        DrawCmd::Fill { x: tb.x, y: tb.y, w: tb.w, h: tb.h, color: rgb(0x1a, 0x1a, 0x22) },
    ] + title + seq![DrawCmd::Fill { x: cb.x, y: cb.y, w: cb.w, h: cb.h, color: rgb(0xc4, 0x2b, 0x1e) }]
}

/// Plan the painting of a hosted window's frame. `title_size` is the size of the title
/// bitmap generated for `title_idx`, `None` when there is none.
pub fn paint_window_chrome(el: &ExplorerLayout, title_idx: usize, focused: bool, title_size: Option<(u32, u32)>) -> (ops: Vec<DrawOp>)
    requires
        el.title_bar.x + 10 <= u32::MAX,
    ensures
        ops_view(ops@) == window_chrome_plan(*el, title_idx, focused, title_size),
{
    let win = el.window;
    let tb = el.title_bar;
    let cb = el.close_btn;
    let mut ops: Vec<DrawOp> = Vec::new();
    push_fill(&mut ops, win.x, win.y, win.w, win.h, Rgb { r: 0x28, g: 0x28, b: 0x32 });
    let acc = if focused { Rgb { r: 0x00, g: 0x99, b: 0xff } } else { Rgb { r: 0x00, g: 0x78, b: 0xd7 } };
    push_fill(&mut ops, win.x, win.y, win.w, 2, acc);
    push_fill(&mut ops, tb.x, tb.y, tb.w, tb.h, Rgb { r: 0x1a, g: 0x1a, b: 0x22 });
    if let Some((tw, th)) = title_size {
        let max_w = tb.w.saturating_sub(48);
        if tw <= max_w {
            let lx = tb.x + 10;
            let ly = tb.y.saturating_add(tb.h.saturating_sub(th) / 2);
            push_op(&mut ops, DrawOp::Bitmap { x: lx, y: ly, w: tw, h: th, asset: BitmapAsset::WindowTitle(title_idx) });
        }
    }
    push_fill(&mut ops, cb.x, cb.y, cb.w, cb.h, Rgb { r: 0xc4, g: 0x2b, b: 0x1e });
    assert(ops_view(ops@) =~= window_chrome_plan(*el, title_idx, focused, title_size));
    ops
}


/// The text of Files row `i`: the listed name, or nothing for the rows shown with a
/// generated label.
pub open spec fn files_row_text(rows: Seq<Vec<u8>>, i: int) -> Seq<u8> {
    if 0 <= i < rows.len() { rows[i]@ } else { Seq::empty() }
}

/// Files row `i` when it fits above the client's bottom edge: its face (lit when
/// selected), its `icon_w` x `icon_h` icon, then the row's text, or else the generated
/// label of size `labels[i]` when there is one and it fits the text width.
pub open spec fn files_row_cmds(cl: HitRect, sel: int, rows: Seq<Vec<u8>>, icon_w: u32, icon_h: u32, labels: Seq<Option<(u32, u32)>>, i: nat) -> Seq<DrawCmd> {
    let ry = (cl.y + i * ROW_H) as u32;
    let ix = (cl.x + 6) as u32;
    let lx = (ix + icon_w + 8) as u32;
    let max_txt_w = cl.w.saturating_sub((icon_w + 20) as u32);
    let text = files_row_text(rows, i as int);
    let label = if text.len() > 0 {
        seq![DrawCmd::Text { x: lx, y: (ry + 14) as u32, max_w: max_txt_w, text, color: rgb(0xf0, 0xf0, 0xf8), scale: 1 }]
    } else if i < labels.len() {
        match labels[i as int] {
            Some((lw, lh)) => if lw <= max_txt_w {
                seq![DrawCmd::Bitmap { x: lx, y: ry.saturating_add(36u32.saturating_sub(lh) / 2), w: lw, h: lh, asset: BitmapAsset::ExplorerRowLabel(i as usize) }]
            } else {
                Seq::empty()
            },
            None => Seq::empty(),
        }
    } else {
        Seq::empty()
    };
    if ry + ROW_H > cl.y + cl.h {
        Seq::empty()
    } else {
        seq![
            DrawCmd::Fill { x: cl.x, y: ry, w: cl.w, h: 34, color: if i == sel { rgb(0x00, 0x78, 0xd7) } else { rgb(0x32, 0x32, 0x3c) } },
            DrawCmd::Bitmap { x: ix, y: (ry + 36u32.saturating_sub(icon_h) / 2) as u32, w: icon_w, h: icon_h, asset: BitmapAsset::ExplorerRowIcon(i as usize) },
        ] + label
    }
}

/// Files rows `0..n`.
pub open spec fn files_rows_upto(cl: HitRect, sel: int, rows: Seq<Vec<u8>>, icon_w: u32, icon_h: u32, labels: Seq<Option<(u32, u32)>>, n: nat) -> Seq<DrawCmd>
    decreases n,
{
    if n == 0 {
        Seq::empty()
    } else {
        files_rows_upto(cl, sel, rows, icon_w, icon_h, labels, (n - 1) as nat) + files_row_cmds(cl, sel, rows, icon_w, icon_h, labels, (n - 1) as nat)
    }
}

/// The Files listing: the first `row_count` rows (at most `MAX_FILE_ROWS`) that fit, the
/// selection clamped to the last listed row.
pub open spec fn files_client_plan(cl: HitRect, selected: usize, row_count: usize, rows: Seq<Vec<u8>>, icon_w: u32, icon_h: u32, labels: Seq<Option<(u32, u32)>>) -> Seq<DrawCmd> {
    let rc = if row_count < MAX_FILE_ROWS { row_count as int } else { MAX_FILE_ROWS as int };
    let last = if rc >= 1 { rc - 1 } else { 0 };
    let sel = if selected < last { selected as int } else { last };
    files_rows_upto(cl, sel, rows, icon_w, icon_h, labels, rc as nat)
}

fn push_files_row(ops: &mut Vec<DrawOp>, cl: HitRect, sel: usize, rows: &Vec<Vec<u8>>, icon_w: u32, icon_h: u32, labels: &[Option<(u32, u32)>], i: usize)
    requires
        i < MAX_FILE_ROWS,
        cl.y + cl.h <= u32::MAX,
        cl.y + (MAX_FILE_ROWS + 1) * ROW_H <= u32::MAX,
        cl.x + icon_w + 14 <= u32::MAX,
        icon_w + 20 <= u32::MAX,
    ensures
        ops_view(final(ops)@) == ops_view(old(ops)@) + files_row_cmds(cl, sel as int, rows@, icon_w, icon_h, labels@, i as nat),
{
    let ghost before = ops_view(ops@);
    let ry = cl.y + (i as u32) * ROW_H;
    if ry + ROW_H > cl.y + cl.h {
        assert(ops_view(ops@) =~= before + files_row_cmds(cl, sel as int, rows@, icon_w, icon_h, labels@, i as nat));
        return;
    }
    let c = if i == sel { Rgb { r: 0x00, g: 0x78, b: 0xd7 } } else { Rgb { r: 0x32, g: 0x32, b: 0x3c } };
    push_fill(ops, cl.x, ry, cl.w, 34, c);
    let ix = cl.x + 6;
    push_op(ops, DrawOp::Bitmap { x: ix, y: ry + 36u32.saturating_sub(icon_h) / 2, w: icon_w, h: icon_h, asset: BitmapAsset::ExplorerRowIcon(i) });
    let lx = ix + icon_w + 8;
    let max_txt_w = cl.w.saturating_sub(icon_w + 20);
    if i < rows.len() && rows[i].len() > 0 {
        push_text(ops, lx, ry + 14, max_txt_w, rows[i].as_slice(), Rgb { r: 0xf0, g: 0xf0, b: 0xf8 }, 1);
    } else if i < labels.len() {
        if let Some((lw, lh)) = labels[i] {
            if lw <= max_txt_w {
                push_op(ops, DrawOp::Bitmap { x: lx, y: ry.saturating_add(36u32.saturating_sub(lh) / 2), w: lw, h: lh, asset: BitmapAsset::ExplorerRowLabel(i) });
            }
        }
    }
    assert(ops_view(ops@) =~= before + files_row_cmds(cl, sel as int, rows@, icon_w, icon_h, labels@, i as nat));
}

/// Plan the painting of the Files listing in client area `cl`. The generated assets give
/// the `icon_w` x `icon_h` row icons and, for the first `labels.len()` rows, the size of
/// each row's label bitmap (`None` where there is none).
pub fn paint_files_client(
    cl: HitRect,
    selected: usize,
    row_count: usize,
    rows: &Vec<Vec<u8>>,
    icon_w: u32,
    icon_h: u32,
    labels: &[Option<(u32, u32)>],
) -> (ops: Vec<DrawOp>)
    requires
        cl.y + cl.h <= u32::MAX,
        cl.y + (MAX_FILE_ROWS + 1) * ROW_H <= u32::MAX,
        cl.x + icon_w + 14 <= u32::MAX,
        icon_w + 20 <= u32::MAX,
    ensures
        ops_view(ops@) == files_client_plan(cl, selected, row_count, rows@, icon_w, icon_h, labels@),
{
    let rc = if row_count < MAX_FILE_ROWS { row_count } else { MAX_FILE_ROWS };
    let last = if rc >= 1 { rc - 1 } else { 0 };
    let sel = if selected < last { selected } else { last };
    let mut ops: Vec<DrawOp> = Vec::new();
    let mut i: usize = 0;
    assert(ops_view(ops@) =~= files_rows_upto(cl, sel as int, rows@, icon_w, icon_h, labels@, 0));
    while i < rc
        invariant
            i <= rc <= MAX_FILE_ROWS,
            cl.y + cl.h <= u32::MAX,
            cl.y + (MAX_FILE_ROWS + 1) * ROW_H <= u32::MAX,
            cl.x + icon_w + 14 <= u32::MAX,
            icon_w + 20 <= u32::MAX,
            ops_view(ops@) == files_rows_upto(cl, sel as int, rows@, icon_w, icon_h, labels@, i as nat),
        decreases rc - i,
    {
        push_files_row(&mut ops, cl, sel, rows, icon_w, icon_h, labels, i);
        i = i + 1;
    }
    ops
}


} // verus!
