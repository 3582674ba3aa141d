//! Desktop window manager bookkeeping: surfaces, per-window layers and the merged dirty
//! rectangle, plus a flat software commit of the dirty region into a BGRA buffer.
use vstd::prelude::*;

verus! {

/// One fullscreen or window-sized surface in the compositor tree.
#[derive(Clone, Copy, Debug, PartialEq, Eq, Structural)]
pub struct CompositorSurface {
    pub width: u32,
    pub height: u32,
    pub z_order: i32,
    pub acrylic_blur_radius: u8,
    pub mica_altitude: u8,
    /// Window handle when this surface backs a window (0 = desktop root).
    pub owner_hwnd: u64,
}

impl CompositorSurface {
    /// Desktop root surface of `w` x `h`.
    pub fn fullscreen(w: u32, h: u32) -> (s: Self)
        ensures
            s == (CompositorSurface {
                width: w,
                height: h,
                z_order: 0,
                acrylic_blur_radius: 0,
                mica_altitude: 0,
                owner_hwnd: 0,
            }),
    {
        CompositorSurface { width: w, height: h, z_order: 0, acrylic_blur_radius: 0, mica_altitude: 0, owner_hwnd: 0 }
    }

    /// Surface backing window `hwnd` at depth `z`.
    pub fn for_hwnd(w: u32, h: u32, hwnd: u64, z: i32) -> (s: Self)
        ensures
            s == (CompositorSurface {
                width: w,
                height: h,
                z_order: z,
                acrylic_blur_radius: 0,
                mica_altitude: 0,
                owner_hwnd: hwnd,
            }),
    {
        CompositorSurface { width: w, height: h, z_order: z, acrylic_blur_radius: 0, mica_altitude: 0, owner_hwnd: hwnd }
    }
}

/// Inclusive-exclusive dirty box in pixel space.
#[derive(Clone, Copy, Debug, PartialEq, Eq, Structural)]
pub struct DirtyRect {
    pub x0: u32,
    pub y0: u32,
    pub x1: u32,
    pub y1: u32,
}

/// The smaller of two `u32`.
pub open spec fn min32(a: u32, b: u32) -> u32 {
    if a <= b {
        a
    } else {
        b
    }
}

/// The larger of two `u32`.
pub open spec fn max32(a: u32, b: u32) -> u32 {
    if a >= b {
        a
    } else {
        b
    }
}

/// The bounding box of two dirty rectangles.
pub open spec fn union_spec(a: DirtyRect, b: DirtyRect) -> DirtyRect {
    DirtyRect { x0: min32(a.x0, b.x0), y0: min32(a.y0, b.y0), x1: max32(a.x1, b.x1), y1: max32(a.y1, b.y1) }
}

/// Merging dirty rectangles does not depend on their order or grouping, and the merged
/// box covers each rectangle that went into it.
pub proof fn lemma_union_merge(a: DirtyRect, b: DirtyRect, c: DirtyRect)
    ensures
        union_spec(a, b) == union_spec(b, a),
        union_spec(union_spec(a, b), c) == union_spec(a, union_spec(b, c)),
        union_spec(a, a) == a,
        union_spec(a, b).x0 <= a.x0 && union_spec(a, b).y0 <= a.y0,
        union_spec(a, b).x1 >= a.x1 && union_spec(a, b).y1 >= a.y1,
        union_spec(a, b).x0 <= b.x0 && union_spec(a, b).y0 <= b.y0,
        union_spec(a, b).x1 >= b.x1 && union_spec(a, b).y1 >= b.y1,
{
}

/// Pending damage `p` after one more damaged rectangle `r`.
pub open spec fn mark_pending(p: Option<DirtyRect>, r: DirtyRect) -> Option<DirtyRect> {
    match p {
        Some(q) => Some(union_spec(q, r)),
        None => Some(r),
    }
}

/// Pending damage `p` after the rectangles `rs`, marked in order.
pub open spec fn pending_after_marks(p: Option<DirtyRect>, rs: Seq<DirtyRect>) -> Option<DirtyRect>
    decreases rs.len(),
{
    if rs.len() == 0 {
        p
    } else {
        mark_pending(pending_after_marks(p, rs.drop_last()), rs.last())
    }
}

/// `union(..union(union(rs[0], rs[1]), rs[2]).., rs[k-1])` for a non-empty `rs`.
pub open spec fn merged_dirty(rs: Seq<DirtyRect>) -> DirtyRect
    decreases rs.len(),
{
    if rs.len() <= 1 {
        rs[0]
    } else {
        union_spec(merged_dirty(rs.drop_last()), rs.last())
    }
}

/// Marking rectangles on a compositor with no pending damage and then taking the merged
/// damage gives nothing for no marks, and otherwise the left-to-right union of all marked
/// rectangles, which covers each of them and whose every edge is the edge of one of them.
pub proof fn lemma_marks_merge(rs: Seq<DirtyRect>)
    ensures
        rs.len() == 0 ==> pending_after_marks(None, rs) is None,
        rs.len() > 0 ==> pending_after_marks(None, rs) == Some(merged_dirty(rs)),
        rs.len() > 0 ==> forall|i: int| 0 <= i < rs.len() ==> {
            &&& merged_dirty(rs).x0 <= #[trigger] rs[i].x0
            &&& merged_dirty(rs).y0 <= rs[i].y0
            &&& merged_dirty(rs).x1 >= rs[i].x1
            &&& merged_dirty(rs).y1 >= rs[i].y1
        },
        rs.len() > 0 ==> (exists|i: int| 0 <= i < rs.len() && merged_dirty(rs).x0 == #[trigger] rs[i].x0),
        rs.len() > 0 ==> (exists|i: int| 0 <= i < rs.len() && merged_dirty(rs).y0 == #[trigger] rs[i].y0),
        rs.len() > 0 ==> (exists|i: int| 0 <= i < rs.len() && merged_dirty(rs).x1 == #[trigger] rs[i].x1),
        rs.len() > 0 ==> (exists|i: int| 0 <= i < rs.len() && merged_dirty(rs).y1 == #[trigger] rs[i].y1),
    decreases rs.len(),
{
    if rs.len() > 1 {
        let init = rs.drop_last();
        lemma_marks_merge(init);
        let m = merged_dirty(init);
        let l = rs.last();
        assert forall|i: int| 0 <= i < rs.len() implies {
            &&& merged_dirty(rs).x0 <= #[trigger] rs[i].x0
            &&& merged_dirty(rs).y0 <= rs[i].y0
            &&& merged_dirty(rs).x1 >= rs[i].x1
            &&& merged_dirty(rs).y1 >= rs[i].y1
        } by {
            if i < rs.len() - 1 {
                assert(rs[i] == init[i]);
            }
        }
        let ix0 = choose|i: int| 0 <= i < init.len() && m.x0 == #[trigger] init[i].x0;
        let iy0 = choose|i: int| 0 <= i < init.len() && m.y0 == #[trigger] init[i].y0;
        let ix1 = choose|i: int| 0 <= i < init.len() && m.x1 == #[trigger] init[i].x1;
        let iy1 = choose|i: int| 0 <= i < init.len() && m.y1 == #[trigger] init[i].y1;
        let k = rs.len() - 1;
        assert(rs[ix0] == init[ix0] && rs[iy0] == init[iy0] && rs[ix1] == init[ix1] && rs[iy1] == init[iy1]);
        assert(rs[k] == l);
        let u = merged_dirty(rs);
        assert(u == union_spec(m, l));
        if m.x0 <= l.x0 { assert(u.x0 == rs[ix0].x0); } else { assert(u.x0 == rs[k].x0); }
        if m.y0 <= l.y0 { assert(u.y0 == rs[iy0].y0); } else { assert(u.y0 == rs[k].y0); }
        if m.x1 >= l.x1 { assert(u.x1 == rs[ix1].x1); } else { assert(u.x1 == rs[k].x1); }
        if m.y1 >= l.y1 { assert(u.y1 == rs[iy1].y1); } else { assert(u.y1 == rs[k].y1); }
        assert(pending_after_marks(None, rs) == mark_pending(pending_after_marks(None, init), l));
    } else if rs.len() == 1 {
        let init = rs.drop_last();
        assert(init.len() == 0);
        assert(pending_after_marks(None, init) is None);
        assert(rs[0] == rs.last());
        assert(pending_after_marks(None, rs) == mark_pending(pending_after_marks(None, init), rs.last()));
        assert(merged_dirty(rs) == rs[0]);
        assert(merged_dirty(rs).x0 == rs[0].x0 && merged_dirty(rs).y0 == rs[0].y0);
        assert(merged_dirty(rs).x1 == rs[0].x1 && merged_dirty(rs).y1 == rs[0].y1);
    }
}

impl DirtyRect {
    /// The bounding box of `a` and `b`.
    pub fn union(a: Self, b: Self) -> (r: Self)
        ensures
            r == union_spec(a, b),
    {
        DirtyRect {
            x0: if a.x0 <= b.x0 { a.x0 } else { b.x0 },
            y0: if a.y0 <= b.y0 { a.y0 } else { b.y0 },
            x1: if a.x1 >= b.x1 { a.x1 } else { b.x1 },
            y1: if a.y1 >= b.y1 { a.y1 } else { b.y1 },
        }
    }
}

/// Window layer slots.
pub const HWND_LAYER_COUNT: usize = 4;

/// Root compositor state for a single display.
#[derive(Clone, Copy, Debug)]
pub struct DwmCompositor {
    pub root: Option<CompositorSurface>,
    pub pending_dirty: Option<DirtyRect>,
    /// Per-window offscreen layers.
    pub hwnd_layers: [Option<CompositorSurface>; HWND_LAYER_COUNT],
    /// When set, the compositor may paint a diagnostics overlay.
    pub debug_composition_overlay: bool,
}

/// Byte offset of pixel `(row, col)` in a buffer of `stride` pixels per row.
pub open spec fn pixel_off(row: int, col: int, stride: int) -> int {
    (row * stride + col) * 4
}

/// Byte `i` belongs to a pixel of rows `y0..y1`, columns `x0..x1`.
pub open spec fn region_covers(i: int, x0: int, x1: int, y0: int, y1: int, stride: int) -> bool {
    exists|r: int, c: int|
        y0 <= r < y1 && x0 <= c < x1 && pixel_off(r, c, stride) <= i < #[trigger] pixel_off(r, c, stride) + 4
}

/// Byte `i` belongs to a pixel painted before `(row, col)` in row-major order.
pub open spec fn done_covers(i: int, x0: int, x1: int, y0: int, row: int, col: int, stride: int) -> bool {
    exists|r: int, c: int|
        y0 <= r && x0 <= c && ((r < row && c < x1) || (r == row && c < col)) && pixel_off(r, c, stride)
            <= i < #[trigger] pixel_off(r, c, stride) + 4
}

/// The dirty region clipped to a `w` x `h` root: `(x0, x1, y0, y1)`.
pub open spec fn clipped(d: DirtyRect, w: u32, h: u32) -> (u32, u32, u32, u32) {
    let x0 = min32(d.x0, w);
    let x1 = max32(min32(d.x1, w), x0);
    let y0 = min32(d.y0, h);
    let y1 = max32(min32(d.y1, h), y0);
    (x0, x1, y0, y1)
}

/// Moving from the end of one row to the start of the next paints nothing new.
proof fn lemma_done_next_row(x0: int, x1: int, y0: int, row: int, stride: int)
    requires
        x0 <= x1,
    ensures
        forall|i: int| #[trigger] done_covers(i, x0, x1, y0, row, x1, stride) == done_covers(i, x0, x1, y0, row + 1, x0, stride),
{
    assert forall|i: int| #[trigger] done_covers(i, x0, x1, y0, row, x1, stride) == done_covers(i, x0, x1, y0, row + 1, x0, stride) by {
        if done_covers(i, x0, x1, y0, row, x1, stride) {
            let (r, c) = choose|r: int, c: int|
                y0 <= r && x0 <= c && ((r < row && c < x1) || (r == row && c < x1)) && pixel_off(r, c, stride)
                    <= i < #[trigger] pixel_off(r, c, stride) + 4;
            assert(y0 <= r && x0 <= c && ((r < row + 1 && c < x1) || (r == row + 1 && c < x0)) && pixel_off(r, c, stride)
                <= i < pixel_off(r, c, stride) + 4);
        }
        if done_covers(i, x0, x1, y0, row + 1, x0, stride) {
            let (r, c) = choose|r: int, c: int|
                y0 <= r && x0 <= c && ((r < row + 1 && c < x1) || (r == row + 1 && c < x0)) && pixel_off(r, c, stride)
                    <= i < #[trigger] pixel_off(r, c, stride) + 4;
            assert(y0 <= r && x0 <= c && ((r < row && c < x1) || (r == row && c < x1)) && pixel_off(r, c, stride)
                <= i < pixel_off(r, c, stride) + 4);
        }
    }
}

/// Painting pixel `(row, col)` extends the painted set by exactly its four bytes.
proof fn lemma_done_next_col(x0: int, x1: int, y0: int, row: int, col: int, stride: int)
    requires
        y0 <= row,
        x0 <= col < x1,
    ensures
        forall|i: int| #[trigger] done_covers(i, x0, x1, y0, row, col + 1, stride) == (done_covers(i, x0, x1, y0, row, col, stride)
            || (pixel_off(row, col, stride) <= i < pixel_off(row, col, stride) + 4)),
{
    assert forall|i: int| #[trigger] done_covers(i, x0, x1, y0, row, col + 1, stride) == (done_covers(i, x0, x1, y0, row, col, stride)
        || (pixel_off(row, col, stride) <= i < pixel_off(row, col, stride) + 4)) by {
        if done_covers(i, x0, x1, y0, row, col + 1, stride) {
            let (r, c) = choose|r: int, c: int|
                y0 <= r && x0 <= c && ((r < row && c < x1) || (r == row && c < col + 1)) && pixel_off(r, c, stride)
                    <= i < #[trigger] pixel_off(r, c, stride) + 4;
            if !(r == row && c == col) {
                assert(y0 <= r && x0 <= c && ((r < row && c < x1) || (r == row && c < col)) && pixel_off(r, c, stride)
                    <= i < pixel_off(r, c, stride) + 4);
            }
        }
        if done_covers(i, x0, x1, y0, row, col, stride) {
            let (r, c) = choose|r: int, c: int|
                y0 <= r && x0 <= c && ((r < row && c < x1) || (r == row && c < col)) && pixel_off(r, c, stride)
                    <= i < #[trigger] pixel_off(r, c, stride) + 4;
            assert(y0 <= r && x0 <= c && ((r < row && c < x1) || (r == row && c < col + 1)) && pixel_off(r, c, stride)
                <= i < pixel_off(r, c, stride) + 4);
        }
        if pixel_off(row, col, stride) <= i < pixel_off(row, col, stride) + 4 {
            assert(y0 <= row && x0 <= col && ((row < row && col < x1) || (row == row && col < col + 1)) && pixel_off(row, col, stride)
                <= i < pixel_off(row, col, stride) + 4);
        }
    }
}

/// Pixels painted so far lie inside the region.
proof fn lemma_done_in_region(x0: int, x1: int, y0: int, y1: int, row: int, col: int, stride: int)
    requires
        row < y1,
        col <= x1,
    ensures
        forall|i: int| #[trigger] done_covers(i, x0, x1, y0, row, col, stride) ==> region_covers(i, x0, x1, y0, y1, stride),
{
    assert forall|i: int| #[trigger] done_covers(i, x0, x1, y0, row, col, stride) implies region_covers(i, x0, x1, y0, y1, stride) by {
        let (r, c) = choose|r: int, c: int|
            y0 <= r && x0 <= c && ((r < row && c < x1) || (r == row && c < col)) && pixel_off(r, c, stride)
                <= i < #[trigger] pixel_off(r, c, stride) + 4;
        assert(y0 <= r < y1 && x0 <= c < x1 && pixel_off(r, c, stride) <= i < pixel_off(r, c, stride) + 4);
    }
}

/// After the last row, the painted set is the whole region.
proof fn lemma_done_all(x0: int, x1: int, y0: int, y1: int, stride: int)
    requires
        y0 <= y1,
    ensures
        forall|i: int| #[trigger] done_covers(i, x0, x1, y0, y1, x0, stride) == region_covers(i, x0, x1, y0, y1, stride),
{
    assert forall|i: int| #[trigger] done_covers(i, x0, x1, y0, y1, x0, stride) == region_covers(i, x0, x1, y0, y1, stride) by {
        if done_covers(i, x0, x1, y0, y1, x0, stride) {
            let (r, c) = choose|r: int, c: int|
                y0 <= r && x0 <= c && ((r < y1 && c < x1) || (r == y1 && c < x0)) && pixel_off(r, c, stride)
                    <= i < #[trigger] pixel_off(r, c, stride) + 4;
            assert(y0 <= r < y1 && x0 <= c < x1 && pixel_off(r, c, stride) <= i < pixel_off(r, c, stride) + 4);
        }
        if region_covers(i, x0, x1, y0, y1, stride) {
            let (r, c) = choose|r: int, c: int|
                y0 <= r < y1 && x0 <= c < x1 && pixel_off(r, c, stride) <= i < #[trigger] pixel_off(r, c, stride) + 4;
            assert(y0 <= r && x0 <= c && ((r < y1 && c < x1) || (r == y1 && c < x0)) && pixel_off(r, c, stride)
                <= i < pixel_off(r, c, stride) + 4);
        }
    }
}

/// Layer slot `l` holds a surface of window `hwnd`.
pub open spec fn layer_owned_by(l: Option<CompositorSurface>, hwnd: u64) -> bool {
    match l {
        Some(c) => c.owner_hwnd == hwnd,
        None => false,
    }
}

impl DwmCompositor {
    /// No root, no pending damage, no window layers.
    pub fn new() -> (c: Self)
        ensures
            c.root is None,
            c.pending_dirty is None,
            forall|i: int| 0 <= i < HWND_LAYER_COUNT ==> #[trigger] c.hwnd_layers[i] is None,
            !c.debug_composition_overlay,
    {
        DwmCompositor { root: None, pending_dirty: None, hwnd_layers: [None;HWND_LAYER_COUNT], debug_composition_overlay: false }
    }

    /// Attach the framebuffer as the fullscreen root surface.
    pub fn attach_framebuffer(&mut self, w: u32, h: u32)
        ensures
            final(self).root == Some(CompositorSurface {
                width: w,
                height: h,
                z_order: 0,
                acrylic_blur_radius: 0,
                mica_altitude: 0,
                owner_hwnd: 0,
            }),
            final(self).pending_dirty == old(self).pending_dirty,
            final(self).hwnd_layers == old(self).hwnd_layers,
            final(self).debug_composition_overlay == old(self).debug_composition_overlay,
    {
        self.root = Some(CompositorSurface::fullscreen(w, h));
    }

    /// Put `surf` into the first free window layer; fails when all are taken.
    pub fn attach_hwnd_layer(&mut self, surf: CompositorSurface) -> (r: Result<(), ()>)
        ensures
            final(self).root == old(self).root,
            final(self).pending_dirty == old(self).pending_dirty,
            final(self).debug_composition_overlay == old(self).debug_composition_overlay,
            r is Err <==> forall|i: int| 0 <= i < HWND_LAYER_COUNT ==> #[trigger] old(self).hwnd_layers[i] is Some,
            r is Err ==> final(self).hwnd_layers == old(self).hwnd_layers,
            r is Ok ==> exists|s: int| 0 <= s < HWND_LAYER_COUNT && old(self).hwnd_layers[s] is None
                && (forall|i: int| 0 <= i < s ==> #[trigger] old(self).hwnd_layers[i] is Some)
                && final(self).hwnd_layers@ == old(self).hwnd_layers@.update(s, Some(surf)),
    {
        let mut i: usize = 0;
        while i < HWND_LAYER_COUNT
            invariant
                0 <= i <= HWND_LAYER_COUNT,
                *self == *old(self),
                forall|k: int| 0 <= k < i ==> #[trigger] old(self).hwnd_layers[k] is Some,
            decreases HWND_LAYER_COUNT - i,
        {
            if self.hwnd_layers[i].is_none() {
                self.hwnd_layers[i] = Some(surf);
                assert(self.hwnd_layers@ == old(self).hwnd_layers@.update(i as int, Some(surf)));
                return Ok(());
            }
            i = i + 1;
        }
        Err(())
    }

    /// Some window layer belongs to `hwnd`.
    pub open spec fn has_layer_for(&self, hwnd: u64) -> bool {
        exists|i: int| 0 <= i < HWND_LAYER_COUNT && layer_owned_by(#[trigger] self.hwnd_layers[i], hwnd)
    }

    /// The pending damage after adding `r`.
    pub open spec fn dirty_after(&self, r: DirtyRect) -> Option<DirtyRect> {
        mark_pending(self.pending_dirty, r)
    }

    /// Record damage `r` for window `hwnd`, ignored unless a layer belongs to it.
    pub fn mark_hwnd_dirty(&mut self, hwnd: u64, r: DirtyRect)
        ensures
            final(self).root == old(self).root,
            final(self).hwnd_layers == old(self).hwnd_layers,
            final(self).debug_composition_overlay == old(self).debug_composition_overlay,
            final(self).pending_dirty == if old(self).has_layer_for(hwnd) { old(self).dirty_after(r) } else { old(self).pending_dirty },
    {
        let mut hit = false;
        let mut i: usize = 0;
        while i < HWND_LAYER_COUNT
            invariant
                0 <= i <= HWND_LAYER_COUNT,
                *self == *old(self),
                hit == exists|k: int| 0 <= k < i && layer_owned_by(#[trigger] self.hwnd_layers[k], hwnd),
            decreases HWND_LAYER_COUNT - i,
        {
            match self.hwnd_layers[i] {
                Some(c) => {
                    if c.owner_hwnd == hwnd {
                        hit = true;
                    }
                },
                None => {},
            }
            proof {
                if hit {
                    if !(exists|k: int| 0 <= k < i && layer_owned_by(#[trigger] self.hwnd_layers[k], hwnd)) {
                        assert(layer_owned_by(self.hwnd_layers[i as int], hwnd));
                    }
                }
            }
            i = i + 1;
        }
        if hit {
            self.mark_dirty(r);
        }
    }

    /// Merge damage `r` into the pending dirty rectangle.
    pub fn mark_dirty(&mut self, r: DirtyRect)
        ensures
            final(self).root == old(self).root,
            final(self).hwnd_layers == old(self).hwnd_layers,
            final(self).debug_composition_overlay == old(self).debug_composition_overlay,
            final(self).pending_dirty == old(self).dirty_after(r),
    {
        self.pending_dirty = Some(match self.pending_dirty {
            Some(p) => DirtyRect::union(p, r),
            None => r,
        });
    }

    /// Take the merged dirty rectangle for this frame.
    pub fn take_merged_dirty(&mut self) -> (r: Option<DirtyRect>)
        ensures
            r == old(self).pending_dirty,
            final(self).pending_dirty is None,
            final(self).root == old(self).root,
            final(self).hwnd_layers == old(self).hwnd_layers,
            final(self).debug_composition_overlay == old(self).debug_composition_overlay,
    {
        let r = self.pending_dirty;
        self.pending_dirty = None;
        r
    }

    /// Fill the pending dirty region, clipped to the root surface, with `fill_bgra` in a
    /// linear buffer of `stride_px` pixels per row. Without a root nothing happens (the damage
    /// stays pending). Fails when a pixel of the region lies beyond `buf`; pixels before it in
    /// row-major order are then already painted.
    pub fn commit_dirty_flat_bgra(&mut self, buf: &mut [u8], stride_px: u32, fill_bgra: [u8; 4]) -> (r: Result<(), ()>)
        requires
            old(self).root matches Some(root) ==> ((root.height as int) * (stride_px as int) + (root.width as int)) * 4 + 4 <= usize::MAX,
        ensures
            final(buf)@.len() == old(buf)@.len(),
            final(self).root == old(self).root,
            final(self).hwnd_layers == old(self).hwnd_layers,
            final(self).debug_composition_overlay == old(self).debug_composition_overlay,
            old(self).root is None ==> r is Ok && final(self).pending_dirty == old(self).pending_dirty && final(buf)@ == old(buf)@,
            old(self).root is Some ==> final(self).pending_dirty is None,
            old(self).root is Some && old(self).pending_dirty is None ==> r is Ok && final(buf)@ == old(buf)@,
            match (old(self).root, old(self).pending_dirty) {
                (Some(root), Some(d)) => {
                let (x0, x1, y0, y1) = clipped(d, root.width, root.height);
                &&& (r is Err <==> exists|rr: int, cc: int| y0 <= rr < y1 && x0 <= cc < x1
                    && #[trigger] pixel_off(rr, cc, stride_px as int) + 4 > old(buf)@.len())
                &&& r is Ok ==> forall|i: int| 0 <= i < old(buf)@.len() ==> #[trigger] final(buf)@[i] == if region_covers(i, x0 as int, x1 as int, y0 as int, y1 as int, stride_px as int) {
                    fill_bgra[i % 4]
                } else {
                    old(buf)@[i]
                }
                &&& r is Err ==> forall|i: int| 0 <= i < old(buf)@.len() ==> #[trigger] final(buf)@[i] == old(buf)@[i] || (region_covers(i, x0 as int, x1 as int, y0 as int, y1 as int, stride_px as int)
                    && final(buf)@[i] == fill_bgra[i % 4])
                },
                _ => true,
            },
    {
        let root = match self.root {
            Some(r) => r,
            None => return Ok(()),
        };
        let d = match self.take_merged_dirty() {
            Some(d) => d,
            None => return Ok(()),
        };
        let w = root.width;
        let stride = stride_px as usize;
        let x0 = if d.x0 <= w { d.x0 } else { w };
        let x1m = if d.x1 <= w { d.x1 } else { w };
        let x1 = if x1m >= x0 { x1m } else { x0 };
        let y0 = if d.y0 <= root.height { d.y0 } else { root.height };
        let y1m = if d.y1 <= root.height { d.y1 } else { root.height };
        let y1 = if y1m >= y0 { y1m } else { y0 };
        let ghost old_buf = buf@;
        let ghost xi0 = x0 as int;
        let ghost xi1 = x1 as int;
        let ghost yi0 = y0 as int;
        let ghost yi1 = y1 as int;
        let ghost st = stride_px as int;
        let mut row = y0;
        while row < y1
            invariant
                self.root == old(self).root,
                self.hwnd_layers == old(self).hwnd_layers,
                self.debug_composition_overlay == old(self).debug_composition_overlay,
                self.pending_dirty is None,
                old(self).root == Some(root),
                old(self).pending_dirty == Some(d),
                (x0, x1, y0, y1) == clipped(d, root.width, root.height),
                old_buf == old(buf)@,
                y0 <= row <= y1,
                x0 <= x1 <= root.width,
                y1 <= root.height,
                stride == stride_px,
                xi0 == x0 && xi1 == x1 && yi0 == y0 && yi1 == y1 && st == stride_px,
                ((root.height as int) * (stride_px as int) + (root.width as int)) * 4 + 4 <= usize::MAX,
                buf@.len() == old_buf.len(),
                forall|i: int| 0 <= i < old_buf.len() ==> #[trigger] buf@[i] == if done_covers(i, xi0, xi1, yi0, row as int, xi0, st) {
                    fill_bgra[i % 4]
                } else {
                    old_buf[i]
                },
                forall|rr: int, cc: int| yi0 <= rr < row && xi0 <= cc < xi1 ==> #[trigger] pixel_off(rr, cc, st) + 4 <= old_buf.len(),
            decreases y1 - row,
        {
            assert((row as int) * (stride as int) * 4 <= (root.height as int) * (stride_px as int) * 4) by (nonlinear_arith)
                requires
                    row <= root.height,
                    stride == stride_px,
            ;
            let base = row as usize * stride * 4;
            let mut col = x0;
            while col < x1
                invariant
                    self.root == old(self).root,
                    self.hwnd_layers == old(self).hwnd_layers,
                    self.debug_composition_overlay == old(self).debug_composition_overlay,
                    self.pending_dirty is None,
                    old(self).root == Some(root),
                    old(self).pending_dirty == Some(d),
                    (x0, x1, y0, y1) == clipped(d, root.width, root.height),
                    old_buf == old(buf)@,
                    x0 <= col <= x1,
                    y0 <= row < y1,
                    x0 <= x1 <= root.width,
                    y1 <= root.height,
                    xi0 == x0 && xi1 == x1 && yi0 == y0 && yi1 == y1 && st == stride_px,
                    base == (row as int) * (stride as int) * 4,
                    stride == stride_px,
                    base <= (root.height as int) * (stride_px as int) * 4,
                    ((root.height as int) * (stride_px as int) + (root.width as int)) * 4 + 4 <= usize::MAX,
                    buf@.len() == old_buf.len(),
                    forall|i: int| 0 <= i < old_buf.len() ==> #[trigger] buf@[i] == if done_covers(i, xi0, xi1, yi0, row as int, col as int, st) {
                        fill_bgra[i % 4]
                    } else {
                        old_buf[i]
                    },
                    forall|rr: int, cc: int| ((yi0 <= rr < row && xi0 <= cc < xi1) || (rr == row && xi0 <= cc < col)) ==> #[trigger] pixel_off(rr, cc, st) + 4 <= old_buf.len(),
                decreases x1 - col,
            {
                let i = base + col as usize * 4;
                assert(i as int == pixel_off(row as int, col as int, st)) by (nonlinear_arith)
                    requires
                        i == base + col * 4,
                        base == (row as int) * (stride as int) * 4,
                        st == stride,
                ;
                if i + 4 > buf.len() {
                    proof {
                        lemma_done_in_region(xi0, xi1, yi0, yi1, row as int, col as int, st);
                        assert(pixel_off(row as int, col as int, st) + 4 > old_buf.len());
                    }
                    return Err(());
                }
                let ghost before = buf@;
                assert(forall|j: int| 0 <= j < old_buf.len() ==> #[trigger] before[j] == if done_covers(j, xi0, xi1, yi0, row as int, col as int, st) {
                    fill_bgra[j % 4]
                } else {
                    old_buf[j]
                });
                let mut k: usize = 0;
                while k < 4
                    invariant
                        0 <= k <= 4,
                        i + 4 <= buf@.len(),
                        i + 4 <= usize::MAX,
                        buf@.len() == old_buf.len(),
                        forall|j: int| 0 <= j < buf@.len() && !(i <= j < i + k) ==> buf@[j] == before[j],
                        forall|j: int| i <= j < i + k ==> buf@[j] == fill_bgra[j - i],
                    decreases 4 - k,
                {
                    buf[i + k] = fill_bgra[k];
                    k = k + 1;
                }
                proof {
                    lemma_done_next_col(xi0, xi1, yi0, row as int, col as int, st);
                    assert forall|j: int| 0 <= j < old_buf.len() implies #[trigger] buf@[j] == if done_covers(j, xi0, xi1, yi0, row as int, col as int + 1, st) {
                        fill_bgra[j % 4]
                    } else {
                        old_buf[j]
                    } by {
                        if i <= j < i + 4 {
                            let p = (row as int) * st + (col as int);
                            assert(p >= 0) by (nonlinear_arith)
                                requires
                                    row >= 0,
                                    st >= 0,
                                    col >= 0,
                                    p == (row as int) * st + (col as int),
                            ;
                            assert((j - i) == j % 4) by (nonlinear_arith)
                                requires
                                    i <= j < i + 4,
                                    i == p * 4,
                                    p >= 0,
                            ;
                            assert(buf@[j] == fill_bgra[j - i]);
                            assert(done_covers(j, xi0, xi1, yi0, row as int, col as int + 1, st));
                        } else {
                            assert(buf@[j] == before[j]);
                        }
                    }
                }
                col = col + 1;
            }
            proof {
                lemma_done_next_row(xi0, xi1, yi0, row as int, st);
            }
            row = row + 1;
        }
        proof {
            lemma_done_all(xi0, xi1, yi0, yi1, st);
            assert(!exists|rr: int, cc: int| yi0 <= rr < yi1 && xi0 <= cc < xi1 && #[trigger] pixel_off(rr, cc, st) + 4 > old_buf.len());
        }
        Ok(())
    }
}

} // verus!
