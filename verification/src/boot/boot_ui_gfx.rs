//! Full-screen tile menu geometry of the boot manager.
use vstd::prelude::*;

verus! {

/// Number of boot menu entries.
pub const ENTRY_COUNT: usize = 5;
/// Scale of menu text glyphs.
pub const TEXT_SCALE: usize = 2;

/// Axis-aligned rectangle in framebuffer pixels.
#[derive(Clone, Copy, Debug, PartialEq, Eq, Structural)]
pub struct Rect {
    pub x: usize,
    pub y: usize,
    pub w: usize,
    pub h: usize,
}

impl Rect {
    /// Both far edges are representable.
    pub open spec fn wf(&self) -> bool {
        self.x + self.w <= usize::MAX && self.y + self.h <= usize::MAX
    }

    /// Pointer hit test; coordinates are compared as signed 32-bit values like the firmware
    /// pointer state.
    pub open spec fn contains_spec(&self, px: i32, py: i32) -> bool {
        &&& px >= self.x as i32
        &&& py >= self.y as i32
        &&& px < (self.x + self.w) as i32
        &&& py < (self.y + self.h) as i32
    }

    /// Whether `(px, py)` lies inside the rectangle.
    pub fn contains(&self, px: i32, py: i32) -> (r: bool)
        requires
            self.wf(),
        ensures
            r == self.contains_spec(px, py),
    {
        px >= self.x as i32 && py >= self.y as i32 && px < (self.x + self.w) as i32 && py < (self.y
            + self.h) as i32
    }
}

/// Placement of the menu tiles, footer link and captions.
#[derive(Clone, Copy, Debug)]
pub struct TileLayout {
    pub tiles: [Rect; ENTRY_COUNT],
    pub footer: Rect,
    pub title_x: usize,
    pub title_y: usize,
    pub auto_text_x: usize,
    pub auto_text_y: usize,
}

/// Horizontal margin: a 24th of the width, at least 32.
pub open spec fn margin_x(fw: nat) -> nat {
    if fw / 24 >= 32 {
        fw / 24
    } else {
        32
    }
}

/// Gap between tiles.
pub open spec fn tile_gap() -> nat {
    16
}

/// Tile height: an eighth of the height, clamped to `56..=96`.
pub open spec fn tile_height(fh: nat) -> nat {
    if fh / 8 < 56 {
        56
    } else if fh / 8 > 96 {
        96
    } else {
        fh / 8
    }
}

/// `a - b`, or 0 when `b > a`.
pub open spec fn sub_sat(a: nat, b: nat) -> nat {
    if a >= b {
        (a - b) as nat
    } else {
        0
    }
}

/// Tile width: two columns between the margins, one gap apart.
pub open spec fn tile_width(fw: nat) -> nat {
    sub_sat(sub_sat(fw, 2 * margin_x(fw)), tile_gap()) / 2
}

/// Title baseline: a 14th of the height, at least 40.
pub open spec fn title_row(fh: nat) -> nat {
    if fh / 14 >= 40 {
        fh / 14
    } else {
        40
    }
}

/// Top of the tile grid.
pub open spec fn grid_top_row(fh: nat) -> nat {
    title_row(fh) + 48
}

/// Tile `i` of the two-column grid.
pub open spec fn tile_rect(fw: nat, fh: nat, i: nat) -> Rect {
    let row = i / 2;
    let col = i % 2;
    Rect {
        x: (margin_x(fw) + col * (tile_width(fw) + tile_gap())) as usize,
        y: (grid_top_row(fh) + row * (tile_height(fh) + tile_gap())) as usize,
        w: tile_width(fw) as usize,
        h: tile_height(fh) as usize,
    }
}

/// The whole menu layout for a `fw` x `fh` screen.
pub open spec fn layout_spec(fw: nat, fh: nat) -> TileLayout {
    let rows: nat = 3;
    let auto_y = grid_top_row(fh) + rows * (tile_height(fh) + tile_gap()) + 8;
    TileLayout {
        tiles: [
            tile_rect(fw, fh, 0),
            tile_rect(fw, fh, 1),
            tile_rect(fw, fh, 2),
            tile_rect(fw, fh, 3),
            tile_rect(fw, fh, 4),
        ],
        footer: Rect {
            x: margin_x(fw) as usize,
            y: sub_sat(fh, 40 + margin_x(fw)) as usize,
            w: sub_sat(fw, 2 * margin_x(fw)) as usize,
            h: 40,
        },
        title_x: margin_x(fw) as usize,
        title_y: title_row(fh) as usize,
        auto_text_x: margin_x(fw) as usize,
        auto_text_y: (if auto_y <= sub_sat(fh, 80) { auto_y } else { sub_sat(fh, 80) }) as usize,
    }
}

/// Lay out the menu for a `fw` x `fh` screen (GOP resolutions fit in 32 bits).
pub fn layout(fw: usize, fh: usize) -> (l: TileLayout)
    requires
        fw <= u32::MAX,
        fh <= u32::MAX,
    ensures
        l == layout_spec(fw as nat, fh as nat),
        forall|i: int| 0 <= i < ENTRY_COUNT ==> #[trigger] l.tiles[i].wf(),
        l.footer.wf(),
{
    let mx = if fw / 24 >= 32 { fw / 24 } else { 32 };
    let gap: usize = 16;
    let cols: usize = 2;
    let rows: usize = (ENTRY_COUNT + cols - 1) / cols;
    let tile_h = if fh / 8 < 56 { 56 } else if fh / 8 > 96 { 96 } else { fh / 8 };
    let tile_w = (fw.saturating_sub(mx * 2).saturating_sub(gap * (cols - 1))) / cols;
    let title_y = if fh / 14 >= 40 { fh / 14 } else { 40 };
    let title_x = mx;
    let grid_top = title_y + 48;
    let mut tiles = [Rect { x: 0, y: 0, w: 0, h: 0 };ENTRY_COUNT];
    let mut i: usize = 0;
    while i < ENTRY_COUNT
        invariant
            0 <= i <= ENTRY_COUNT,
            fw <= u32::MAX,
            fh <= u32::MAX,
            mx == margin_x(fw as nat),
            gap == tile_gap(),
            cols == 2,
            tile_h == tile_height(fh as nat),
            tile_w == tile_width(fw as nat),
            grid_top == grid_top_row(fh as nat),
            forall|k: int| 0 <= k < i ==> tiles@[k] == tile_rect(fw as nat, fh as nat, k as nat),
            forall|k: int| 0 <= k < i ==> (#[trigger] tiles@[k]).wf(),
        decreases ENTRY_COUNT - i,
    {
        let row = i / cols;
        let col = i % cols;
        assert(col * (tile_w + gap) <= tile_w + gap) by (nonlinear_arith)
            requires
                col <= 1,
        ;
        assert(row * (tile_h + gap) <= 2 * (tile_h + gap)) by (nonlinear_arith)
            requires
                row <= 2,
        ;
        tiles[i] = Rect {
            x: mx + col * (tile_w + gap),
            y: grid_top + row * (tile_h + gap),
            w: tile_w,
            h: tile_h,
        };
        i = i + 1;
    }
    let footer_h: usize = 40;
    let footer = Rect {
        x: mx,
        y: fh.saturating_sub(footer_h + mx),
        w: fw.saturating_sub(mx * 2),
        h: footer_h,
    };
    let auto_y = grid_top + rows * (tile_h + gap) + 8;
    let l = TileLayout {
        tiles,
        footer,
        title_x,
        title_y,
        auto_text_x: mx,
        auto_text_y: if auto_y <= fh.saturating_sub(80) { auto_y } else { fh.saturating_sub(80) },
    };
    assert(l.tiles =~= layout_spec(fw as nat, fh as nat).tiles);
    l
}

} // verus!
