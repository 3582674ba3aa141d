//! Drawing plans: what a shell surface paints, as a list of primitive operations that a
//! framebuffer writer carries out in order (later operations paint over earlier ones).
use vstd::prelude::*;

verus! {

/// A colour as red, green and blue bytes.
#[derive(Clone, Copy, Debug, PartialEq, Eq, Structural)]
pub struct Rgb {
    pub r: u8,
    pub g: u8,
    pub b: u8,
}

/// A bitmap generated at build time, by what it shows.
#[derive(Clone, Copy, Debug, PartialEq, Eq, Structural)]
pub enum BitmapAsset {
    /// The title text of hosted window title number `idx`.
    WindowTitle(usize),
    /// The icon of Files row `idx`.
    ExplorerRowIcon(usize),
    /// The label of Files row `idx`, for rows listed without text.
    ExplorerRowLabel(usize),
    /// The label of desktop context menu row `idx`.
    ContextMenuLabel(usize),
}

/// One primitive drawing operation.
#[derive(Debug)]
pub enum DrawOp {
    /// Fill a rectangle (the writer clips it to the surface).
    Fill { x: u32, y: u32, w: u32, h: u32, color: Rgb },
    /// One 8 x 8 glyph magnified `scale` times, top-left at `(x, y)`.
    Glyph { x: u32, y: u32, ch: u8, color: Rgb, scale: u32 },
    /// A line of ASCII text starting at `(x, y)`, cut off after `max_w` pixels.
    Text { x: u32, y: u32, max_w: u32, text: Vec<u8>, color: Rgb, scale: u32 },
    /// A `w` x `h` bitmap with straight alpha, top-left at `(x, y)`.
    Bitmap { x: u32, y: u32, w: u32, h: u32, asset: BitmapAsset },
}

/// Mathematical model of a [`DrawOp`].
pub enum DrawCmd {
    Fill { x: u32, y: u32, w: u32, h: u32, color: Rgb },
    Glyph { x: u32, y: u32, ch: u8, color: Rgb, scale: u32 },
    Text { x: u32, y: u32, max_w: u32, text: Seq<u8>, color: Rgb, scale: u32 },
    Bitmap { x: u32, y: u32, w: u32, h: u32, asset: BitmapAsset },
}

impl View for DrawOp {
    type V = DrawCmd;

    open spec fn view(&self) -> DrawCmd {
        match self {
            DrawOp::Fill { x, y, w, h, color } => DrawCmd::Fill { x: *x, y: *y, w: *w, h: *h, color: *color },
            DrawOp::Glyph { x, y, ch, color, scale } => DrawCmd::Glyph {
                x: *x,
                y: *y,
                ch: *ch,
                color: *color,
                scale: *scale,
            },
            DrawOp::Text { x, y, max_w, text, color, scale } => DrawCmd::Text {
                x: *x,
                y: *y,
                max_w: *max_w,
                text: text@,
                color: *color,
                scale: *scale,
            },
            DrawOp::Bitmap { x, y, w, h, asset } => DrawCmd::Bitmap { x: *x, y: *y, w: *w, h: *h, asset: *asset },
        }
    }
}

/// The models of a list of operations.
pub open spec fn ops_view(ops: Seq<DrawOp>) -> Seq<DrawCmd> {
    Seq::new(ops.len(), |i: int| ops[i]@)
}

/// The colour with bytes `(r, g, b)`.
pub open spec fn rgb(r: u8, g: u8, b: u8) -> Rgb {
    Rgb { r, g, b }
}

/// Append one operation.
pub fn push_op(ops: &mut Vec<DrawOp>, op: DrawOp)
    ensures
        ops_view(final(ops)@) == ops_view(old(ops)@).push(op@),
{
    let ghost m = op@;
    ops.push(op);
    assert(ops_view(ops@) =~= ops_view(old(ops)@).push(m));
}

/// Append a rectangle fill.
pub fn push_fill(ops: &mut Vec<DrawOp>, x: u32, y: u32, w: u32, h: u32, color: Rgb)
    ensures
        ops_view(final(ops)@) == ops_view(old(ops)@).push(DrawCmd::Fill { x, y, w, h, color }),
{
    push_op(ops, DrawOp::Fill { x, y, w, h, color });
}

/// Append a line of text (a copy of `text`).
pub fn push_text(ops: &mut Vec<DrawOp>, x: u32, y: u32, max_w: u32, text: &[u8], color: Rgb, scale: u32)
    ensures
        ops_view(final(ops)@) == ops_view(old(ops)@).push(DrawCmd::Text { x, y, max_w, text: text@, color, scale }),
{
    let mut v: Vec<u8> = Vec::new();
    let mut i: usize = 0;
    while i < text.len()
        invariant
            i <= text.len(),
            v@ == text@.take(i as int),
        decreases text.len() - i,
    {
        v.push(text[i]);
        i = i + 1;
        assert(v@ =~= text@.take(i as int));
    }
    assert(v@ =~= text@);
    push_op(ops, DrawOp::Text { x, y, max_w, text: v, color, scale });
}

} // verus!
