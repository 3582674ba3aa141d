//! Mouse and touch input for the boot menu: relative motion accumulation and touch scaling.
use vstd::prelude::*;

verus! {

/// One report of the firmware simple pointer.
#[derive(Clone, Copy, Debug, Default, PartialEq, Eq)]
pub struct SimplePointerState {
    pub relative_movement_x: i32,
    pub relative_movement_y: i32,
    pub relative_movement_z: i32,
    pub left_button: bool,
    pub right_button: bool,
}

/// Integer division by two rounding toward zero.
pub open spec fn half_toward_zero(v: int) -> int {
    if v >= 0 {
        v / 2
    } else {
        -((-v) / 2)
    }
}

/// `v` limited to `lo..=hi`.
pub open spec fn clamp_int(v: int, lo: int, hi: int) -> int {
    if v < lo {
        lo
    } else if v > hi {
        hi
    } else {
        v
    }
}

/// Pointer position accumulated from relative motion, kept on screen.
#[derive(Clone, Copy, Debug)]
pub struct PointerAccum {
    pub x: i32,
    pub y: i32,
    pub max_x: i32,
    pub max_y: i32,
}

impl PointerAccum {
    /// Pointer at the screen centre of a `0..=max_x` x `0..=max_y` area.
    pub fn new(max_x: i32, max_y: i32) -> (p: Self)
        ensures
            p.x == half_toward_zero(max_x as int),
            p.y == half_toward_zero(max_y as int),
            p.max_x == max_x,
            p.max_y == max_y,
    {
        let hx = if max_x >= 0 { max_x / 2 } else { -((-(max_x as i64)) / 2) as i32 };
        let hy = if max_y >= 0 { max_y / 2 } else { -((-(max_y as i64)) / 2) as i32 };
        PointerAccum { x: hx, y: hy, max_x, max_y }
    }

    /// Apply one motion report at half speed, clamping to the screen.
    pub fn feed_simple(&mut self, st: &SimplePointerState)
        requires
            old(self).max_x >= 0,
            old(self).max_y >= 0,
            i32::MIN <= old(self).x + half_toward_zero(st.relative_movement_x as int) <= i32::MAX,
            i32::MIN <= old(self).y + half_toward_zero(st.relative_movement_y as int) <= i32::MAX,
        ensures
            final(self).max_x == old(self).max_x,
            final(self).max_y == old(self).max_y,
            final(self).x == clamp_int(
                old(self).x + half_toward_zero(st.relative_movement_x as int),
                0,
                old(self).max_x as int,
            ),
            final(self).y == clamp_int(
                old(self).y + half_toward_zero(st.relative_movement_y as int),
                0,
                old(self).max_y as int,
            ),
    {
        let rx = st.relative_movement_x as i64;
        let ry = st.relative_movement_y as i64;
        let dx = if rx >= 0 { rx / 2 } else { -((-rx) / 2) };
        let dy = if ry >= 0 { ry / 2 } else { -((-ry) / 2) };
        let nx = self.x as i64 + dx;
        let ny = self.y as i64 + dy;
        self.x = if nx < 0 { 0 } else if nx > self.max_x as i64 { self.max_x } else { nx as i32 };
        self.y = if ny < 0 { 0 } else if ny > self.max_y as i64 { self.max_y } else { ny as i32 };
    }
}

/// Range of the absolute (touch) pointer axes.
#[derive(Clone, Copy, Debug)]
pub struct TouchMap {
    pub min_x: u64,
    pub max_x: u64,
    pub min_y: u64,
    pub max_y: u64,
}

/// `a - b` saturating at zero.
pub open spec fn sat_sub_u64(a: u64, b: u64) -> u64 {
    if a >= b {
        (a - b) as u64
    } else {
        0
    }
}

/// Scale one touch coordinate onto `0..=size`.
pub open spec fn touch_axis(v: u64, lo: u64, hi: u64, size: i32) -> i32 {
    let range: u64 = if sat_sub_u64(hi, lo) >= 1 { sat_sub_u64(hi, lo) } else { 1 };
    let scaled: int = (sat_sub_u64(v, lo) as int * size as int) / (range as int);
    clamp_int(scaled as i128 as i32 as int, 0, size as int) as i32
}

impl TouchMap {
    /// Map a touch position to screen pixels within `0..=sw` x `0..=sh`.
    pub fn to_screen(&self, x: u64, y: u64, sw: i32, sh: i32) -> (r: (i32, i32))
        requires
            sw >= 0,
            sh >= 0,
        ensures
            r.0 == touch_axis(x, self.min_x, self.max_x, sw),
            r.1 == touch_axis(y, self.min_y, self.max_y, sh),
    {
        let rw = self.max_x.saturating_sub(self.min_x);
        let rw = if rw >= 1 { rw } else { 1 };
        let rh = self.max_y.saturating_sub(self.min_y);
        let rh = if rh >= 1 { rh } else { 1 };
        let ox = x.saturating_sub(self.min_x) as i128;
        let oy = y.saturating_sub(self.min_y) as i128;
        assert(0 <= ox * (sw as i128) <= u64::MAX * i32::MAX) by (nonlinear_arith)
            requires
                0 <= ox <= u64::MAX,
                0 <= sw <= i32::MAX,
        ;
        assert(0 <= oy * (sh as i128) <= u64::MAX * i32::MAX) by (nonlinear_arith)
            requires
                0 <= oy <= u64::MAX,
                0 <= sh <= i32::MAX,
        ;
        let qx = ox * (sw as i128) / (rw as i128);
        let qy = oy * (sh as i128) / (rh as i128);
        let fx = qx as i32;
        let fy = qy as i32;
        let cx = if fx < 0 { 0 } else if fx > sw { sw } else { fx };
        let cy = if fy < 0 { 0 } else if fy > sh { sh } else { fy };
        (cx, cy)
    }
}

} // verus!
