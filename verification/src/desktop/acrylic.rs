//! Acrylic / Mica theme parameters and the bring-up tint blend.
use vstd::prelude::*;

verus! {

/// Fluent surface parameters stored for the compositor.
#[derive(Clone, Copy, Debug, PartialEq, Eq, Structural)]
pub struct AcrylicMicaTheme {
    pub acrylic_blur_radius_px: u8,
    pub mica_altitude: u8,
    /// Premultiplied-style BGRA tint.
    pub tint_bgra: u32,
}

impl Default for AcrylicMicaTheme {
    fn default() -> (t: Self)
        ensures
            t == (AcrylicMicaTheme { acrylic_blur_radius_px: 0, mica_altitude: 0, tint_bgra: 0xFF_F0_F0_F0 }),
    {
        AcrylicMicaTheme { acrylic_blur_radius_px: 0, mica_altitude: 0, tint_bgra: 0xFF_F0_F0_F0 }
    }
}

impl AcrylicMicaTheme {
    /// The Fluent look: 12 px blur, altitude 64, light grey tint.
    pub fn fluent_default() -> (t: Self)
        ensures
            t == (AcrylicMicaTheme { acrylic_blur_radius_px: 12, mica_altitude: 64, tint_bgra: 0xFF_E8_E8_E8 }),
    {
        AcrylicMicaTheme { acrylic_blur_radius_px: 12, mica_altitude: 64, tint_bgra: 0xFF_E8_E8_E8 }
    }
}

/// Byte `k` (0 = lowest) of `v`.
pub open spec fn byte_of(v: u32, k: nat) -> nat {
    if k == 0 {
        (v & 0xFF) as nat
    } else if k == 1 {
        ((v >> 8) & 0xFF) as nat
    } else if k == 2 {
        ((v >> 16) & 0xFF) as nat
    } else {
        ((v >> 24) & 0xFF) as nat
    }
}

/// `dst * (255 - t) + src * t`, divided by 255.
pub open spec fn lerp255(dst: nat, src: nat, t: nat) -> nat {
    (dst * ((255 - t) as nat) + src * t) / 255
}

/// The tint channel blended into channel `i` (blue, green, red, then alpha scaled by `t`).
pub open spec fn tint_channel(tint: u32, t: nat, i: nat) -> nat {
    if i < 3 {
        byte_of(tint, i)
    } else {
        let a = byte_of(tint, 3) * t / 255;
        if a <= 255 {
            a
        } else {
            255
        }
    }
}

/// `dst = lerp(dst, tint, strength)` per channel; strength 0 leaves the pixel as it is.
pub fn blend_bgra_pixel_under_tint(dst: &mut [u8; 4], tint_bgra: u32, strength: u8)
    ensures
        strength == 0 ==> final(dst)@ == old(dst)@,
        strength > 0 ==> forall|i: int| 0 <= i < 4 ==> #[trigger] final(dst)@[i] as nat == lerp255(
            old(dst)@[i] as nat,
            tint_channel(tint_bgra, strength as nat, i as nat),
            strength as nat,
        ),
{
    if strength == 0 {
        return;
    }
    let t = strength as u32;
    let tb = tint_bgra & 0xFF;
    let tg = (tint_bgra >> 8) & 0xFF;
    let tr = (tint_bgra >> 16) & 0xFF;
    let ta = (tint_bgra >> 24) & 0xFF;
    assert(tb == byte_of(tint_bgra, 0) && tg == byte_of(tint_bgra, 1));
    assert(tr == byte_of(tint_bgra, 2) && ta == byte_of(tint_bgra, 3));
    assert(ta <= 255 && tb <= 255 && tg <= 255 && tr <= 255) by (bit_vector)
        requires
            ta == (tint_bgra >> 24) & 0xFF,
            tb == tint_bgra & 0xFF,
            tg == (tint_bgra >> 8) & 0xFF,
            tr == (tint_bgra >> 16) & 0xFF,
    ;
    assert(ta * t <= 255 * 255) by (nonlinear_arith)
        requires
            ta <= 255,
            t <= 255,
    ;
    let a = ta * t / 255;
    let s: [u32; 4] = [tb, tg, tr, if a <= 255 { a } else { 255 }];
    let mut i: usize = 0;
    while i < 4
        invariant
            0 <= i <= 4,
            1 <= t <= 255,
            t == strength,
            forall|k: int| 0 <= k < 4 ==> s[k] <= 255,
            forall|k: int| 0 <= k < 4 ==> s[k] == tint_channel(tint_bgra, t as nat, k as nat),
            forall|k: int| i <= k < 4 ==> dst@[k] == old(dst)@[k],
            forall|k: int| 0 <= k < i ==> #[trigger] dst@[k] as nat == lerp255(
                old(dst)@[k] as nat,
                tint_channel(tint_bgra, strength as nat, k as nat),
                strength as nat,
            ),
        decreases 4 - i,
    {
        let d = dst[i] as u32;
        let k = s[i];
        assert(d * (255 - t) + k * t <= 255 * 255) by (nonlinear_arith)
            requires
                d <= 255,
                k <= 255,
                t <= 255,
        ;
        let v = (d * (255 - t) + k * t) / 255;
        dst[i] = if v <= 255 { v as u8 } else { 255 };
        i = i + 1;
    }
}

} // verus!
