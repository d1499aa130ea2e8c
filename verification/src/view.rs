//! The view of the headset panel: which part is shown, how far the lens is
//! flattened, and how far the picture is turned.

use crate::scalar::{equal, exceeds, same_number, beyond, HALF, ONE, ZERO};
use vstd::prelude::*;

verus! {

/// Curve, edge and tilt of the Quest 3 profile: `0.02`, `-0.20`, `-1.0`.
pub const QUEST3_K1: u32 = 0x3ca3_d70a;
pub const QUEST3_K2: u32 = 0xbe4c_cccd;
pub const QUEST3_TILT: u32 = 0xbf80_0000;

/// Quest 2, whose fresnel lens distorts more: `0.10`, `-0.25`, `-1.0`.
pub const QUEST2_K1: u32 = 0x3dcc_cccd;
pub const QUEST2_K2: u32 = 0xbe80_0000;
pub const QUEST2_TILT: u32 = 0xbf80_0000;

/// Quest 3S, a fresnel lens with a little less distortion: `0.07`, `-0.22`, `-1.0`.
pub const QUEST3S_K1: u32 = 0x3d8f_5c29;
pub const QUEST3S_K2: u32 = 0xbe61_47ae;
pub const QUEST3S_TILT: u32 = 0xbf80_0000;

/// Quest Pro, a nearly flat pancake lens: `0.01`, `-0.04`, `0.0`.
pub const QUESTPRO_K1: u32 = 0x3c23_d70a;
pub const QUESTPRO_K2: u32 = 0xbd23_d70a;
pub const QUESTPRO_TILT: u32 = 0;

/// The tilt in degrees up to which the picture is drawn unturned: `0.01`.
pub const TILT_TOLERANCE: u32 = 0x3c23_d70a;

/// The crop, as fractions of the panel.
#[derive(Clone, Copy, Debug, PartialEq, Eq, Structural)]
pub struct CropRect {
    pub min_x: u32,
    pub min_y: u32,
    pub max_x: u32,
    pub max_y: u32,
}

/// The crop, lens flattening and tilt that are on screen, so that a recording
/// can match exactly what is shown.
#[derive(Clone, Copy, Debug, PartialEq, Eq, Structural)]
pub struct ViewParams {
    pub uv: CropRect,
    pub lens_correct: bool,
    pub k1: u32,
    pub k2: u32,
    pub rotation_deg: u32,
}

/// The whole panel.
pub open spec fn full_panel() -> CropRect {
    CropRect { min_x: ZERO, min_y: ZERO, max_x: ONE, max_y: ONE }
}

/// The left half of the panel: what the left eye sees.
pub open spec fn left_eye() -> CropRect {
    CropRect { min_x: ZERO, min_y: ZERO, max_x: HALF, max_y: ONE }
}

/// The whole panel, as it comes from the headset.
pub open spec fn untouched_view() -> ViewParams {
    ViewParams {
        uv: full_panel(),
        lens_correct: false,
        k1: ZERO,
        k2: ZERO,
        rotation_deg: ZERO,
    }
}

/// Whether the crop is the whole panel.
pub open spec fn covers_panel(uv: CropRect) -> bool {
    &&& same_number(uv.min_x, ZERO)
    &&& same_number(uv.min_y, ZERO)
    &&& same_number(uv.max_x, ONE)
    &&& same_number(uv.max_y, ONE)
}

/// Whether the view shows a frame pixel for pixel.
pub open spec fn is_identity(
    p: ViewParams,
    frame_w: u32,
    frame_h: u32,
    out_w: u32,
    out_h: u32,
) -> bool {
    &&& !p.lens_correct
    &&& same_number(p.rotation_deg, ZERO)
    &&& covers_panel(p.uv)
    &&& out_w == frame_w
    &&& out_h == frame_h
}

/// The largest even number up to `n`, and at least two.
pub open spec fn even_extent(n: u32) -> int {
    if n < 2 {
        2
    } else {
        n - n % 2
    }
}

impl Default for ViewParams {
    fn default() -> (p: ViewParams)
        ensures
            p == untouched_view(),
    {
        ViewParams {
            uv: CropRect { min_x: ZERO, min_y: ZERO, max_x: ONE, max_y: ONE },
            lens_correct: false,
            k1: ZERO,
            k2: ZERO,
            rotation_deg: ZERO,
        }
    }
}

impl ViewParams {
    /// Tells whether a frame of the given size, shown at the given size, comes
    /// out pixel for pixel.
    pub fn shows_unchanged(&self, frame_w: u32, frame_h: u32, out_w: u32, out_h: u32) -> (same:
        bool)
        ensures
            same == is_identity(*self, frame_w, frame_h, out_w, out_h),
    {
        !self.lens_correct
            && equal(self.rotation_deg, ZERO)
            && equal(self.uv.min_x, ZERO)
            && equal(self.uv.min_y, ZERO)
            && equal(self.uv.max_x, ONE)
            && equal(self.uv.max_y, ONE)
            && out_w == frame_w
            && out_h == frame_h
    }
}

/// The size of a recording for a crop of `crop_w` by `crop_h` pixels, rounded
/// down to even, as H.264 needs it.
pub fn output_dims(crop_w: u32, crop_h: u32) -> (dims: (u32, u32))
    ensures
        dims.0 == even_extent(crop_w),
        dims.1 == even_extent(crop_h),
{
    let w: u32 = if crop_w < 2 { 2 } else { crop_w };
    let h: u32 = if crop_h < 2 { 2 } else { crop_h };
    assert(w & !1u32 == w - w % 2) by (bit_vector);
    assert(h & !1u32 == h - h % 2) by (bit_vector);
    (w & !1, h & !1)
}

/// The curve and edge that a view is drawn with: they count only while the lens
/// is flattened.
pub open spec fn lens_in_force(lens_correct: bool, k1: u32, k2: u32) -> (u32, u32) {
    if lens_correct {
        (k1, k2)
    } else {
        (ZERO, ZERO)
    }
}

/// The curve and edge that a view is drawn with.
pub fn applied_lens(p: &ViewParams) -> (k: (u32, u32))
    ensures
        k == lens_in_force(p.lens_correct, p.k1, p.k2),
{
    if p.lens_correct {
        (p.k1, p.k2)
    } else {
        (ZERO, ZERO)
    }
}

/// Whether the picture has to be drawn through the lens mesh: where the lens
/// is flattened, or where the tilt is visible.
pub fn needs_mesh(lens_correct: bool, rotation_deg: u32) -> (mesh: bool)
    ensures
        mesh == (lens_correct || beyond(rotation_deg, TILT_TOLERANCE)),
{
    lens_correct || exceeds(rotation_deg, TILT_TOLERANCE)
}

} // verus!
