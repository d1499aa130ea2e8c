//! Pictures: numbers, views, the mesh, rendering and screenshots.

use crate::app::App;
use crate::capture::{
    can_crop, capture_path, clamped, crop_image, law_crop_keeps_pixels, CaptureError, Shot,
};
use crate::mesh::mesh_indices;
use crate::scalar::{equal, exceeds, magnitude};
use crate::text::decimal_text;
use crate::view::{applied_lens, needs_mesh, output_dims, ViewParams};
use crate::warp::{
    cache_follows, can_render, follows, get_or_compute_remap, law_cache_is_transparent, lens_table,
    remap_key, rendered, renderable, warp_frame, warp_to_bgra, warp_to_rgba, Frame, Lens, Pose,
    RemapCache,
};
use std::sync::Arc;
use vstd::arithmetic::div_mod::lemma_fundamental_div_mod_converse;
use vstd::prelude::*;

verus! {

/// Whether the bits encode no number: all bits of the exponent are set, and any
/// bit of the fraction.
pub open spec fn no_number(bits: u32) -> bool {
    bits & 0x7f80_0000u32 == 0x7f80_0000u32 && bits & 0x007f_ffffu32 != 0
}

/// Whether the bits encode zero, of either sign.
pub open spec fn zero(bits: u32) -> bool {
    bits & 0x7fff_ffffu32 == 0
}

/// Whether the bits encode one.
pub open spec fn one(bits: u32) -> bool {
    bits == 0x3f80_0000u32
}

pub proof fn lemma_bits(a: u32)
    ensures
        crate::scalar::magnitude_of(a) == a & 0x7fff_ffffu32,
        crate::scalar::is_nan(a) == no_number(a),
{
    assert(a >= 0x8000_0000u32 ==> a - 0x8000_0000u32 == a & 0x7fff_ffffu32) by (bit_vector);
    assert(a < 0x8000_0000u32 ==> a == a & 0x7fff_ffffu32) by (bit_vector);
    assert((a & 0x7fff_ffffu32) > 0x7f80_0000u32 <==> (a & 0x7f80_0000u32 == 0x7f80_0000u32 && a
        & 0x007f_ffffu32 != 0)) by (bit_vector);
}

/// Numbers are equal where their bits are, and the two zeros are; what is no
/// number equals nothing, not even itself.
pub proof fn law_numbers_compare_by_value(a: u32, b: u32, same: bool)
    requires
        call_ensures(equal, (a, b), same),
    ensures
        no_number(a) || no_number(b) ==> !same,
        !no_number(a) && a == b ==> same,
        zero(a) && zero(b) ==> same,
        a != b && !(zero(a) && zero(b)) ==> !same,
{
    lemma_bits(a);
    lemma_bits(b);
    assert((a & 0x7fff_ffffu32) == 0 ==> (a & 0x7f80_0000u32) != 0x7f80_0000u32) by (bit_vector);
    assert((b & 0x7fff_ffffu32) == 0 ==> (b & 0x7f80_0000u32) != 0x7f80_0000u32) by (bit_vector);
}

/// Whether two encoded numbers are equal.
pub open spec fn alike(a: u32, b: u32) -> bool {
    &&& !no_number(a)
    &&& !no_number(b)
    &&& a == b || (zero(a) && zero(b))
}

pub proof fn lemma_alike(a: u32, b: u32)
    ensures
        crate::scalar::same_number(a, b) == alike(a, b),
{
    lemma_bits(a);
    lemma_bits(b);
}

/// Whether a number is beyond a bound does not depend on its sign, and what is no
/// number is beyond nothing.
pub proof fn law_bounds_ignore_the_sign(a: u32, bound: u32, above: bool, m: u32)
    requires
        call_ensures(exceeds, (a, bound), above),
        call_ensures(magnitude, (a,), m),
    ensures
        m == a & 0x7fff_ffffu32,
        above <==> !no_number(a) && m > bound,
{
    lemma_bits(a);
}

/// Each side of a recording is even, at least two, and less than two pixels
/// smaller than the side of the crop.
pub proof fn law_recordings_keep_the_size_of_the_crop(crop_w: u32, crop_h: u32, dims: (u32, u32))
    requires
        call_ensures(output_dims, (crop_w, crop_h), dims),
    ensures
        dims.0 % 2 == 0 && dims.1 % 2 == 0,
        dims.0 >= 2 && dims.1 >= 2,
        crop_w >= 2 ==> dims.0 <= crop_w < dims.0 + 2,
        crop_h >= 2 ==> dims.1 <= crop_h < dims.1 + 2,
        crop_w < 2 ==> dims.0 == 2,
        crop_h < 2 ==> dims.1 == 2,
{
}

/// While the lens is flattened, curve and edge are the view's own, whatever they
/// are; otherwise they are zero, and the screen is drawn with the same pair.
pub proof fn law_lens_is_the_views_own(
    p: &ViewParams,
    used: (u32, u32),
    app: &App,
    drawn: Option<(u32, u32, u32)>,
)
    requires
        call_ensures(applied_lens, (p,), used),
        call_ensures(App::drawn_lens, (app,), drawn),
    ensures
        p.lens_correct ==> used.0 == p.k1 && used.1 == p.k2,
        !p.lens_correct ==> used.0 == 0 && used.1 == 0,
        app.lens_correct ==> drawn == Some((app.lens_k1, app.lens_k2, app.rotation_deg)),
        !app.lens_correct && drawn is Some ==> drawn == Some((0u32, 0u32, app.rotation_deg)),
        app.lens_correct == p.lens_correct && app.lens_k1 == p.k1 && app.lens_k2 == p.k2 ==> (
        drawn matches Some(d) ==> d.0 == used.0 && d.1 == used.1),
        !app.lens_correct ==> (drawn is Some <==> !no_number(app.rotation_deg) && (app.rotation_deg
            & 0x7fff_ffffu32) > 0x3c23_d70au32),
{
    lemma_bits(app.rotation_deg);
}

/// The picture is drawn on a mesh where the lens is flattened or the tilt is more
/// than a hundredth of a degree.
pub proof fn law_mesh_is_for_lens_or_tilt(lens_correct: bool, rotation_deg: u32, mesh: bool)
    requires
        call_ensures(needs_mesh, (lens_correct, rotation_deg), mesh),
    ensures
        mesh <==> lens_correct || (!no_number(rotation_deg) && (rotation_deg & 0x7fff_ffffu32)
            > 0x3c23_d70au32),
{
    lemma_bits(rotation_deg);
}

/// Whether a view shows a frame pixel for pixel: not flattened, not turned, the
/// whole panel, at its own size.
pub open spec fn plain(p: ViewParams, frame_w: u32, frame_h: u32, out_w: u32, out_h: u32) -> bool {
    &&& !p.lens_correct
    &&& zero(p.rotation_deg)
    &&& zero(p.uv.min_x)
    &&& zero(p.uv.min_y)
    &&& one(p.uv.max_x)
    &&& one(p.uv.max_y)
    &&& out_w == frame_w
    &&& out_h == frame_h
}

proof fn lemma_plain(p: ViewParams, frame_w: u32, frame_h: u32, out_w: u32, out_h: u32)
    ensures
        crate::view::is_identity(p, frame_w, frame_h, out_w, out_h) == plain(
            p,
            frame_w,
            frame_h,
            out_w,
            out_h,
        ),
{
    lemma_zero_is_number(p.rotation_deg);
    lemma_zero_is_number(p.uv.min_x);
    lemma_zero_is_number(p.uv.min_y);
    lemma_bits(p.rotation_deg);
    lemma_bits(p.uv.min_x);
    lemma_bits(p.uv.min_y);
    lemma_bits(p.uv.max_x);
    lemma_bits(p.uv.max_y);
    lemma_bits(0);
    assert(0u32 & 0x7fff_ffffu32 == 0) by (bit_vector);
    lemma_bits(0x3f80_0000u32);
    assert(0x3f80_0000u32 & 0x7fff_ffffu32 == 0x3f80_0000u32) by (bit_vector);
    assert(0x3f80_0000u32 & 0x7f80_0000u32 == 0x3f80_0000u32) by (bit_vector);
}

proof fn lemma_zero_is_number(a: u32)
    ensures
        zero(a) ==> !no_number(a),
{
    assert((a & 0x7fff_ffffu32) == 0 ==> (a & 0x7f80_0000u32) != 0x7f80_0000u32) by (bit_vector);
}

/// A view shows a frame unchanged exactly where nothing is done to it.
pub proof fn law_unchanged_means_nothing_is_done(
    p: &ViewParams,
    frame_w: u32,
    frame_h: u32,
    out_w: u32,
    out_h: u32,
    same: bool,
)
    requires
        call_ensures(ViewParams::shows_unchanged, (p, frame_w, frame_h, out_w, out_h), same),
    ensures
        same <==> plain(*p, frame_w, frame_h, out_w, out_h),
{
    lemma_plain(*p, frame_w, frame_h, out_w, out_h);
}

/// The view that nothing was set of shows every frame as it is.
pub proof fn law_default_view_is_plain(p: ViewParams, w: u32, h: u32)
    requires
        call_ensures(ViewParams::default, (), p),
    ensures
        plain(p, w, h, w, h),
        p.k1 == 0 && p.k2 == 0,
{
    assert(0u32 & 0x7fff_ffffu32 == 0) by (bit_vector);
}

/// The mesh has two triangles to each cell: the vertex in column `x` of row `y` has
/// the number `y * (n + 1) + x`, and the triangles of the cell in column `i` of row
/// `j` join its corners, with one side in common.
pub proof fn law_mesh_covers_each_cell(n: u32, indices: Vec<u32>, i: int, j: int)
    requires
        call_ensures(mesh_indices, (n,), indices),
        0 <= i < n,
        0 <= j < n,
    ensures
        indices@.len() == 6 * n * n,
        ({
            let at = 6 * (j * n + i);
            let row = n + 1;
            &&& 0 <= at && at + 5 < indices@.len()
            &&& indices@[at] == j * row + i
            &&& indices@[at + 1] == j * row + i + 1
            &&& indices@[at + 2] == (j + 1) * row + i
            &&& indices@[at + 3] == j * row + i + 1
            &&& indices@[at + 4] == (j + 1) * row + i + 1
            &&& indices@[at + 5] == (j + 1) * row + i
        }),
{
    let cell = j * n + i;
    let at = 6 * cell;
    lemma_fundamental_div_mod_converse(cell, n as int, j, i);
    assert(0 <= cell < n * n) by (nonlinear_arith)
        requires
            cell == j * n + i,
            0 <= i < n,
            0 <= j < n,
    ;
    assert(6 * (n * n) == 6 * n * n) by (nonlinear_arith);
    assert((j + 1) * (n + 1) == j * (n + 1) + (n + 1)) by (nonlinear_arith);
    assert(at / 6 == cell && (at + 1) / 6 == cell && (at + 2) / 6 == cell && (at + 3) / 6 == cell
        && (at + 4) / 6 == cell && (at + 5) / 6 == cell);
    assert(at % 6 == 0 && (at + 1) % 6 == 1 && (at + 2) % 6 == 2 && (at + 3) % 6 == 3 && (at + 4)
        % 6 == 4 && (at + 5) % 6 == 5);
}

/// The position within an extent that is nearest to `v`.
pub open spec fn nearest(v: int, extent: int) -> int {
    if v < extent {
        v
    } else {
        extent - 1
    }
}

/// The first byte of the frame pixel nearest to a place.
pub open spec fn first_byte(at: (int, int), frame_w: int, frame_h: int) -> int {
    (nearest(at.1, frame_h) * frame_w + nearest(at.0, frame_w)) * 4
}

/// Where a lens takes an output pixel of a view from. The lens knows the sizes,
/// the crop and the tilt, and is told curve and edge only while it is flattened.
pub open spec fn taken_from(
    lens: Lens,
    frame_w: u32,
    frame_h: u32,
    p: ViewParams,
    out_w: u32,
    out_h: u32,
    i: int,
    j: int,
) -> (int, int) {
    lens(
        Pose { fw: frame_w, fh: frame_h, ow: out_w, oh: out_h, uv: p.uv, rot: p.rotation_deg },
        if p.lens_correct {
            (p.k1, p.k2)
        } else {
            (0u32, 0u32)
        },
        i,
        j,
    )
}

/// Whether a sampling function does what a lens says for a view.
pub open spec fn samples_as<F: Fn(usize, usize, u32, u32) -> (usize, usize)>(
    sample: F,
    lens: Lens,
    frame_w: u32,
    frame_h: u32,
    p: ViewParams,
    out_w: u32,
    out_h: u32,
) -> bool {
    forall|i: usize, j: usize, k1: u32, k2: u32, q: (usize, usize)| #[trigger]
        call_ensures(sample, (i, j, k1, k2), q) ==> (q.0 as int, q.1 as int) == lens(
            Pose {
                fw: frame_w,
                fh: frame_h,
                ow: out_w,
                oh: out_h,
                uv: p.uv,
                rot: p.rotation_deg,
            },
            (k1, k2),
            i as int,
            j as int,
        )
}

/// Whether the table that a cache holds is the one that a lens gives for what is
/// noted beside it.
pub open spec fn tells_true(cache: RemapCache, lens: Lens) -> bool {
    cache.entry matches Some(e) ==> {
        let k = e.key;
        let p = ViewParams {
            uv: k.uv,
            lens_correct: k.lens_correct,
            k1: k.k1,
            k2: k.k2,
            rotation_deg: k.rot,
        };
        &&& e.map@.len() == k.ow * k.oh
        &&& forall|n: int|
            0 <= n < e.map@.len() ==> #[trigger] e.map@[n] == first_byte(
                taken_from(lens, k.fw, k.fh, p, k.ow, k.oh, n % (k.ow as int), n / (k.ow as int)),
                k.fw as int,
                k.fh as int,
            )
    }
}

/// Whether the output pixel in column `i` of row `j` has the red, green and blue of
/// the frame pixel that it is taken from, and full alpha.
pub open spec fn shows_pixel(
    lens: Lens,
    frame: Frame,
    p: ViewParams,
    out_w: u32,
    out_h: u32,
    swap_rb: bool,
    out: Seq<u8>,
    i: int,
    j: int,
) -> bool {
    let at = if plain(p, frame.width, frame.height, out_w, out_h) {
        (i, j)
    } else {
        taken_from(lens, frame.width, frame.height, p, out_w, out_h, i, j)
    };
    let s = first_byte(at, frame.width as int, frame.height as int);
    let o = (j * out_w + i) * 4;
    &&& out[if swap_rb { o + 2 } else { o }] == frame.rgba@[s]
    &&& out[o + 1] == frame.rgba@[s + 1]
    &&& out[if swap_rb { o } else { o + 2 }] == frame.rgba@[s + 2]
    &&& out[o + 3] == 255
}

/// Whether a picture is that of a view of a frame: four bytes to each output pixel,
/// each of which shows the frame where the view takes it from.
pub open spec fn is_picture(
    lens: Lens,
    frame: Frame,
    p: ViewParams,
    out_w: u32,
    out_h: u32,
    swap_rb: bool,
    out: Seq<u8>,
) -> bool {
    &&& out.len() == out_w * out_h * 4
    &&& forall|i: int, j: int|
        0 <= i < out_w && 0 <= j < out_h ==> #[trigger] shows_pixel(
            lens,
            frame,
            p,
            out_w,
            out_h,
            swap_rb,
            out,
            i,
            j,
        )
}

/// Whether a frame has pixels and holds the bytes of all of them.
pub open spec fn is_complete(frame: Frame) -> bool {
    &&& frame.width > 0
    &&& frame.height > 0
    &&& frame.rgba@.len() == frame.width * frame.height * 4
}

proof fn lemma_cache(cache: RemapCache, lens: Lens)
    ensures
        cache.wf() ==> (tells_true(cache, lens) <==> cache_follows(cache, lens)),
{
    if let Some(e) = cache.entry {
        let table = e.map@.map_values(|o: usize| o as int);
        let want = lens_table(lens, e.key);
        if cache.wf() && tells_true(cache, lens) {
            assert forall|n: int| 0 <= n < table.len() implies #[trigger] table[n] == want[n] by {
                assert(table[n] == e.map@[n]);
            }
            assert(table =~= want);
        }
        if cache.wf() && cache_follows(cache, lens) {
            let k = e.key;
            let p = ViewParams {
                uv: k.uv,
                lens_correct: k.lens_correct,
                k1: k.k1,
                k2: k.k2,
                rotation_deg: k.rot,
            };
            assert forall|n: int| 0 <= n < e.map@.len() implies #[trigger] e.map@[n] == first_byte(
                taken_from(lens, k.fw, k.fh, p, k.ow, k.oh, n % (k.ow as int), n / (k.ow as int)),
                k.fw as int,
                k.fh as int,
            ) by {
                assert(table[n] == want[n]);
            }
        }
    }
}

/// What is rendered is the picture of the view.
pub proof fn lemma_rendered<F: Fn(usize, usize, u32, u32) -> (usize, usize)>(
    lens: Lens,
    before: RemapCache,
    after: RemapCache,
    frame: Frame,
    p: ViewParams,
    out_w: u32,
    out_h: u32,
    swap_rb: bool,
    sample: F,
    out: Seq<u8>,
)
    requires
        before.wf(),
        tells_true(before, lens),
        samples_as(sample, lens, frame.width, frame.height, p, out_w, out_h),
        is_complete(frame),
        rendered(before, after, frame, p, out_w, out_h, swap_rb, sample, out),
    ensures
        is_picture(lens, frame, p, out_w, out_h, swap_rb, out),
        tells_true(after, lens),
{
    let key = remap_key(frame.width, frame.height, p, out_w, out_h);
    lemma_plain(p, frame.width, frame.height, out_w, out_h);
    lemma_cache(before, lens);
    lemma_cache(after, lens);
    assert(follows(sample, lens, key));
    let fw = frame.width as int;
    let fh = frame.height as int;
    assert(out_w * out_h >= 0) by (nonlinear_arith);
    if !plain(p, frame.width, frame.height, out_w, out_h) {
        law_cache_is_transparent(lens, before, after, key, sample);
    }
    assert forall|i: int, j: int| 0 <= i < out_w && 0 <= j < out_h implies #[trigger] shows_pixel(
        lens,
        frame,
        p,
        out_w,
        out_h,
        swap_rb,
        out,
        i,
        j,
    ) by {
        let n = j * out_w + i;
        assert(0 <= n < out_w * out_h) by (nonlinear_arith)
            requires
                n == j * out_w + i,
                0 <= i < out_w,
                0 <= j < out_h,
        ;
        lemma_fundamental_div_mod_converse(n, out_w as int, j, i);
        assert((4 * n) / 4 == n && (4 * n + 1) / 4 == n && (4 * n + 2) / 4 == n && (4 * n + 3) / 4
            == n);
        assert((4 * n) % 4 == 0 && (4 * n + 1) % 4 == 1 && (4 * n + 2) % 4 == 2 && (4 * n + 3) % 4
            == 3);
        if !plain(p, frame.width, frame.height, out_w, out_h) {
            let table = after.table();
            assert(table.map_values(|o: usize| o as int)[n] == lens_table(lens, key)[n]);
            assert(table[n] == first_byte(
                taken_from(lens, frame.width, frame.height, p, out_w, out_h, i, j),
                fw,
                fh,
            ));
        }
    }
}

/// A picture of a frame shows the frame through the lens with the view's own crop,
/// curve, edge and tilt, whatever the cache held; and what the cache then holds is
/// as true as before.
pub proof fn law_pictures_show_the_view<F: Fn(usize, usize, u32, u32) -> (usize, usize) + Sync>(
    lens: Lens,
    cache: &mut RemapCache,
    frame: &Frame,
    p: &ViewParams,
    out_w: u32,
    out_h: u32,
    swap_rb: bool,
    sample: &F,
    out: Vec<u8>,
)
    requires
        old(cache).wf(),
        tells_true(*old(cache), lens),
        samples_as(*sample, lens, frame.width, frame.height, *p, out_w, out_h),
        is_complete(*frame),
        ({
            ||| call_ensures(
                warp_frame::<F>,
                (cache, frame, p, out_w, out_h, swap_rb, sample),
                out,
            )
            ||| swap_rb && call_ensures(
                warp_to_bgra::<F>,
                (cache, frame, p, out_w, out_h, sample),
                out,
            )
            ||| !swap_rb && call_ensures(
                warp_to_rgba::<F>,
                (cache, frame, p, out_w, out_h, sample),
                out,
            )
        }),
    ensures
        is_picture(lens, *frame, *p, out_w, out_h, swap_rb, out@),
        tells_true(*final(cache), lens),
{
    lemma_rendered(
        lens,
        *old(cache),
        *final(cache),
        *frame,
        *p,
        out_w,
        out_h,
        swap_rb,
        *sample,
        out@,
    );
}

/// A lookup table holds, row by row, the first byte of the frame pixel that the
/// lens takes each output pixel from, with the view's own curve and edge.
pub proof fn law_tables_follow_the_view<F: Fn(usize, usize, u32, u32) -> (usize, usize) + Sync>(
    lens: Lens,
    cache: &mut RemapCache,
    frame_w: u32,
    frame_h: u32,
    p: &ViewParams,
    out_w: u32,
    out_h: u32,
    sample: &F,
    map: Arc<Vec<usize>>,
    i: int,
    j: int,
)
    requires
        old(cache).wf(),
        tells_true(*old(cache), lens),
        samples_as(*sample, lens, frame_w, frame_h, *p, out_w, out_h),
        call_ensures(
            get_or_compute_remap::<F>,
            (cache, frame_w, frame_h, p, out_w, out_h, sample),
            map,
        ),
        0 <= i < out_w,
        0 <= j < out_h,
    ensures
        map@.len() == out_w * out_h,
        map@[j * out_w + i] == first_byte(
            taken_from(lens, frame_w, frame_h, *p, out_w, out_h, i, j),
            frame_w as int,
            frame_h as int,
        ),
        tells_true(*final(cache), lens),
{
    let key = remap_key(frame_w, frame_h, *p, out_w, out_h);
    lemma_cache(*old(cache), lens);
    lemma_cache(*final(cache), lens);
    assert(follows(*sample, lens, key));
    law_cache_is_transparent(lens, *old(cache), *final(cache), key, *sample);
    let n = j * out_w + i;
    assert(0 <= n < out_w * out_h) by (nonlinear_arith)
        requires
            n == j * out_w + i,
            0 <= i < out_w,
            0 <= j < out_h,
    ;
    lemma_fundamental_div_mod_converse(n, out_w as int, j, i);
    assert(final(cache).table().map_values(|o: usize| o as int)[n] == lens_table(lens, key)[n]);
}

/// Every complete frame can be rendered at every size that memory can hold.
pub proof fn law_complete_frames_can_be_rendered(
    frame: &Frame,
    p: &ViewParams,
    out_w: u32,
    out_h: u32,
    swap_rb: bool,
    can: bool,
)
    requires
        call_ensures(can_render, (frame, p, out_w, out_h, swap_rb), can),
        is_complete(*frame),
        out_w > 0,
        out_w * out_h * 8 <= isize::MAX,
        out_w * 64 <= usize::MAX,
    ensures
        can,
        renderable(*frame, *p, out_w, out_h, swap_rb),
{
    assert(out_w * out_h >= 0) by (nonlinear_arith);
    assert(frame.rgba.len() == frame.rgba@.len());
}

/// A screenshot ends where the crop ends: it is as wide and as high as the crop,
/// as far as that has pixels within the frame, and at least one pixel each way; and
/// each of its pixels is the one of the frame in its place.
pub proof fn law_screenshots_are_the_crop(
    frame: &Frame,
    x0: usize,
    y0: usize,
    right: usize,
    bottom: usize,
    shot: Result<Shot, CaptureError>,
    x: int,
    y: int,
    channel: int,
)
    requires
        call_ensures(crop_image, (frame, x0, y0, right, bottom), shot),
        frame.width > 0 && frame.height > 0 ==> x0 < frame.width && y0 < frame.height,
    ensures
        frame.width == 0 || frame.height == 0 ==> shot matches Err(CaptureError::EmptyFrame),
        frame.width > 0 && frame.height > 0 ==> {
            &&& shot matches Ok(s)
            &&& x0 < right <= frame.width ==> s.width == right - x0
            &&& right <= x0 ==> s.width == 1
            &&& right > frame.width ==> s.width == frame.width - x0
            &&& y0 < bottom <= frame.height ==> s.height == bottom - y0
            &&& bottom <= y0 ==> s.height == 1
            &&& bottom > frame.height ==> s.height == frame.height - y0
            &&& s.rgba@.len() == s.width * s.height * 4
            &&& 0 <= x < s.width && 0 <= y < s.height && 0 <= channel < 4 ==> s.rgba@[(y * s.width
                + x) * 4 + channel] == frame.rgba@[((y0 + y) * frame.width + x0 + x) * 4 + channel]
        },
{
    if frame.width > 0 && frame.height > 0 {
        let cw = clamped(right as int, x0 + 1, frame.width as int) - x0;
        let ch = clamped(bottom as int, y0 + 1, frame.height as int) - y0;
        assert(cw * ch * 4 >= 0) by (nonlinear_arith)
            requires
                cw > 0,
                ch > 0,
        ;
        if 0 <= x < cw && 0 <= y < ch && 0 <= channel < 4 {
            law_crop_keeps_pixels(
                frame.rgba@,
                frame.width as int,
                x0 as int,
                y0 as int,
                cw,
                ch,
                x,
                y,
                channel,
            );
        }
    }
}

/// Every crop that begins within a complete frame can be taken.
pub proof fn law_complete_frames_can_be_cropped(
    frame: &Frame,
    x0: usize,
    y0: usize,
    right: usize,
    bottom: usize,
    can: bool,
)
    requires
        call_ensures(can_crop, (frame, x0, y0, right, bottom), can),
        is_complete(*frame),
        x0 < frame.width,
        y0 < frame.height,
    ensures
        can,
{
    let w = frame.width as int;
    let h = frame.height as int;
    let x1 = clamped(right as int, x0 + 1, w);
    let y1 = clamped(bottom as int, y0 + 1, h);
    assert(y1 * w <= w * h) by (nonlinear_arith)
        requires
            y1 <= h,
            w > 0,
    ;
    assert((y1 - 1) * w == y1 * w - w) by (nonlinear_arith);
}

/// A capture is named by its kind, the second it was made in and the kind of its
/// file.
pub proof fn law_captures_are_named_by_their_second(
    prefix: &str,
    secs: u64,
    ext: &str,
    name: String,
    number: String,
)
    requires
        call_ensures(capture_path, (prefix, secs, ext), name),
        call_ensures(decimal_text, (secs,), number),
    ensures
        name@ == prefix@ + "_"@ + number@ + "."@ + ext@,
{
}

} // verus!
