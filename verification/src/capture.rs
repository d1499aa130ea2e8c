//! Screenshots: the pixels of the crop, and where captures are kept.

use crate::text::{decimal, decimal_text};
use crate::warp::Frame;
use vstd::prelude::*;
use vstd::string::*;

verus! {

/// Why a screenshot cannot be taken.
#[derive(Clone, Copy, Debug, PartialEq, Eq, Structural)]
pub enum CaptureError {
    /// The frame has no pixels.
    EmptyFrame,
    /// The pixels do not fill an image of the size of the crop.
    SizeMismatch,
}

/// The pixels of a screenshot, four bytes to a pixel.
pub struct Shot {
    pub width: u32,
    pub height: u32,
    pub rgba: Vec<u8>,
}

/// `n`, moved into the range from `low` to `high`.
pub open spec fn clamped(n: int, low: int, high: int) -> int {
    if n < low {
        low
    } else if n > high {
        high
    } else {
        n
    }
}

/// The pixels of the `cw` by `ch` rectangle whose first pixel is `(x0, y0)`, of
/// an image of `w` pixels to a row.
pub open spec fn cropped(rgba: Seq<u8>, w: int, x0: int, y0: int, cw: int, ch: int) -> Seq<u8> {
    Seq::new(
        (cw * ch * 4) as nat,
        |b: int| rgba[((y0 + b / (cw * 4)) * w + x0) * 4 + b % (cw * 4)],
    )
}

fn clamp(n: usize, low: usize, high: usize) -> (c: usize)
    requires
        low <= high,
    ensures
        c == clamped(n as int, low as int, high as int),
{
    if n < low {
        low
    } else if n > high {
        high
    } else {
        n
    }
}

/// Hands the pixels to `image::RgbaImage::from_raw` and takes them back with
/// `into_raw`. The claim is that an image of `width` by `height` pixels is made
/// exactly where the buffer holds at least four bytes for each of them (and the
/// bytes of a row can be counted), and that the image keeps the buffer as it is.
#[verifier::external_body]
fn image_from_raw(width: u32, height: u32, buf: Vec<u8>) -> (image: Option<Vec<u8>>)
    ensures
        image is Some <==> (4 * width <= usize::MAX && 4 * width * height <= buf@.len()),
        image matches Some(bytes) ==> bytes@ == buf@,
{
    image::RgbaImage::from_raw(width, height, buf).map(|img| img.into_raw())
}

/// Whether a crop that begins in column `x0` of row `y0` can be taken out of a
/// frame that has pixels: it begins within the frame, and the bytes of its rows
/// are there.
pub open spec fn croppable(
    frame: Frame,
    x0: usize,
    y0: usize,
    right: usize,
    bottom: usize,
) -> bool {
    let x1 = clamped(right as int, x0 + 1, frame.width as int);
    let y1 = clamped(bottom as int, y0 + 1, frame.height as int);
    &&& x0 < frame.width
    &&& y0 < frame.height
    &&& ((y1 - 1) * frame.width + x1) * 4 <= frame.rgba@.len()
}

/// Tells whether a crop can be taken out of a frame.
pub fn can_crop(frame: &Frame, x0: usize, y0: usize, right: usize, bottom: usize) -> (can: bool)
    ensures
        can == croppable(*frame, x0, y0, right, bottom),
{
    let w: usize = frame.width as usize;
    let h: usize = frame.height as usize;
    if x0 >= w || y0 >= h {
        return false;
    }
    let x1: usize = clamp(right, x0 + 1, w);
    let y1: usize = clamp(bottom, y0 + 1, h);
    proof {
        assert(0 <= (y1 - 1) * w <= 0xffff_ffff * 0xffff_ffff) by (nonlinear_arith)
            requires
                1 <= y1 <= 0xffff_ffff,
                0 <= w <= 0xffff_ffff,
        ;
        assert((y1 - 1) * w == (y1 - 1) * frame.width) by (nonlinear_arith)
            requires
                w == frame.width,
        ;
    }
    ((y1 - 1) as u128 * w as u128 + x1 as u128) * 4 <= frame.rgba.len() as u128
}

/// The pixels of a crop of `frame`: from column `x0` and row `y0` up to column
/// `right` and row `bottom`, which are moved so that the crop has at least one
/// pixel and ends within the frame.
pub fn crop_image(frame: &Frame, x0: usize, y0: usize, right: usize, bottom: usize) -> (shot:
    Result<Shot, CaptureError>)
    requires
        frame.width > 0 && frame.height > 0 ==> croppable(*frame, x0, y0, right, bottom),
    ensures
        frame.width == 0 || frame.height == 0 ==> shot == Err::<Shot, _>(CaptureError::EmptyFrame),
        frame.width > 0 && frame.height > 0 ==> {
            let cw = clamped(right as int, x0 + 1, frame.width as int) - x0;
            let ch = clamped(bottom as int, y0 + 1, frame.height as int) - y0;
            &&& shot matches Ok(s)
            &&& s.width == cw
            &&& s.height == ch
            &&& s.rgba@ == cropped(frame.rgba@, frame.width as int, x0 as int, y0 as int, cw, ch)
        },
{
    let w: usize = frame.width as usize;
    let h: usize = frame.height as usize;
    if w == 0 || h == 0 {
        return Err(CaptureError::EmptyFrame);
    }
    let x1: usize = clamp(right, x0 + 1, w);
    let y1: usize = clamp(bottom, y0 + 1, h);
    let cw: usize = x1 - x0;
    let ch: usize = y1 - y0;
    let total: usize = frame.rgba.len();
    let ghost src = frame.rgba@;
    let ghost want = cropped(src, w as int, x0 as int, y0 as int, cw as int, ch as int);

    let mut out: Vec<u8> = Vec::new();
    let mut row: usize = 0;
    while row < ch
        invariant
            w == frame.width,
            h == frame.height,
            w > 0,
            row <= ch,
            y0 + ch <= h,
            x0 + cw <= w,
            cw > 0,
            ((y0 + ch - 1) * w + x0 + cw) * 4 <= total,
            total == frame.rgba@.len(),
            src == frame.rgba@,
            want == cropped(src, w as int, x0 as int, y0 as int, cw as int, ch as int),
            out@.len() == row * (cw * 4),
            forall|b: int| 0 <= b < out@.len() ==> #[trigger] out@[b] == want[b],
        decreases ch - row,
    {
        assert(0 <= (y0 + row) * w <= (y0 + ch - 1) * w) by (nonlinear_arith)
            requires
                row + 1 <= ch,
                y0 >= 0,
                row >= 0,
                w > 0,
        ;
        let at: usize = ((y0 + row) * w + x0) * 4;
        let ghost before = out@;
        out.extend_from_slice(&frame.rgba[at..at + cw * 4]);
        proof {
            let step = cw * 4;
            assert((row + 1) * step == row * step + step) by (nonlinear_arith);
            assert((row + 1) * step <= ch * step) by (nonlinear_arith)
                requires
                    row + 1 <= ch,
                    step > 0,
            ;
            assert(ch * step == cw * ch * 4) by (nonlinear_arith)
                requires
                    step == cw * 4,
            ;
            assert forall|b: int| 0 <= b < out@.len() implies #[trigger] out@[b] == want[b] by {
                if b < before.len() {
                    assert(out@[b] == before[b]);
                } else {
                    let r = b - row * step;
                    vstd::arithmetic::div_mod::lemma_fundamental_div_mod_converse(
                        b,
                        step,
                        row as int,
                        r,
                    );
                    assert(out@[b] == src[at + r]);
                }
            }
        }
        row = row + 1;
    }
    proof {
        assert(ch * (cw * 4) == cw * ch * 4) by (nonlinear_arith);
        assert(4 * cw * ch == cw * ch * 4) by (nonlinear_arith);
        assert(out@ =~= want);
    }
    match image_from_raw(cw as u32, ch as u32, out) {
        Some(rgba) => Ok(Shot { width: cw as u32, height: ch as u32, rgba }),
        None => Err(CaptureError::SizeMismatch),
    }
}

/// A screenshot shows the crop: the pixel in column `x` of row `y` of it is the
/// one in column `x0 + x` of row `y0 + y` of the frame.
pub proof fn law_crop_keeps_pixels(
    rgba: Seq<u8>,
    w: int,
    x0: int,
    y0: int,
    cw: int,
    ch: int,
    x: int,
    y: int,
    channel: int,
)
    requires
        0 <= x < cw,
        0 <= y < ch,
        0 <= channel < 4,
    ensures
        0 <= (y * cw + x) * 4 + channel < cropped(rgba, w, x0, y0, cw, ch).len(),
        cropped(rgba, w, x0, y0, cw, ch)[(y * cw + x) * 4 + channel] == rgba[((y0 + y) * w + x0 + x)
            * 4 + channel],
{
    let b = (y * cw + x) * 4 + channel;
    let step = cw * 4;
    assert(b == y * step + (x * 4 + channel)) by (nonlinear_arith)
        requires
            b == (y * cw + x) * 4 + channel,
            step == cw * 4,
    ;
    vstd::arithmetic::div_mod::lemma_fundamental_div_mod_converse(b, step, y, x * 4 + channel);
    assert(0 <= b < cw * ch * 4) by (nonlinear_arith)
        requires
            b == y * step + (x * 4 + channel),
            step == cw * 4,
            0 <= y < ch,
            0 <= x < cw,
            0 <= channel < 4,
    ;
}

/// The file name of a capture made `secs` seconds after the epoch.
pub fn capture_path(prefix: &str, secs: u64, ext: &str) -> (name: String)
    ensures
        name@ == prefix@ + "_"@ + decimal(secs as nat) + "."@ + ext@,
{
    let mut name = prefix.to_owned();
    name.append("_");
    name.append(decimal_text(secs).as_str());
    name.append(".");
    name.append(ext);
    name
}

} // verus!
