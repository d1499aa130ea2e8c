//! Renders the processed (cropped, lens-flattened, turned) view of a frame
//! into a pixel buffer, so that recordings and live outputs match the screen.
//!
//! Where each output pixel takes its colour from is given by a sampling
//! function from output position to frame position; the offsets it leads to
//! are kept in a lookup table that is reused while the view stays the same.

use crate::view::{applied_lens, is_identity, lens_in_force, CropRect, ViewParams};
use rayon::prelude::{IndexedParallelIterator, ParallelIterator, ParallelSlice, ParallelSliceMut};
use std::sync::Arc;
use vstd::arithmetic::div_mod::{lemma_fundamental_div_mod, lemma_fundamental_div_mod_converse};
use vstd::prelude::*;

verus! {

/// How many rows of the output one task renders.
pub const ROWS_PER_TASK: usize = 16;

/// A decoded frame: four bytes to a pixel (red, green, blue, alpha), rows from
/// the top down.
pub struct Frame {
    pub width: u32,
    pub height: u32,
    pub rgba: Vec<u8>,
}

impl Frame {
    /// How many bytes the pixels of the frame take.
    pub open spec fn byte_len(&self) -> int {
        self.width * self.height * 4
    }
}

/// What a lookup table depends on.
#[derive(Clone, Copy, Debug, PartialEq, Eq, Structural)]
pub struct RemapKey {
    pub fw: u32,
    pub fh: u32,
    pub ow: u32,
    pub oh: u32,
    pub uv: CropRect,
    pub lens_correct: bool,
    pub k1: u32,
    pub k2: u32,
    pub rot: u32,
}

/// The key of the table for a frame size, a view and an output size.
pub open spec fn remap_key(
    frame_w: u32,
    frame_h: u32,
    p: ViewParams,
    out_w: u32,
    out_h: u32,
) -> RemapKey {
    RemapKey {
        fw: frame_w,
        fh: frame_h,
        ow: out_w,
        oh: out_h,
        uv: p.uv,
        lens_correct: p.lens_correct,
        k1: p.k1,
        k2: p.k2,
        rot: p.rotation_deg,
    }
}

/// A lookup table and what it was made for.
pub struct Remap {
    pub key: RemapKey,
    pub map: Arc<Vec<usize>>,
}

/// The most recent lookup table.
pub struct RemapCache {
    pub entry: Option<Remap>,
}

/// The byte offset in the frame of the pixel nearest to column `px` and row
/// `py`.
pub open spec fn source_offset(px: int, py: int, fw: int, fh: int) -> int {
    let x = if px < fw - 1 { px } else { fw - 1 };
    let y = if py < fh - 1 { py } else { fh - 1 };
    (y * fw + x) * 4
}

/// The curve and edge of the lens in force for a table.
pub open spec fn key_lens(key: RemapKey) -> (u32, u32) {
    lens_in_force(key.lens_correct, key.k1, key.k2)
}

/// Whether `sample` can be called for every output pixel of a view.
pub open spec fn samples_view<F: Fn(usize, usize, u32, u32) -> (usize, usize)>(
    sample: F,
    p: ViewParams,
    out_w: u32,
    out_h: u32,
) -> bool {
    let (k1, k2) = lens_in_force(p.lens_correct, p.k1, p.k2);
    forall|i: usize, j: usize|
        i < out_w && j < out_h ==> #[trigger] call_requires(sample, (i, j, k1, k2))
}

/// Whether `offset` is where a call of `sample` with the curve and edge of
/// `lens` puts the output pixel in column `i` of row `j`.
pub open spec fn sampled<F: Fn(usize, usize, u32, u32) -> (usize, usize)>(
    sample: F,
    lens: (u32, u32),
    i: int,
    j: int,
    fw: int,
    fh: int,
    offset: usize,
) -> bool {
    exists|p: (usize, usize)| #[trigger]
        call_ensures(sample, (i as usize, j as usize, lens.0, lens.1), p) && offset
            == source_offset(p.0 as int, p.1 as int, fw, fh)
}

/// Whether `table` holds the offsets of all output pixels, row by row.
pub open spec fn is_remap<F: Fn(usize, usize, u32, u32) -> (usize, usize)>(
    sample: F,
    key: RemapKey,
    table: Seq<usize>,
) -> bool {
    &&& table.len() == key.ow * key.oh
    &&& forall|k: int|
        0 <= k < table.len() ==> sampled(
            sample,
            key_lens(key),
            k % (key.ow as int),
            k / (key.ow as int),
            key.fw as int,
            key.fh as int,
            #[trigger] table[k],
        )
}

/// Whether an offset is that of a pixel of the frame.
pub open spec fn is_pixel_offset(offset: int, fw: int, fh: int) -> bool {
    &&& 0 <= offset
    &&& offset % 4 == 0
    &&& offset + 3 < fw * fh * 4
}

/// Whether every offset of a table is that of a pixel of the frame.
pub open spec fn within_frame(table: Seq<usize>, fw: int, fh: int) -> bool {
    forall|k: int|
        0 <= k < table.len() ==> is_pixel_offset(#[trigger] table[k] as int, fw, fh)
}

impl RemapCache {
    /// The table has one offset for each output pixel, all within the frame.
    pub open spec fn wf(&self) -> bool {
        self.entry matches Some(e) ==> {
            &&& e.key.ow > 0
            &&& e.map@.len() == e.key.ow * e.key.oh
            &&& within_frame(e.map@, e.key.fw as int, e.key.fh as int)
        }
    }

    /// Whether the table of `key` is at hand.
    pub open spec fn hit(&self, key: RemapKey) -> bool {
        self.entry matches Some(e) && e.key == key
    }

    /// The table.
    pub open spec fn table(&self) -> Seq<usize> {
        self.entry.unwrap().map@
    }

    /// A cache that holds no table.
    pub fn new() -> (cache: RemapCache)
        ensures
            cache.entry is None,
            cache.wf(),
    {
        RemapCache { entry: None }
    }
}

/// What looking up the table of `key` does to the cache: a table that is at
/// hand stays, and any other gives way to a new one.
pub open spec fn looked_up<F: Fn(usize, usize, u32, u32) -> (usize, usize)>(
    before: RemapCache,
    after: RemapCache,
    key: RemapKey,
    sample: F,
) -> bool {
    &&& after.wf()
    &&& after.hit(key)
    &&& before.hit(key) ==> after == before
    &&& !before.hit(key) ==> is_remap(sample, key, after.table())
}

/// The `c`th piece of a sequence cut into pieces of `size` elements, of which
/// the last may be shorter.
pub open spec fn piece<T>(s: Seq<T>, size: int, c: int) -> Seq<T> {
    s.subrange(c * size, if (c + 1) * size < s.len() { (c + 1) * size } else { s.len() as int })
}

/// Whether there is a `c`th piece.
pub open spec fn has_piece<T>(s: Seq<T>, size: int, c: int) -> bool {
    0 <= c && c * size < s.len()
}

/// Whether `rows` holds the offsets of the output rows from row `first` on.
pub open spec fn rows_filled<F: Fn(usize, usize, u32, u32) -> (usize, usize)>(
    sample: F,
    lens: (u32, u32),
    first: int,
    ow: int,
    fw: int,
    fh: int,
    rows: Seq<usize>,
) -> bool {
    forall|k: int|
        0 <= k < rows.len() ==> sampled(
            sample,
            lens,
            k % ow,
            first + k / ow,
            fw,
            fh,
            #[trigger] rows[k],
        )
}

/// Fills the part of a lookup table that one task is given: the rows from
/// `chunk_idx * ROWS_PER_TASK` on.
fn fill_rows<F: Fn(usize, usize, u32, u32) -> (usize, usize)>(
    chunk_idx: usize,
    row_chunk: &mut [usize],
    ow: usize,
    oh: usize,
    fw: usize,
    fh: usize,
    lens: (u32, u32),
    sample: &F,
)
    requires
        ow > 0,
        old(row_chunk)@.len() % (ow as nat) == 0,
        chunk_idx * ROWS_PER_TASK + old(row_chunk)@.len() / (ow as nat) <= oh,
        old(row_chunk)@.len() > 0 ==> fw > 0 && fh > 0,
        fw * fh * 4 <= usize::MAX,
        forall|i: usize, j: usize| i < ow && j < oh ==> #[trigger] call_requires(
                    *sample,
                    (i, j, lens.0, lens.1),
                ),
    ensures
        final(row_chunk)@.len() == old(row_chunk)@.len(),
        rows_filled(
            *sample,
            lens,
            chunk_idx * ROWS_PER_TASK,
            ow as int,
            fw as int,
            fh as int,
            final(row_chunk)@,
        ),
{
    let ghost len = row_chunk@.len() as int;
    let rows: usize = row_chunk.len() / ow;
    proof {
        lemma_fundamental_div_mod(len, ow as int);
        assert(ow * rows == rows * ow) by (nonlinear_arith);
        assert(chunk_idx * ROWS_PER_TASK >= 0) by (nonlinear_arith)
            requires
                chunk_idx >= 0,
                ROWS_PER_TASK >= 0,
        ;
    }
    let y_start: usize = chunk_idx * ROWS_PER_TASK;
    let mut r: usize = 0;
    while r < rows
        invariant
            ow > 0,
            r <= rows,
            len == rows * ow,
            len <= usize::MAX,
            row_chunk@.len() == len,
            y_start == chunk_idx * ROWS_PER_TASK,
            y_start + rows <= oh,
            len > 0 ==> fw > 0 && fh > 0,
            fw * fh * 4 <= usize::MAX,
            forall|i: usize, j: usize|
                i < ow && j < oh ==> #[trigger] call_requires(
                    *sample,
                    (i, j, lens.0, lens.1),
                ),
            forall|k: int|
                0 <= k < r * ow ==> sampled(
                    *sample,
                    lens,
                    k % (ow as int),
                    y_start + k / (ow as int),
                    fw as int,
                    fh as int,
                    #[trigger] row_chunk@[k],
                ),
        decreases rows - r,
    {
        let j: usize = y_start + r;
        assert((r + 1) * ow <= rows * ow) by (nonlinear_arith)
            requires
                r + 1 <= rows,
                ow > 0,
        ;
        assert((r + 1) * ow == r * ow + ow) by (nonlinear_arith);
        assert(r * ow >= 0) by (nonlinear_arith);
        let mut i: usize = 0;
        while i < ow
            invariant
                i <= ow,
                ow > 0,
                r < rows,
                len == rows * ow,
                0 <= r * ow,
                r * ow + ow <= len <= usize::MAX,
                row_chunk@.len() == len,
                len > 0 ==> fw > 0 && fh > 0,
                j == y_start + r,
                j < oh,
                fw * fh * 4 <= usize::MAX,
                forall|i: usize, j: usize|
                    i < ow && j < oh ==> #[trigger] call_requires(
                    *sample,
                    (i, j, lens.0, lens.1),
                ),
                forall|k: int|
                    0 <= k < r * ow + i ==> sampled(
                        *sample,
                        lens,
                        k % (ow as int),
                        y_start + k / (ow as int),
                        fw as int,
                        fh as int,
                        #[trigger] row_chunk@[k],
                    ),
            decreases ow - i,
        {
            let (px, py) = sample(i, j, lens.0, lens.1);
            let y: usize = if py < fh - 1 { py } else { fh - 1 };
            let x: usize = if px < fw - 1 { px } else { fw - 1 };
            proof {
                assert(y * fw + x <= fw * fh - 1 && 0 <= y * fw) by (nonlinear_arith)
                    requires
                        0 <= y <= fh - 1,
                        0 <= x <= fw - 1,
                ;
            }
            let si: usize = (y * fw + x) * 4;
            let ghost before = row_chunk@;
            let ghost at = r * ow + i;
            row_chunk[r * ow + i] = si;
            proof {
                lemma_fundamental_div_mod_converse(at, ow as int, r as int, i as int);
                assert(call_ensures(*sample, (i, j, lens.0, lens.1), (px, py)));
                assert forall|k: int| 0 <= k < r * ow + i + 1 implies sampled(
                    *sample,
                    lens,
                    k % (ow as int),
                    y_start + k / (ow as int),
                    fw as int,
                    fh as int,
                    #[trigger] row_chunk@[k],
                ) by {
                    if k < at {
                        assert(row_chunk@[k] == before[k]);
                    } else {
                        assert(k % (ow as int) == i && k / (ow as int) == r);
                        assert(y_start + r == j);
                        assert(row_chunk@[k] == si);
                        let p = (px, py);
                        assert(call_ensures(
                            *sample,
                            (
                                (k % (ow as int)) as usize,
                                (y_start + k / (ow as int)) as usize,
                                lens.0,
                                lens.1,
                            ),
                            p,
                        ));
                        assert(si == source_offset(px as int, py as int, fw as int, fh as int));
                    }
                }
            }
            i = i + 1;
        }
        r = r + 1;
    }
}

/// The frame bytes of channel `channel` (blue, green, red or red, green, blue,
/// then full alpha) of an output pixel taken from `offset`.
pub open spec fn channel_byte(src: Seq<u8>, offset: int, channel: int, swap_rb: bool) -> u8 {
    if channel == 3 {
        255
    } else if swap_rb {
        src[offset + 2 - channel]
    } else {
        src[offset + channel]
    }
}

/// The pixels that the offsets of `map` gather from the frame bytes `src`.
pub open spec fn gathered(map: Seq<usize>, src: Seq<u8>, swap_rb: bool) -> Seq<u8> {
    Seq::new(map.len() * 4, |b: int| channel_byte(src, map[b / 4] as int, b % 4, swap_rb))
}

/// Gathers the part of the output that one task is given.
fn gather_rows(chunk: &mut [u8], map_slice: &[usize], src: &[u8], swap_rb: bool)
    requires
        old(chunk)@.len() == map_slice@.len() * 4,
        forall|k: int| 0 <= k < map_slice@.len() ==> #[trigger] map_slice@[k] + 2 < src@.len(),
    ensures
        final(chunk)@ == gathered(map_slice@, src@, swap_rb),
{
    let total: usize = chunk.len();
    let px_count: usize = map_slice.len();
    let mut i: usize = 0;
    while i < px_count
        invariant
            i <= px_count,
            px_count == map_slice@.len(),
            total == px_count * 4,
            chunk@.len() == total,
            forall|k: int| 0 <= k < map_slice@.len() ==> #[trigger] map_slice@[k] + 2 < src@.len(),
            forall|b: int|
                0 <= b < i * 4 ==> #[trigger] chunk@[b] == channel_byte(
                    src@,
                    map_slice@[b / 4] as int,
                    b % 4,
                    swap_rb,
                ),
        decreases px_count - i,
    {
        let bytes: usize = src.len();
        let si: usize = map_slice[i];
        assert(map_slice@[i as int] + 2 < bytes);
        let o: usize = i * 4;
        if swap_rb {
            chunk[o] = src[si + 2];
            chunk[o + 1] = src[si + 1];
            chunk[o + 2] = src[si];
        } else {
            chunk[o] = src[si];
            chunk[o + 1] = src[si + 1];
            chunk[o + 2] = src[si + 2];
        }
        chunk[o + 3] = 255;
        i = i + 1;
    }
    assert(chunk@ =~= gathered(map_slice@, src@, swap_rb));
}

/// One pixel with red and blue exchanged and full alpha.
pub open spec fn swapped_pixel(s: Seq<u8>) -> Seq<u8> {
    seq![s[2], s[1], s[0], 255u8]
}

/// Writes one pixel with red and blue exchanged.
fn swap_pixel(dst: &mut [u8], s: &[u8])
    requires
        old(dst)@.len() == 4,
        s@.len() == 4,
    ensures
        final(dst)@ == swapped_pixel(s@),
{
    dst[0] = s[2];
    dst[1] = s[1];
    dst[2] = s[0];
    dst[3] = 255;
    assert(dst@ =~= swapped_pixel(s@));
}

/// Runs [`fill_rows`] on every piece of `map` of `chunk_size` elements, with the
/// number of the piece, on rayon's thread pool: `par_chunks_mut` cuts the slice
/// into disjoint pieces of that size (the last may be shorter) and panics on
/// size zero, `enumerate` numbers them from zero, and `for_each` runs the
/// closure on each of them once. The claim is that each piece then is as one
/// run of `fill_rows` on it, with its number, leaves it.
#[verifier::external_body]
fn par_fill<F: Fn(usize, usize, u32, u32) -> (usize, usize) + Sync>(
    map: &mut Vec<usize>,
    chunk_size: usize,
    ow: usize,
    oh: usize,
    fw: usize,
    fh: usize,
    lens: (u32, u32),
    sample: &F,
)
    requires
        chunk_size > 0,
        ow > 0,
        forall|c: int|
            has_piece(old(map)@, chunk_size as int, c) ==> {
                let part = #[trigger] piece(old(map)@, chunk_size as int, c);
                &&& part.len() % (ow as nat) == 0
                &&& c * ROWS_PER_TASK + part.len() / (ow as nat) <= oh
            },
        old(map)@.len() > 0 ==> fw > 0 && fh > 0,
        fw * fh * 4 <= usize::MAX,
        forall|i: usize, j: usize| i < ow && j < oh ==> #[trigger] call_requires(
                *sample,
                (i, j, lens.0, lens.1),
            ),
    ensures
        final(map)@.len() == old(map)@.len(),
        forall|c: int|
            has_piece(final(map)@, chunk_size as int, c) ==> rows_filled(
                *sample,
                lens,
                c * ROWS_PER_TASK,
                ow as int,
                fw as int,
                fh as int,
                #[trigger] piece(final(map)@, chunk_size as int, c),
            ),
{
    map.par_chunks_mut(chunk_size).enumerate().for_each(
        |(chunk_idx, row_chunk)| fill_rows(chunk_idx, row_chunk, ow, oh, fw, fh, lens, sample),
    );
}

/// Runs [`gather_rows`] on every piece of `out` of `chunk_size` bytes together
/// with the piece of `map` of the same number, on rayon's thread pool:
/// `par_chunks_mut` and `par_chunks` cut the two slices into disjoint pieces
/// (the last may be shorter) and panic on size zero, `zip` pairs those of the
/// same number, and `for_each` runs the closure on each pair once. The claim is
/// that each piece of `out` then is as one run of `gather_rows` leaves it.
#[verifier::external_body]
fn par_gather(
    out: &mut Vec<u8>,
    chunk_size: usize,
    map: &Vec<usize>,
    map_chunk_size: usize,
    src: &Vec<u8>,
    swap_rb: bool,
)
    requires
        chunk_size > 0,
        map_chunk_size > 0,
        forall|c: int|
            has_piece(old(out)@, chunk_size as int, c) <==> has_piece(
                map@,
                map_chunk_size as int,
                c,
            ),
        forall|c: int|
            has_piece(map@, map_chunk_size as int, c) ==> #[trigger] piece(
                old(out)@,
                chunk_size as int,
                c,
            ).len() == piece(map@, map_chunk_size as int, c).len() * 4,
        forall|k: int| 0 <= k < map@.len() ==> #[trigger] map@[k] + 2 < src@.len(),
    ensures
        final(out)@.len() == old(out)@.len(),
        forall|c: int|
            has_piece(map@, map_chunk_size as int, c) ==> #[trigger] piece(
                final(out)@,
                chunk_size as int,
                c,
            ) == gathered(piece(map@, map_chunk_size as int, c), src@, swap_rb),
{
    out.par_chunks_mut(chunk_size).zip(map.par_chunks(map_chunk_size)).for_each(
        |(chunk, map_slice)| gather_rows(chunk, map_slice, src, swap_rb),
    );
}

/// Runs [`swap_pixel`] on every full four bytes of `out` together with those of
/// `src` in the same place, on rayon's thread pool: `par_chunks_exact_mut` and
/// `par_chunks_exact` leave out a rest of less than four bytes, `zip` stops at
/// the shorter of the two, and `for_each` runs the closure on each pair once.
/// The claim is that each such pixel then is as `swap_pixel` leaves it, and
/// that no other byte has changed.
#[verifier::external_body]
fn par_swap(out: &mut Vec<u8>, src: &Vec<u8>)
    ensures
        final(out)@.len() == old(out)@.len(),
        forall|c: int|
            0 <= c < old(out)@.len() / 4 && c < src@.len() / 4 ==> #[trigger] final(out)@.subrange(
                c * 4,
                c * 4 + 4,
            ) == swapped_pixel(src@.subrange(c * 4, c * 4 + 4)),
        forall|b: int|
            0 <= b < old(out)@.len() && (b / 4 >= old(out)@.len() / 4 || b / 4 >= src@.len() / 4)
                ==> #[trigger] final(out)@[b] == old(out)@[b],
{
    out.par_chunks_exact_mut(4).zip(src.par_chunks_exact(4)).for_each(
        |(dst, s)| swap_pixel(dst, s),
    );
}

/// An element of a sequence stands in the piece of its number.
proof fn lemma_piece_index<T>(s: Seq<T>, size: int, k: int)
    requires
        size > 0,
        0 <= k < s.len(),
    ensures
        has_piece(s, size, k / size),
        0 <= k % size < piece(s, size, k / size).len(),
        piece(s, size, k / size)[k % size] == s[k],
        k == (k / size) * size + k % size,
{
    let c = k / size;
    lemma_fundamental_div_mod(k, size);
    assert(size * c == c * size) by (nonlinear_arith);
    assert((c + 1) * size == c * size + size) by (nonlinear_arith);
    assert(c >= 0) by (nonlinear_arith)
        requires
            k >= 0,
            size > 0,
            c == k / size,
    ;
    assert(c * size >= 0) by (nonlinear_arith)
        requires
            c >= 0,
            size > 0,
    ;
}

/// A piece of full rows of a table of `oh` rows holds full rows of it.
proof fn lemma_piece_rows<T>(s: Seq<T>, ow: int, oh: int, c: int)
    requires
        ow > 0,
        oh >= 0,
        s.len() == ow * oh,
        has_piece(s, ROWS_PER_TASK * ow, c),
    ensures
        piece(s, ROWS_PER_TASK * ow, c).len() % (ow as nat) == 0,
        c * ROWS_PER_TASK + piece(s, ROWS_PER_TASK * ow, c).len() / (ow as nat) <= oh,
{
    let size = ROWS_PER_TASK * ow;
    let first = c * ROWS_PER_TASK;
    let last = if first + ROWS_PER_TASK < oh {
        first + ROWS_PER_TASK
    } else {
        oh
    };
    assert(c * size == first * ow) by (nonlinear_arith)
        requires
            size == ROWS_PER_TASK * ow,
            first == c * ROWS_PER_TASK,
    ;
    assert((c + 1) * size == (first + ROWS_PER_TASK) * ow) by (nonlinear_arith)
        requires
            size == ROWS_PER_TASK * ow,
            first == c * ROWS_PER_TASK,
    ;
    assert(ow * oh == oh * ow) by (nonlinear_arith);
    assert((first + ROWS_PER_TASK) * ow < oh * ow <==> first + ROWS_PER_TASK < oh)
        by (nonlinear_arith)
        requires
            ow > 0,
    ;
    assert(first < oh) by (nonlinear_arith)
        requires
            first * ow < oh * ow,
            ow > 0,
    ;
    assert(0 <= first * ow) by (nonlinear_arith)
        requires
            first == c * ROWS_PER_TASK,
            c >= 0,
            ow > 0,
            ROWS_PER_TASK > 0,
    ;
    assert(first * ow <= (first + ROWS_PER_TASK) * ow) by (nonlinear_arith)
        requires
            ow > 0,
            ROWS_PER_TASK > 0,
    ;
    let len = piece(s, size, c).len() as int;
    assert(len == last * ow - first * ow);
    assert(last * ow - first * ow == (last - first) * ow) by (nonlinear_arith);
    lemma_fundamental_div_mod_converse(len, ow, last - first, 0);
}

/// The rows of all pieces are the rows of the whole.
proof fn lemma_rows_of_pieces<F: Fn(usize, usize, u32, u32) -> (usize, usize)>(
    sample: F,
    key: RemapKey,
    table: Seq<usize>,
)
    requires
        key.ow > 0,
        table.len() == key.ow * key.oh,
        forall|c: int|
            has_piece(table, ROWS_PER_TASK * key.ow, c) ==> rows_filled(
                sample,
                key_lens(key),
                c * ROWS_PER_TASK,
                key.ow as int,
                key.fw as int,
                key.fh as int,
                #[trigger] piece(table, ROWS_PER_TASK * key.ow, c),
            ),
    ensures
        is_remap(sample, key, table),
{
    let ow = key.ow as int;
    let size = ROWS_PER_TASK * ow;
    assert forall|k: int| 0 <= k < table.len() implies sampled(
        sample,
        key_lens(key),
        k % ow,
        k / ow,
        key.fw as int,
        key.fh as int,
        #[trigger] table[k],
    ) by {
        assert(size > 0) by (nonlinear_arith)
            requires
                size == ROWS_PER_TASK * ow,
                ow > 0,
                ROWS_PER_TASK > 0,
        ;
        lemma_piece_index(table, size, k);
        let c = k / size;
        let r = k % size;
        let part = piece(table, size, c);
        assert(rows_filled(
            sample,
            key_lens(key),
            c * ROWS_PER_TASK,
            ow,
            key.fw as int,
            key.fh as int,
            part,
        ));
        assert(part[r] == table[k]);
        lemma_fundamental_div_mod(r, ow);
        let q = c * ROWS_PER_TASK + r / ow;
        assert(k == q * ow + r % ow) by (nonlinear_arith)
            requires
                k == c * size + r,
                size == ROWS_PER_TASK * ow,
                r == ow * (r / ow) + r % ow,
                q == c * ROWS_PER_TASK + r / ow,
        ;
        lemma_fundamental_div_mod_converse(k, ow, q, r % ow);
    }
}

/// An offset that a sample leads to is that of a pixel of the frame.
proof fn lemma_offset_within(px: int, py: int, fw: int, fh: int)
    requires
        fw > 0,
        fh > 0,
        0 <= px,
        0 <= py,
    ensures
        is_pixel_offset(source_offset(px, py, fw, fh), fw, fh),
{
    let x = if px < fw - 1 { px } else { fw - 1 };
    let y = if py < fh - 1 { py } else { fh - 1 };
    assert(0 <= y * fw && y * fw + x <= fw * fh - 1) by (nonlinear_arith)
        requires
            0 <= y <= fh - 1,
            0 <= x <= fw - 1,
    ;
}

/// A table of a frame that has pixels stays within the frame.
pub proof fn law_remap_within_frame<F: Fn(usize, usize, u32, u32) -> (usize, usize)>(
    sample: F,
    key: RemapKey,
    table: Seq<usize>,
)
    requires
        is_remap(sample, key, table),
        key.fw > 0,
        key.fh > 0,
    ensures
        within_frame(table, key.fw as int, key.fh as int),
{
    assert forall|k: int| 0 <= k < table.len() implies is_pixel_offset(
        #[trigger] table[k] as int,
        key.fw as int,
        key.fh as int,
    ) by {
        let ow = key.ow as int;
        assert(sampled(
            sample,
            key_lens(key),
            k % ow,
            k / ow,
            key.fw as int,
            key.fh as int,
            table[k],
        ));
        let p = choose|p: (usize, usize)| #[trigger]
            call_ensures(
                sample,
                ((k % ow) as usize, (k / ow) as usize, key_lens(key).0, key_lens(key).1),
                p,
            ) && table[k]
                == source_offset(p.0 as int, p.1 as int, key.fw as int, key.fh as int);
        lemma_offset_within(p.0 as int, p.1 as int, key.fw as int, key.fh as int);
    }
}

/// The lookup table for a view: the one at hand where nothing that it depends
/// on has changed, else a new one, which is then kept.
pub fn get_or_compute_remap<F: Fn(usize, usize, u32, u32) -> (usize, usize) + Sync>(
    cache: &mut RemapCache,
    frame_w: u32,
    frame_h: u32,
    p: &ViewParams,
    out_w: u32,
    out_h: u32,
    sample: &F,
) -> (map: Arc<Vec<usize>>)
    requires
        old(cache).wf(),
        out_w > 0,
        out_h > 0 ==> frame_w > 0 && frame_h > 0,
        out_w * out_h * 8 <= isize::MAX,
        ROWS_PER_TASK * out_w <= usize::MAX,
        frame_w * frame_h * 4 <= usize::MAX,
        samples_view(*sample, *p, out_w, out_h),
    ensures
        looked_up(
            *old(cache),
            *final(cache),
            remap_key(frame_w, frame_h, *p, out_w, out_h),
            *sample,
        ),
        map@ == final(cache).table(),
        map@.len() == out_w * out_h,
        within_frame(map@, frame_w as int, frame_h as int),
{
    let key = RemapKey {
        fw: frame_w,
        fh: frame_h,
        ow: out_w,
        oh: out_h,
        uv: p.uv,
        lens_correct: p.lens_correct,
        k1: p.k1,
        k2: p.k2,
        rot: p.rotation_deg,
    };
    if let Some(remap) = &cache.entry {
        if remap.key == key {
            return remap.map.clone();
        }
    }
    let ow: usize = out_w as usize;
    let oh: usize = out_h as usize;
    assert(ow * oh >= 0) by (nonlinear_arith);
    let mut map: Vec<usize> = vec![0usize; ow * oh];
    proof {
        assert(oh >= 1 ==> ow <= ow * oh) by (nonlinear_arith)
            requires
                oh >= 0,
                ow > 0,
        ;
        assert(oh == 0 ==> ow * oh == 0) by (nonlinear_arith);
        assert(ROWS_PER_TASK * ow > 0) by (nonlinear_arith)
            requires
                ow > 0,
                ROWS_PER_TASK > 0,
        ;
        assert forall|c: int| has_piece(map@, ROWS_PER_TASK * ow, c) implies {
            let part = #[trigger] piece(map@, ROWS_PER_TASK * ow, c);
            &&& part.len() % (ow as nat) == 0
            &&& c * ROWS_PER_TASK + part.len() / (ow as nat) <= oh
        } by {
            lemma_piece_rows(map@, ow as int, oh as int, c);
        }
    }
    let lens = applied_lens(p);
    par_fill(
        &mut map,
        ROWS_PER_TASK * ow,
        ow,
        oh,
        frame_w as usize,
        frame_h as usize,
        lens,
        sample,
    );
    proof {
        lemma_rows_of_pieces(*sample, key, map@);
        if out_h > 0 {
            law_remap_within_frame(*sample, key, map@);
        }
    }
    let map = Arc::new(map);
    cache.entry = Some(Remap { key, map: map.clone() });
    map
}

/// The pixels of all pieces are the pixels of the whole.
proof fn lemma_pixels_of_pieces(
    out: Seq<u8>,
    map: Seq<usize>,
    map_size: int,
    src: Seq<u8>,
    swap_rb: bool,
)
    requires
        map_size > 0,
        out.len() == map.len() * 4,
        forall|c: int|
            has_piece(map, map_size, c) ==> #[trigger] piece(out, map_size * 4, c) == gathered(
                piece(map, map_size, c),
                src,
                swap_rb,
            ),
    ensures
        out == gathered(map, src, swap_rb),
{
    assert forall|b: int| 0 <= b < out.len() implies #[trigger] out[b] == channel_byte(
        src,
        map[b / 4] as int,
        b % 4,
        swap_rb,
    ) by {
        let k = b / 4;
        lemma_piece_index(map, map_size, k);
        lemma_piece_index(out, map_size * 4, b);
        let c = k / map_size;
        let r = k % map_size;
        assert(b == c * (map_size * 4) + (r * 4 + b % 4)) by (nonlinear_arith)
            requires
                k == c * map_size + r,
                b == 4 * k + b % 4,
        ;
        lemma_fundamental_div_mod_converse(b, map_size * 4, c, r * 4 + b % 4);
        assert(piece(out, map_size * 4, c)[r * 4 + b % 4] == out[b]);
        assert(piece(map, map_size, c)[r] == map[k]);
        assert((r * 4 + b % 4) / 4 == r && (r * 4 + b % 4) % 4 == b % 4);
    }
    assert(out =~= gathered(map, src, swap_rb));
}

/// The pieces of the output fit those of the table.
proof fn lemma_pieces_fit(out: Seq<u8>, map: Seq<usize>, map_size: int, c: int)
    requires
        map_size > 0,
        out.len() == map.len() * 4,
    ensures
        has_piece(out, map_size * 4, c) <==> has_piece(map, map_size, c),
        has_piece(map, map_size, c) ==> piece(out, map_size * 4, c).len() == piece(
            map,
            map_size,
            c,
        ).len() * 4,
{
    assert(c * (map_size * 4) == 4 * (c * map_size)) by (nonlinear_arith);
    assert((c + 1) * (map_size * 4) == 4 * ((c + 1) * map_size)) by (nonlinear_arith);
    assert((c + 1) * map_size == c * map_size + map_size) by (nonlinear_arith);
    if has_piece(map, map_size, c) {
        assert(c * map_size >= 0) by (nonlinear_arith)
            requires
                c >= 0,
                map_size > 0,
        ;
    }
}

/// The picture of a view that shows the frame pixel for pixel, in a buffer of
/// `len` bytes: the colours of the frame, with red and blue exchanged or not, and
/// full alpha. In the exchanged order, pixels that the frame lacks stay black.
pub open spec fn unchanged_picture(src: Seq<u8>, len: nat, swap_rb: bool) -> Seq<u8> {
    if swap_rb {
        Seq::new(
            len,
            |b: int|
                if b / 4 < src.len() as int / 4 {
                    channel_byte(src, b / 4 * 4, b % 4, true)
                } else {
                    0u8
                },
        )
    } else {
        Seq::new(len, |b: int| channel_byte(src, b / 4 * 4, b % 4, false))
    }
}

/// The frame bytes with full alpha.
fn opaque_copy(src: &Vec<u8>) -> (out: Vec<u8>)
    requires
        src@.len() % 4 == 0,
    ensures
        out@ == unchanged_picture(src@, src@.len(), false),
{
    let mut out: Vec<u8> = src.clone();
    let total: usize = src.len();
    let mut at: usize = 0;
    while at < total
        invariant
            at <= total,
            at % 4 == 0,
            total % 4 == 0,
            total == src@.len(),
            out@.len() == total,
            forall|b: int|
                0 <= b < at ==> #[trigger] out@[b] == channel_byte(src@, b / 4 * 4, b % 4, false),
            forall|b: int| at <= b < total ==> #[trigger] out@[b] == src@[b],
        decreases total - at,
    {
        out[at + 3] = 255;
        at = at + 4;
    }
    assert(out@ =~= unchanged_picture(src@, src@.len(), false));
    out
}

/// The frames, views and sizes that can be rendered.
pub open spec fn renderable(
    frame: Frame,
    p: ViewParams,
    out_w: u32,
    out_h: u32,
    swap_rb: bool,
) -> bool {
    if is_identity(p, frame.width, frame.height, out_w, out_h) {
        &&& out_w * out_h * 4 <= isize::MAX
        &&& !swap_rb ==> frame.rgba@.len() == frame.byte_len()
    } else {
        &&& out_w > 0
        &&& out_w * out_h * 8 <= isize::MAX
        &&& ROWS_PER_TASK * out_w * 4 <= usize::MAX
        &&& frame.width * frame.height * 4 <= usize::MAX
        &&& out_h > 0 ==> {
            &&& frame.width > 0
            &&& frame.height > 0
            &&& frame.rgba@.len() >= frame.byte_len()
        }
    }
}

/// Tells whether a frame can be rendered.
pub fn can_render(frame: &Frame, p: &ViewParams, out_w: u32, out_h: u32, swap_rb: bool) -> (can:
    bool)
    ensures
        can == renderable(*frame, *p, out_w, out_h, swap_rb),
{
    proof {
        lemma_extent_product(frame.width, frame.height);
        lemma_extent_product(out_w, out_h);
    }
    let held: u128 = frame.rgba.len() as u128;
    let needed: u128 = frame.width as u128 * frame.height as u128 * 4;
    let pixels: u128 = out_w as u128 * out_h as u128;
    if p.shows_unchanged(frame.width, frame.height, out_w, out_h) {
        pixels * 4 <= isize::MAX as u128 && (swap_rb || held == needed)
    } else {
        out_w > 0 && pixels * 8 <= isize::MAX as u128 && ROWS_PER_TASK as u128 * out_w as u128 * 4
            <= usize::MAX as u128 && needed <= usize::MAX as u128 && (out_h == 0 || (frame.width > 0
            && frame.height > 0 && held >= needed))
    }
}

/// The product of two extents.
proof fn lemma_extent_product(w: u32, h: u32)
    ensures
        0 <= w * h <= 0xffff_ffff * 0xffff_ffff,
{
    assert(0 <= w * h <= 0xffff_ffff * 0xffff_ffff) by (nonlinear_arith)
        requires
            0 <= w <= 0xffff_ffff,
            0 <= h <= 0xffff_ffff,
    ;
}

/// What rendering a frame gives and does to the cache.
pub open spec fn rendered<F: Fn(usize, usize, u32, u32) -> (usize, usize)>(
    before: RemapCache,
    after: RemapCache,
    frame: Frame,
    p: ViewParams,
    out_w: u32,
    out_h: u32,
    swap_rb: bool,
    sample: F,
    out: Seq<u8>,
) -> bool {
    if is_identity(p, frame.width, frame.height, out_w, out_h) {
        &&& after == before
        &&& out == unchanged_picture(frame.rgba@, (out_w * out_h * 4) as nat, swap_rb)
    } else {
        &&& looked_up(
            before,
            after,
            remap_key(frame.width, frame.height, p, out_w, out_h),
            sample,
        )
        &&& out == gathered(after.table(), frame.rgba@, swap_rb)
    }
}

/// Renders the view `p` of `frame` into a buffer of `out_w` by `out_h` pixels, with
/// red and blue exchanged where `swap_rb`.
pub fn warp_frame<F: Fn(usize, usize, u32, u32) -> (usize, usize) + Sync>(
    cache: &mut RemapCache,
    frame: &Frame,
    p: &ViewParams,
    out_w: u32,
    out_h: u32,
    swap_rb: bool,
    sample: &F,
) -> (out: Vec<u8>)
    requires
        old(cache).wf(),
        renderable(*frame, *p, out_w, out_h, swap_rb),
        samples_view(*sample, *p, out_w, out_h),
    ensures
        rendered(*old(cache), *final(cache), *frame, *p, out_w, out_h, swap_rb, *sample, out@),
        final(cache).wf(),
{
    let ow: usize = out_w as usize;
    let oh: usize = out_h as usize;
    proof {
        assert(ow * oh >= 0) by (nonlinear_arith);
        assert(ow * oh * 4 == out_w * out_h * 4);
    }
    let src: &Vec<u8> = &frame.rgba;
    if p.shows_unchanged(frame.width, frame.height, out_w, out_h) {
        if swap_rb {
            let mut out: Vec<u8> = vec![0u8; ow * oh * 4];
            par_swap(&mut out, src);
            proof {
                let want = unchanged_picture(src@, (out_w * out_h * 4) as nat, true);
                assert forall|b: int| 0 <= b < out@.len() implies #[trigger] out@[b] == want[b] by {
                    let c = b / 4;
                    if c < src@.len() / 4 {
                        assert(out@.subrange(c * 4, c * 4 + 4)[b % 4] == out@[b]);
                        let s = src@.subrange(c * 4, c * 4 + 4);
                        assert(s[2] == src@[c * 4 + 2] && s[1] == src@[c * 4 + 1] && s[0]
                            == src@[c * 4]);
                    }
                }
                assert(out@ =~= want);
            }
            return out;
        }
        return opaque_copy(src);
    }
    let map = get_or_compute_remap(cache, frame.width, frame.height, p, out_w, out_h, sample);
    let mut out: Vec<u8> = vec![0u8; ow * oh * 4];
    let map_chunk_size: usize = ROWS_PER_TASK * ow;
    let chunk_size: usize = map_chunk_size * 4;
    proof {
        assert forall|c: int|
            has_piece(out@, chunk_size as int, c) <==> has_piece(
                map@,
                map_chunk_size as int,
                c,
            ) by {
            lemma_pieces_fit(out@, map@, map_chunk_size as int, c);
        }
        assert forall|c: int| has_piece(map@, map_chunk_size as int, c) implies #[trigger] piece(
            out@,
            chunk_size as int,
            c,
        ).len() == piece(map@, map_chunk_size as int, c).len() * 4 by {
            lemma_pieces_fit(out@, map@, map_chunk_size as int, c);
        }
        assert forall|k: int| 0 <= k < map@.len() implies #[trigger] map@[k] + 2 < src@.len() by {
            assert(out_h > 0) by (nonlinear_arith)
                requires
                    0 < map@.len(),
                    map@.len() == out_w * out_h,
            ;
            assert(is_pixel_offset(map@[k] as int, frame.width as int, frame.height as int));
        }
    }
    par_gather(&mut out, chunk_size, &map, map_chunk_size, src, swap_rb);
    proof {
        lemma_pixels_of_pieces(out@, map@, map_chunk_size as int, src@, swap_rb);
    }
    out
}

/// Renders the processed (cropped, lens-flattened and turned) view of `frame`
/// into a top-down BGRA buffer of `out_w` by `out_h` pixels.
pub fn warp_to_bgra<F: Fn(usize, usize, u32, u32) -> (usize, usize) + Sync>(
    cache: &mut RemapCache,
    frame: &Frame,
    p: &ViewParams,
    out_w: u32,
    out_h: u32,
    sample: &F,
) -> (out: Vec<u8>)
    requires
        old(cache).wf(),
        renderable(*frame, *p, out_w, out_h, true),
        samples_view(*sample, *p, out_w, out_h),
    ensures
        rendered(*old(cache), *final(cache), *frame, *p, out_w, out_h, true, *sample, out@),
        final(cache).wf(),
{
    warp_frame(cache, frame, p, out_w, out_h, true, sample)
}

/// Same as [`warp_to_bgra`], but keeps the RGBA channel order, for consumers
/// that expect it.
pub fn warp_to_rgba<F: Fn(usize, usize, u32, u32) -> (usize, usize) + Sync>(
    cache: &mut RemapCache,
    frame: &Frame,
    p: &ViewParams,
    out_w: u32,
    out_h: u32,
    sample: &F,
) -> (out: Vec<u8>)
    requires
        old(cache).wf(),
        renderable(*frame, *p, out_w, out_h, false),
        samples_view(*sample, *p, out_w, out_h),
    ensures
        rendered(*old(cache), *final(cache), *frame, *p, out_w, out_h, false, *sample, out@),
        final(cache).wf(),
{
    warp_frame(cache, frame, p, out_w, out_h, false, sample)
}

/// What a lookup table depends on besides the lens coefficients.
pub struct Pose {
    pub fw: u32,
    pub fh: u32,
    pub ow: u32,
    pub oh: u32,
    pub uv: CropRect,
    pub rot: u32,
}

/// The pose of a key.
pub open spec fn pose(key: RemapKey) -> Pose {
    Pose { fw: key.fw, fh: key.fh, ow: key.ow, oh: key.oh, uv: key.uv, rot: key.rot }
}

/// A lens: where each output position of a view is taken from, given the pose and
/// the curve and edge in force.
pub type Lens = spec_fn(Pose, (u32, u32), int, int) -> (int, int);

/// Whether every result of `sample` is where `lens` puts that position.
pub open spec fn follows<F: Fn(usize, usize, u32, u32) -> (usize, usize)>(
    sample: F,
    lens: Lens,
    key: RemapKey,
) -> bool {
    forall|i: usize, j: usize, k1: u32, k2: u32, p: (usize, usize)| #[trigger]
        call_ensures(sample, (i, j, k1, k2), p) ==> (p.0 as int, p.1 as int) == lens(
            pose(key),
            (k1, k2),
            i as int,
            j as int,
        )
}

/// The table of a view under a lens.
pub open spec fn lens_table(lens: Lens, key: RemapKey) -> Seq<int> {
    Seq::new(
        (key.ow * key.oh) as nat,
        |k: int|
            {
                let at = lens(pose(key), key_lens(key), k % (key.ow as int), k / (key.ow as int));
                source_offset(at.0, at.1, key.fw as int, key.fh as int)
            },
    )
}

/// Whether the cache holds nothing but what the lens gives.
pub open spec fn cache_follows(cache: RemapCache, lens: Lens) -> bool {
    cache.entry matches Some(e) ==> e.map@.map_values(|o: usize| o as int) == lens_table(
        lens,
        e.key,
    )
}

/// The lookup table that is used is the one that the lens gives, whether it was
/// at hand or not: what the cache held before makes no difference.
pub proof fn law_cache_is_transparent<F: Fn(usize, usize, u32, u32) -> (usize, usize)>(
    lens: Lens,
    before: RemapCache,
    after: RemapCache,
    key: RemapKey,
    sample: F,
)
    requires
        cache_follows(before, lens),
        follows(sample, lens, key),
        looked_up(before, after, key, sample),
    ensures
        cache_follows(after, lens),
        after.table().map_values(|o: usize| o as int) == lens_table(lens, key),
{
    if !before.hit(key) {
        let table = after.table();
        let want = lens_table(lens, key);
        let ow = key.ow as int;
        let oh = key.oh as int;
        let (k1, k2) = key_lens(key);
        assert forall|k: int| 0 <= k < table.len() implies #[trigger] table[k] == want[k] by {
            assert(sampled(
                sample,
                key_lens(key),
                k % ow,
                k / ow,
                key.fw as int,
                key.fh as int,
                table[k],
            ));
            lemma_fundamental_div_mod(k, ow);
            assert(0 <= k / ow < oh) by (nonlinear_arith)
                requires
                    0 <= k < ow * oh,
                    ow > 0,
                    k == ow * (k / ow) + k % ow,
                    0 <= k % ow < ow,
            ;
            let p = choose|p: (usize, usize)| #[trigger]
                call_ensures(sample, ((k % ow) as usize, (k / ow) as usize, k1, k2), p)
                    && table[k] == source_offset(
                    p.0 as int,
                    p.1 as int,
                    key.fw as int,
                    key.fh as int,
                );
            assert(call_ensures(sample, ((k % ow) as usize, (k / ow) as usize, k1, k2), p));
        }
        assert(table.map_values(|o: usize| o as int) =~= want);
    }
}

/// A lookup table depends on the pose and on the curve and edge in force alone:
/// whenever it is asked for, and whatever the caches held, it is the same.
pub proof fn law_table_is_determined<
    F: Fn(usize, usize, u32, u32) -> (usize, usize),
    G: Fn(usize, usize, u32, u32) -> (usize, usize),
>(
    lens: Lens,
    before: RemapCache,
    after: RemapCache,
    other_before: RemapCache,
    other_after: RemapCache,
    key: RemapKey,
    other: RemapKey,
    sample: F,
    other_sample: G,
)
    requires
        pose(key) == pose(other),
        key_lens(key) == key_lens(other),
        cache_follows(before, lens),
        cache_follows(other_before, lens),
        follows(sample, lens, key),
        follows(other_sample, lens, other),
        looked_up(before, after, key, sample),
        looked_up(other_before, other_after, other, other_sample),
    ensures
        after.table() == other_after.table(),
{
    law_cache_is_transparent(lens, before, after, key, sample);
    law_cache_is_transparent(lens, other_before, other_after, other, other_sample);
    assert(lens_table(lens, key) =~= lens_table(lens, other));
    lemma_same_offsets(after.table(), other_after.table(), lens_table(lens, key));
}

/// Two views that differ only in the curve and edge of a lens that neither
/// flattens have the same lookup table.
pub proof fn law_unused_lens_does_not_count<
    F: Fn(usize, usize, u32, u32) -> (usize, usize),
    G: Fn(usize, usize, u32, u32) -> (usize, usize),
>(
    lens: Lens,
    before: RemapCache,
    after: RemapCache,
    other_before: RemapCache,
    other_after: RemapCache,
    frame_w: u32,
    frame_h: u32,
    p: ViewParams,
    k1: u32,
    k2: u32,
    out_w: u32,
    out_h: u32,
    sample: F,
    other_sample: G,
)
    requires
        !p.lens_correct,
        cache_follows(before, lens),
        cache_follows(other_before, lens),
        follows(sample, lens, remap_key(frame_w, frame_h, p, out_w, out_h)),
        follows(
            other_sample,
            lens,
            remap_key(frame_w, frame_h, ViewParams { k1, k2, ..p }, out_w, out_h),
        ),
        looked_up(before, after, remap_key(frame_w, frame_h, p, out_w, out_h), sample),
        looked_up(
            other_before,
            other_after,
            remap_key(frame_w, frame_h, ViewParams { k1, k2, ..p }, out_w, out_h),
            other_sample,
        ),
    ensures
        after.table() == other_after.table(),
{
    let key = remap_key(frame_w, frame_h, p, out_w, out_h);
    let other = remap_key(frame_w, frame_h, ViewParams { k1, k2, ..p }, out_w, out_h);
    law_table_is_determined(
        lens,
        before,
        after,
        other_before,
        other_after,
        key,
        other,
        sample,
        other_sample,
    );
}

/// Tables of the same offsets are the same.
proof fn lemma_same_offsets(x: Seq<usize>, y: Seq<usize>, offsets: Seq<int>)
    requires
        x.map_values(|o: usize| o as int) == offsets,
        y.map_values(|o: usize| o as int) == offsets,
    ensures
        x == y,
{
    assert(x.len() == offsets.len() && y.len() == offsets.len());
    assert forall|k: int| 0 <= k < x.len() implies #[trigger] x[k] == y[k] by {
        assert(x.map_values(|o: usize| o as int)[k] == offsets[k]);
        assert(y.map_values(|o: usize| o as int)[k] == offsets[k]);
    }
    assert(x =~= y);
}

/// Each pixel of a picture shows the frame where the lens puts it: red, green and
/// blue of the output pixel in column `i` of row `j` are those of the frame pixel
/// nearest to where the lens leads from there.
pub proof fn law_pixels_come_through_the_lens<F: Fn(usize, usize, u32, u32) -> (usize, usize)>(
    lens: Lens,
    before: RemapCache,
    after: RemapCache,
    frame: Frame,
    p: ViewParams,
    out_w: u32,
    out_h: u32,
    swap_rb: bool,
    sample: F,
    out: Seq<u8>,
    i: int,
    j: int,
    channel: int,
)
    requires
        !is_identity(p, frame.width, frame.height, out_w, out_h),
        cache_follows(before, lens),
        follows(sample, lens, remap_key(frame.width, frame.height, p, out_w, out_h)),
        rendered(before, after, frame, p, out_w, out_h, swap_rb, sample, out),
        0 <= i < out_w,
        0 <= j < out_h,
        0 <= channel < 3,
    ensures
        ({
            let key = remap_key(frame.width, frame.height, p, out_w, out_h);
            let at = lens(pose(key), key_lens(key), i, j);
            let offset = source_offset(at.0, at.1, frame.width as int, frame.height as int);
            out[(j * out_w + i) * 4 + channel] == channel_byte(
                frame.rgba@,
                offset,
                channel,
                swap_rb,
            )
        }),
{
    let key = remap_key(frame.width, frame.height, p, out_w, out_h);
    law_cache_is_transparent(lens, before, after, key, sample);
    let k = j * out_w + i;
    lemma_fundamental_div_mod_converse(k, out_w as int, j, i);
    assert(0 <= k < out_w * out_h) by (nonlinear_arith)
        requires
            k == j * out_w + i,
            0 <= i < out_w,
            0 <= j < out_h,
    ;
    assert(after.table().map_values(|o: usize| o as int)[k] == lens_table(lens, key)[k]);
    assert((4 * k + channel) / 4 == k && (4 * k + channel) % 4 == channel);
}

/// The frame, the view and the size decide the picture: rendered for a clip, for
/// the texture share or at another time, it is the same.
pub proof fn law_picture_is_determined<
    F: Fn(usize, usize, u32, u32) -> (usize, usize),
    G: Fn(usize, usize, u32, u32) -> (usize, usize),
>(
    lens: Lens,
    before: RemapCache,
    after: RemapCache,
    other_before: RemapCache,
    other_after: RemapCache,
    frame: Frame,
    p: ViewParams,
    out_w: u32,
    out_h: u32,
    swap_rb: bool,
    sample: F,
    other_sample: G,
    out: Seq<u8>,
    other_out: Seq<u8>,
)
    requires
        cache_follows(before, lens),
        cache_follows(other_before, lens),
        follows(sample, lens, remap_key(frame.width, frame.height, p, out_w, out_h)),
        follows(other_sample, lens, remap_key(frame.width, frame.height, p, out_w, out_h)),
        rendered(before, after, frame, p, out_w, out_h, swap_rb, sample, out),
        rendered(
            other_before,
            other_after,
            frame,
            p,
            out_w,
            out_h,
            swap_rb,
            other_sample,
            other_out,
        ),
    ensures
        out == other_out,
{
    if !is_identity(p, frame.width, frame.height, out_w, out_h) {
        let key = remap_key(frame.width, frame.height, p, out_w, out_h);
        law_table_is_determined(
            lens,
            before,
            after,
            other_before,
            other_after,
            key,
            key,
            sample,
            other_sample,
        );
    }
}

/// A lens that leads every pixel to itself changes nothing: through the lookup
/// table, too, a frame comes out at its own size as a view that shows it pixel for
/// pixel gives it. Where the frame is opaque, its bytes come out as they are.
pub proof fn law_plain_lens_changes_nothing<F: Fn(usize, usize, u32, u32) -> (usize, usize)>(
    lens: Lens,
    before: RemapCache,
    after: RemapCache,
    frame: Frame,
    p: ViewParams,
    swap_rb: bool,
    sample: F,
    out: Seq<u8>,
)
    requires
        ({
            let key = remap_key(frame.width, frame.height, p, frame.width, frame.height);
            &&& forall|i: int, j: int|
                0 <= i < frame.width && 0 <= j < frame.height ==> #[trigger] lens(
                    pose(key),
                    key_lens(key),
                    i,
                    j,
                ) == (i, j)
            &&& follows(sample, lens, key)
        }),
        cache_follows(before, lens),
        frame.rgba@.len() == frame.byte_len(),
        rendered(before, after, frame, p, frame.width, frame.height, swap_rb, sample, out),
    ensures
        out == unchanged_picture(frame.rgba@, frame.byte_len() as nat, swap_rb),
        !swap_rb && is_opaque(frame) ==> out == frame.rgba@,
{
    let src = frame.rgba@;
    let want = unchanged_picture(src, frame.byte_len() as nat, swap_rb);
    let ow = frame.width as int;
    let oh = frame.height as int;
    assert(ow * oh >= 0) by (nonlinear_arith)
        requires
            ow >= 0,
            oh >= 0,
    ;
    if !is_identity(p, frame.width, frame.height, frame.width, frame.height) {
        let key = remap_key(frame.width, frame.height, p, frame.width, frame.height);
        law_cache_is_transparent(lens, before, after, key, sample);
        let table = after.table();
        let offsets = lens_table(lens, key);
        assert forall|k: int| 0 <= k < table.len() implies #[trigger] table[k] == 4 * k by {
            assert(table.map_values(|o: usize| o as int)[k] == offsets[k]);
            lemma_fundamental_div_mod(k, ow);
            assert(0 <= k / ow < oh) by (nonlinear_arith)
                requires
                    0 <= k < ow * oh,
                    ow > 0,
                    k == ow * (k / ow) + k % ow,
                    0 <= k % ow < ow,
            ;
            assert(lens(pose(key), key_lens(key), k % ow, k / ow) == (k % ow, k / ow));
            assert((k / ow) * ow == ow * (k / ow)) by (nonlinear_arith);
        }
        assert(out =~= want);
    }
    if !swap_rb && is_opaque(frame) {
        assert(out =~= src);
    }
}

/// Whether every pixel of a frame has full alpha.
pub open spec fn is_opaque(frame: Frame) -> bool {
    forall|b: int| 0 <= b < frame.rgba@.len() && b % 4 == 3 ==> #[trigger] frame.rgba@[b] == 255
}

/// A picture has four bytes for each output pixel.
pub proof fn law_picture_size<F: Fn(usize, usize, u32, u32) -> (usize, usize)>(
    before: RemapCache,
    after: RemapCache,
    frame: Frame,
    p: ViewParams,
    out_w: u32,
    out_h: u32,
    swap_rb: bool,
    sample: F,
    out: Seq<u8>,
)
    requires
        renderable(frame, p, out_w, out_h, swap_rb),
        rendered(before, after, frame, p, out_w, out_h, swap_rb, sample, out),
    ensures
        out.len() == out_w * out_h * 4,
{
    assert(out_w * out_h >= 0) by (nonlinear_arith);
}

/// Whether the colours of a pixel, red, green and blue, are those of a pixel of
/// the frame.
pub open spec fn is_frame_colour(frame: Frame, red: u8, green: u8, blue: u8) -> bool {
    exists|o: int| #[trigger]
        is_pixel_offset(o, frame.width as int, frame.height as int) && red == frame.rgba@[o]
            && green == frame.rgba@[o + 1] && blue == frame.rgba@[o + 2]
}

/// Both renderings of a frame show the same picture: the one has blue where the
/// other has red, and red where the other has blue. Both are opaque, and every
/// pixel has the colour of one pixel of the frame: nothing is blended or left
/// black.
pub proof fn law_channel_orders_agree<F: Fn(usize, usize, u32, u32) -> (usize, usize)>(
    first: RemapCache,
    second: RemapCache,
    third: RemapCache,
    frame: Frame,
    p: ViewParams,
    out_w: u32,
    out_h: u32,
    sample: F,
    bgra: Seq<u8>,
    rgba: Seq<u8>,
    k: int,
)
    requires
        renderable(frame, p, out_w, out_h, true),
        renderable(frame, p, out_w, out_h, false),
        rendered(first, second, frame, p, out_w, out_h, true, sample, bgra),
        rendered(second, third, frame, p, out_w, out_h, false, sample, rgba),
        0 <= k < out_w * out_h,
    ensures
        bgra.len() == out_w * out_h * 4,
        rgba.len() == out_w * out_h * 4,
        bgra[4 * k] == rgba[4 * k + 2],
        bgra[4 * k + 1] == rgba[4 * k + 1],
        bgra[4 * k + 2] == rgba[4 * k],
        bgra[4 * k + 3] == 255,
        rgba[4 * k + 3] == 255,
        is_frame_colour(frame, rgba[4 * k], rgba[4 * k + 1], rgba[4 * k + 2]),
{
    law_picture_size(first, second, frame, p, out_w, out_h, true, sample, bgra);
    law_picture_size(second, third, frame, p, out_w, out_h, false, sample, rgba);
    assert((4 * k) / 4 == k && (4 * k + 1) / 4 == k && (4 * k + 2) / 4 == k && (4 * k + 3) / 4
        == k);
    assert((4 * k) % 4 == 0 && (4 * k + 1) % 4 == 1 && (4 * k + 2) % 4 == 2 && (4 * k + 3) % 4
        == 3);
    if is_identity(p, frame.width, frame.height, out_w, out_h) {
        assert(is_pixel_offset(4 * k, frame.width as int, frame.height as int));
    } else {
        let o = third.table()[k] as int;
        assert(is_pixel_offset(o, frame.width as int, frame.height as int));
    }
}

/// A frame whose view changes nothing keeps its colours, and comes out opaque:
/// red, green and blue of pixel `k` are those of the frame, and alpha is full.
pub proof fn law_unchanged_view_is_lossless<F: Fn(usize, usize, u32, u32) -> (usize, usize)>(
    before: RemapCache,
    after: RemapCache,
    frame: Frame,
    p: ViewParams,
    sample: F,
    out: Seq<u8>,
    k: int,
)
    requires
        is_identity(p, frame.width, frame.height, frame.width, frame.height),
        rendered(before, after, frame, p, frame.width, frame.height, false, sample, out),
    ensures
        out.len() == frame.width * frame.height * 4,
        after == before,
        0 <= k < frame.width * frame.height ==> {
            &&& out[4 * k] == frame.rgba@[4 * k]
            &&& out[4 * k + 1] == frame.rgba@[4 * k + 1]
            &&& out[4 * k + 2] == frame.rgba@[4 * k + 2]
            &&& out[4 * k + 3] == 255
        },
{
    assert(frame.width * frame.height >= 0) by (nonlinear_arith);
    assert((4 * k) / 4 == k && (4 * k + 1) / 4 == k && (4 * k + 2) / 4 == k && (4 * k + 3) / 4
        == k);
    assert((4 * k) % 4 == 0 && (4 * k + 1) % 4 == 1 && (4 * k + 2) % 4 == 2 && (4 * k + 3) % 4
        == 3);
}

} // verus!
