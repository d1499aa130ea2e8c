use quest_scrcpy::view::{applied_lens, CropRect, ViewParams};
use quest_scrcpy::warp::{
    can_render, get_or_compute_remap, warp_frame, warp_to_bgra, warp_to_rgba, Frame, RemapCache,
};

fn frame(width: u32, height: u32) -> Frame {
    let mut rgba = Vec::new();
    for y in 0..height {
        for x in 0..width {
            rgba.extend_from_slice(&[x as u8, y as u8, (x + y) as u8, 7]);
        }
    }
    Frame { width, height, rgba }
}

fn bits(x: f32) -> u32 {
    x.to_bits()
}

fn cropped_view() -> ViewParams {
    ViewParams {
        uv: CropRect { min_x: bits(0.0), min_y: bits(0.0), max_x: bits(0.5), max_y: bits(1.0) },
        lens_correct: true,
        k1: bits(0.02),
        k2: bits(-0.2),
        rotation_deg: bits(-1.0),
    }
}

fn nowhere(_: usize, _: usize, _: u32, _: u32) -> (usize, usize) {
    unreachable!()
}

fn opaque(f: &Frame) -> Vec<u8> {
    f.rgba.chunks(4).flat_map(|p| [p[0], p[1], p[2], 255]).collect()
}

#[test]
fn unchanged_view_keeps_colours_and_is_opaque() {
    let f = frame(5, 3);
    let mut cache = RemapCache::new();
    let out = warp_to_rgba(&mut cache, &f, &ViewParams::default(), 5, 3, &nowhere);
    assert_eq!(out, opaque(&f));
    assert!(cache.entry.is_none());
    let f = Frame { width: 1, height: 1, rgba: vec![1, 2, 3, 0] };
    let view = ViewParams::default();
    assert_eq!(warp_to_rgba(&mut cache, &f, &view, 1, 1, &nowhere), vec![1, 2, 3, 255]);
    assert_eq!(warp_to_bgra(&mut cache, &f, &view, 1, 1, &nowhere), vec![3, 2, 1, 255]);
}

#[test]
fn curve_and_edge_count_only_while_flattening() {
    let sample = |_: usize, _: usize, k1: u32, k2: u32| (k1 as usize, k2 as usize);
    let on = ViewParams { k1: 1, k2: 2, ..cropped_view() };
    let off = ViewParams { lens_correct: false, ..on };
    let other = ViewParams { k1: 3, k2: 0, ..off };
    assert_eq!(applied_lens(&on), (1, 2));
    assert_eq!(applied_lens(&off), (0, 0));
    let mut cache = RemapCache::new();
    let flattened = get_or_compute_remap(&mut cache, 4, 4, &on, 2, 2, &sample);
    assert_eq!(*flattened, vec![36; 4]);
    let plain = get_or_compute_remap(&mut cache, 4, 4, &off, 2, 2, &sample);
    let plain_too = get_or_compute_remap(&mut cache, 4, 4, &other, 2, 2, &sample);
    assert_eq!(*plain, vec![0; 4]);
    assert_eq!(plain, plain_too);
}

#[test]
fn unchanged_view_swaps_red_and_blue() {
    let f = frame(5, 3);
    let mut cache = RemapCache::new();
    let out = warp_to_bgra(&mut cache, &f, &ViewParams::default(), 5, 3, &nowhere);
    assert_eq!(out.len(), 60);
    for p in 0..15 {
        let (s, d) = (&f.rgba[p * 4..p * 4 + 4], &out[p * 4..p * 4 + 4]);
        assert_eq!(d, &[s[2], s[1], s[0], 255]);
    }
}

#[test]
fn short_frame_leaves_black() {
    let f = Frame { width: 2, height: 1, rgba: vec![1, 2, 3, 4, 5, 6] };
    let mut cache = RemapCache::new();
    let out = warp_to_bgra(&mut cache, &f, &ViewParams::default(), 2, 1, &nowhere);
    assert_eq!(out, vec![3, 2, 1, 255, 0, 0, 0, 0]);
}

#[test]
fn negative_zero_edges_are_the_whole_panel() {
    let f = frame(2, 2);
    let mut view = ViewParams::default();
    view.uv.min_x = bits(-0.0);
    view.rotation_deg = bits(-0.0);
    let mut cache = RemapCache::new();
    assert_eq!(warp_to_rgba(&mut cache, &f, &view, 2, 2, &nowhere), opaque(&f));
}

#[test]
fn pixels_come_from_where_the_sample_says() {
    // 40 rows are more than two tasks of sixteen.
    let f = frame(10, 40);
    let view = cropped_view();
    let sample = |i: usize, j: usize, _: u32, _: u32| (9 - i, 39 - j);
    let mut cache = RemapCache::new();
    let out = warp_to_rgba(&mut cache, &f, &view, 6, 40, &sample);
    assert_eq!(out.len(), 6 * 40 * 4);
    for j in 0..40usize {
        for i in 0..6usize {
            let at = (j * 6 + i) * 4;
            let (x, y) = (9 - i, 39 - j);
            assert_eq!(&out[at..at + 4], &[x as u8, y as u8, (x + y) as u8, 255]);
        }
    }
}

#[test]
fn samples_outside_are_moved_to_the_edge() {
    let f = frame(4, 3);
    let view = cropped_view();
    let mut cache = RemapCache::new();
    let out = warp_to_bgra(&mut cache, &f, &view, 2, 2, &|_, _, _, _| (100, 100));
    assert_eq!(out, vec![5, 2, 3, 255, 5, 2, 3, 255, 5, 2, 3, 255, 5, 2, 3, 255]);
}

#[test]
fn channel_orders_agree() {
    let f = frame(8, 20);
    let view = cropped_view();
    let sample = |i: usize, j: usize, _: u32, _: u32| (i / 2, j);
    let mut cache = RemapCache::new();
    let bgra = warp_to_bgra(&mut cache, &f, &view, 4, 20, &sample);
    let rgba = warp_to_rgba(&mut cache, &f, &view, 4, 20, &sample);
    for k in 0..80 {
        assert_eq!(bgra[4 * k], rgba[4 * k + 2]);
        assert_eq!(bgra[4 * k + 1], rgba[4 * k + 1]);
        assert_eq!(bgra[4 * k + 2], rgba[4 * k]);
        assert_eq!(bgra[4 * k + 3], 255);
        assert_eq!(rgba[4 * k + 3], 255);
        assert!(f.rgba.chunks(4).any(|p| p[..3] == rgba[4 * k..4 * k + 3]));
    }
}

#[test]
fn table_is_reused_until_the_view_changes() {
    let mut cache = RemapCache::new();
    let view = cropped_view();
    let first = get_or_compute_remap(&mut cache, 8, 8, &view, 4, 4, &|i, j, _, _| (i, j));
    assert_eq!(first[5], (1 * 8 + 1) * 4);
    // The same view: the table at hand serves, and nothing is sampled.
    let again = get_or_compute_remap(&mut cache, 8, 8, &view, 4, 4, &nowhere);
    assert_eq!(first, again);
    // Another tilt: a new table takes its place.
    let turned = ViewParams { rotation_deg: bits(2.0), ..view };
    let other = get_or_compute_remap(&mut cache, 8, 8, &turned, 4, 4, &|i, j, _, _| (j, i));
    assert_eq!(other[1], 8 * 4);
    assert_eq!(cache.entry.as_ref().unwrap().key.rot, bits(2.0));
    // Back again: only the most recent table is kept.
    let back = get_or_compute_remap(&mut cache, 8, 8, &view, 4, 4, &|i, j, _, _| (i + 1, j));
    assert_eq!(back[0], 4);
}

#[test]
fn table_stays_within_the_frame() {
    let mut cache = RemapCache::new();
    let map = get_or_compute_remap(&mut cache, 3, 2, &cropped_view(), 50, 50, &|i, j, _, _| (i, j));
    assert_eq!(map.len(), 2500);
    assert!(map.iter().all(|o| *o <= 5 * 4 && *o % 4 == 0));
    assert_eq!(map[2499], 20);
}

#[test]
fn same_view_gives_the_same_picture_from_any_cache() {
    let f = frame(8, 20);
    let view = cropped_view();
    let sample = |i: usize, j: usize, _: u32, _: u32| (7 - i, j);
    let mut fresh = RemapCache::new();
    let mut used = RemapCache::new();
    let _ = get_or_compute_remap(&mut used, 8, 20, &view, 4, 20, &sample);
    let a = warp_to_bgra(&mut fresh, &f, &view, 4, 20, &sample);
    let b = warp_to_bgra(&mut used, &f, &view, 4, 20, &sample);
    assert_eq!(a, b);
}

#[test]
fn no_rows_give_an_empty_picture() {
    let f = Frame { width: 0, height: 0, rgba: Vec::new() };
    let mut cache = RemapCache::new();
    assert!(warp_to_rgba(&mut cache, &f, &cropped_view(), 4, 0, &nowhere).is_empty());
}

#[test]
fn what_can_be_rendered() {
    let f = frame(4, 4);
    let plain = ViewParams::default();
    let lens = cropped_view();
    assert!(can_render(&f, &plain, 4, 4, false));
    assert!(can_render(&f, &lens, 2, 4, true));
    assert!(!can_render(&f, &lens, 0, 4, true));
    assert!(!can_render(&f, &lens, u32::MAX, u32::MAX, true));
    let short = Frame { width: 4, height: 4, rgba: vec![0; 8] };
    assert!(!can_render(&short, &plain, 4, 4, false));
    assert!(can_render(&short, &plain, 4, 4, true));
    assert!(!can_render(&short, &lens, 2, 4, false));
    let empty = Frame { width: 0, height: 4, rgba: Vec::new() };
    assert!(!can_render(&empty, &lens, 2, 2, false));
    assert!(can_render(&empty, &lens, 2, 0, false));
}

#[test]
fn plain_lens_changes_nothing() {
    let mut f = frame(7, 35);
    let lens = ViewParams { lens_correct: true, ..ViewParams::default() };
    let plain = ViewParams::default();
    let sample = |i: usize, j: usize, _: u32, _: u32| (i, j);
    let mut cache = RemapCache::new();
    for swap_rb in [false, true] {
        let through = warp_frame(&mut cache, &f, &lens, 7, 35, swap_rb, &sample);
        let direct = warp_frame(&mut cache, &f, &plain, 7, 35, swap_rb, &nowhere);
        assert_eq!(through, direct);
    }
    f.rgba = opaque(&f);
    assert_eq!(warp_to_rgba(&mut cache, &f, &lens, 7, 35, &sample), f.rgba);
}
