use quest_scrcpy::capture::{can_crop, capture_path, crop_image, CaptureError};
use quest_scrcpy::warp::Frame;

fn frame(width: u32, height: u32) -> Frame {
    let n = (width * height * 4) as usize;
    Frame { width, height, rgba: (0..n).map(|b| b as u8).collect() }
}

#[test]
fn crop_takes_the_rectangle() {
    let f = frame(4, 3);
    let shot = crop_image(&f, 1, 1, 3, 3).ok().unwrap();
    assert_eq!((shot.width, shot.height), (2, 2));
    assert_eq!(shot.rgba, vec![20, 21, 22, 23, 24, 25, 26, 27, 36, 37, 38, 39, 40, 41, 42, 43]);
}

#[test]
fn crop_keeps_every_pixel_in_its_place() {
    let f = frame(7, 5);
    let shot = crop_image(&f, 2, 1, 6, 4).ok().unwrap();
    for y in 0..3usize {
        for x in 0..4usize {
            for c in 0..4usize {
                assert_eq!(shot.rgba[(y * 4 + x) * 4 + c], f.rgba[((1 + y) * 7 + 2 + x) * 4 + c]);
            }
        }
    }
}

#[test]
fn crop_has_at_least_one_pixel_and_ends_in_the_frame() {
    let f = frame(4, 3);
    let shot = crop_image(&f, 3, 2, 0, 0).ok().unwrap();
    assert_eq!((shot.width, shot.height), (1, 1));
    assert_eq!(shot.rgba, vec![44, 45, 46, 47]);
    let all = crop_image(&f, 0, 0, usize::MAX, 99).ok().unwrap();
    assert_eq!((all.width, all.height), (4, 3));
    assert_eq!(all.rgba, f.rgba);
}

#[test]
fn empty_frames_cannot_be_captured() {
    assert_eq!(crop_image(&frame(0, 3), 0, 0, 1, 1).err(), Some(CaptureError::EmptyFrame));
    assert_eq!(crop_image(&frame(3, 0), 0, 0, 1, 1).err(), Some(CaptureError::EmptyFrame));
}

#[test]
fn capture_names() {
    assert_eq!(capture_path("quest", 1_700_000_000, "png"), "quest_1700000000.png");
    assert_eq!(capture_path("clip", 0, "mp4"), "clip_0.mp4");
}

#[test]
fn only_the_rows_of_the_crop_are_needed() {
    let mut f = frame(4, 3);
    f.rgba.truncate((4 + 3) * 4);
    assert!(can_crop(&f, 1, 0, 3, 2));
    let shot = crop_image(&f, 1, 0, 3, 2).ok().unwrap();
    assert_eq!(shot.rgba, vec![4, 5, 6, 7, 8, 9, 10, 11, 20, 21, 22, 23, 24, 25, 26, 27]);
    assert!(!can_crop(&f, 1, 0, 4, 2));
    assert!(!can_crop(&f, 0, 2, 1, 3));
    assert!(!can_crop(&f, 4, 0, 5, 1));
}
