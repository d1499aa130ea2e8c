use quest_scrcpy::session::{ReadEnd, Run, RunAction, RunPhase, Session};
use quest_scrcpy::stream::{FrameSlot, Rate, RecordCmd, ServerOptions, Status};
use quest_scrcpy::view::ViewParams;
use quest_scrcpy::warp::{Frame, RemapCache};

const MS: u64 = 1_000_000;

fn options() -> ServerOptions {
    ServerOptions {
        display_id: 0,
        max_size: 1920,
        video_bit_rate: 16_000_000,
        max_fps: 60,
        audio: false,
        audio_bit_rate: 128_000,
    }
}

fn tilted() -> ViewParams {
    ViewParams { rotation_deg: 3.0f32.to_bits(), ..ViewParams::default() }
}

fn frame(width: u32, height: u32) -> Frame {
    Frame { width, height, rgba: vec![9; (width * height * 4) as usize] }
}

fn shown(status: Option<Status>) -> (u32, u32, Rate) {
    match status {
        Some(Status::Streaming { width, height, rate }) => (width, height, rate),
        _ => panic!("not streaming"),
    }
}

#[test]
fn run_goes_through_its_steps() {
    let mut run = Run::new(options());
    assert!(matches!(run.advance(Ok(())), RunAction::Forward));
    assert!(matches!(run.advance(Ok(())), RunAction::StartServer(o) if o == options()));
    assert!(matches!(run.advance(Ok(())), RunAction::Stream));
    assert!(matches!(run.advance(Err("lost".into())), RunAction::TearDown(Err(e)) if e == "lost"));
    assert_eq!(run.phase, RunPhase::Over);
}

#[test]
fn run_ends_early_on_errors() {
    for good in 0..3 {
        let mut run = Run::new(options());
        for _ in 0..good {
            run.advance(Ok(()));
        }
        assert!(matches!(run.advance(Err("no".into())), RunAction::Abort(e) if e == "no"));
        assert_eq!(run.phase, RunPhase::Over);
    }
}

#[test]
fn started_server_is_torn_down_after_a_clean_end() {
    let mut run = Run { phase: RunPhase::StartServer, opts: options() };
    assert!(matches!(run.advance(Ok(())), RunAction::Stream));
    assert!(matches!(run.advance(Ok(())), RunAction::TearDown(Ok(()))));
}

#[test]
fn decoder_follows_the_resolution() {
    let mut s: Session<String> = Session::new(0, false);
    assert_eq!(s.on_resolution(0, 1080), Some((1, 1080)));
    s.on_decoder_ready();
    assert_eq!(s.on_resolution(0, 1080), None);
    assert_eq!(s.on_resolution(1280, 720), Some((1280, 720)));
    let (w, h, rate) = shown(Some(s.resolution_status()));
    assert_eq!((w, h), (1280, 720));
    assert_eq!(rate, Rate { frames: 0, window_ns: 0, decode_us: 0, decode_frames: 0 });
}

#[test]
fn packets_without_a_resolution_get_the_default_size() {
    let mut s: Session<String> = Session::new(0, false);
    assert_eq!(s.on_packet(), Some((1920, 1088)));
    s.on_decoder_ready();
    assert_eq!(s.on_packet(), None);
    let mut half: Session<String> = Session::new(0, false);
    half.on_resolution(640, 0);
    assert_eq!(half.on_packet(), Some((640, 1088)));
}

#[test]
fn telemetry_every_half_second() {
    let mut s: Session<String> = Session::new(0, false);
    let mut slot = FrameSlot::default();
    s.on_resolution(100, 50);
    s.on_decoder_ready();
    s.on_decoded(1500);
    s.on_frame(96, 64);
    s.publish(&mut slot, frame(96, 64));
    s.on_decoded(500);
    s.on_frame(96, 64);
    s.publish(&mut slot, frame(96, 64));
    assert!(s.tick(499 * MS).is_none());
    let (w, h, rate) = shown(s.tick(500 * MS));
    assert_eq!((w, h), (100, 64));
    let want = Rate { frames: 2, window_ns: 500 * MS, decode_us: 2000, decode_frames: 2 };
    assert_eq!(rate, want);
    // A window without frames keeps the last decode time.
    let (_, _, idle) = shown(s.tick(1100 * MS));
    assert_eq!(idle, Rate { frames: 0, window_ns: 600 * MS, decode_us: 2000, decode_frames: 2 });
    assert_eq!(slot.generation, 2);
}

#[test]
fn recording_waits_for_a_frame() {
    let mut s: Session<String> = Session::new(0, false);
    assert!(!s.on_command(RecordCmd::Start("a.mp4".to_string(), tilted())));
    assert!(!s.recording);
    let open = s.on_frame(64, 32).unwrap();
    assert_eq!(open.path, "a.mp4");
    assert_eq!(open.view, tilted());
    assert!(s.on_frame(64, 32).is_none());
    s.on_clip_opened(63, 32);
    assert!(s.recording);
    assert_eq!(s.clip, Some((62, 32)));
    let mut cache = RemapCache::new();
    let picture = s.clip_picture(&mut cache, &frame(64, 32), &|i, j, _, _| (i, j)).unwrap();
    assert_eq!(picture.len(), 62 * 32 * 4);
    assert_eq!(picture[..4], [9, 9, 9, 255]);
    // Another recording: the clip is finished first.
    assert!(s.on_command(RecordCmd::Start("b.mp4".to_string(), ViewParams::default())));
    assert!(s.clip.is_none() && s.recording);
    assert_eq!(s.rec_params, ViewParams::default());
    assert!(!s.on_command(RecordCmd::Stop));
    assert!(!s.recording && s.pending_record.is_none());
}

#[test]
fn stopped_recording_stays_stopped() {
    let mut s: Session<String> = Session::new(0, false);
    let mut slot = FrameSlot::default();
    s.on_command(RecordCmd::Start("a.mp4".to_string(), tilted()));
    s.on_frame(8, 8);
    s.on_clip_opened(8, 8);
    assert!(s.on_command(RecordCmd::Stop));
    s.on_frame(8, 8);
    s.publish(&mut slot, frame(8, 8));
    s.tick(u64::MAX);
    assert!(!s.recording && s.clip.is_none());
    let mut cache = RemapCache::new();
    assert!(s.clip_picture(&mut cache, &frame(8, 8), &|i, j, _, _| (i, j)).is_none());
}

#[test]
fn failed_encoder_ends_the_clip() {
    let mut s: Session<String> = Session::new(0, true);
    assert!(s.recording);
    s.on_command(RecordCmd::Start("a.mp4".to_string(), tilted()));
    s.on_frame(8, 8);
    s.on_clip_opened(1, 1);
    assert_eq!(s.clip, Some((2, 2)));
    s.on_write_failed();
    assert!(s.clip.is_none() && !s.recording);
    assert!(!s.finish());
}

#[test]
fn end_in_order_finishes_the_clip() {
    let mut s: Session<String> = Session::new(0, false);
    s.on_command(RecordCmd::Start("a.mp4".to_string(), tilted()));
    s.on_frame(8, 8);
    s.on_clip_opened(8, 8);
    assert_eq!(s.on_read_error(true), ReadEnd::Leave);
    assert_eq!(s.on_read_error(false), ReadEnd::Fail);
    assert!(s.finish());
    assert!(!s.recording && s.clip.is_none());
}
