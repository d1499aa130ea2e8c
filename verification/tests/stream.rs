use quest_scrcpy::stream::{
    elapsed_ns, free_port, next_nap, server_options, AfterRun, FrameSlot, Reconnect, ServerOptions,
    Status, StreamConfig,
};
use quest_scrcpy::warp::Frame;

const SECOND: u64 = 1_000_000_000;

fn frame(tag: u8) -> Frame {
    Frame { width: 1, height: 1, rgba: vec![tag, 0, 0, 255] }
}

fn failed() -> Result<(), String> {
    Err("gone".to_string())
}

fn wait_of(next: AfterRun) -> u64 {
    match next {
        AfterRun::Retry { wait_ms } => wait_ms,
        _ => panic!("no retry"),
    }
}

#[test]
fn waits_double_up_to_twelve_seconds() {
    let mut policy = Reconnect::new();
    let mut waits = Vec::new();
    for _ in 0..6 {
        waits.push(wait_of(policy.after_run(false, failed(), true, SECOND)));
    }
    assert_eq!(waits, vec![2000, 4000, 8000, 12000, 12000, 12000]);
}

#[test]
fn good_run_makes_the_wait_short_again() {
    let mut policy = Reconnect::new();
    for _ in 0..4 {
        policy.after_run(false, failed(), true, 0);
    }
    assert_eq!(wait_of(policy.after_run(false, failed(), true, 8 * SECOND)), 2000);
    assert_eq!(wait_of(policy.after_run(false, failed(), true, 8 * SECOND - 1)), 4000);
}

#[test]
fn clean_end_and_stop_exit() {
    let mut policy = Reconnect::new();
    assert!(matches!(policy.after_run(false, Ok(()), true, 0), AfterRun::Exit));
    assert!(matches!(policy.after_run(true, failed(), true, 0), AfterRun::Exit));
    assert!(matches!(policy.after_run(true, Ok(()), false, 0), AfterRun::Exit));
    assert_eq!(policy.backoff_ms, 2000);
}

#[test]
fn without_reconnect_the_error_is_shown() {
    let mut policy = Reconnect::new();
    match policy.after_run(false, failed(), false, 0) {
        AfterRun::GiveUp(Status::Error(e)) => assert_eq!(e, "gone"),
        _ => panic!("should give up"),
    }
    assert_eq!(policy.backoff_ms, 2000);
}

#[test]
fn naps_until_the_wait_is_over() {
    let mut waited = 0;
    let mut naps = 0;
    while let Some(ms) = next_nap(waited, 2000, false) {
        waited += ms;
        naps += 1;
    }
    assert_eq!((waited, naps), (2000, 20));
    assert_eq!(next_nap(0, 2000, true), None);
}

#[test]
fn latest_frame_wins() {
    let mut slot = FrameSlot::default();
    assert!(slot.take_newer(0).is_none());
    slot.publish(frame(1));
    slot.publish(frame(2));
    assert_eq!(slot.generation, 2);
    assert_eq!(slot.take_newer(0).unwrap().rgba[0], 2);
    assert!(slot.take_newer(0).is_none());
    assert!(slot.take_newer(2).is_none());
    slot.publish(frame(3));
    assert!(slot.take_newer(3).is_none());
    assert!(slot.frame.is_some());
    assert_eq!(slot.take_newer(2).unwrap().rgba[0], 3);
}

#[test]
fn generations_wrap_around() {
    let mut slot = FrameSlot { frame: None, generation: u64::MAX };
    slot.publish(frame(1));
    assert_eq!(slot.generation, 0);
}

#[test]
fn options_of_the_server() {
    let cfg = StreamConfig {
        serial: "340YC10G810KRV".into(),
        display_id: 3,
        max_size: 1920,
        video_bit_rate: 30_000_000,
        max_fps: 60,
        audio: true,
        audio_bit_rate: 128_000,
        audio_output_device: String::new(),
    };
    assert_eq!(
        server_options(&cfg),
        ServerOptions {
            display_id: 3,
            max_size: 1920,
            video_bit_rate: 30_000_000,
            max_fps: 60,
            audio: true,
            audio_bit_rate: 128_000,
        }
    );
}

#[test]
fn ports_and_times() {
    assert_eq!(free_port(Some(40000)), 40000);
    assert_eq!(free_port(None), 27183);
    assert_eq!(elapsed_ns(7, 3), 4);
    assert_eq!(elapsed_ns(3, 7), 0);
}
