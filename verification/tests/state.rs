use quest_scrcpy::app::{fetch_safe, App};
use quest_scrcpy::devices::{Device, DisplayInfo};
use quest_scrcpy::remotes::connect_all_summary;
use quest_scrcpy::settings::{Config, FlatConfig, Settings, StartupConfig};
use quest_scrcpy::stream::{Rate, Status};
use quest_scrcpy::view::CropRect;

const MS: u64 = 1_000_000;

fn bits(x: f32) -> u32 {
    x.to_bits()
}

fn config() -> Config {
    Config {
        lens_correct: true,
        lens_k1: bits(0.02),
        lens_k2: bits(-0.2),
        rotation_deg: bits(-1.0),
        uv: CropRect { min_x: bits(0.0), min_y: bits(0.0), max_x: bits(0.5), max_y: bits(1.0) },
        display_id: 0,
        max_size: 1920,
        bitrate_mbps: 30,
        max_fps: 60,
        audio: false,
        audio_output_device: "Cable".into(),
        remotes: vec!["192.168.1.105:5555".into()],
    }
}

fn device(serial: &str, state: &str, usb: bool) -> Device {
    Device { serial: serial.into(), state: state.into(), usb, model: "Quest_3S".into() }
}

fn launched(devices: Vec<Device>) -> App {
    App::new(config(), StartupConfig::default(), devices, false, 0)
}

#[test]
fn default_settings() {
    let s = Settings::default();
    assert_eq!((s.display_id, s.max_size, s.bitrate_mbps, s.max_fps), (0, 1920, 16, 60));
    assert!(!s.audio && s.audio_output_device.is_empty());
}

#[test]
fn launch_restores_what_was_kept() {
    let app = launched(vec![device("a", "device", false), device("b", "device", true)]);
    assert!(app.current_config().equals(&config()));
    assert!(app.persisted.equals(&config()));
    assert_eq!(app.selected_serial.as_deref(), Some("b"));
    assert!(app.need_display_fetch && app.auto_reconnect);
    assert!(!app.settings_open && app.dirty_since.is_none());
}

#[test]
fn launch_wishes_go_first() {
    let startup = StartupConfig {
        serial: Some("off".into()),
        display_id: Some(2),
        max_size: Some(1280),
        bitrate_mbps: Some(8),
        max_fps: Some(0),
        audio: Some(true),
        autostart: true,
    };
    let devices = vec![device("a", "device", true), device("off", "offline", true)];
    let app = App::new(config(), startup, devices, true, 5);
    let s = &app.settings;
    assert_eq!((s.display_id, s.max_size, s.bitrate_mbps, s.max_fps), (2, 1280, 8, 0));
    assert!(s.audio && app.want_autostart && app.obs_detected);
    assert_eq!(s.audio_output_device, "Cable");
    assert_eq!(app.selected_serial.as_deref(), Some("off"));
    assert_eq!(app.last_obs_check, 5);
}

#[test]
fn unknown_serial_falls_back() {
    let startup = StartupConfig { serial: Some("x".into()), ..StartupConfig::default() };
    let app = App::new(config(), startup, vec![device("a", "device", false)], false, 0);
    assert_eq!(app.selected_serial.as_deref(), Some("a"));
    let none = launched(vec![device("a", "offline", true)]);
    assert!(none.selected_serial.is_none());
}

#[test]
fn refresh_keeps_a_usable_selection() {
    let mut app = launched(vec![device("a", "device", false)]);
    app.displays = vec![DisplayInfo { id: 0, width: 10, height: 10 }];
    app.need_display_fetch = false;
    app.refresh_devices(vec![device("b", "device", true), device("a", "device", false)]);
    assert_eq!(app.selected_serial.as_deref(), Some("a"));
    assert_eq!(app.displays.len(), 1);
    assert!(!app.need_display_fetch);
    app.refresh_devices(vec![device("b", "device", true), device("a", "offline", false)]);
    assert_eq!(app.selected_serial.as_deref(), Some("b"));
    assert!(app.displays.is_empty() && app.need_display_fetch);
    app.refresh_devices(Vec::new());
    assert!(app.selected_serial.is_none());
}

#[test]
fn displays_are_fetched_when_it_is_safe() {
    assert!(fetch_safe(&None));
    assert!(!fetch_safe(&Some(Status::Connecting)));
    assert!(fetch_safe(&Some(Status::Stopped)));
    assert!(fetch_safe(&Some(Status::Error("e".into()))));
    let rate = Rate { frames: 0, window_ns: 0, decode_us: 0, decode_frames: 0 };
    assert!(fetch_safe(&Some(Status::Streaming { width: 1, height: 1, rate })));

    let mut app = launched(vec![device("a", "device", true)]);
    assert_eq!(app.drive_display_fetch(&Some(Status::Connecting)), None);
    assert!(app.need_display_fetch);
    assert_eq!(app.drive_display_fetch(&None).as_deref(), Some("a"));
    assert!(!app.need_display_fetch && app.fetch_inflight);
    app.request_display_fetch();
    assert_eq!(app.drive_display_fetch(&None), None);
    assert!(app.need_display_fetch);
    app.poll_displays(Some(Err("adb".into())));
    assert!(!app.fetch_inflight);

    let mut nobody = launched(Vec::new());
    assert_eq!(nobody.drive_display_fetch(&None), None);
    assert!(!nobody.need_display_fetch && !nobody.fetch_inflight);
}

#[test]
fn fetched_displays_are_ordered_and_one_is_chosen() {
    let mut app = launched(vec![device("a", "device", true)]);
    app.fetch_inflight = true;
    app.settings.display_id = 9;
    app.poll_displays(None);
    assert!(app.fetch_inflight);
    app.poll_displays(Some(Ok(vec![
        DisplayInfo { id: 3, width: 100, height: 100 },
        DisplayInfo { id: 4, width: 1, height: 100 },
        DisplayInfo { id: 5, width: 200, height: 100 },
    ])));
    assert!(!app.fetch_inflight);
    assert_eq!(app.displays.iter().map(|d| d.id).collect::<Vec<u32>>(), vec![5, 3]);
    assert_eq!(app.settings.display_id, 5);
}

#[test]
fn panel_stream_starts_with_the_settings() {
    let mut app = launched(vec![device("a", "device", true)]);
    app.has_texture = true;
    app.last_generation = 4;
    assert!(app.connect());
    let s = app.stream.as_ref().unwrap();
    assert_eq!(s.serial, "a");
    assert_eq!((s.display_id, s.max_size, s.max_fps, s.audio), (0, 1920, 60, false));
    assert_eq!((s.video_bit_rate, s.audio_bit_rate), (30_000_000, 128_000));
    assert_eq!(s.audio_output_device, "Cable");
    assert!(!app.has_texture && app.last_frame.is_none());
    assert_eq!(app.last_generation, 0);
    assert_eq!(app.sync_auto_reconnect(), Some(true));
    app.disconnect();
    assert!(app.stream.is_none() && app.flat.is_none());
    assert_eq!(app.sync_auto_reconnect(), None);
    assert!(!launched(Vec::new()).connect());
}

#[test]
fn flat_view_is_whole_and_untouched() {
    let mut app = launched(vec![device("a", "device", true)]);
    app.settings.max_size = 0;
    app.settings.max_fps = 0;
    app.settings.bitrate_mbps = 1;
    assert!(app.connect_flat());
    assert_eq!(app.flat, Some(FlatConfig { max_size: 1920, bitrate: 2_000_000, fps: 72 }));
    assert!(!app.lens_correct);
    assert_eq!(app.rotation_deg, 0);
    let whole = CropRect { min_x: bits(0.0), min_y: bits(0.0), max_x: bits(1.0), max_y: bits(1.0) };
    assert_eq!(app.uv, whole);
    app.settings.max_size = 640;
    app.settings.max_fps = 90;
    app.settings.bitrate_mbps = 50;
    let cfg = app.settings.flat_config();
    assert_eq!(cfg, FlatConfig { max_size: 640, bitrate: 50_000_000, fps: 90 });
    assert!(!launched(Vec::new()).connect_flat());
}

#[test]
fn quest_presets() {
    let left = CropRect { min_x: bits(0.0), min_y: bits(0.0), max_x: bits(0.5), max_y: bits(1.0) };
    let mut app = launched(Vec::new());
    app.lens_correct = false;
    app.apply_quest3_preset();
    let lens = (app.lens_k1, app.lens_k2, app.rotation_deg);
    assert_eq!(lens, (bits(0.02), bits(-0.2), bits(-1.0)));
    assert!(app.lens_correct && app.uv == left);
    app.apply_quest2_preset();
    let lens = (app.lens_k1, app.lens_k2, app.rotation_deg);
    assert_eq!(lens, (bits(0.1), bits(-0.25), bits(-1.0)));
    app.apply_quest3s_preset();
    let lens = (app.lens_k1, app.lens_k2, app.rotation_deg);
    assert_eq!(lens, (bits(0.07), bits(-0.22), bits(-1.0)));
    app.apply_questpro_preset();
    let lens = (app.lens_k1, app.lens_k2, app.rotation_deg);
    assert_eq!(lens, (bits(0.01), bits(-0.04), bits(0.0)));
}

#[test]
fn quality_presets() {
    let mut app = launched(Vec::new());
    app.apply_quality_preset(1440, 60, 12);
    assert!(app.settings.is_low_latency() && !app.settings.is_high_quality());
    app.apply_quality_preset(1920, 60, 20);
    assert!(!app.settings.is_low_latency() && app.settings.is_high_quality());
}

#[test]
fn changes_are_saved_after_half_a_second() {
    let mut app = launched(Vec::new());
    assert!(!app.autosave(0));
    app.lens_k1 = bits(0.5);
    assert!(!app.autosave(100 * MS));
    assert_eq!(app.dirty_since, Some(100 * MS));
    assert!(!app.autosave(599 * MS));
    assert!(app.autosave(600 * MS));
    assert_eq!(app.persisted.lens_k1, bits(0.5));
    assert!(app.dirty_since.is_none());
    assert!(!app.autosave(5000 * MS));
    // A change that is taken back is saved all the same.
    app.remotes.push("10.0.0.2:5555".into());
    assert!(!app.autosave(6000 * MS));
    app.remotes.pop();
    assert!(app.autosave(6500 * MS));
}

#[test]
fn equal_zeros_are_no_change() {
    let mut app = launched(Vec::new());
    app.uv.min_x = bits(-0.0);
    assert!(!app.autosave(1000 * MS));
    assert!(app.dirty_since.is_none());
    let mut other = config();
    other.remotes.push("x".into());
    assert!(!config().equals(&other));
    let mut other = config();
    other.audio_output_device = "HDMI".into();
    assert!(!config().equals(&other));
}

#[test]
fn restart_restores_a_saved_change() {
    let mut app = launched(Vec::new());
    app.rotation_deg = bits(7.5);
    app.settings.max_fps = 90;
    app.remotes.push("10.0.0.2:5555".into());
    app.autosave(0);
    assert!(app.autosave(500 * MS));
    let again = App::new(app.persisted, StartupConfig::default(), Vec::new(), false, 0);
    assert_eq!(again.rotation_deg, bits(7.5));
    assert_eq!(again.settings.max_fps, 90);
    assert_eq!(again.remotes, vec!["192.168.1.105:5555".to_string(), "10.0.0.2:5555".to_string()]);
}

#[test]
fn entered_address_is_trimmed() {
    let mut app = launched(Vec::new());
    app.remote_input = "  192.168.1.40 \t".into();
    assert_eq!(app.submit_remote().as_deref(), Some("192.168.1.40"));
    assert!(app.remote_input.is_empty());
    app.remote_input = "   ".into();
    assert!(app.submit_remote().is_none());
    assert_eq!(app.remote_input, "   ");
}

#[test]
fn one_attempt_to_connect_at_a_time() {
    let mut app = launched(Vec::new());
    assert!(!app.start_remote_connect(&String::new()));
    assert!(app.start_remote_connect(&"192.168.1.40:5555".to_string()));
    assert_eq!(app.capture_msg.as_deref(), Some("🔗 Connecting to 192.168.1.40:5555…"));
    assert!(!app.start_remote_connect(&"10.0.0.2:5555".to_string()));
    assert!(!app.start_connect_all());
    assert!(app.poll_connect(None).is_none() && app.connecting);
    let failed = Some(("192.168.1.40:5555".to_string(), Err("refused".to_string())));
    assert!(app.poll_connect(failed).is_none());
    assert!(!app.connecting);
    assert_eq!(app.capture_msg.as_deref(), Some("Connect failed: refused"));
    assert_eq!(app.remotes.len(), 1);
}

#[test]
fn reached_address_is_remembered_and_selected() {
    let mut app = launched(vec![device("a", "device", true)]);
    app.connecting = true;
    let done = Some(("10.0.0.2:5555".to_string(), Ok("connected".to_string())));
    let reached = app.poll_connect(done).unwrap();
    assert_eq!(reached, "10.0.0.2:5555");
    assert_eq!(app.capture_msg.as_deref(), Some("🔗 connected"));
    assert_eq!(app.remotes, vec!["192.168.1.105:5555".to_string(), "10.0.0.2:5555".to_string()]);
    app.finish_connect(
        reached,
        vec![device("a", "device", true), device("10.0.0.2:5555", "device", false)],
    );
    assert_eq!(app.selected_serial.as_deref(), Some("10.0.0.2:5555"));
    assert!(app.need_display_fetch);
    let again = Some(("10.0.0.2:5555".to_string(), Ok("already connected".to_string())));
    app.poll_connect(again);
    assert_eq!(app.remotes.len(), 2);
    app.finish_connect("10.0.0.2:5555".to_string(), vec![device("a", "device", true)]);
    assert_eq!(app.selected_serial.as_deref(), Some("a"));
    app.forget_remote(&"192.168.1.105:5555".to_string());
    assert_eq!(app.remotes, vec!["10.0.0.2:5555".to_string()]);
}

#[test]
fn connect_all_reports_how_many() {
    assert_eq!(connect_all_summary(2, 13), "connected 2/13");
    let mut app = launched(Vec::new());
    assert!(app.start_connect_all());
    assert_eq!(app.capture_msg.as_deref(), Some("🔗 Connecting saved devices…"));
    app.connecting = false;
    app.remotes.clear();
    assert!(!app.start_connect_all());
}

#[test]
fn rates_that_can_be_computed() {
    let mut app = launched(vec![device("a", "device", true)]);
    assert!(app.settings.rate_fits() && app.rates_computable());
    app.settings.bitrate_mbps = 4294;
    assert!(app.settings.rate_fits());
    app.connect();
    app.settings.bitrate_mbps = 4295;
    assert!(!app.settings.rate_fits() && !app.rates_computable());
    app.settings.display_id = 7;
    assert!(app.rates_computable());
    app.flat = Some(FlatConfig { max_size: 1920, bitrate: 2, fps: 72 });
    assert!(!app.rates_computable());
}

#[test]
fn connecting_to_all_remembers_nothing_new() {
    let mut app = launched(Vec::new());
    app.remotes = vec!["192.168.1.40:5555".into()];
    app.connecting = true;
    let done = Some(("*".to_string(), Ok("connected 1/1".to_string())));
    assert_eq!(app.poll_connect(done).as_deref(), Some("*"));
    assert_eq!(app.remotes, vec!["192.168.1.40:5555".to_string()]);
    assert!(!app.connecting);
    assert_eq!(app.capture_msg.as_deref(), Some("🔗 connected 1/1"));
}

#[test]
fn streamer_mode_shows_no_saved_address() {
    let mut app = launched(Vec::new());
    app.streamer_forced = Some(true);
    let addr = "192.168.1.105:5555".to_string();
    assert!(app.start_remote_connect(&addr));
    assert!(app.connecting);
    assert_eq!(app.capture_msg.as_deref(), Some("🔗 Connecting to •••…"));
    app.poll_connect(Some((addr.clone(), Err(format!("no route to {addr}")))));
    assert_eq!(app.shown_message().as_deref(), Some("Connect failed: no route to •••"));
    let other = "10.0.0.2:5555".to_string();
    assert!(app.start_remote_connect(&other));
    assert_eq!(app.shown_message().as_deref(), Some("🔗 Connecting to 10.0.0.2:5555…"));
    app.poll_connect(Some((other.clone(), Ok(format!("connected to {other}")))));
    assert_eq!(app.shown_message().as_deref(), Some("🔗 connected to •••"));
    app.poll_connect(Some(("*".to_string(), Ok("connected 1/2".to_string()))));
    assert_eq!(app.shown_message().as_deref(), Some("🔗 connected 1/2"));
    app.remotes.clear();
    app.poll_connect(Some((addr, Err("adb not found".to_string()))));
    assert_eq!(app.capture_msg.as_deref(), Some("Connect failed: adb not found"));
    assert_eq!(app.shown_message(), app.capture_msg);
}
