use quest_scrcpy::app::App;
use quest_scrcpy::devices::{Device, DisplayInfo};
use quest_scrcpy::live::{BeginRecording, Source, TextureUpdate, ToggleRecording};
use quest_scrcpy::outputs::{CamStep, SpoutStep};
use quest_scrcpy::panel::{
    audio_label, bitrate_label, display_label, fps_label, fullscreen_key, max_size_label,
    CropPreset, LensProfile, MainButtons, ModalEvent, Prompt,
};
use quest_scrcpy::settings::{Config, FlatConfig, StartupConfig};
use quest_scrcpy::stream::{FrameSlot, Rate, Status};
use quest_scrcpy::streamer::shown;
use quest_scrcpy::view::{CropRect, ViewParams};
use quest_scrcpy::warp::{Frame, RemapCache};

fn bits(x: f32) -> u32 {
    x.to_bits()
}

fn crop(min_x: f32, min_y: f32, max_x: f32, max_y: f32) -> CropRect {
    CropRect { min_x: bits(min_x), min_y: bits(min_y), max_x: bits(max_x), max_y: bits(max_y) }
}

fn launched(serial: &str, model: &str) -> App {
    let cfg = Config {
        lens_correct: false,
        lens_k1: bits(0.0),
        lens_k2: bits(0.0),
        rotation_deg: bits(0.0),
        uv: crop(0.0, 0.0, 1.0, 1.0),
        display_id: 0,
        max_size: 1920,
        bitrate_mbps: 30,
        max_fps: 60,
        audio: false,
        audio_output_device: String::new(),
        remotes: vec!["192.168.1.105:5555".into()],
    };
    let devices = vec![Device {
        serial: serial.into(),
        state: "device".into(),
        usb: true,
        model: model.into(),
    }];
    let mut app = App::new(cfg, StartupConfig::default(), devices, false, 0);
    app.displays = vec![DisplayInfo { id: 0, width: 1920, height: 1080 }];
    app
}

fn quest() -> App {
    launched("340YC10G810KRV", "Quest_3S")
}

fn frame(width: u32, height: u32) -> Frame {
    let mut rgba = Vec::new();
    for k in 0..width * height {
        rgba.extend_from_slice(&[k as u8, 100, 200, 50]);
    }
    Frame { width, height, rgba }
}

#[test]
fn test_settings_modal_close() {
    let ctx = egui::Context::default();
    let mut app = App {
        settings_open: true,
        selected_serial: None,
        devices: vec![],
        displays: vec![],
        remotes: vec![],
        auto_reconnect: false,
        ..quest()
    };

    assert!(app.settings_open);

    let mut raw_input = egui::RawInput::default();
    raw_input.events.push(egui::Event::Key {
        key: egui::Key::Escape,
        physical_key: None,
        pressed: true,
        repeat: false,
        modifiers: egui::Modifiers::default(),
    });
    let mut output = ctx.run_ui(raw_input, |ui| {
        let mut events = Vec::new();
        if ui.input(|i| i.key_pressed(egui::Key::Escape)) {
            events.push(ModalEvent::Escape);
        }
        app.settings_modal(&events);
    });
    output.textures_delta.clear();

    assert!(!app.settings_open, "Settings modal did not close on Escape key!");
}

#[test]
fn every_way_to_close_the_settings() {
    for e in [ModalEvent::Escape, ModalEvent::Backdrop, ModalEvent::CloseButton,
        ModalEvent::ApplyAndClose]
    {
        let mut app = quest();
        app.toggle_settings();
        app.settings_modal(&vec![e, ModalEvent::Tilt(bits(4.0))]);
        assert!(!app.settings_open);
        assert_eq!(app.rotation_deg, bits(4.0));
        // Closed settings take nothing.
        app.settings_modal(&vec![ModalEvent::Tilt(bits(5.0))]);
        assert_eq!(app.rotation_deg, bits(4.0));
    }
}

#[test]
fn settings_are_set_in_order() {
    let mut app = quest();
    app.settings_open = true;
    app.settings_modal(&vec![
        ModalEvent::Lens(LensProfile::Quest2),
        ModalEvent::Crop(CropPreset::RightEye),
        ModalEvent::Curve(bits(0.3)),
        ModalEvent::Edge(bits(0.1)),
        ModalEvent::AutoReconnect(false),
    ]);
    assert!(app.settings_open && app.lens_correct && !app.auto_reconnect);
    assert_eq!(app.uv, crop(0.5, 0.0, 1.0, 1.0));
    let lens = (app.lens_k1, app.lens_k2, app.rotation_deg);
    assert_eq!(lens, (bits(0.3), bits(0.1), bits(-1.0)));
    app.settings_modal(&vec![ModalEvent::ResetLens, ModalEvent::Flatten(false)]);
    let lens = (app.lens_k1, app.lens_k2, app.rotation_deg);
    assert_eq!(lens, (bits(0.02), bits(-0.2), bits(-1.0)));
    assert!(!app.lens_correct);
    assert_eq!(app.uv, crop(0.5, 0.0, 1.0, 1.0));
    app.settings_modal(&vec![ModalEvent::Zoom(crop(0.4, 0.4, 0.6, 0.6))]);
    assert_eq!(app.uv, crop(0.4, 0.4, 0.6, 0.6));
    app.settings_modal(&vec![ModalEvent::Lens(LensProfile::QuestPro)]);
    let lens = (app.lens_k1, app.lens_k2, app.rotation_deg);
    assert_eq!(lens, (bits(0.01), bits(-0.04), bits(0.0)));
    app.settings_modal(&vec![ModalEvent::Lens(LensProfile::Quest3s)]);
    assert_eq!(app.lens_k1, bits(0.07));
    app.settings_modal(&vec![ModalEvent::Lens(LensProfile::Quest3)]);
    assert_eq!(app.lens_k1, bits(0.02));
}

#[test]
fn crop_presets() {
    assert_eq!(CropPreset::LeftEye.crop(), crop(0.0, 0.0, 0.5, 1.0));
    assert_eq!(CropPreset::RightEye.crop(), crop(0.5, 0.0, 1.0, 1.0));
    assert_eq!(CropPreset::FullPanel.crop(), crop(0.0, 0.0, 1.0, 1.0));
    assert_eq!(CropPreset::Center.crop(), crop(0.25, 0.25, 0.75, 0.75));
}

#[test]
fn idle_side_bar() {
    let mut app = quest();
    app.streamer_forced = Some(false);
    app.devices.push(Device {
        serial: "x".into(),
        state: "offline".into(),
        usb: true,
        model: String::new(),
    });
    app.devices.push(Device {
        serial: "y".into(),
        state: "device".into(),
        usb: false,
        model: String::new(),
    });
    let bar = app.sidebar_content(true, true);
    assert_eq!(bar.device, Some(0));
    assert_eq!(bar.online, vec![0, 2]);
    assert!(!bar.masked);
    assert_eq!(bar.display, "1920 × 1080");
    assert_eq!(bar.max_size, "1920px");
    assert_eq!(bar.bitrate, "30 Mbps");
    assert_eq!(bar.fps, "60");
    assert_eq!(bar.audio_device, "Padrão do sistema");
    assert_eq!(bar.outputs, None);
    assert_eq!(bar.remotes, vec!["192.168.1.105:5555".to_string()]);
    assert_eq!(bar.device_serial.as_deref(), Some("340YC10G810KRV"));
    assert_eq!(bar.serials, vec!["340YC10G810KRV".to_string(), "y".to_string()]);
    assert!(bar.message.is_none());
    assert!(!bar.connect_all && !bar.low_latency && !bar.high_quality);
    assert_eq!(bar.buttons, MainButtons::Idle { enabled: true, panel_view: true });
    app.selected_serial = Some("gone".into());
    let bar = app.sidebar_content(false, false);
    assert_eq!(bar.device, None);
    assert_eq!(bar.buttons, MainButtons::Idle { enabled: true, panel_view: false });
    app.selected_serial = None;
    let bar = app.sidebar_content(false, false);
    assert_eq!(bar.buttons, MainButtons::Idle { enabled: false, panel_view: false });
}

#[test]
fn live_side_bar() {
    let mut app = quest();
    app.apply_quality_preset(1440, 60, 12);
    app.connect();
    app.spout_enabled = true;
    app.has_texture = true;
    app.remotes.push("10.0.0.2:5555".into());
    app.streamer_forced = Some(true);
    let bar = app.sidebar_content(false, true);
    assert_eq!(bar.outputs, Some((true, false)));
    assert!(bar.low_latency && bar.masked && bar.connect_all);
    assert_eq!(bar.remotes, vec!["•••".to_string(), "•••".to_string()]);
    assert_eq!(bar.device_serial.as_deref(), Some("•••"));
    assert_eq!(bar.serials, vec!["•••".to_string()]);
    let live = MainButtons::Live { apply: false, can_shoot: true, recording: false };
    assert_eq!(bar.buttons, live);
    app.settings.max_fps = 90;
    let bar = app.sidebar_content(true, false);
    let live = MainButtons::Live { apply: true, can_shoot: true, recording: true };
    assert_eq!(bar.buttons, live);
    assert_eq!(app.apply_kind(), Some(Source::Panel));
}

#[test]
fn labels() {
    let list = vec![DisplayInfo { id: 2, width: 10, height: 20 },
        DisplayInfo { id: 2, width: 30, height: 40 }];
    assert_eq!(display_label(&list, 2), "10 × 20");
    assert_eq!(display_label(&list, 0), "Disp 0");
    assert_eq!(max_size_label(0), "Full");
    assert_eq!(max_size_label(1280), "1280px");
    assert_eq!(bitrate_label(8), "8 Mbps");
    assert_eq!(fps_label(0), "Max");
    assert_eq!(fps_label(120), "120");
    assert_eq!(audio_label(&"HDMI".to_string()), "HDMI");
}

#[test]
fn quest_gets_a_flat_view_and_others_the_panel() {
    let mut app = quest();
    assert!(app.selected_is_quest());
    assert_eq!(app.connect_kind(), Some(Source::Flat));
    let other = launched("p", "Pixel_8");
    assert!(!other.selected_is_quest());
    assert_eq!(other.connect_kind(), Some(Source::Panel));
    app.connect_flat();
    assert_eq!(app.connect_kind(), None);
    app.disconnect();
    app.selected_serial = None;
    assert_eq!(app.connect_kind(), None);
}

#[test]
fn fresh_streams_need_no_apply() {
    let mut app = quest();
    assert!(!app.active_config_matches());
    assert_eq!(app.apply_kind(), None);
    app.connect();
    assert!(app.active_config_matches());
    assert_eq!(app.apply_kind(), None);
    app.settings.audio_output_device = "HDMI".into();
    assert!(!app.active_config_matches());
    app.disconnect();
    app.connect_flat();
    assert!(app.active_config_matches());
    app.settings.bitrate_mbps = 31;
    assert_eq!(app.apply_kind(), Some(Source::Flat));
}

#[test]
fn picked_device_is_selected() {
    let mut app = launched("p", "Pixel_8");
    app.need_display_fetch = false;
    app.selected_serial = None;
    app.select_device(0);
    assert_eq!(app.selected_serial.as_deref(), Some("p"));
    assert!(app.displays.is_empty() && app.need_display_fetch);
}

#[test]
fn autostart_waits_for_a_device() {
    let mut app = quest();
    assert!(!app.autostart());
    app.want_autostart = true;
    app.selected_serial = None;
    assert!(!app.autostart());
    assert!(app.want_autostart);
    app.selected_serial = Some("340YC10G810KRV".into());
    assert!(app.autostart());
    assert!(!app.want_autostart && app.need_display_fetch && app.displays.is_empty());
    assert_eq!(app.stream.as_ref().unwrap().serial, "340YC10G810KRV");
    assert!(!app.autostart());
}

#[test]
fn badge_tells_the_status() {
    let rate = Rate { frames: 30, window_ns: 500_000_000, decode_us: 60_000, decode_frames: 30 };
    let streaming = Status::Streaming { width: 1920, height: 1080, rate };
    let failed = Status::Error("no adb".into());
    let mut app = quest();
    let text = app.status_header_badge(&streaming, &failed, "60", Some("2.0"));
    assert_eq!(text, "Desconectado");
    app.connect();
    let text = app.status_header_badge(&streaming, &failed, "60", Some("2.0"));
    assert_eq!(text, "1920×1080  ·  60 fps  ·  2.0 ms");
    let text = app.status_header_badge(&streaming, &failed, "60", None);
    assert_eq!(text, "1920×1080  ·  60 fps");
    assert_eq!(app.status_header_badge(&Status::Connecting, &failed, "", None), "Conectando…");
    assert_eq!(app.status_header_badge(&Status::Stopped, &failed, "", None), "Parado");
    app.flat = Some(FlatConfig { max_size: 1920, bitrate: 2, fps: 72 });
    assert_eq!(app.status_header_badge(&streaming, &failed, "60", None), "no adb");
}

#[test]
fn full_screen_keys() {
    assert_eq!(fullscreen_key(false, true, false), Some(true));
    assert_eq!(fullscreen_key(true, true, true), Some(false));
    assert_eq!(fullscreen_key(true, false, true), Some(false));
    assert_eq!(fullscreen_key(false, false, true), None);
    assert_eq!(fullscreen_key(true, false, false), None);
}

#[test]
fn prompt_until_there_is_a_picture() {
    let mut app = quest();
    assert_eq!(app.prompt(), Some(Prompt::PickDevice));
    app.connect();
    assert_eq!(app.prompt(), Some(Prompt::AwaitFrame));
    app.has_texture = true;
    assert_eq!(app.prompt(), None);
}

#[test]
fn lens_is_drawn_on_a_mesh() {
    let mut app = quest();
    assert_eq!(app.drawn_lens(), None);
    app.lens_k1 = bits(0.4);
    app.rotation_deg = bits(3.0);
    assert_eq!(app.drawn_lens(), Some((bits(0.0), bits(0.0), bits(3.0))));
    app.lens_correct = true;
    app.rotation_deg = bits(0.0);
    assert_eq!(app.drawn_lens(), Some((bits(0.4), bits(0.0), bits(0.0))));
}

#[test]
fn new_frames_reach_the_texture_once() {
    let mut app = quest();
    let mut slot = FrameSlot::default();
    assert_eq!(app.sync_texture(&mut slot), None);
    slot.publish(frame(4, 2));
    assert_eq!(app.sync_texture(&mut slot), Some(TextureUpdate::Create));
    assert_eq!(app.tex_size, (4, 2));
    assert_eq!(app.last_generation, 1);
    assert!(app.last_frame.is_some() && slot.frame.is_none());
    assert_eq!(app.sync_texture(&mut slot), None);
    slot.publish(frame(6, 2));
    assert_eq!(app.sync_texture(&mut slot), Some(TextureUpdate::Replace));
    assert_eq!(app.tex_size, (6, 2));
}

#[test]
fn flat_view_comes_first() {
    let mut app = quest();
    assert_eq!(app.frame_source(), None);
    app.connect();
    assert_eq!(app.frame_source(), Some(Source::Panel));
    app.flat = Some(FlatConfig { max_size: 1920, bitrate: 2, fps: 72 });
    assert_eq!(app.frame_source(), Some(Source::Flat));
    let (view, w, h) = app.live_view(101, 51, 7, 7);
    assert_eq!((view, w, h), (ViewParams::default(), 101, 51));
}

#[test]
fn live_outputs_send_the_view() {
    let mut app = quest();
    app.connect();
    app.lens_correct = true;
    let mut cache = RemapCache::new();
    let sample = |i: usize, j: usize, _: u32, _: u32| (i + 1, j);
    assert!(app.push_live_outputs(&mut cache, 3, 2, &sample).is_none());
    app.spout_enabled = true;
    assert!(app.push_live_outputs(&mut cache, 3, 2, &sample).is_none());
    app.last_frame = Some(frame(4, 2));
    app.vcam_enabled = true;
    let p = app.push_live_outputs(&mut cache, 3, 2, &sample).unwrap();
    assert_eq!((p.width, p.height), (2, 2));
    let bgra = vec![200, 100, 1, 255, 200, 100, 2, 255, 200, 100, 5, 255, 200, 100, 6, 255];
    let rgba = vec![1, 100, 200, 255, 2, 100, 200, 255, 5, 100, 200, 255, 6, 100, 200, 255];
    assert_eq!(p.bgra, Some(bgra));
    assert_eq!(p.rgba, Some(rgba));
    app.spout_enabled = false;
    let p = app.push_live_outputs(&mut cache, 3, 2, &sample).unwrap();
    assert!(p.bgra.is_none() && p.rgba.is_some());
}

#[test]
fn flat_view_goes_out_untouched() {
    let mut app = quest();
    app.connect_flat();
    app.vcam_enabled = true;
    app.last_frame = Some(frame(5, 3));
    app.lens_correct = true;
    app.uv = crop(0.0, 0.0, 0.5, 1.0);
    let mut cache = RemapCache::new();
    let p = app.push_live_outputs(&mut cache, 2, 2, &|_, _, _, _| (0, 0)).unwrap();
    assert_eq!((p.width, p.height), (5, 3));
    let rgba = p.rgba.unwrap();
    for k in 0..15usize {
        assert_eq!(rgba[4 * k..4 * k + 4], [k as u8, 100, 200, 255]);
    }
    app.spout_enabled = true;
    let p = app.push_live_outputs(&mut cache, 2, 2, &|_, _, _, _| (0, 0)).unwrap();
    let bgra = p.bgra.unwrap();
    for k in 0..15usize {
        assert_eq!(bgra[4 * k..4 * k + 4], [200, 100, k as u8, 255]);
    }
}

#[test]
fn texture_share_is_made_with_the_first_picture() {
    let mut app = quest();
    assert_eq!(app.spout_step(true), SpoutStep::Create);
    assert_eq!(app.spout.as_ref().unwrap().name, "Quest scrcpy");
    app.spout_created();
    assert_eq!(app.spout_step(true), SpoutStep::Send);
    app.spout_error = Some("old".into());
    app.spout_sent(Ok(()));
    assert!(app.spout_error.is_none());
    app.spout_enabled = true;
    app.spout_sent(Err("busy".into()));
    assert_eq!(app.spout_error.as_deref(), Some("busy"));
    assert!(!app.spout_enabled && app.spout.is_none());
    assert_eq!(app.spout_step(false), SpoutStep::Skip);
    app.toggle_spout();
    assert!(app.spout_enabled && app.spout_error.is_none() && app.spout.is_some());
    app.toggle_spout();
    assert!(!app.spout_enabled && app.spout.is_none());
}

#[test]
fn camera_is_opened_for_each_size() {
    let mut app = quest();
    assert_eq!(app.vcam_step(true, 4, 2), CamStep::Open);
    app.vcam_opened(4, 2);
    assert_eq!(app.vcam_step(true, 4, 2), CamStep::Send);
    assert_eq!(app.vcam_step(true, 6, 2), CamStep::Open);
    app.vcam_enabled = true;
    app.vcam_sent(Ok(()));
    assert!(app.vcam_enabled && app.vcam_error.is_none());
    app.vcam_sent(Err("taken".into()));
    assert_eq!(app.vcam_error.as_deref(), Some("taken"));
    assert!(!app.vcam_enabled && app.vcam.is_none());
    assert_eq!(app.vcam_step(false, 1, 1), CamStep::Skip);
    app.toggle_vcam();
    assert!(app.vcam_enabled && app.vcam_error.is_none());
    app.toggle_vcam();
    assert!(!app.vcam_enabled && app.vcam.is_none());
}

#[test]
fn screenshots_are_reported() {
    let mut app = quest();
    app.take_screenshot(Ok("a.png".into()));
    assert!(app.capture_msg.is_none());
    app.last_frame = Some(frame(1, 1));
    app.take_screenshot(Ok("a.png".into()));
    assert_eq!(app.capture_msg.as_deref(), Some("📷 Saved a.png"));
    app.take_screenshot(Err("disk full".into()));
    assert_eq!(app.capture_msg.as_deref(), Some("Screenshot failed: disk full"));
}

#[test]
fn record_button() {
    let mut app = quest();
    assert_eq!(app.toggle_recording(true, true), ToggleRecording::Nothing);
    app.connect();
    app.rotation_deg = bits(2.0);
    assert_eq!(app.toggle_recording(false, true), ToggleRecording::Begin);
    let view = app.view_params();
    assert_eq!(view.rotation_deg, bits(2.0));
    assert_eq!(app.begin_recording(Ok("c.mp4".into())), BeginRecording::Panel(view));
    assert_eq!(app.capture_msg.as_deref(), Some("⏺ Recording to c.mp4"));
    let stop = ToggleRecording::Stop { panel: true, flat: false };
    assert_eq!(app.toggle_recording(true, false), stop);
    assert_eq!(app.capture_msg.as_deref(), Some("⏹ Recording saved."));
    assert_eq!(app.begin_recording(Err("no dir".into())), BeginRecording::Nothing);
    assert_eq!(app.capture_msg.as_deref(), Some("Record failed: no dir"));
    app.connect_flat();
    assert_eq!(app.begin_recording(Ok("f.mp4".into())), BeginRecording::Flat);
}

#[test]
fn obs_is_looked_for_every_two_seconds() {
    let mut app = quest();
    assert!(!app.obs_check_due(1_999_999_999));
    app.poll_obs_detection(1_999_999_999, true);
    assert!(!app.obs_detected);
    assert!(app.obs_check_due(2_000_000_000));
    app.poll_obs_detection(2_000_000_000, true);
    assert!(app.obs_detected && app.streamer_active());
    assert_eq!(app.last_obs_check, 2_000_000_000);
}

#[test]
fn streamer_mode_cycles_and_overrides() {
    let mut app = quest();
    app.obs_detected = true;
    assert!(app.streamer_active());
    app.cycle_streamer();
    assert_eq!(app.streamer_forced, Some(true));
    app.obs_detected = false;
    assert!(app.streamer_active());
    app.cycle_streamer();
    assert_eq!(app.streamer_forced, Some(false));
    app.obs_detected = true;
    assert!(!app.streamer_active());
    assert_eq!(app.shown_remotes(), vec!["192.168.1.105:5555".to_string()]);
    app.cycle_streamer();
    assert_eq!(app.streamer_forced, None);
    assert_eq!(app.shown_remotes(), vec!["•••".to_string()]);
    assert_eq!(shown(&"340YC10G810KRV".to_string(), true), "•••");
    assert_eq!(shown(&"340YC10G810KRV".to_string(), false), "340YC10G810KRV");
}

#[test]
fn hidden_texts_do_not_show() {
    let mut app = quest();
    app.connect();
    app.remotes.push("10.0.0.2:5555".into());
    let text = "🔗 10.0.0.2:5555, 10.0.0.2:5555 and 340YC10G810KRV; 10.0.0.2";
    app.capture_msg = Some(text.into());
    assert_eq!(app.shown_message().as_deref(), Some(text));
    app.obs_detected = true;
    assert_eq!(app.shown_message().as_deref(), Some("🔗 •••, ••• and •••; 10.0.0.2"));
    assert_eq!(app.sidebar_content(false, false).message, app.shown_message());
    let failed = Status::Error("device '340YC10G810KRV' not found".into());
    let text = app.status_header_badge(&failed, &Status::Stopped, "", None);
    assert_eq!(text, "device '•••' not found");
    app.capture_msg = None;
    assert!(app.shown_message().is_none());
    assert_eq!(app.screen(&String::new()), "");
    app.remotes.push(String::new());
    assert_eq!(app.screen(&"a".to_string()), "a");
}
