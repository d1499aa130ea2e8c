//! The state of the front-end, and what each thing that the user does or that
//! the background work reports changes in it. The window itself only draws this
//! state and carries out what the methods here tell it to.
//!
//! Times are nanoseconds on one clock that does not go back.

use crate::devices::{
    any_online_as, areas_fit, choose_display, display_choice, find_serial, has_online,
    is_display_order, is_preferred, none_as, none_online, order_displays, preferred, Device,
    DisplayInfo,
};
use crate::outputs::{SpoutOutput, VirtualCamOutput};
use crate::scalar::{HALF, ONE, ZERO};
use crate::settings::{
    has_numbers, no_wishes, same_config, texts, wish_or, Config, FlatConfig, Settings,
    StartupConfig, AUDIO_BIT_RATE, MEGABIT,
};
use crate::stream::{elapsed, elapsed_ns, Status, StreamConfig};
use crate::view::{
    full_panel, left_eye, CropRect, ViewParams, QUEST2_K1, QUEST2_K2, QUEST2_TILT, QUEST3S_K1,
    QUEST3S_K2, QUEST3S_TILT, QUEST3_K1, QUEST3_K2, QUEST3_TILT, QUESTPRO_K1, QUESTPRO_K2,
    QUESTPRO_TILT,
};
use crate::warp::Frame;
use vstd::prelude::*;
use vstd::string::*;

verus! {

/// How long a change rests before it is saved.
pub const SAVE_DELAY_NS: u64 = 500_000_000;

/// The state of the front-end.
pub struct App {
    pub devices: Vec<Device>,
    pub selected_serial: Option<String>,
    pub displays: Vec<DisplayInfo>,
    pub settings: Settings,
    /// What the panel stream that is running was started with.
    pub stream: Option<StreamConfig>,
    /// What the flat view that is running was started with.
    pub flat: Option<FlatConfig>,
    pub has_texture: bool,
    pub last_generation: u64,
    pub tex_size: (u32, u32),
    pub last_frame: Option<Frame>,
    pub capture_msg: Option<String>,
    pub spout_enabled: bool,
    pub spout: Option<SpoutOutput>,
    pub spout_error: Option<String>,
    pub vcam_enabled: bool,
    pub vcam: Option<VirtualCamOutput>,
    pub vcam_error: Option<String>,
    pub uv: CropRect,
    pub lens_correct: bool,
    pub lens_k1: u32,
    pub lens_k2: u32,
    pub rotation_deg: u32,
    pub want_autostart: bool,
    pub auto_reconnect: bool,
    pub need_display_fetch: bool,
    pub fetch_inflight: bool,
    pub remote_input: String,
    pub remotes: Vec<String>,
    pub connecting: bool,
    /// Streamer mode: always on, always off, or automatic.
    pub streamer_forced: Option<bool>,
    pub obs_detected: bool,
    pub last_obs_check: u64,
    pub persisted: Config,
    pub dirty_since: Option<u64>,
    pub settings_open: bool,
}

/// Whether a serial is that of the device to fall back to, or missing because no
/// device can be used.
pub open spec fn is_fallback(devices: Seq<Device>, serial: Option<String>) -> bool {
    match serial {
        Some(s) => exists|i: int| #[trigger] is_preferred(devices, i) && s == devices[i].serial,
        None => none_online(devices),
    }
}

/// Whether a device of that serial is listed, in whatever state.
pub open spec fn lists_device(devices: Seq<Device>, serial: Seq<char>) -> bool {
    !none_as(devices, serial)
}

/// Whether a configuration holds the same values as another.
pub open spec fn holds(c: Config, want: Config) -> bool {
    c.remotes@ == want.remotes@ && c == (Config { remotes: c.remotes, ..want })
}

impl App {
    /// The view that is on screen.
    pub open spec fn view(&self) -> ViewParams {
        ViewParams {
            uv: self.uv,
            lens_correct: self.lens_correct,
            k1: self.lens_k1,
            k2: self.lens_k2,
            rotation_deg: self.rotation_deg,
        }
    }

    /// Whether something is streamed.
    pub open spec fn is_live(&self) -> bool {
        self.stream is Some || self.flat is Some
    }

    /// What would be kept between launches now.
    pub open spec fn current(&self) -> Config {
        Config {
            lens_correct: self.lens_correct,
            lens_k1: self.lens_k1,
            lens_k2: self.lens_k2,
            rotation_deg: self.rotation_deg,
            uv: self.uv,
            display_id: self.settings.display_id,
            max_size: self.settings.max_size,
            bitrate_mbps: self.settings.bitrate_mbps,
            max_fps: self.settings.max_fps,
            audio: self.settings.audio,
            audio_output_device: self.settings.audio_output_device,
            remotes: self.remotes,
        }
    }

    /// What a panel stream of a device is started with.
    pub open spec fn stream_config(&self, serial: String) -> StreamConfig {
        StreamConfig {
            serial,
            display_id: self.settings.display_id,
            max_size: self.settings.max_size,
            video_bit_rate: (self.settings.bitrate_mbps * MEGABIT) as u32,
            max_fps: self.settings.max_fps,
            audio: self.settings.audio,
            audio_bit_rate: AUDIO_BIT_RATE,
            audio_output_device: self.settings.audio_output_device,
        }
    }

    /// Whether the state is what was kept, with what the launch asks for in its
    /// place.
    pub open spec fn restores(&self, cfg: Config, startup: StartupConfig) -> bool {
        &&& self.settings.merged_from(cfg, startup)
        &&& self.uv == cfg.uv
        &&& self.lens_correct == cfg.lens_correct
        &&& self.lens_k1 == cfg.lens_k1
        &&& self.lens_k2 == cfg.lens_k2
        &&& self.rotation_deg == cfg.rotation_deg
        &&& self.remotes == cfg.remotes
    }

    /// The state of a launch with what was kept, what the launch asks for, and
    /// the devices and whether OBS runs as they were found.
    pub fn new(
        cfg: Config,
        startup: StartupConfig,
        devices: Vec<Device>,
        obs_detected: bool,
        now: u64,
    ) -> (app: App)
        ensures
            app.devices == devices,
            match startup.serial {
                Some(s) => if lists_device(devices@, s@) {
                    app.selected_serial == Some(s)
                } else {
                    is_fallback(devices@, app.selected_serial)
                },
                None => is_fallback(devices@, app.selected_serial),
            },
            app.displays@.len() == 0,
            app.restores(cfg, startup),
            app.stream is None && app.flat is None,
            !app.has_texture && app.last_frame is None,
            app.last_generation == 0 && app.tex_size == (0u32, 0u32),
            app.capture_msg is None,
            !app.spout_enabled && app.spout is None && app.spout_error is None,
            !app.vcam_enabled && app.vcam is None && app.vcam_error is None,
            app.want_autostart == startup.autostart,
            app.auto_reconnect,
            app.need_display_fetch,
            !app.fetch_inflight,
            app.remote_input@.len() == 0,
            !app.connecting,
            app.streamer_forced is None,
            app.obs_detected == obs_detected,
            app.last_obs_check == now,
            holds(app.persisted, app.current()),
            app.dirty_since is None,
            !app.settings_open,
    {
        let settings = Settings::merged(&cfg, &startup);
        let persisted = Config {
            lens_correct: cfg.lens_correct,
            lens_k1: cfg.lens_k1,
            lens_k2: cfg.lens_k2,
            rotation_deg: cfg.rotation_deg,
            uv: cfg.uv,
            display_id: settings.display_id,
            max_size: settings.max_size,
            bitrate_mbps: settings.bitrate_mbps,
            max_fps: settings.max_fps,
            audio: settings.audio,
            audio_output_device: settings.audio_output_device.clone(),
            remotes: cfg.remotes.clone(),
        };
        let mut app = App {
            devices: Vec::new(),
            selected_serial: None,
            displays: Vec::new(),
            settings,
            stream: None,
            flat: None,
            has_texture: false,
            last_generation: 0,
            tex_size: (0, 0),
            last_frame: None,
            capture_msg: None,
            spout_enabled: false,
            spout: None,
            spout_error: None,
            vcam_enabled: false,
            vcam: None,
            vcam_error: None,
            uv: cfg.uv,
            lens_correct: cfg.lens_correct,
            lens_k1: cfg.lens_k1,
            lens_k2: cfg.lens_k2,
            rotation_deg: cfg.rotation_deg,
            want_autostart: startup.autostart,
            auto_reconnect: true,
            need_display_fetch: false,
            fetch_inflight: false,
            remote_input: String::new(),
            remotes: cfg.remotes,
            connecting: false,
            streamer_forced: None,
            obs_detected,
            last_obs_check: now,
            persisted,
            dirty_since: None,
            settings_open: false,
        };
        app.refresh_devices(devices);
        if let Some(s) = startup.serial {
            if find_serial(&app.devices, &s).is_some() {
                app.selected_serial = Some(s);
                app.request_display_fetch();
            }
        }
        app
    }

    /// Takes the devices as they were listed. A selected device that can still be
    /// used stays selected; otherwise the fallback is selected and its displays
    /// are to be fetched.
    pub fn refresh_devices(&mut self, devices: Vec<Device>)
        ensures
            ({
                let keeps = old(self).selected_serial matches Some(s) && any_online_as(
                    devices@,
                    s@,
                );
                &&& keeps ==> *final(self) == (App { devices, ..*old(self) })
                &&& !keeps ==> {
                    &&& *final(self) == (App {
                        devices,
                        selected_serial: final(self).selected_serial,
                        displays: final(self).displays,
                        need_display_fetch: true,
                        ..*old(self)
                    })
                    &&& is_fallback(devices@, final(self).selected_serial)
                    &&& final(self).displays@.len() == 0
                }
            }),
            match final(self).selected_serial {
                Some(s) => any_online_as(devices@, s@),
                None => none_online(devices@),
            },
    {
        let keeps = match &self.selected_serial {
            Some(s) => has_online(&devices, s),
            None => false,
        };
        self.devices = devices;
        if !keeps {
            self.selected_serial = match preferred(&self.devices) {
                Some(i) => {
                    assert(is_preferred(self.devices@, i as int));
                    Some(self.devices[i].serial.clone())
                },
                None => None,
            };
            self.request_display_fetch();
        }
    }

    /// Forgets the displays and asks for them to be fetched.
    pub fn request_display_fetch(&mut self)
        ensures
            *final(self) == (App {
                displays: final(self).displays,
                need_display_fetch: true,
                ..*old(self)
            }),
            final(self).displays@.len() == 0,
    {
        self.displays = Vec::new();
        self.need_display_fetch = true;
    }
}

/// Whether the displays can be fetched without disturbing a stream: not while it
/// connects.
pub open spec fn is_fetch_safe(status: Option<Status>) -> bool {
    !(status matches Some(s) && s is Connecting)
}

/// Tells whether the displays can be fetched.
pub fn fetch_safe(status: &Option<Status>) -> (safe: bool)
    ensures
        safe == is_fetch_safe(*status),
{
    match status {
        Some(Status::Connecting) => false,
        _ => true,
    }
}

impl App {
    /// Whether a fetch of the displays is due, given what the panel stream shows.
    pub open spec fn fetch_due(&self, status: Option<Status>) -> bool {
        self.need_display_fetch && !self.fetch_inflight && is_fetch_safe(status)
    }

    /// Begins a fetch of the displays where one is due. The result is the device
    /// whose displays are to be listed.
    pub fn drive_display_fetch(&mut self, status: &Option<Status>) -> (fetch: Option<String>)
        ensures
            if old(self).fetch_due(*status) {
                &&& fetch == old(self).selected_serial
                &&& *final(self) == (App {
                    need_display_fetch: false,
                    fetch_inflight: fetch is Some,
                    ..*old(self)
                })
            } else {
                fetch is None && *final(self) == *old(self)
            },
    {
        if !self.need_display_fetch || self.fetch_inflight || !fetch_safe(status) {
            return None;
        }
        self.need_display_fetch = false;
        let serial = self.selected_serial.clone();
        if serial.is_some() {
            self.fetch_inflight = true;
        }
        serial
    }

    /// Takes the displays that were fetched, where a fetch has ended.
    pub fn poll_displays(&mut self, taken: Option<Result<Vec<DisplayInfo>, String>>)
        requires
            taken matches Some(Ok(list)) ==> areas_fit(list@),
        ensures
            match taken {
                None => *final(self) == *old(self),
                Some(Ok(list)) => {
                    &&& *final(self) == (App {
                        fetch_inflight: false,
                        displays: final(self).displays,
                        settings: Settings {
                            display_id: display_choice(
                                final(self).displays@,
                                old(self).settings.display_id,
                            ),
                            ..old(self).settings
                        },
                        ..*old(self)
                    })
                    &&& is_display_order(list@, final(self).displays@)
                },
                Some(Err(_)) => {
                    &&& *final(self) == (App {
                        fetch_inflight: false,
                        displays: final(self).displays,
                        ..*old(self)
                    })
                    &&& final(self).displays@.len() == 0
                },
            },
    {
        match taken {
            None => {},
            Some(Ok(list)) => {
                self.fetch_inflight = false;
                self.displays = order_displays(&list);
                self.settings.display_id = choose_display(
                    &self.displays,
                    self.settings.display_id,
                );
            },
            Some(Err(_)) => {
                self.fetch_inflight = false;
                self.displays = Vec::new();
            },
        }
    }

    /// Starts a panel stream of the selected device. The result tells whether one
    /// is selected, so that the stream of [`App::stream`] is to be run.
    pub fn connect(&mut self) -> (start: bool)
        requires
            old(self).selected_serial is Some ==> old(self).settings.bitrate_mbps * MEGABIT
                <= u32::MAX,
        ensures
            start == (old(self).selected_serial is Some),
            match old(self).selected_serial {
                Some(serial) => *final(self) == (App {
                    stream: Some(old(self).stream_config(serial)),
                    has_texture: false,
                    last_frame: None,
                    last_generation: 0,
                    ..*old(self)
                }),
                None => *final(self) == *old(self),
            },
    {
        let serial = match &self.selected_serial {
            Some(s) => s.clone(),
            None => {
                return false;
            },
        };
        self.has_texture = false;
        self.last_frame = None;
        self.last_generation = 0;
        self.stream = Some(
            StreamConfig {
                serial,
                display_id: self.settings.display_id,
                max_size: self.settings.max_size,
                video_bit_rate: self.settings.bitrate_mbps * MEGABIT,
                max_fps: self.settings.max_fps,
                audio: self.settings.audio,
                audio_bit_rate: AUDIO_BIT_RATE,
                audio_output_device: self.settings.audio_output_device.clone(),
            },
        );
        true
    }

    /// Ends whatever is streamed.
    pub fn disconnect(&mut self)
        ensures
            *final(self) == (App {
                stream: None,
                flat: None,
                has_texture: false,
                last_frame: None,
                ..*old(self)
            }),
    {
        self.stream = None;
        self.flat = None;
        self.has_texture = false;
        self.last_frame = None;
    }

    /// Starts a flat view of the selected device: the whole view, not flattened,
    /// turned or cropped. The result tells whether one is selected, so that the
    /// flat view of [`App::flat`] is to be run.
    pub fn connect_flat(&mut self) -> (start: bool)
        requires
            old(self).selected_serial is Some ==> old(self).settings.flat_mbps() * MEGABIT
                <= u32::MAX,
        ensures
            start == (old(self).selected_serial is Some),
            if old(self).selected_serial is Some {
                *final(self) == (App {
                    stream: None,
                    flat: Some(old(self).settings.flat_config_spec()),
                    has_texture: false,
                    last_frame: None,
                    last_generation: 0,
                    lens_correct: false,
                    rotation_deg: ZERO,
                    uv: full_panel(),
                    ..*old(self)
                })
            } else {
                *final(self) == *old(self)
            },
    {
        if self.selected_serial.is_none() {
            return false;
        }
        self.stream = None;
        self.has_texture = false;
        self.last_frame = None;
        self.last_generation = 0;
        self.lens_correct = false;
        self.rotation_deg = ZERO;
        self.uv = CropRect { min_x: ZERO, min_y: ZERO, max_x: ONE, max_y: ONE };
        self.flat = Some(self.settings.flat_config());
        true
    }

    /// The state with the left eye shown through a lens profile.
    pub open spec fn with_lens(self, k1: u32, k2: u32, tilt: u32) -> App {
        App {
            uv: left_eye(),
            lens_correct: true,
            lens_k1: k1,
            lens_k2: k2,
            rotation_deg: tilt,
            ..self
        }
    }

    fn apply_lens(&mut self, k1: u32, k2: u32, tilt: u32)
        ensures
            *final(self) == old(self).with_lens(k1, k2, tilt),
    {
        self.uv = CropRect { min_x: ZERO, min_y: ZERO, max_x: HALF, max_y: ONE };
        self.lens_correct = true;
        self.lens_k1 = k1;
        self.lens_k2 = k2;
        self.rotation_deg = tilt;
    }

    /// Left eye, flattened and leveled for the Quest 3.
    pub fn apply_quest3_preset(&mut self)
        ensures
            *final(self) == old(self).with_lens(QUEST3_K1, QUEST3_K2, QUEST3_TILT),
    {
        self.apply_lens(QUEST3_K1, QUEST3_K2, QUEST3_TILT);
    }

    /// Left eye, flattened and leveled for the Quest 2.
    pub fn apply_quest2_preset(&mut self)
        ensures
            *final(self) == old(self).with_lens(QUEST2_K1, QUEST2_K2, QUEST2_TILT),
    {
        self.apply_lens(QUEST2_K1, QUEST2_K2, QUEST2_TILT);
    }

    /// Left eye, flattened for the Quest Pro.
    pub fn apply_questpro_preset(&mut self)
        ensures
            *final(self) == old(self).with_lens(QUESTPRO_K1, QUESTPRO_K2, QUESTPRO_TILT),
    {
        self.apply_lens(QUESTPRO_K1, QUESTPRO_K2, QUESTPRO_TILT);
    }

    /// Left eye, flattened and leveled for the Quest 3S.
    pub fn apply_quest3s_preset(&mut self)
        ensures
            *final(self) == old(self).with_lens(QUEST3S_K1, QUEST3S_K2, QUEST3S_TILT),
    {
        self.apply_lens(QUEST3S_K1, QUEST3S_K2, QUEST3S_TILT);
    }

    /// Sets size, frame rate and bit rate at once.
    pub fn apply_quality_preset(&mut self, max_size: u32, fps: u32, mbps: u32)
        ensures
            *final(self) == (App {
                settings: Settings {
                    max_size,
                    max_fps: fps,
                    bitrate_mbps: mbps,
                    ..old(self).settings
                },
                ..*old(self)
            }),
    {
        self.settings.max_size = max_size;
        self.settings.max_fps = fps;
        self.settings.bitrate_mbps = mbps;
    }

    /// What the running panel stream is to be told about reconnecting, if one is
    /// running.
    pub fn sync_auto_reconnect(&self) -> (tell: Option<bool>)
        ensures
            tell == (if self.stream is Some {
                Some(self.auto_reconnect)
            } else {
                None
            }),
    {
        if self.stream.is_some() {
            Some(self.auto_reconnect)
        } else {
            None
        }
    }

    /// What would be kept between launches now.
    pub fn current_config(&self) -> (cfg: Config)
        ensures
            holds(cfg, self.current()),
    {
        Config {
            lens_correct: self.lens_correct,
            lens_k1: self.lens_k1,
            lens_k2: self.lens_k2,
            rotation_deg: self.rotation_deg,
            uv: self.uv,
            display_id: self.settings.display_id,
            max_size: self.settings.max_size,
            bitrate_mbps: self.settings.bitrate_mbps,
            max_fps: self.settings.max_fps,
            audio: self.settings.audio,
            audio_output_device: self.settings.audio_output_device.clone(),
            remotes: self.remotes.clone(),
        }
    }

    /// When a change that is found at `now` began to rest.
    pub open spec fn dirty_at(&self, now: u64) -> Option<u64> {
        match self.dirty_since {
            Some(t) => Some(t),
            None => if same_config(self.current(), self.persisted) {
                None
            } else {
                Some(now)
            },
        }
    }

    /// Whether a change has rested long enough at `now`.
    pub open spec fn save_due(&self, now: u64) -> bool {
        self.dirty_at(now) matches Some(t) && elapsed(now, t) >= SAVE_DELAY_NS
    }

    /// Whether there is anything that has not been saved.
    fn is_changed(&self) -> (changed: bool)
        ensures
            changed == !same_config(self.current(), self.persisted),
    {
        let cur = self.current_config();
        assert(texts(cur.remotes@) == texts(self.current().remotes@));
        !cur.equals(&self.persisted)
    }

    /// Looks for changes. Where one has rested long enough, the result tells to
    /// save [`App::persisted`].
    pub fn autosave(&mut self, now: u64) -> (save: bool)
        ensures
            save == old(self).save_due(now),
            if save {
                &&& *final(self) == (App {
                    persisted: final(self).persisted,
                    dirty_since: None,
                    ..*old(self)
                })
                &&& holds(final(self).persisted, old(self).current())
            } else {
                *final(self) == (App { dirty_since: old(self).dirty_at(now), ..*old(self) })
            },
    {
        let ghost before = *self;
        if self.dirty_since.is_none() && self.is_changed() {
            self.dirty_since = Some(now);
        }
        assert(self.dirty_since == before.dirty_at(now));
        if let Some(t) = self.dirty_since {
            if elapsed_ns(now, t) >= SAVE_DELAY_NS {
                self.persisted = self.current_config();
                self.dirty_since = None;
                return true;
            }
        }
        false
    }
}

/// What was saved is restored by the next launch, unless the launch asks for
/// something else.
pub proof fn law_settings_survive_a_restart(before: App, saved: Config, after: App)
    requires
        holds(saved, before.current()),
        after.restores(saved, no_wishes()),
    ensures
        holds(after.current(), before.current()),
{
}

/// What a launch asks for goes before what was saved, and everything else is as
/// it was saved.
pub proof fn law_launch_wishes_go_first(saved: Config, startup: StartupConfig, app: App)
    requires
        app.restores(saved, startup),
    ensures
        holds(
            app.current(),
            Config {
                display_id: wish_or(startup.display_id, saved.display_id),
                max_size: wish_or(startup.max_size, saved.max_size),
                bitrate_mbps: wish_or(startup.bitrate_mbps, saved.bitrate_mbps),
                max_fps: wish_or(startup.max_fps, saved.max_fps),
                audio: wish_or(startup.audio, saved.audio),
                ..saved
            },
        ),
{
}

/// A change that is found at one look and not saved before is saved by the first
/// look that comes half a second later, and then there is nothing more to save.
pub proof fn law_changes_are_saved(app: App, found: u64, later: u64, saved: Config)
    requires
        app.dirty_since is None,
        !same_config(app.current(), app.persisted),
        later - found >= SAVE_DELAY_NS,
        has_numbers(app.current()),
        holds(saved, app.current()),
    ensures
        !app.save_due(found),
        (App { dirty_since: app.dirty_at(found), ..app }).save_due(later),
        (App { persisted: saved, dirty_since: None, ..app }).dirty_at(later) is None,
{
    assert(texts(saved.remotes@) =~= texts(app.current().remotes@));
}

} // verus!
