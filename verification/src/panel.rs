//! What the window shows around the picture, and what its buttons do.

use crate::app::App;
use crate::devices::{
    find_serial, is_first_as, is_online, lowercase, model_is_quest, names_quest, none_as, Device,
    DisplayInfo,
};
use crate::live::Source;
use crate::scalar::{beyond, HALF, ONE, QUARTER, THREE_QUARTERS, ZERO};
use crate::settings::{texts, MEGABIT};
use crate::stream::Status;
use crate::streamer::{shown, shown_text, shown_texts};
use crate::text::{decimal, decimal_text, joined};
use crate::view::{
    applied_lens, full_panel, left_eye, needs_mesh, CropRect, ViewParams, QUEST2_K1, QUEST2_K2,
    QUEST2_TILT, QUEST3S_K1, QUEST3S_K2, QUEST3S_TILT, QUEST3_K1, QUEST3_K2, QUEST3_TILT,
    QUESTPRO_K1, QUESTPRO_K2, QUESTPRO_TILT, TILT_TOLERANCE,
};
use vstd::prelude::*;
use vstd::string::*;

verus! {

/// The first display of that id.
pub open spec fn display_of(list: Seq<DisplayInfo>, id: u32) -> Option<DisplayInfo>
    decreases list.len(),
{
    if list.len() == 0 {
        None
    } else if list[0].id == id {
        Some(list[0])
    } else {
        display_of(list.skip(1), id)
    }
}

/// What a display is called: by its size where it is listed, else by its id.
pub open spec fn display_text(list: Seq<DisplayInfo>, id: u32) -> Seq<char> {
    match display_of(list, id) {
        Some(d) => decimal(d.width as nat) + " × "@ + decimal(d.height as nat),
        None => "Disp "@ + decimal(id as nat),
    }
}

/// What a largest extent is called.
pub open spec fn size_text(max_size: u32) -> Seq<char> {
    if max_size == 0 {
        "Full"@
    } else {
        decimal(max_size as nat) + "px"@
    }
}

/// What a frame rate is called.
pub open spec fn fps_text(max_fps: u32) -> Seq<char> {
    if max_fps == 0 {
        "Max"@
    } else {
        decimal(max_fps as nat)
    }
}

/// What an audio device is called.
pub open spec fn audio_text(device: Seq<char>) -> Seq<char> {
    if device.len() == 0 {
        "Padrão do sistema"@
    } else {
        device
    }
}

/// What a display is called.
pub fn display_label(list: &Vec<DisplayInfo>, id: u32) -> (label: String)
    ensures
        label@ == display_text(list@, id),
{
    let mut i: usize = 0;
    assert(list@.skip(0) =~= list@);
    while i < list.len()
        invariant
            i <= list@.len(),
            display_of(list@, id) == display_of(list@.skip(i as int), id),
        decreases list@.len() - i,
    {
        let d = list[i];
        assert(list@.skip(i as int)[0] == d);
        assert(list@.skip(i as int).skip(1) =~= list@.skip(i + 1));
        if d.id == id {
            return size_label(&d);
        }
        i = i + 1;
    }
    joined("Disp ", decimal_text(id as u64).as_str())
}

/// What a display is called by its size.
pub fn size_label(d: &DisplayInfo) -> (label: String)
    ensures
        label@ == decimal(d.width as nat) + " × "@ + decimal(d.height as nat),
{
    let mut label = decimal_text(d.width as u64);
    label.append(" × ");
    label.append(decimal_text(d.height as u64).as_str());
    label
}

/// What a largest extent is called.
pub fn max_size_label(max_size: u32) -> (label: String)
    ensures
        label@ == size_text(max_size),
{
    if max_size == 0 {
        "Full".to_owned()
    } else {
        joined(decimal_text(max_size as u64).as_str(), "px")
    }
}

/// What a bit rate is called.
pub fn bitrate_label(mbps: u32) -> (label: String)
    ensures
        label@ == decimal(mbps as nat) + " Mbps"@,
{
    joined(decimal_text(mbps as u64).as_str(), " Mbps")
}

/// What a frame rate is called.
pub fn fps_label(max_fps: u32) -> (label: String)
    ensures
        label@ == fps_text(max_fps),
{
    if max_fps == 0 {
        "Max".to_owned()
    } else {
        decimal_text(max_fps as u64)
    }
}

/// What an audio device is called.
pub fn audio_label(device: &String) -> (label: String)
    ensures
        label@ == audio_text(device@),
{
    if device.as_str().is_empty() {
        "Padrão do sistema".to_owned()
    } else {
        device.clone()
    }
}

/// The main buttons.
#[derive(Clone, Copy, Debug, PartialEq, Eq, Structural)]
pub enum MainButtons {
    /// Nothing is streamed: a button to connect, and another one to see the panel
    /// where the first would start a flat view.
    Idle { enabled: bool, panel_view: bool },
    /// Something is streamed: buttons to disconnect, to apply changed settings
    /// where there are any, for a screenshot, and to record or stop recording.
    Live { apply: bool, can_shoot: bool, recording: bool },
}

/// What the side bar shows.
pub struct Sidebar {
    /// The device that is selected, if it is listed.
    pub device: Option<usize>,
    /// What is shown of its serial.
    pub device_serial: Option<String>,
    /// The devices that can be selected, and what is shown of their serials.
    pub online: Vec<usize>,
    pub serials: Vec<String>,
    /// Whether serials and addresses are hidden.
    pub masked: bool,
    pub display: String,
    pub max_size: String,
    pub bitrate: String,
    pub fps: String,
    pub audio_device: String,
    /// The live outputs, texture share and camera, and whether they are on.
    pub outputs: Option<(bool, bool)>,
    pub remotes: Vec<String>,
    /// Whether there is a button to connect to all addresses.
    pub connect_all: bool,
    pub low_latency: bool,
    pub high_quality: bool,
    pub buttons: MainButtons,
    /// What is shown of the last message.
    pub message: Option<String>,
}

/// The serials of the devices of some numbers.
pub open spec fn picked_serials(devices: Seq<Device>, picks: Seq<usize>) -> Seq<Seq<char>> {
    picks.map_values(|i: usize| devices[i as int].serial@)
}

/// Whether `picks` are the numbers of the devices that can be used, in order.
pub open spec fn picks_online(devices: Seq<Device>, picks: Seq<usize>) -> bool {
    &&& forall|k: int|
        0 <= k < picks.len() ==> (#[trigger] picks[k]) < devices.len() && is_online(
            devices[picks[k] as int],
        )
    &&& forall|k: int, l: int|
        0 <= k < l < picks.len() ==> #[trigger] picks[k] < #[trigger] picks[l]
    &&& forall|i: int|
        0 <= i < devices.len() && is_online(#[trigger] devices[i]) ==> picks.contains(i as usize)
}

/// What is shown where there is no picture yet.
#[derive(Clone, Copy, Debug, PartialEq, Eq, Structural)]
pub enum Prompt {
    /// A stream is on and its first frame is awaited.
    AwaitFrame,
    /// A device is to be picked and connected.
    PickDevice,
}

impl App {
    /// Whether the selected device is listed as a Quest.
    pub open spec fn quest_selected(&self) -> bool {
        self.selected_serial matches Some(s) && exists|i: int| #[trigger]
            is_first_as(self.devices@, s@, i) && names_quest(lowercase(self.devices@[i].model@))
    }

    /// The number of the selected device, if it is listed.
    pub fn selected_index(&self) -> (index: Option<usize>)
        ensures
            match (self.selected_serial, index) {
                (Some(s), Some(i)) => is_first_as(self.devices@, s@, i as int),
                (Some(s), None) => none_as(self.devices@, s@),
                (None, i) => i is None,
            },
    {
        match &self.selected_serial {
            Some(s) => find_serial(&self.devices, s),
            None => None,
        }
    }

    /// Tells whether the selected device is listed as a Quest.
    pub fn selected_is_quest(&self) -> (quest: bool)
        ensures
            quest == self.quest_selected(),
    {
        match self.selected_index() {
            Some(i) => {
                let quest = model_is_quest(&self.devices[i].model);
                proof {
                    let s = self.selected_serial.unwrap();
                    assert(is_first_as(self.devices@, s@, i as int));
                    assert forall|j: int| #[trigger] is_first_as(self.devices@, s@, j) implies j
                        == i by {
                        assert(self.devices@[j].serial@ == s@);
                        assert(self.devices@[i as int].serial@ == s@);
                    }
                }
                quest
            },
            None => {
                proof {
                    if let Some(s) = &self.selected_serial {
                        assert forall|j: int| !#[trigger] is_first_as(self.devices@, s@, j) by {
                            if is_first_as(self.devices@, s@, j) {
                                assert(self.devices@[j].serial@ == s@);
                            }
                        }
                    }
                }
                false
            },
        }
    }

    /// Whether the bit rates that a comparison with the running stream needs can
    /// be computed.
    pub open spec fn rates_fit(&self) -> bool {
        match (self.flat, self.stream) {
            (Some(_), _) => self.settings.flat_mbps() * MEGABIT <= u32::MAX,
            (None, Some(s)) => s.display_id == self.settings.display_id && s.max_size
                == self.settings.max_size ==> self.settings.bitrate_mbps * MEGABIT <= u32::MAX,
            (None, None) => true,
        }
    }

    /// Tells whether those bit rates can be computed.
    pub fn rates_computable(&self) -> (fit: bool)
        ensures
            fit == self.rates_fit(),
    {
        if self.flat.is_some() {
            return self.settings.rate_fits();
        }
        match &self.stream {
            Some(s) => s.display_id != self.settings.display_id || s.max_size
                != self.settings.max_size || self.settings.rate_fits(),
            None => true,
        }
    }

    /// Whether what is streamed was started with the settings as they are now.
    pub open spec fn config_matches(&self) -> bool {
        match (self.flat, self.stream) {
            (Some(f), _) => f == self.settings.flat_config_spec(),
            (None, Some(s)) => {
                &&& s.display_id == self.settings.display_id
                &&& s.max_size == self.settings.max_size
                &&& s.video_bit_rate == self.settings.bitrate_mbps * MEGABIT
                &&& s.max_fps == self.settings.max_fps
                &&& s.audio == self.settings.audio
                &&& s.audio_output_device@ == self.settings.audio_output_device@
            },
            (None, None) => false,
        }
    }

    /// Tells whether what is streamed was started with the settings as they are
    /// now.
    pub fn active_config_matches(&self) -> (same: bool)
        requires
            self.rates_fit(),
        ensures
            same == self.config_matches(),
    {
        if let Some(f) = &self.flat {
            let want = self.settings.flat_config();
            return *f == want;
        }
        match &self.stream {
            Some(s) => {
                s.display_id == self.settings.display_id && s.max_size == self.settings.max_size
                    && s.video_bit_rate == self.settings.bitrate_mbps * MEGABIT && s.max_fps
                    == self.settings.max_fps && s.audio == self.settings.audio
                    && s.audio_output_device == self.settings.audio_output_device
            },
            None => false,
        }
    }

    /// What the button to connect starts: a flat view of a Quest, and a panel
    /// stream of anything else.
    pub fn connect_kind(&self) -> (kind: Option<Source>)
        ensures
            kind == (if self.selected_serial is None || self.is_live() {
                None
            } else if self.quest_selected() {
                Some(Source::Flat)
            } else {
                Some(Source::Panel)
            }),
    {
        if self.selected_serial.is_none() || self.stream.is_some() || self.flat.is_some() {
            None
        } else if self.selected_is_quest() {
            Some(Source::Flat)
        } else {
            Some(Source::Panel)
        }
    }

    /// What the button to apply changed settings starts anew.
    pub fn apply_kind(&self) -> (kind: Option<Source>)
        requires
            self.rates_fit(),
        ensures
            kind == (if self.is_live() && !self.config_matches() {
                self.source()
            } else {
                None
            }),
    {
        if self.active_config_matches() {
            None
        } else {
            self.frame_source()
        }
    }

    /// The numbers of the devices that can be selected.
    fn online_devices(&self) -> (picks: Vec<usize>)
        ensures
            picks_online(self.devices@, picks@),
    {
        let mut picks: Vec<usize> = Vec::new();
        let mut i: usize = 0;
        while i < self.devices.len()
            invariant
                i <= self.devices@.len(),
                forall|k: int|
                    0 <= k < picks@.len() ==> (#[trigger] picks@[k]) < i && is_online(
                        self.devices@[picks@[k] as int],
                    ),
                forall|k: int, l: int|
                    0 <= k < l < picks@.len() ==> #[trigger] picks@[k] < #[trigger] picks@[l],
                forall|j: int|
                    0 <= j < i && is_online(#[trigger] self.devices@[j]) ==> picks@.contains(
                        j as usize,
                    ),
            decreases self.devices@.len() - i,
        {
            let ghost before = picks@;
            if self.devices[i].online() {
                picks.push(i);
                assert(picks@[before.len() as int] == i);
            }
            assert forall|j: int| 0 <= j < i + 1 && is_online(#[trigger] self.devices@[j]) implies
                picks@.contains(j as usize) by {
                if j < i {
                    assert(before.contains(j as usize));
                    let k = choose|k: int| 0 <= k < before.len() && before[k] == j as usize;
                    assert(picks@[k] == j as usize);
                }
            }
            i = i + 1;
        }
        picks
    }

    /// What is shown of the serials of some devices.
    pub fn shown_serials(&self, picks: &Vec<usize>) -> (list: Vec<String>)
        requires
            forall|k: int| 0 <= k < picks@.len() ==> #[trigger] picks@[k] < self.devices@.len(),
        ensures
            texts(list@) == shown_texts(picked_serials(self.devices@, picks@), self.hides()),
    {
        let masked = self.streamer_active();
        let mut list: Vec<String> = Vec::new();
        let mut k: usize = 0;
        while k < picks.len()
            invariant
                masked == self.hides(),
                k <= picks@.len(),
                list@.len() == k,
                forall|l: int|
                    0 <= l < picks@.len() ==> #[trigger] picks@[l] < self.devices@.len(),
                forall|l: int|
                    0 <= l < k ==> (#[trigger] list@[l])@ == shown_text(
                        self.devices@[picks@[l] as int].serial@,
                        masked,
                    ),
            decreases picks@.len() - k,
        {
            let i: usize = picks[k];
            list.push(shown(&self.devices[i].serial, masked));
            k = k + 1;
        }
        assert(texts(list@) =~= shown_texts(
            picked_serials(self.devices@, picks@),
            self.hides(),
        ));
        list
    }

    /// What the side bar shows, given what the panel stream and the flat view say
    /// of their recordings.
    pub fn sidebar_content(&self, panel_recording: bool, flat_recording: bool) -> (bar: Sidebar)
        requires
            self.rates_fit(),
        ensures
            match (self.selected_serial, bar.device) {
                (Some(s), Some(i)) => is_first_as(self.devices@, s@, i as int),
                (Some(s), None) => none_as(self.devices@, s@),
                (None, i) => i is None,
            },
            match bar.device {
                Some(i) => bar.device_serial matches Some(s) && s@ == shown_text(
                    self.devices@[i as int].serial@,
                    self.hides(),
                ),
                None => bar.device_serial is None,
            },
            picks_online(self.devices@, bar.online@),
            texts(bar.serials@) == shown_texts(
                picked_serials(self.devices@, bar.online@),
                self.hides(),
            ),
            bar.masked == self.hides(),
            match (self.capture_msg, bar.message) {
                (Some(m), Some(s)) => s@ == self.screened(m@),
                (None, None) => true,
                _ => false,
            },
            bar.display@ == display_text(self.displays@, self.settings.display_id),
            bar.max_size@ == size_text(self.settings.max_size),
            bar.bitrate@ == decimal(self.settings.bitrate_mbps as nat) + " Mbps"@,
            bar.fps@ == fps_text(self.settings.max_fps),
            bar.audio_device@ == audio_text(self.settings.audio_output_device@),
            bar.outputs == (if self.is_live() {
                Some((self.spout_enabled, self.vcam_enabled))
            } else {
                None
            }),
            texts(bar.remotes@) == shown_texts(texts(self.remotes@), self.hides()),
            bar.connect_all == (self.remotes@.len() > 1),
            bar.low_latency == self.settings.is_quality(1440, 60, 12),
            bar.high_quality == self.settings.is_quality(1920, 60, 20),
            bar.buttons == (if self.is_live() {
                MainButtons::Live {
                    apply: !self.config_matches(),
                    can_shoot: self.has_texture,
                    recording: self.records(panel_recording, flat_recording),
                }
            } else {
                MainButtons::Idle {
                    enabled: self.selected_serial is Some,
                    panel_view: self.quest_selected(),
                }
            }),
    {
        let panel = self.stream.is_some();
        let flat = self.flat.is_some();
        let buttons = if panel || flat {
            MainButtons::Live {
                apply: !self.active_config_matches(),
                can_shoot: self.has_texture,
                recording: (panel && panel_recording) || (flat && flat_recording),
            }
        } else {
            MainButtons::Idle {
                enabled: self.selected_serial.is_some(),
                panel_view: self.selected_is_quest(),
            }
        };
        let device = self.selected_index();
        let device_serial = match device {
            Some(i) => Some(shown(&self.devices[i].serial, self.streamer_active())),
            None => None,
        };
        let online = self.online_devices();
        let serials = self.shown_serials(&online);
        Sidebar {
            device,
            device_serial,
            online,
            serials,
            masked: self.streamer_active(),
            display: display_label(&self.displays, self.settings.display_id),
            max_size: max_size_label(self.settings.max_size),
            bitrate: bitrate_label(self.settings.bitrate_mbps),
            fps: fps_label(self.settings.max_fps),
            audio_device: audio_label(&self.settings.audio_output_device),
            outputs: if panel || flat {
                Some((self.spout_enabled, self.vcam_enabled))
            } else {
                None
            },
            remotes: self.shown_remotes(),
            connect_all: self.remotes.len() > 1,
            low_latency: self.settings.is_low_latency(),
            high_quality: self.settings.is_high_quality(),
            buttons,
            message: self.shown_message(),
        }
    }

    /// Selects a listed device, whose displays are then to be fetched.
    pub fn select_device(&mut self, index: usize)
        requires
            index < old(self).devices@.len(),
        ensures
            *final(self) == (App {
                selected_serial: Some(old(self).devices@[index as int].serial),
                displays: final(self).displays,
                need_display_fetch: true,
                ..*old(self)
            }),
            final(self).displays@.len() == 0,
    {
        self.selected_serial = Some(self.devices[index].serial.clone());
        self.request_display_fetch();
    }

    /// Whether a launch that asked for it starts to stream now.
    pub open spec fn autostarts(&self) -> bool {
        self.want_autostart && self.selected_serial is Some && self.stream is None
    }

    /// Starts the panel stream that the launch asked for, as soon as a device is
    /// selected. The result tells whether the stream of [`App::stream`] is to be
    /// run.
    pub fn autostart(&mut self) -> (start: bool)
        requires
            old(self).autostarts() ==> old(self).settings.bitrate_mbps * MEGABIT <= u32::MAX,
        ensures
            start == old(self).autostarts(),
            if start {
                &&& *final(self) == (App {
                    want_autostart: false,
                    displays: final(self).displays,
                    need_display_fetch: true,
                    stream: Some(old(self).stream_config(old(self).selected_serial.unwrap())),
                    has_texture: false,
                    last_frame: None,
                    last_generation: 0,
                    ..*old(self)
                })
                &&& final(self).displays@.len() == 0
            } else {
                *final(self) == *old(self)
            },
    {
        if !self.want_autostart || self.selected_serial.is_none() || self.stream.is_some() {
            return false;
        }
        self.want_autostart = false;
        self.request_display_fetch();
        self.connect()
    }

    /// What is shown of a stream in words, given its frame rate and, where it is
    /// worth showing, its decode time.
    pub open spec fn badge_text(
        &self,
        panel: Status,
        flat: Status,
        fps: Seq<char>,
        decode_ms: Option<Seq<char>>,
    ) -> Seq<char> {
        match self.source() {
            None => "Desconectado"@,
            Some(source) => {
                let status = if source == Source::Flat {
                    flat
                } else {
                    panel
                };
                match status {
                    Status::Connecting => "Conectando…"@,
                    Status::Streaming { width, height, .. } => {
                        let size = decimal(width as nat) + "×"@ + decimal(height as nat);
                        let rate = size + "  ·  "@ + fps + " fps"@;
                        match decode_ms {
                            Some(ms) => rate + "  ·  "@ + ms + " ms"@,
                            None => rate,
                        }
                    },
                    Status::Error(e) => self.screened(e@),
                    Status::Stopped => "Parado"@,
                }
            },
        }
    }

    /// The status of what is streamed, in words.
    pub fn status_header_badge(
        &self,
        panel: &Status,
        flat: &Status,
        fps: &str,
        decode_ms: Option<&str>,
    ) -> (text: String)
        ensures
            text@ == self.badge_text(
                *panel,
                *flat,
                fps@,
                match decode_ms {
                    Some(ms) => Some(ms@),
                    None => None,
                },
            ),
    {
        let status = match self.frame_source() {
            Some(Source::Flat) => flat,
            Some(Source::Panel) => panel,
            None => {
                return "Desconectado".to_owned();
            },
        };
        match status {
            Status::Connecting => "Conectando…".to_owned(),
            Status::Streaming { width, height, .. } => {
                let mut text = decimal_text(*width as u64);
                text.append("×");
                text.append(decimal_text(*height as u64).as_str());
                text.append("  ·  ");
                text.append(fps);
                text.append(" fps");
                if let Some(ms) = decode_ms {
                    text.append("  ·  ");
                    text.append(ms);
                    text.append(" ms");
                }
                text
            },
            Status::Error(e) => self.screen(e),
            Status::Stopped => "Parado".to_owned(),
        }
    }

    /// What is shown where there is no picture, if there is none.
    pub fn prompt(&self) -> (prompt: Option<Prompt>)
        ensures
            prompt == (if self.has_texture {
                None
            } else if self.is_live() {
                Some(Prompt::AwaitFrame)
            } else {
                Some(Prompt::PickDevice)
            }),
    {
        if self.has_texture {
            None
        } else if self.stream.is_some() || self.flat.is_some() {
            Some(Prompt::AwaitFrame)
        } else {
            Some(Prompt::PickDevice)
        }
    }

    /// How the picture is drawn: with these lens coefficients and this tilt on a
    /// mesh, or plainly.
    pub fn drawn_lens(&self) -> (lens: Option<(u32, u32, u32)>)
        ensures
            lens == (if self.lens_correct {
                Some((self.lens_k1, self.lens_k2, self.rotation_deg))
            } else if beyond(self.rotation_deg, TILT_TOLERANCE) {
                Some((ZERO, ZERO, self.rotation_deg))
            } else {
                None
            }),
    {
        if !needs_mesh(self.lens_correct, self.rotation_deg) {
            return None;
        }
        let (k1, k2) = applied_lens(&self.view_params());
        Some((k1, k2, self.rotation_deg))
    }

    /// Opens or closes the advanced settings.
    pub fn toggle_settings(&mut self)
        ensures
            *final(self) == (App { settings_open: !old(self).settings_open, ..*old(self) }),
    {
        self.settings_open = !self.settings_open;
    }
}

/// What a key does to the full screen: F11 goes in and out, Escape only out.
pub fn fullscreen_key(is_fullscreen: bool, f11: bool, escape: bool) -> (set: Option<bool>)
    ensures
        set == (if f11 {
            Some(!is_fullscreen)
        } else if is_fullscreen && escape {
            Some(false)
        } else {
            None
        }),
{
    if f11 {
        Some(!is_fullscreen)
    } else if is_fullscreen && escape {
        Some(false)
    } else {
        None
    }
}

/// A lens profile of a headset.
#[derive(Clone, Copy, Debug, PartialEq, Eq, Structural)]
pub enum LensProfile {
    Quest3,
    Quest3s,
    Quest2,
    QuestPro,
}

/// A crop that one click sets.
#[derive(Clone, Copy, Debug, PartialEq, Eq, Structural)]
pub enum CropPreset {
    LeftEye,
    RightEye,
    FullPanel,
    Center,
}

impl CropPreset {
    /// The crop.
    pub open spec fn rect(self) -> CropRect {
        match self {
            CropPreset::LeftEye => left_eye(),
            CropPreset::RightEye => CropRect { min_x: HALF, min_y: ZERO, max_x: ONE, max_y: ONE },
            CropPreset::FullPanel => full_panel(),
            CropPreset::Center => CropRect {
                min_x: QUARTER,
                min_y: QUARTER,
                max_x: THREE_QUARTERS,
                max_y: THREE_QUARTERS,
            },
        }
    }

    /// The crop.
    pub fn crop(self) -> (rect: CropRect)
        ensures
            rect == self.rect(),
    {
        match self {
            CropPreset::LeftEye => CropRect { min_x: ZERO, min_y: ZERO, max_x: HALF, max_y: ONE },
            CropPreset::RightEye => CropRect { min_x: HALF, min_y: ZERO, max_x: ONE, max_y: ONE },
            CropPreset::FullPanel => CropRect { min_x: ZERO, min_y: ZERO, max_x: ONE, max_y: ONE },
            CropPreset::Center => CropRect {
                min_x: QUARTER,
                min_y: QUARTER,
                max_x: THREE_QUARTERS,
                max_y: THREE_QUARTERS,
            },
        }
    }
}

/// What can be done in the advanced settings.
#[derive(Clone, Copy, Debug, PartialEq, Eq, Structural)]
pub enum ModalEvent {
    /// The Escape key.
    Escape,
    /// A click beside the settings.
    Backdrop,
    /// The button in the corner.
    CloseButton,
    /// The button at the bottom.
    ApplyAndClose,
    Lens(LensProfile),
    Crop(CropPreset),
    /// The lens is to be flattened, or not.
    Flatten(bool),
    Curve(u32),
    Edge(u32),
    Tilt(u32),
    /// The zoom was moved, which leads to this crop.
    Zoom(CropRect),
    AutoReconnect(bool),
    /// Curve, edge and tilt are to be those of the Quest 3 again.
    ResetLens,
}

/// The left eye, shown through a lens profile.
pub open spec fn profile_view(k1: u32, k2: u32, tilt: u32) -> ViewParams {
    ViewParams { uv: left_eye(), lens_correct: true, k1, k2, rotation_deg: tilt }
}

impl LensProfile {
    /// The view that the profile sets.
    pub open spec fn view(self) -> ViewParams {
        match self {
            LensProfile::Quest3 => profile_view(QUEST3_K1, QUEST3_K2, QUEST3_TILT),
            LensProfile::Quest3s => profile_view(QUEST3S_K1, QUEST3S_K2, QUEST3S_TILT),
            LensProfile::Quest2 => profile_view(QUEST2_K1, QUEST2_K2, QUEST2_TILT),
            LensProfile::QuestPro => profile_view(QUESTPRO_K1, QUESTPRO_K2, QUESTPRO_TILT),
        }
    }
}

impl ModalEvent {
    /// Whether the event closes the settings.
    pub open spec fn is_close(self) -> bool {
        self is Escape || self is Backdrop || self is CloseButton || self is ApplyAndClose
    }

    /// What the event makes of the view.
    pub open spec fn on_view(self, view: ViewParams) -> ViewParams {
        match self {
            ModalEvent::Lens(profile) => profile.view(),
            ModalEvent::Crop(preset) => ViewParams { uv: preset.rect(), ..view },
            ModalEvent::Flatten(on) => ViewParams { lens_correct: on, ..view },
            ModalEvent::Curve(k1) => ViewParams { k1, ..view },
            ModalEvent::Edge(k2) => ViewParams { k2, ..view },
            ModalEvent::Tilt(deg) => ViewParams { rotation_deg: deg, ..view },
            ModalEvent::Zoom(uv) => ViewParams { uv, ..view },
            ModalEvent::ResetLens => ViewParams {
                k1: QUEST3_K1,
                k2: QUEST3_K2,
                rotation_deg: QUEST3_TILT,
                ..view
            },
            _ => view,
        }
    }

    /// What the event makes of the wish to reconnect.
    pub open spec fn on_reconnect(self, auto_reconnect: bool) -> bool {
        match self {
            ModalEvent::AutoReconnect(on) => on,
            _ => auto_reconnect,
        }
    }
}

impl App {
    /// The state with another view.
    pub open spec fn with_view(self, view: ViewParams) -> App {
        App {
            uv: view.uv,
            lens_correct: view.lens_correct,
            lens_k1: view.k1,
            lens_k2: view.k2,
            rotation_deg: view.rotation_deg,
            ..self
        }
    }

    /// What an event in the advanced settings sets; closing them comes after all
    /// that is set.
    pub open spec fn after_modal(self, event: ModalEvent) -> App {
        App {
            auto_reconnect: event.on_reconnect(self.auto_reconnect),
            ..self.with_view(event.on_view(self.view()))
        }
    }

    /// What some events set, one after the other.
    pub open spec fn after_modal_all(self, events: Seq<ModalEvent>) -> App
        decreases events.len(),
    {
        if events.len() == 0 {
            self
        } else {
            self.after_modal_all(events.drop_last()).after_modal(events.last())
        }
    }

    fn apply_profile(&mut self, profile: LensProfile)
        ensures
            *final(self) == old(self).with_view(profile.view()),
    {
        match profile {
            LensProfile::Quest3 => self.apply_quest3_preset(),
            LensProfile::Quest3s => self.apply_quest3s_preset(),
            LensProfile::Quest2 => self.apply_quest2_preset(),
            LensProfile::QuestPro => self.apply_questpro_preset(),
        }
    }

    fn apply_modal(&mut self, event: ModalEvent)
        ensures
            *final(self) == old(self).after_modal(event),
    {
        match event {
            ModalEvent::Lens(profile) => self.apply_profile(profile),
            ModalEvent::AutoReconnect(on) => {
                self.auto_reconnect = on;
            },
            _ => {
                let view = changed_view(self.view_params(), event);
                self.uv = view.uv;
                self.lens_correct = view.lens_correct;
                self.lens_k1 = view.k1;
                self.lens_k2 = view.k2;
                self.rotation_deg = view.rotation_deg;
            },
        }
    }

    /// Takes what was done in the advanced settings while they were drawn once.
    pub fn settings_modal(&mut self, events: &Vec<ModalEvent>)
        ensures
            *final(self) == (if !old(self).settings_open {
                *old(self)
            } else {
                App {
                    settings_open: forall|i: int|
                        0 <= i < events@.len() ==> !(#[trigger] events@[i]).is_close(),
                    ..old(self).after_modal_all(events@)
                }
            }),
    {
        if !self.settings_open {
            return ;
        }
        let mut close_requested = false;
        let mut i: usize = 0;
        assert(events@.take(0) =~= Seq::<ModalEvent>::empty());
        while i < events.len()
            invariant
                i <= events@.len(),
                *self == old(self).after_modal_all(events@.take(i as int)),
                close_requested <==> exists|k: int|
                    0 <= k < i && (#[trigger] events@[k]).is_close(),
            decreases events@.len() - i,
        {
            let event = events[i];
            assert(events@.take(i + 1).drop_last() =~= events@.take(i as int));
            assert(events@.take(i + 1).last() == event);
            match event {
                ModalEvent::Escape | ModalEvent::Backdrop | ModalEvent::CloseButton
                | ModalEvent::ApplyAndClose => {
                    assert(events@[i as int].is_close());
                    close_requested = true;
                },
                _ => {},
            }
            self.apply_modal(event);
            i = i + 1;
        }
        assert(events@.take(events@.len() as int) =~= events@);
        proof {
            lemma_modal_keeps_open(*old(self), events@);
        }
        if close_requested {
            self.settings_open = false;
        }
    }
}

/// What an event other than a lens profile makes of the view.
fn changed_view(view: ViewParams, event: ModalEvent) -> (new: ViewParams)
    requires
        !(event is Lens),
    ensures
        new == event.on_view(view),
{
    let mut new = view;
    match event {
        ModalEvent::Crop(preset) => {
            new.uv = preset.crop();
        },
        ModalEvent::Flatten(on) => {
            new.lens_correct = on;
        },
        ModalEvent::Curve(k1) => {
            new.k1 = k1;
        },
        ModalEvent::Edge(k2) => {
            new.k2 = k2;
        },
        ModalEvent::Tilt(deg) => {
            new.rotation_deg = deg;
        },
        ModalEvent::Zoom(uv) => {
            new.uv = uv;
        },
        ModalEvent::ResetLens => {
            new.k1 = QUEST3_K1;
            new.k2 = QUEST3_K2;
            new.rotation_deg = QUEST3_TILT;
        },
        _ => {},
    }
    new
}

/// Nothing that is set in the advanced settings closes them.
proof fn lemma_modal_keeps_open(app: App, events: Seq<ModalEvent>)
    ensures
        app.after_modal_all(events).settings_open == app.settings_open,
    decreases events.len(),
{
    if events.len() > 0 {
        lemma_modal_keeps_open(app, events.drop_last());
    }
}

/// A stream that was just started matches the settings, so there is nothing to
/// apply until they are changed.
pub proof fn law_fresh_stream_matches_settings(app: App, serial: String)
    requires
        app.settings.bitrate_mbps * MEGABIT <= u32::MAX,
    ensures
        app.flat is None ==> (App {
            stream: Some(app.stream_config(serial)),
            ..app
        }).config_matches(),
        (App { flat: Some(app.settings.flat_config_spec()), ..app }).config_matches(),
{
}

} // verus!
