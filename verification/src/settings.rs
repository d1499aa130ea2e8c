//! What the user can set, what is kept between launches, and what a launch can
//! ask for.

use crate::scalar::{equal, same_number};
use crate::view::CropRect;
use vstd::prelude::*;

verus! {

/// Size, frame rate and bit rate of the low-latency preset.
pub const PRESET_LOWLAT_SIZE: u32 = 1440;
pub const PRESET_LOWLAT_FPS: u32 = 60;
pub const PRESET_LOWLAT_MBPS: u32 = 12;

/// Size, frame rate and bit rate of the high-quality preset.
pub const PRESET_HIQUAL_SIZE: u32 = 1920;
pub const PRESET_HIQUAL_FPS: u32 = 60;
pub const PRESET_HIQUAL_MBPS: u32 = 20;

/// Bits per second in a megabit per second.
pub const MEGABIT: u32 = 1_000_000;

/// The bit rate of audio.
pub const AUDIO_BIT_RATE: u32 = 128_000;

/// What the user can set of a stream.
#[derive(Debug)]
pub struct Settings {
    pub display_id: u32,
    pub max_size: u32,
    pub bitrate_mbps: u32,
    pub max_fps: u32,
    pub audio: bool,
    /// The output device for audio; empty for the system default.
    pub audio_output_device: String,
}

impl Default for Settings {
    fn default() -> (s: Settings)
        ensures
            s.display_id == 0,
            s.max_size == 1920,
            s.bitrate_mbps == 16,
            s.max_fps == 60,
            !s.audio,
            s.audio_output_device@ == Seq::<char>::empty(),
    {
        Settings {
            display_id: 0,
            max_size: 1920,
            bitrate_mbps: 16,
            max_fps: 60,
            audio: false,
            audio_output_device: String::new(),
        }
    }
}

/// What a launch asks for.
#[derive(Debug)]
pub struct StartupConfig {
    pub serial: Option<String>,
    pub display_id: Option<u32>,
    pub max_size: Option<u32>,
    pub bitrate_mbps: Option<u32>,
    pub max_fps: Option<u32>,
    pub audio: Option<bool>,
    pub autostart: bool,
}

impl Default for StartupConfig {
    fn default() -> (s: StartupConfig)
        ensures
            s == no_wishes(),
    {
        StartupConfig {
            serial: None,
            display_id: None,
            max_size: None,
            bitrate_mbps: None,
            max_fps: None,
            audio: None,
            autostart: false,
        }
    }
}

/// A launch that asks for nothing.
pub open spec fn no_wishes() -> StartupConfig {
    StartupConfig {
        serial: None,
        display_id: None,
        max_size: None,
        bitrate_mbps: None,
        max_fps: None,
        audio: None,
        autostart: false,
    }
}

/// What a flat view is started with.
#[derive(Clone, Copy, Debug, PartialEq, Eq, Structural)]
pub struct FlatConfig {
    pub max_size: u32,
    pub bitrate: u32,
    pub fps: u32,
}

/// What is kept between launches.
#[derive(Debug)]
pub struct Config {
    pub lens_correct: bool,
    pub lens_k1: u32,
    pub lens_k2: u32,
    pub rotation_deg: u32,
    pub uv: CropRect,
    pub display_id: u32,
    pub max_size: u32,
    pub bitrate_mbps: u32,
    pub max_fps: u32,
    pub audio: bool,
    pub audio_output_device: String,
    pub remotes: Vec<String>,
}

/// The texts of a list.
pub open spec fn texts(list: Seq<String>) -> Seq<Seq<char>> {
    list.map_values(|s: String| s@)
}

/// Whether two crops are the same, edge by edge.
pub open spec fn same_crop(a: CropRect, b: CropRect) -> bool {
    &&& same_number(a.min_x, b.min_x)
    &&& same_number(a.min_y, b.min_y)
    &&& same_number(a.max_x, b.max_x)
    &&& same_number(a.max_y, b.max_y)
}

/// Whether two configurations are the same: numbers by value, texts by their
/// characters.
pub open spec fn same_config(a: Config, b: Config) -> bool {
    &&& a.lens_correct == b.lens_correct
    &&& same_number(a.lens_k1, b.lens_k1)
    &&& same_number(a.lens_k2, b.lens_k2)
    &&& same_number(a.rotation_deg, b.rotation_deg)
    &&& same_crop(a.uv, b.uv)
    &&& a.display_id == b.display_id
    &&& a.max_size == b.max_size
    &&& a.bitrate_mbps == b.bitrate_mbps
    &&& a.max_fps == b.max_fps
    &&& a.audio == b.audio
    &&& a.audio_output_device@ == b.audio_output_device@
    &&& texts(a.remotes@) == texts(b.remotes@)
}

/// Compares two lists of texts.
pub fn equal_texts(a: &Vec<String>, b: &Vec<String>) -> (same: bool)
    ensures
        same == (texts(a@) == texts(b@)),
{
    if a.len() != b.len() {
        assert(texts(a@).len() != texts(b@).len());
        return false;
    }
    let mut i: usize = 0;
    while i < a.len()
        invariant
            i <= a@.len(),
            a@.len() == b@.len(),
            forall|k: int| 0 <= k < i ==> (#[trigger] a@[k])@ == b@[k]@,
        decreases a@.len() - i,
    {
        if a[i] != b[i] {
            assert(texts(a@)[i as int] != texts(b@)[i as int]);
            return false;
        }
        i = i + 1;
    }
    assert(texts(a@) =~= texts(b@));
    true
}

impl Config {
    /// Compares two configurations.
    pub fn equals(&self, other: &Config) -> (same: bool)
        ensures
            same == same_config(*self, *other),
    {
        self.lens_correct == other.lens_correct
            && equal(self.lens_k1, other.lens_k1)
            && equal(self.lens_k2, other.lens_k2)
            && equal(self.rotation_deg, other.rotation_deg)
            && equal(self.uv.min_x, other.uv.min_x)
            && equal(self.uv.min_y, other.uv.min_y)
            && equal(self.uv.max_x, other.uv.max_x)
            && equal(self.uv.max_y, other.uv.max_y)
            && self.display_id == other.display_id
            && self.max_size == other.max_size
            && self.bitrate_mbps == other.bitrate_mbps
            && self.max_fps == other.max_fps
            && self.audio == other.audio
            && self.audio_output_device == other.audio_output_device
            && equal_texts(&self.remotes, &other.remotes)
    }
}

/// What was asked for, or else what was kept.
pub open spec fn wish_or<T>(wish: Option<T>, kept: T) -> T {
    match wish {
        Some(v) => v,
        None => kept,
    }
}

/// Whether the numbers of a configuration are numbers.
pub open spec fn has_numbers(c: Config) -> bool {
    same_config(c, c)
}

impl Settings {
    /// Whether the settings are those of `cfg`, with what `startup` asks for in
    /// their place.
    pub open spec fn merged_from(&self, cfg: Config, startup: StartupConfig) -> bool {
        &&& self.display_id == wish_or(startup.display_id, cfg.display_id)
        &&& self.max_size == wish_or(startup.max_size, cfg.max_size)
        &&& self.bitrate_mbps == wish_or(startup.bitrate_mbps, cfg.bitrate_mbps)
        &&& self.max_fps == wish_or(startup.max_fps, cfg.max_fps)
        &&& self.audio == wish_or(startup.audio, cfg.audio)
        &&& self.audio_output_device == cfg.audio_output_device
    }

    /// The settings of a launch.
    pub fn merged(cfg: &Config, startup: &StartupConfig) -> (s: Settings)
        ensures
            s.merged_from(*cfg, *startup),
    {
        let mut s = Settings {
            display_id: cfg.display_id,
            max_size: cfg.max_size,
            bitrate_mbps: cfg.bitrate_mbps,
            max_fps: cfg.max_fps,
            audio: cfg.audio,
            audio_output_device: cfg.audio_output_device.clone(),
        };
        if let Some(v) = startup.display_id {
            s.display_id = v;
        }
        if let Some(v) = startup.max_size {
            s.max_size = v;
        }
        if let Some(v) = startup.bitrate_mbps {
            s.bitrate_mbps = v;
        }
        if let Some(v) = startup.max_fps {
            s.max_fps = v;
        }
        if let Some(v) = startup.audio {
            s.audio = v;
        }
        s
    }

    /// Whether the settings are those of a quality preset.
    pub open spec fn is_quality(&self, max_size: u32, fps: u32, mbps: u32) -> bool {
        self.max_size == max_size && self.max_fps == fps && self.bitrate_mbps == mbps
    }

    /// Whether the low-latency preset is in force.
    pub fn is_low_latency(&self) -> (yes: bool)
        ensures
            yes == self.is_quality(PRESET_LOWLAT_SIZE, PRESET_LOWLAT_FPS, PRESET_LOWLAT_MBPS),
    {
        self.max_size == PRESET_LOWLAT_SIZE && self.max_fps == PRESET_LOWLAT_FPS
            && self.bitrate_mbps == PRESET_LOWLAT_MBPS
    }

    /// Whether the high-quality preset is in force.
    pub fn is_high_quality(&self) -> (yes: bool)
        ensures
            yes == self.is_quality(PRESET_HIQUAL_SIZE, PRESET_HIQUAL_FPS, PRESET_HIQUAL_MBPS),
    {
        self.max_size == PRESET_HIQUAL_SIZE && self.max_fps == PRESET_HIQUAL_FPS
            && self.bitrate_mbps == PRESET_HIQUAL_MBPS
    }

    /// Whether the bit rate can be given in bits per second.
    pub fn rate_fits(&self) -> (fits: bool)
        ensures
            fits == (self.bitrate_mbps * MEGABIT <= u32::MAX),
    {
        self.bitrate_mbps <= u32::MAX / MEGABIT
    }

    /// The bit rate of a flat view in megabits, which has a lower limit.
    pub open spec fn flat_mbps(&self) -> int {
        if self.bitrate_mbps < 2 {
            2
        } else {
            self.bitrate_mbps as int
        }
    }

    /// What a flat view is started with.
    pub open spec fn flat_config_spec(&self) -> FlatConfig {
        FlatConfig {
            max_size: if self.max_size >= 640 {
                self.max_size
            } else {
                1920
            },
            bitrate: (self.flat_mbps() * MEGABIT) as u32,
            fps: if self.max_fps > 0 {
                self.max_fps
            } else {
                72
            },
        }
    }

    /// What a flat view is started with.
    pub fn flat_config(&self) -> (cfg: FlatConfig)
        requires
            self.flat_mbps() * MEGABIT <= u32::MAX,
        ensures
            cfg == self.flat_config_spec(),
    {
        let mbps: u32 = if self.bitrate_mbps < 2 {
            2
        } else {
            self.bitrate_mbps
        };
        FlatConfig {
            max_size: if self.max_size >= 640 {
                self.max_size
            } else {
                1920
            },
            bitrate: mbps * MEGABIT,
            fps: if self.max_fps > 0 {
                self.max_fps
            } else {
                72
            },
        }
    }
}

} // verus!
