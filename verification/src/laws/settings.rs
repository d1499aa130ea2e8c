//! What is set, what is kept, and what a launch asks for.

use crate::laws::picture::{alike, lemma_alike};
use crate::settings::{equal_texts, texts, Config, FlatConfig, Settings, StartupConfig};
use vstd::prelude::*;

verus! {

/// Whether two lists hold the same texts in the same order.
pub open spec fn lists_alike(a: Seq<String>, b: Seq<String>) -> bool {
    &&& a.len() == b.len()
    &&& forall|i: int| 0 <= i < a.len() ==> (#[trigger] a[i])@ == b[i]@
}

pub proof fn lemma_lists_alike(a: Seq<String>, b: Seq<String>)
    ensures
        (texts(a) == texts(b)) == lists_alike(a, b),
{
    if lists_alike(a, b) {
        assert(texts(a) =~= texts(b));
    }
    if texts(a) == texts(b) {
        assert(texts(a).len() == a.len() && texts(b).len() == b.len());
        assert forall|i: int| 0 <= i < a.len() implies (#[trigger] a[i])@ == b[i]@ by {
            assert(texts(a)[i] == a[i]@);
            assert(texts(b)[i] == b[i]@);
        }
    }
}

/// Whether two configurations agree in each value that is kept.
pub open spec fn agree(a: Config, b: Config) -> bool {
    &&& a.lens_correct == b.lens_correct
    &&& alike(a.lens_k1, b.lens_k1)
    &&& alike(a.lens_k2, b.lens_k2)
    &&& alike(a.rotation_deg, b.rotation_deg)
    &&& alike(a.uv.min_x, b.uv.min_x)
    &&& alike(a.uv.min_y, b.uv.min_y)
    &&& alike(a.uv.max_x, b.uv.max_x)
    &&& alike(a.uv.max_y, b.uv.max_y)
    &&& a.display_id == b.display_id
    &&& a.max_size == b.max_size
    &&& a.bitrate_mbps == b.bitrate_mbps
    &&& a.max_fps == b.max_fps
    &&& a.audio == b.audio
    &&& a.audio_output_device@ == b.audio_output_device@
    &&& lists_alike(a.remotes@, b.remotes@)
}

pub proof fn lemma_agree(a: Config, b: Config)
    ensures
        crate::settings::same_config(a, b) == agree(a, b),
{
    lemma_alike(a.lens_k1, b.lens_k1);
    lemma_alike(a.lens_k2, b.lens_k2);
    lemma_alike(a.rotation_deg, b.rotation_deg);
    lemma_alike(a.uv.min_x, b.uv.min_x);
    lemma_alike(a.uv.min_y, b.uv.min_y);
    lemma_alike(a.uv.max_x, b.uv.max_x);
    lemma_alike(a.uv.max_y, b.uv.max_y);
    lemma_lists_alike(a.remotes@, b.remotes@);
}

/// Two configurations compare the same exactly where they agree in each value
/// that is kept.
pub proof fn law_equal_configurations_agree(a: &Config, b: &Config, same: bool)
    requires
        call_ensures(Config::equals, (a, b), same),
    ensures
        same <==> agree(*a, *b),
{
    lemma_agree(*a, *b);
}

/// A single value that differs is enough for two configurations to differ.
pub proof fn law_any_difference_shows(a: &Config, b: &Config, same: bool)
    requires
        call_ensures(Config::equals, (a, b), same),
    ensures
        a.lens_correct != b.lens_correct ==> !same,
        !alike(a.lens_k1, b.lens_k1) ==> !same,
        !alike(a.lens_k2, b.lens_k2) ==> !same,
        !alike(a.rotation_deg, b.rotation_deg) ==> !same,
        !alike(a.uv.min_x, b.uv.min_x) ==> !same,
        !alike(a.uv.min_y, b.uv.min_y) ==> !same,
        !alike(a.uv.max_x, b.uv.max_x) ==> !same,
        !alike(a.uv.max_y, b.uv.max_y) ==> !same,
        a.display_id != b.display_id ==> !same,
        a.max_size != b.max_size ==> !same,
        a.bitrate_mbps != b.bitrate_mbps ==> !same,
        a.max_fps != b.max_fps ==> !same,
        a.audio != b.audio ==> !same,
        a.audio_output_device@ != b.audio_output_device@ ==> !same,
        a.remotes@.len() != b.remotes@.len() ==> !same,
{
    law_equal_configurations_agree(a, b, same);
}

/// Two lists of texts compare the same where each text does.
pub proof fn law_equal_lists_agree(a: &Vec<String>, b: &Vec<String>, same: bool)
    requires
        call_ensures(equal_texts, (a, b), same),
    ensures
        same <==> lists_alike(a@, b@),
{
    lemma_lists_alike(a@, b@);
}

/// Whether the settings are those that were kept, with what the launch asks for in
/// their place.
pub open spec fn goes_by(s: Settings, cfg: Config, startup: StartupConfig) -> bool {
    &&& startup.display_id matches Some(v) ==> s.display_id == v
    &&& startup.display_id is None ==> s.display_id == cfg.display_id
    &&& startup.max_size matches Some(v) ==> s.max_size == v
    &&& startup.max_size is None ==> s.max_size == cfg.max_size
    &&& startup.bitrate_mbps matches Some(v) ==> s.bitrate_mbps == v
    &&& startup.bitrate_mbps is None ==> s.bitrate_mbps == cfg.bitrate_mbps
    &&& startup.max_fps matches Some(v) ==> s.max_fps == v
    &&& startup.max_fps is None ==> s.max_fps == cfg.max_fps
    &&& startup.audio matches Some(v) ==> s.audio == v
    &&& startup.audio is None ==> s.audio == cfg.audio
    &&& s.audio_output_device == cfg.audio_output_device
}

/// What a launch asks for goes first, and the rest is as it was kept.
pub proof fn law_wishes_go_before_what_was_kept(
    cfg: &Config,
    startup: &StartupConfig,
    s: Settings,
)
    requires
        call_ensures(Settings::merged, (cfg, startup), s),
    ensures
        goes_by(s, *cfg, *startup),
{
}

/// Without anything set, the stream is one of the first display, at most 1920
/// pixels wide, 16 megabits a second and 60 frames a second, without audio.
pub proof fn law_unset_settings(s: Settings, startup: StartupConfig)
    requires
        call_ensures(Settings::default, (), s),
        call_ensures(StartupConfig::default, (), startup),
    ensures
        s.display_id == 0,
        s.max_size == 1920,
        s.bitrate_mbps == 16,
        s.max_fps == 60,
        !s.audio,
        s.audio_output_device@.len() == 0,
        startup.serial is None,
        startup.display_id is None,
        startup.max_size is None,
        startup.bitrate_mbps is None,
        startup.max_fps is None,
        startup.audio is None,
        !startup.autostart,
{
}

/// A quality preset is in force exactly while size, frame rate and bit rate are
/// its own.
pub proof fn law_presets_are_told_by_their_values(s: &Settings, low: bool, high: bool)
    requires
        call_ensures(Settings::is_low_latency, (s,), low),
        call_ensures(Settings::is_high_quality, (s,), high),
    ensures
        low <==> s.max_size == 1440 && s.max_fps == 60 && s.bitrate_mbps == 12,
        high <==> s.max_size == 1920 && s.max_fps == 60 && s.bitrate_mbps == 20,
        !(low && high),
{
}

/// A flat view goes by the settings, within its limits.
pub proof fn law_flat_views_go_by_the_settings(s: &Settings, cfg: FlatConfig, fits: bool)
    requires
        call_ensures(Settings::flat_config, (s,), cfg),
        call_ensures(Settings::rate_fits, (s,), fits),
    ensures
        fits <==> s.bitrate_mbps <= 4294,
        fits ==> call_requires(Settings::flat_config, (s,)),
        s.max_size >= 640 ==> cfg.max_size == s.max_size,
        s.max_size < 640 ==> cfg.max_size == 1920,
        2 <= s.bitrate_mbps <= 4294 ==> cfg.bitrate == s.bitrate_mbps * 1_000_000,
        s.bitrate_mbps < 2 ==> cfg.bitrate == 2_000_000,
        s.max_fps > 0 ==> cfg.fps == s.max_fps,
        s.max_fps == 0 ==> cfg.fps == 72,
{
}

} // verus!
