//! What each event changes in the state, and what it leaves alone.

use crate::app::{fetch_safe, App};
use crate::devices::{Device, DisplayInfo};
use crate::laws::devices::{
    any_usable, choice_of, is_best, lemma_best, lemma_display_order, lists_usable, shows_displays,
};
use crate::laws::picture::{alike, no_number};
use crate::laws::settings::{goes_by, lemma_agree, lists_alike};
use crate::settings::{Config, Settings, StartupConfig};
use crate::stream::Status;
use vstd::prelude::*;

verus! {

/// Whether a configuration holds exactly the values that the state has now.
pub open spec fn keeps_all(c: Config, app: App) -> bool {
    &&& c.lens_correct == app.lens_correct
    &&& c.lens_k1 == app.lens_k1
    &&& c.lens_k2 == app.lens_k2
    &&& c.rotation_deg == app.rotation_deg
    &&& c.uv == app.uv
    &&& c.display_id == app.settings.display_id
    &&& c.max_size == app.settings.max_size
    &&& c.bitrate_mbps == app.settings.bitrate_mbps
    &&& c.max_fps == app.settings.max_fps
    &&& c.audio == app.settings.audio
    &&& c.audio_output_device == app.settings.audio_output_device
    &&& c.remotes@ == app.remotes@
}

/// Whether each value of the state that is kept is the one that was kept last.
pub open spec fn is_saved(app: App) -> bool {
    &&& app.lens_correct == app.persisted.lens_correct
    &&& alike(app.lens_k1, app.persisted.lens_k1)
    &&& alike(app.lens_k2, app.persisted.lens_k2)
    &&& alike(app.rotation_deg, app.persisted.rotation_deg)
    &&& alike(app.uv.min_x, app.persisted.uv.min_x)
    &&& alike(app.uv.min_y, app.persisted.uv.min_y)
    &&& alike(app.uv.max_x, app.persisted.uv.max_x)
    &&& alike(app.uv.max_y, app.persisted.uv.max_y)
    &&& app.settings.display_id == app.persisted.display_id
    &&& app.settings.max_size == app.persisted.max_size
    &&& app.settings.bitrate_mbps == app.persisted.bitrate_mbps
    &&& app.settings.max_fps == app.persisted.max_fps
    &&& app.settings.audio == app.persisted.audio
    &&& app.settings.audio_output_device@ == app.persisted.audio_output_device@
    &&& lists_alike(app.remotes@, app.persisted.remotes@)
}

/// Whether the lens, the tilt and the crop are given by numbers.
pub open spec fn has_numbers_only(app: App) -> bool {
    &&& !no_number(app.lens_k1)
    &&& !no_number(app.lens_k2)
    &&& !no_number(app.rotation_deg)
    &&& !no_number(app.uv.min_x)
    &&& !no_number(app.uv.min_y)
    &&& !no_number(app.uv.max_x)
    &&& !no_number(app.uv.max_y)
}

proof fn lemma_saved(app: App)
    ensures
        crate::settings::same_config(app.current(), app.persisted) == is_saved(app),
{
    lemma_agree(app.current(), app.persisted);
}

/// What would be kept is what is set now.
pub proof fn law_current_values_are_kept(app: &App, cfg: Config)
    requires
        call_ensures(App::current_config, (app,), cfg),
    ensures
        keeps_all(cfg, *app),
{
}

/// A look for changes marks the state as changed where any value differs from the
/// one that was kept, and saves it once the mark is half a second old.
pub proof fn law_any_change_is_marked_and_saved(app: &mut App, now: u64, save: bool)
    requires
        call_ensures(App::autosave, (app, now), save),
    ensures
        old(app).dirty_since is None ==> !save,
        old(app).dirty_since is None && is_saved(*old(app)) ==> *final(app) == *old(app),
        old(app).dirty_since is None && !is_saved(*old(app)) ==> *final(app) == (App {
            dirty_since: Some(now),
            ..*old(app)
        }),
        old(app).dirty_since matches Some(t) ==> (save <==> now - t >= 500_000_000),
        old(app).dirty_since is Some && !save ==> *final(app) == *old(app),
        save ==> keeps_all(final(app).persisted, *old(app)),
        save ==> *old(app) == (App {
            persisted: old(app).persisted,
            dirty_since: old(app).dirty_since,
            ..*final(app)
        }),
        save ==> final(app).dirty_since is None,
{
    lemma_saved(*old(app));
}

/// Each single value that differs from the one that was kept is a change.
pub proof fn law_each_kept_value_counts(app: &mut App, now: u64, save: bool)
    requires
        call_ensures(App::autosave, (app, now), save),
        old(app).dirty_since is None,
    ensures
        old(app).lens_correct != old(app).persisted.lens_correct ==> final(app).dirty_since
            == Some(now),
        !alike(old(app).lens_k1, old(app).persisted.lens_k1) ==> final(app).dirty_since
            == Some(now),
        !alike(old(app).lens_k2, old(app).persisted.lens_k2) ==> final(app).dirty_since
            == Some(now),
        !alike(old(app).rotation_deg, old(app).persisted.rotation_deg)
            ==> final(app).dirty_since == Some(now),
        !alike(old(app).uv.min_x, old(app).persisted.uv.min_x) ==> final(app).dirty_since
            == Some(now),
        !alike(old(app).uv.min_y, old(app).persisted.uv.min_y) ==> final(app).dirty_since
            == Some(now),
        !alike(old(app).uv.max_x, old(app).persisted.uv.max_x) ==> final(app).dirty_since
            == Some(now),
        !alike(old(app).uv.max_y, old(app).persisted.uv.max_y) ==> final(app).dirty_since
            == Some(now),
        old(app).settings.display_id != old(app).persisted.display_id
            ==> final(app).dirty_since == Some(now),
        old(app).settings.max_size != old(app).persisted.max_size ==> final(app).dirty_since
            == Some(now),
        old(app).settings.bitrate_mbps != old(app).persisted.bitrate_mbps
            ==> final(app).dirty_since == Some(now),
        old(app).settings.max_fps != old(app).persisted.max_fps ==> final(app).dirty_since
            == Some(now),
        old(app).settings.audio != old(app).persisted.audio ==> final(app).dirty_since
            == Some(now),
        old(app).settings.audio_output_device@ != old(app).persisted.audio_output_device@
            ==> final(app).dirty_since == Some(now),
        old(app).remotes@.len() != old(app).persisted.remotes@.len()
            ==> final(app).dirty_since == Some(now),
{
    lemma_saved(*old(app));
}

/// A change that one look finds is saved by the first look half a second later,
/// with each value as it is then, and the look after that finds nothing to save.
pub proof fn law_changes_rest_half_a_second(
    first: &mut App,
    found: u64,
    early: bool,
    second: &mut App,
    later: u64,
    save: bool,
    third: &mut App,
    again: u64,
    more: bool,
)
    requires
        call_ensures(App::autosave, (first, found), early),
        call_ensures(App::autosave, (second, later), save),
        call_ensures(App::autosave, (third, again), more),
        *old(second) == *final(first),
        *old(third) == *final(second),
        old(first).dirty_since is None,
        !is_saved(*old(first)),
        has_numbers_only(*old(first)),
    ensures
        !early,
        save <==> later - found >= 500_000_000,
        save ==> keeps_all(final(second).persisted, *old(first)),
        save ==> is_saved(*final(second)) && !more && *final(third) == *old(third),
{
    lemma_saved(*old(first));
    lemma_saved(*old(second));
    lemma_saved(*old(third));
}

/// Whether the selection is the device to fall back to, or missing because none
/// can be used.
pub open spec fn falls_back(devices: Seq<Device>, serial: Option<String>) -> bool {
    match serial {
        Some(s) => exists|i: int| #[trigger] is_best(devices, i) && s == devices[i].serial,
        None => !any_usable(devices),
    }
}

pub proof fn lemma_fallback(devices: Seq<Device>, serial: Option<String>)
    ensures
        crate::app::is_fallback(devices, serial) ==> falls_back(devices, serial),
{
    if crate::app::is_fallback(devices, serial) {
        match serial {
            Some(s) => {
                let i = choose|i: int| #[trigger]
                    crate::devices::is_preferred(devices, i) && s == devices[i].serial;
                lemma_best(devices, i);
                assert(is_best(devices, i));
            },
            None => {},
        }
    }
}

/// A launch restores what was kept, with what it asks for in its place; selects
/// the device that it asks for where that is listed, and else the fallback; and
/// has nothing to save.
pub proof fn law_launch_restores_what_was_kept(
    cfg: Config,
    startup: StartupConfig,
    devices: Vec<Device>,
    obs_detected: bool,
    now: u64,
    app: App,
)
    requires
        call_ensures(App::new, (cfg, startup, devices, obs_detected, now), app),
    ensures
        goes_by(app.settings, cfg, startup),
        app.uv == cfg.uv,
        app.lens_correct == cfg.lens_correct,
        app.lens_k1 == cfg.lens_k1,
        app.lens_k2 == cfg.lens_k2,
        app.rotation_deg == cfg.rotation_deg,
        app.remotes == cfg.remotes,
        app.devices == devices,
        startup.serial matches Some(s) ==> ((exists|i: int|
            0 <= i < devices@.len() && (#[trigger] devices@[i]).serial@ == s@)
            ==> app.selected_serial == Some(s)),
        startup.serial is None || (startup.serial matches Some(s) && forall|i: int|
            0 <= i < devices@.len() ==> (#[trigger] devices@[i]).serial@ != s@) ==> falls_back(
            devices@,
            app.selected_serial,
        ),
        keeps_all(app.persisted, app),
        app.displays@.len() == 0 && app.need_display_fetch && !app.fetch_inflight,
        app.stream is None && app.flat is None,
        !app.has_texture && app.last_frame is None && app.last_generation == 0,
        app.tex_size == (0u32, 0u32),
        app.capture_msg is None,
        !app.spout_enabled && app.spout is None && app.spout_error is None,
        !app.vcam_enabled && app.vcam is None && app.vcam_error is None,
        app.want_autostart == startup.autostart,
        app.auto_reconnect,
        app.remote_input@.len() == 0 && !app.connecting,
        app.streamer_forced is None && app.obs_detected == obs_detected,
        app.last_obs_check == now,
        app.dirty_since is None && !app.settings_open,
{
    lemma_fallback(devices@, app.selected_serial);
}

/// What is saved comes back at the next launch that asks for nothing.
pub proof fn law_saved_values_come_back(
    before: &mut App,
    now: u64,
    startup: StartupConfig,
    devices: Vec<Device>,
    obs_detected: bool,
    at: u64,
    after: App,
)
    requires
        call_ensures(App::autosave, (before, now), true),
        call_ensures(StartupConfig::default, (), startup),
        call_ensures(
            App::new,
            (final(before).persisted, startup, devices, obs_detected, at),
            after,
        ),
    ensures
        after.lens_correct == old(before).lens_correct,
        after.lens_k1 == old(before).lens_k1,
        after.lens_k2 == old(before).lens_k2,
        after.rotation_deg == old(before).rotation_deg,
        after.uv == old(before).uv,
        after.settings == old(before).settings,
        after.remotes@ == old(before).remotes@,
{
}

/// A selected device that can still be used stays selected, and nothing but the
/// list changes; else the fallback is selected and its displays are to be fetched.
pub proof fn law_selection_follows_the_devices(app: &mut App, devices: Vec<Device>)
    requires
        call_ensures(App::refresh_devices, (app, devices), ()),
    ensures
        final(app).devices == devices,
        ({
            let keeps = old(app).selected_serial matches Some(s) && lists_usable(devices@, s@);
            &&& keeps ==> *old(app) == (App { devices: old(app).devices, ..*final(app) })
            &&& !keeps ==> {
                &&& falls_back(devices@, final(app).selected_serial)
                &&& final(app).displays@.len() == 0
                &&& final(app).need_display_fetch
                &&& *old(app) == (App {
                    devices: old(app).devices,
                    selected_serial: old(app).selected_serial,
                    displays: old(app).displays,
                    need_display_fetch: old(app).need_display_fetch,
                    ..*final(app)
                })
            }
        }),
        any_usable(devices@) ==> (final(app).selected_serial matches Some(s) && lists_usable(
            devices@,
            s@,
        )),
        !any_usable(devices@) ==> final(app).selected_serial is None,
{
    lemma_fallback(devices@, final(app).selected_serial);
    if let Some(s) = old(app).selected_serial {
        assert(crate::devices::any_online_as(devices@, s@) == lists_usable(devices@, s@)) by {
            if lists_usable(devices@, s@) {
                let i = choose|i: int|
                    0 <= i < devices@.len() && crate::laws::devices::usable_device(
                        #[trigger] devices@[i],
                    ) && devices@[i].serial@ == s@;
                assert(crate::devices::online_as(devices@[i], s@));
            }
        }
    }
    if let Some(s) = final(app).selected_serial {
        let i = choose|i: int|
            0 <= i < devices@.len() && crate::devices::online_as(#[trigger] devices@[i], s@);
        assert(crate::laws::devices::usable_device(devices@[i]));
        assert(lists_usable(devices@, s@));
    }
}

/// Asking for the displays forgets those that are listed, and touches nothing
/// else.
pub proof fn law_displays_are_asked_for(app: &mut App)
    requires
        call_ensures(App::request_display_fetch, (app,), ()),
    ensures
        final(app).displays@.len() == 0,
        final(app).need_display_fetch,
        *old(app) == (App {
            displays: old(app).displays,
            need_display_fetch: old(app).need_display_fetch,
            ..*final(app)
        }),
{
}

/// The displays of the selected device are fetched once when they are asked for,
/// one fetch at a time, and never while a stream connects.
pub proof fn law_displays_are_fetched_once(
    app: &mut App,
    status: &Option<Status>,
    fetch: Option<String>,
    safe: bool,
)
    requires
        call_ensures(App::drive_display_fetch, (app, status), fetch),
        call_ensures(fetch_safe, (status,), safe),
    ensures
        safe <==> *status != Some(Status::Connecting),
        !old(app).need_display_fetch || old(app).fetch_inflight || *status == Some(
            Status::Connecting,
        ) ==> fetch is None && *final(app) == *old(app),
        old(app).need_display_fetch && !old(app).fetch_inflight && *status != Some(
            Status::Connecting,
        ) ==> {
            &&& fetch == old(app).selected_serial
            &&& !final(app).need_display_fetch
            &&& final(app).fetch_inflight == (fetch is Some)
            &&& *old(app) == (App {
                need_display_fetch: true,
                fetch_inflight: false,
                ..*final(app)
            })
        },
{
}

/// Displays that were fetched are listed in order, and the one that is streamed is
/// chosen among them; a fetch that failed leaves none.
pub proof fn law_fetched_displays_are_listed(
    app: &mut App,
    taken: Option<Result<Vec<DisplayInfo>, String>>,
)
    requires
        call_ensures(App::poll_displays, (app, taken), ()),
    ensures
        taken is None ==> *final(app) == *old(app),
        taken matches Some(Ok(list)) ==> {
            &&& shows_displays(list@, final(app).displays@)
            &&& choice_of(
                final(app).displays@,
                old(app).settings.display_id,
                final(app).settings.display_id,
            )
            &&& *old(app) == (App {
                fetch_inflight: old(app).fetch_inflight,
                displays: old(app).displays,
                settings: Settings {
                    display_id: old(app).settings.display_id,
                    ..final(app).settings
                },
                ..*final(app)
            })
        },
        taken matches Some(Err(_)) ==> {
            &&& final(app).displays@.len() == 0
            &&& *old(app) == (App {
                fetch_inflight: old(app).fetch_inflight,
                displays: old(app).displays,
                ..*final(app)
            })
        },
        taken is Some ==> !final(app).fetch_inflight,
{
    match taken {
        Some(Ok(list)) => {
            lemma_display_order(list@, final(app).displays@);
        },
        _ => {},
    }
}

/// A stream is started of the selected device with each value as it is set: the
/// display, the size, the rates, audio exactly where it is wanted, and the output
/// device. Nothing else of the state changes, but for what was on screen.
pub proof fn law_streams_start_as_set(app: &mut App, start: bool)
    requires
        call_ensures(App::connect, (app,), start),
    ensures
        start <==> old(app).selected_serial is Some,
        !start ==> *final(app) == *old(app),
        start ==> {
            &&& final(app).stream matches Some(s)
            &&& old(app).selected_serial == Some(s.serial)
            &&& s.display_id == old(app).settings.display_id
            &&& s.max_size == old(app).settings.max_size
            &&& old(app).settings.bitrate_mbps <= 4294 ==> s.video_bit_rate
                == old(app).settings.bitrate_mbps * 1_000_000
            &&& s.max_fps == old(app).settings.max_fps
            &&& s.audio == old(app).settings.audio
            &&& s.audio_bit_rate == 128_000
            &&& s.audio_output_device == old(app).settings.audio_output_device
        },
        start ==> {
            &&& !final(app).has_texture
            &&& final(app).last_frame is None
            &&& final(app).last_generation == 0
            &&& *old(app) == (App {
                stream: old(app).stream,
                has_texture: old(app).has_texture,
                last_frame: old(app).last_frame,
                last_generation: old(app).last_generation,
                ..*final(app)
            })
        },
{
}

/// A stream can be started wherever its bit rate can be given in bits.
pub proof fn law_streams_can_be_started(app: &mut App)
    requires
        old(app).selected_serial is None || old(app).settings.bitrate_mbps <= 4294,
    ensures
        call_requires(App::connect, (app,)),
        call_requires(App::connect_flat, (app,)),
{
}

/// A flat view is started of the selected device as it is set, and shows the
/// whole view: not flattened, not turned, not cropped.
pub proof fn law_flat_views_start_as_set(app: &mut App, start: bool)
    requires
        call_ensures(App::connect_flat, (app,), start),
    ensures
        start <==> old(app).selected_serial is Some,
        !start ==> *final(app) == *old(app),
        start ==> {
            &&& final(app).flat matches Some(f)
            &&& old(app).settings.max_size >= 640 ==> f.max_size == old(app).settings.max_size
            &&& old(app).settings.max_size < 640 ==> f.max_size == 1920
            &&& 2 <= old(app).settings.bitrate_mbps <= 4294 ==> f.bitrate
                == old(app).settings.bitrate_mbps * 1_000_000
            &&& old(app).settings.bitrate_mbps < 2 ==> f.bitrate == 2_000_000
            &&& old(app).settings.max_fps > 0 ==> f.fps == old(app).settings.max_fps
            &&& old(app).settings.max_fps == 0 ==> f.fps == 72
        },
        start ==> {
            &&& final(app).stream is None
            &&& !final(app).has_texture
            &&& final(app).last_frame is None
            &&& final(app).last_generation == 0
            &&& !final(app).lens_correct
            &&& final(app).rotation_deg == 0
            &&& final(app).uv.min_x == 0
            &&& final(app).uv.min_y == 0
            &&& final(app).uv.max_x == 0x3f80_0000
            &&& final(app).uv.max_y == 0x3f80_0000
            &&& *old(app) == (App {
                stream: old(app).stream,
                flat: old(app).flat,
                has_texture: old(app).has_texture,
                last_frame: old(app).last_frame,
                last_generation: old(app).last_generation,
                lens_correct: old(app).lens_correct,
                rotation_deg: old(app).rotation_deg,
                uv: old(app).uv,
                ..*final(app)
            })
        },
{
}

/// Disconnecting ends whatever is streamed, and keeps every setting.
pub proof fn law_disconnecting_keeps_the_settings(app: &mut App)
    requires
        call_ensures(App::disconnect, (app,), ()),
    ensures
        final(app).stream is None && final(app).flat is None,
        !final(app).has_texture && final(app).last_frame is None,
        *old(app) == (App {
            stream: old(app).stream,
            flat: old(app).flat,
            has_texture: old(app).has_texture,
            last_frame: old(app).last_frame,
            ..*final(app)
        }),
{
}

/// Whether a state shows the left half of the panel, flattened by the given lens
/// and turned by the given tilt, and is else as it was.
pub open spec fn shows_left_eye(before: App, after: App, k1: u32, k2: u32, tilt: u32) -> bool {
    &&& after.lens_correct
    &&& after.lens_k1 == k1
    &&& after.lens_k2 == k2
    &&& after.rotation_deg == tilt
    &&& after.uv.min_x == 0
    &&& after.uv.min_y == 0
    &&& after.uv.max_x == 0x3f00_0000
    &&& after.uv.max_y == 0x3f80_0000
    &&& before == (App {
        lens_correct: before.lens_correct,
        lens_k1: before.lens_k1,
        lens_k2: before.lens_k2,
        rotation_deg: before.rotation_deg,
        uv: before.uv,
        ..after
    })
}

/// The Quest 3 profile has a curve of 0.02, an edge of -0.2 and a tilt of -1.
pub proof fn law_quest3_profile(app: &mut App)
    requires
        call_ensures(App::apply_quest3_preset, (app,), ()),
    ensures
        shows_left_eye(*old(app), *final(app), 0x3ca3_d70a, 0xbe4c_cccd, 0xbf80_0000),
{
}

/// The Quest 2 profile has a curve of 0.1, an edge of -0.25 and a tilt of -1.
pub proof fn law_quest2_profile(app: &mut App)
    requires
        call_ensures(App::apply_quest2_preset, (app,), ()),
    ensures
        shows_left_eye(*old(app), *final(app), 0x3dcc_cccd, 0xbe80_0000, 0xbf80_0000),
{
}

/// The Quest Pro profile has a curve of 0.01, an edge of -0.04 and no tilt.
pub proof fn law_questpro_profile(app: &mut App)
    requires
        call_ensures(App::apply_questpro_preset, (app,), ()),
    ensures
        shows_left_eye(*old(app), *final(app), 0x3c23_d70a, 0xbd23_d70a, 0),
{
}

/// The Quest 3S profile has a curve of 0.07, an edge of -0.22 and a tilt of -1.
pub proof fn law_quest3s_profile(app: &mut App)
    requires
        call_ensures(App::apply_quest3s_preset, (app,), ()),
    ensures
        shows_left_eye(*old(app), *final(app), 0x3d8f_5c29, 0xbe61_47ae, 0xbf80_0000),
{
}

/// A quality preset sets size, frame rate and bit rate, and nothing else.
pub proof fn law_quality_presets_set_three_values(
    app: &mut App,
    max_size: u32,
    fps: u32,
    mbps: u32,
)
    requires
        call_ensures(App::apply_quality_preset, (app, max_size, fps, mbps), ()),
    ensures
        final(app).settings.max_size == max_size,
        final(app).settings.max_fps == fps,
        final(app).settings.bitrate_mbps == mbps,
        *old(app) == (App {
            settings: Settings {
                max_size: old(app).settings.max_size,
                max_fps: old(app).settings.max_fps,
                bitrate_mbps: old(app).settings.bitrate_mbps,
                ..final(app).settings
            },
            ..*final(app)
        }),
{
}

/// A running panel stream is told whether to reconnect as it is set, and nothing
/// else is told.
pub proof fn law_streams_are_told_about_reconnecting(app: &App, tell: Option<bool>)
    requires
        call_ensures(App::sync_auto_reconnect, (app,), tell),
    ensures
        app.stream is None ==> tell is None,
        app.stream is Some ==> tell == Some(app.auto_reconnect),
{
}

} // verus!
