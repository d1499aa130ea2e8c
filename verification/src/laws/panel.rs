//! What the window shows around the picture, and what its buttons do.

use crate::app::App;
use crate::devices::{is_first_as, model_is_quest, none_as, DisplayInfo};
use crate::laws::devices::usable_device;
use crate::laws::picture::no_number;
use crate::laws::remotes::is_hiding;
use crate::laws::streamer::lemma_shown;
use crate::live::Source;
use crate::panel::{
    audio_label, bitrate_label, display_label, display_of, fps_label, fullscreen_key,
    max_size_label, picked_serials, size_label, CropPreset, LensProfile, MainButtons, ModalEvent,
    Prompt, Sidebar,
};
use crate::settings::texts;
use crate::stream::Status;
use crate::text::decimal_text;
use crate::view::CropRect;
use vstd::prelude::*;

verus! {

/// Sizes and rates are named by their numbers, with what they are numbers of; no
/// limit has a name of its own.
pub proof fn law_labels_name_the_numbers(
    n: u32,
    digits: String,
    size: String,
    rate: String,
    fps: String,
)
    requires
        call_ensures(decimal_text, (n as u64,), digits),
        call_ensures(max_size_label, (n,), size),
        call_ensures(bitrate_label, (n,), rate),
        call_ensures(fps_label, (n,), fps),
    ensures
        n == 0 ==> size@ == "Full"@ && fps@ == "Max"@,
        n > 0 ==> size@ == digits@ + "px"@ && fps@ == digits@,
        rate@ == digits@ + " Mbps"@,
{
}

/// An audio device is called by its name, and the one of the system where it has
/// none.
pub proof fn law_audio_devices_are_called_by_name(device: &String, label: String)
    requires
        call_ensures(audio_label, (device,), label),
    ensures
        device@.len() == 0 ==> label@ == "Padrão do sistema"@,
        device@.len() > 0 ==> label@ == device@,
{
}

proof fn lemma_display_of(list: Seq<DisplayInfo>, id: u32, i: int)
    requires
        0 <= i < list.len(),
        list[i].id == id,
        forall|k: int| 0 <= k < i ==> (#[trigger] list[k]).id != id,
    ensures
        display_of(list, id) == Some(list[i]),
    decreases list.len(),
{
    if i > 0 {
        assert(list[0].id != id);
        assert forall|k: int| 0 <= k < i - 1 implies (#[trigger] list.skip(1)[k]).id != id by {
            assert(list[k + 1].id != id);
        }
        lemma_display_of(list.skip(1), id, i - 1);
    }
}

proof fn lemma_no_display(list: Seq<DisplayInfo>, id: u32)
    requires
        forall|k: int| 0 <= k < list.len() ==> (#[trigger] list[k]).id != id,
    ensures
        display_of(list, id) is None,
    decreases list.len(),
{
    if list.len() > 0 {
        assert(list[0].id != id);
        assert forall|k: int| 0 <= k < list.len() - 1 implies (#[trigger] list.skip(1)[k]).id
            != id by {
            assert(list[k + 1].id != id);
        }
        lemma_no_display(list.skip(1), id);
    }
}

/// A display is called by the size of the first that is listed under its id, and
/// by its id where none is.
pub proof fn law_displays_are_called_by_size(
    list: &Vec<DisplayInfo>,
    id: u32,
    label: String,
    i: int,
    width: String,
    height: String,
    number: String,
)
    requires
        call_ensures(display_label, (list, id), label),
        call_ensures(decimal_text, (id as u64,), number),
        0 <= i < list@.len() ==> {
            &&& call_ensures(decimal_text, (list@[i].width as u64,), width)
            &&& call_ensures(decimal_text, (list@[i].height as u64,), height)
        },
    ensures
        0 <= i < list@.len() && list@[i].id == id && (forall|k: int|
            0 <= k < i ==> (#[trigger] list@[k]).id != id) ==> label@ == width@ + " × "@ + height@,
        (forall|k: int| 0 <= k < list@.len() ==> (#[trigger] list@[k]).id != id) ==> label@
            == "Disp "@ + number@,
{
    if 0 <= i < list@.len() && list@[i].id == id && (forall|k: int|
        0 <= k < i ==> (#[trigger] list@[k]).id != id) {
        lemma_display_of(list@, id, i);
    }
    if forall|k: int| 0 <= k < list@.len() ==> (#[trigger] list@[k]).id != id {
        lemma_no_display(list@, id);
    }
}

/// The size of a display is its width and its height.
pub proof fn law_sizes_are_width_by_height(
    d: &DisplayInfo,
    label: String,
    width: String,
    height: String,
)
    requires
        call_ensures(size_label, (d,), label),
        call_ensures(decimal_text, (d.width as u64,), width),
        call_ensures(decimal_text, (d.height as u64,), height),
    ensures
        label@ == width@ + " × "@ + height@,
{
}

/// Whether `index` is the number of the first device of the selected serial, or
/// missing because none is selected or listed.
pub open spec fn is_selected(app: App, index: Option<usize>) -> bool {
    &&& app.selected_serial is None ==> index is None
    &&& app.selected_serial matches Some(s) ==> {
        &&& index matches Some(i) ==> i < app.devices@.len() && app.devices@[i as int].serial@
            == s@ && forall|k: int| 0 <= k < i ==> (#[trigger] app.devices@[k]).serial@ != s@
        &&& index is None ==> forall|k: int|
            0 <= k < app.devices@.len() ==> (#[trigger] app.devices@[k]).serial@ != s@
    }
}

/// The selected device is the first that is listed under its serial, and it is a
/// Quest where its model is.
pub proof fn law_selected_device_is_listed(
    app: &App,
    index: Option<usize>,
    quest: bool,
    model_quest: bool,
)
    requires
        call_ensures(App::selected_index, (app,), index),
        call_ensures(App::selected_is_quest, (app,), quest),
        index matches Some(i) ==> call_ensures(
            model_is_quest,
            (&app.devices@[i as int].model,),
            model_quest,
        ),
    ensures
        is_selected(*app, index),
        index is None ==> !quest,
        index is Some ==> quest == model_quest,
{
    if let Some(s) = app.selected_serial {
        match index {
            Some(i) => {
                assert(is_first_as(app.devices@, s@, i as int));
                assert forall|j: int| #[trigger] is_first_as(app.devices@, s@, j) implies j
                    == i by {
                    assert(app.devices@[j].serial@ == s@);
                    assert(app.devices@[i as int].serial@ == s@);
                }
            },
            None => {
                assert(none_as(app.devices@, s@));
                assert forall|j: int| !#[trigger] is_first_as(app.devices@, s@, j) by {
                    if is_first_as(app.devices@, s@, j) {
                        assert(app.devices@[j].serial@ == s@);
                    }
                }
            },
        }
    }
}

/// Whether what is streamed was started with each setting as it is now.
pub open spec fn runs_as_set(app: App) -> bool {
    let set = app.settings;
    &&& app.flat is Some || app.stream is Some
    &&& app.flat matches Some(f) ==> {
        &&& f.max_size == (if set.max_size >= 640 {
            set.max_size
        } else {
            1920
        })
        &&& f.bitrate == (if set.bitrate_mbps < 2 {
            2_000_000
        } else {
            set.bitrate_mbps * 1_000_000
        })
        &&& f.fps == (if set.max_fps > 0 {
            set.max_fps
        } else {
            72
        })
    }
    &&& app.flat is None ==> (app.stream matches Some(s) ==> {
        &&& s.display_id == set.display_id
        &&& s.max_size == set.max_size
        &&& s.video_bit_rate == set.bitrate_mbps * 1_000_000
        &&& s.max_fps == set.max_fps
        &&& s.audio == set.audio
        &&& s.audio_output_device@ == set.audio_output_device@
    })
}

proof fn lemma_runs_as_set(app: App)
    ensures
        app.settings.bitrate_mbps <= 4294 ==> app.config_matches() == runs_as_set(app),
        app.flat is None ==> app.config_matches() == runs_as_set(app),
{
}

/// Changed settings show as soon as any of them differs from what the stream was
/// started with.
pub proof fn law_changed_settings_show(app: &App, same: bool, fit: bool)
    requires
        call_ensures(App::active_config_matches, (app,), same),
        call_ensures(App::rates_computable, (app,), fit),
    ensures
        app.settings.bitrate_mbps <= 4294 ==> (same <==> runs_as_set(*app)),
        app.settings.bitrate_mbps <= 4294 ==> fit,
        fit ==> call_requires(App::active_config_matches, (app,)),
        fit ==> call_requires(App::apply_kind, (app,)),
{
    lemma_runs_as_set(*app);
}

/// A stream that was just started is as it was set, and is no more once audio, or
/// any other setting, is changed.
pub proof fn law_fresh_streams_are_as_set(
    app: &mut App,
    later: &App,
    fresh: bool,
    same: bool,
)
    requires
        call_ensures(App::connect, (app,), true),
        old(app).flat is None,
        old(app).settings.bitrate_mbps <= 4294,
        call_ensures(App::active_config_matches, (&*final(app),), fresh),
        *later == (App { settings: later.settings, ..*final(app) }),
        later.settings.bitrate_mbps <= 4294,
        call_ensures(App::active_config_matches, (later,), same),
    ensures
        fresh,
        same <==> {
            &&& later.settings.display_id == old(app).settings.display_id
            &&& later.settings.max_size == old(app).settings.max_size
            &&& later.settings.bitrate_mbps == old(app).settings.bitrate_mbps
            &&& later.settings.max_fps == old(app).settings.max_fps
            &&& later.settings.audio == old(app).settings.audio
            &&& later.settings.audio_output_device@ == old(app).settings.audio_output_device@
        },
{
    lemma_runs_as_set(*final(app));
    lemma_runs_as_set(*later);
}

/// The button to connect starts a flat view of a Quest and a panel stream of any
/// other device, where one is selected and nothing is streamed.
pub proof fn law_quests_are_seen_flat(app: &App, kind: Option<Source>, quest: bool)
    requires
        call_ensures(App::connect_kind, (app,), kind),
        call_ensures(App::selected_is_quest, (app,), quest),
    ensures
        app.selected_serial is None || app.stream is Some || app.flat is Some ==> kind is None,
        app.selected_serial is Some && app.stream is None && app.flat is None && quest ==> kind
            == Some(Source::Flat),
        app.selected_serial is Some && app.stream is None && app.flat is None && !quest ==> kind
            == Some(Source::Panel),
{
}

/// The button to apply settings starts anew what is streamed, where it is not as it
/// is set.
pub proof fn law_changed_settings_are_applied(app: &App, kind: Option<Source>)
    requires
        call_ensures(App::apply_kind, (app,), kind),
        app.settings.bitrate_mbps <= 4294,
    ensures
        runs_as_set(*app) ==> kind is None,
        !runs_as_set(*app) && app.flat is Some ==> kind == Some(Source::Flat),
        !runs_as_set(*app) && app.flat is None && app.stream is Some ==> kind == Some(
            Source::Panel,
        ),
        app.flat is None && app.stream is None ==> kind is None,
{
    lemma_runs_as_set(*app);
}

/// Whether a list shows the serials of some devices, as they are or as dots.
pub open spec fn shows_serials(app: App, picks: Seq<usize>, list: Seq<String>) -> bool {
    &&& list.len() == picks.len()
    &&& forall|k: int|
        0 <= k < list.len() ==> (#[trigger] list[k])@ == (if is_hiding(app) {
            "•••"@
        } else {
            app.devices@[picks[k] as int].serial@
        })
}

proof fn lemma_shows_serials(app: App, picks: Seq<usize>, list: Seq<String>)
    requires
        texts(list) == crate::streamer::shown_texts(
            picked_serials(app.devices@, picks),
            app.hides(),
        ),
    ensures
        shows_serials(app, picks, list),
{
    let all = picked_serials(app.devices@, picks);
    lemma_shown(list, all, app.hides());
    assert(all.len() == picks.len());
    assert forall|k: int| 0 <= k < list.len() implies (#[trigger] list[k])@ == (if is_hiding(app) {
        "•••"@
    } else {
        app.devices@[picks[k] as int].serial@
    }) by {
        assert(all[k] == app.devices@[picks[k] as int].serial@);
    }
}

/// The serials of some devices are shown in their order, or hidden.
pub proof fn law_serials_are_shown_in_order(app: &App, picks: &Vec<usize>, list: Vec<String>)
    requires
        call_ensures(App::shown_serials, (app, picks), list),
    ensures
        shows_serials(*app, picks@, list@),
{
    lemma_shows_serials(*app, picks@, list@);
}

/// The side bar lists the devices that can be used and no other, each once and in
/// order, and shows the selected one; serials and addresses as dots while they are
/// hidden.
pub proof fn law_side_bar_lists_usable_devices(
    app: &App,
    panel: bool,
    flat: bool,
    bar: Sidebar,
    i: int,
)
    requires
        call_ensures(App::sidebar_content, (app, panel, flat), bar),
    ensures
        is_selected(*app, bar.device),
        bar.device is None ==> bar.device_serial is None,
        bar.device matches Some(d) ==> {
            &&& bar.device_serial matches Some(s)
            &&& is_hiding(*app) ==> s@ == "•••"@
            &&& !is_hiding(*app) ==> s@ == app.devices@[d as int].serial@
        },
        0 <= i < app.devices@.len() && usable_device(app.devices@[i]) ==> bar.online@.contains(
            i as usize,
        ),
        0 <= i < bar.online@.len() ==> bar.online@[i] < app.devices@.len() && usable_device(
            app.devices@[bar.online@[i] as int],
        ),
        0 < i < bar.online@.len() ==> bar.online@[i - 1] < bar.online@[i],
        shows_serials(*app, bar.online@, bar.serials@),
        bar.masked <==> is_hiding(*app),
        bar.remotes@.len() == app.remotes@.len(),
        0 <= i < bar.remotes@.len() ==> bar.remotes@[i]@ == (if is_hiding(*app) {
            "•••"@
        } else {
            app.remotes@[i]@
        }),
        bar.connect_all <==> app.remotes@.len() >= 2,
{
    lemma_shows_serials(*app, bar.online@, bar.serials@);
    lemma_shown(bar.remotes@, texts(app.remotes@), app.hides());
    if 0 <= i < bar.remotes@.len() {
        assert(texts(app.remotes@)[i] == app.remotes@[i]@);
    }
}

/// The side bar names the settings as their labels do, and marks the preset that
/// is in force.
pub proof fn law_side_bar_names_the_settings(
    app: &App,
    panel: bool,
    flat: bool,
    bar: Sidebar,
    display: String,
    size: String,
    rate: String,
    fps: String,
    audio: String,
    message: Option<String>,
)
    requires
        call_ensures(App::sidebar_content, (app, panel, flat), bar),
        call_ensures(display_label, (&app.displays, app.settings.display_id), display),
        call_ensures(max_size_label, (app.settings.max_size,), size),
        call_ensures(bitrate_label, (app.settings.bitrate_mbps,), rate),
        call_ensures(fps_label, (app.settings.max_fps,), fps),
        call_ensures(audio_label, (&app.settings.audio_output_device,), audio),
        call_ensures(App::shown_message, (app,), message),
    ensures
        bar.display@ == display@,
        bar.max_size@ == size@,
        bar.bitrate@ == rate@,
        bar.fps@ == fps@,
        bar.audio_device@ == audio@,
        bar.low_latency <==> app.settings.max_size == 1440 && app.settings.max_fps == 60
            && app.settings.bitrate_mbps == 12,
        bar.high_quality <==> app.settings.max_size == 1920 && app.settings.max_fps == 60
            && app.settings.bitrate_mbps == 20,
        message is None ==> bar.message is None,
        message matches Some(m) ==> (bar.message matches Some(s) && s@ == m@),
{
}

/// While something is streamed the side bar has the buttons for it, and else the
/// one to connect.
pub proof fn law_side_bar_has_the_buttons(
    app: &App,
    panel: bool,
    flat: bool,
    bar: Sidebar,
    quest: bool,
)
    requires
        call_ensures(App::sidebar_content, (app, panel, flat), bar),
        call_ensures(App::selected_is_quest, (app,), quest),
        app.settings.bitrate_mbps <= 4294,
    ensures
        app.stream is None && app.flat is None ==> {
            &&& bar.outputs is None
            &&& bar.buttons == (MainButtons::Idle {
                enabled: app.selected_serial is Some,
                panel_view: quest,
            })
        },
        app.stream is Some || app.flat is Some ==> {
            &&& bar.outputs == Some((app.spout_enabled, app.vcam_enabled))
            &&& bar.buttons == (MainButtons::Live {
                apply: !runs_as_set(*app),
                can_shoot: app.has_texture,
                recording: app.stream is Some && panel || app.flat is Some && flat,
            })
        },
{
    lemma_runs_as_set(*app);
}

/// A device that is picked is selected, its displays are to be fetched, and
/// nothing else changes.
pub proof fn law_picked_device_is_selected(app: &mut App, index: usize)
    requires
        call_ensures(App::select_device, (app, index), ()),
        index < old(app).devices@.len(),
    ensures
        final(app).selected_serial == Some(old(app).devices@[index as int].serial),
        final(app).displays@.len() == 0,
        final(app).need_display_fetch,
        *old(app) == (App {
            selected_serial: old(app).selected_serial,
            displays: old(app).displays,
            need_display_fetch: old(app).need_display_fetch,
            ..*final(app)
        }),
{
}

/// A launch that asks to stream does so once, as soon as a device is selected,
/// with each value as it is set.
pub proof fn law_launches_stream_once(app: &mut App, start: bool)
    requires
        call_ensures(App::autostart, (app,), start),
    ensures
        start <==> old(app).want_autostart && old(app).selected_serial is Some && old(
            app).stream is None,
        !start ==> *final(app) == *old(app),
        start ==> {
            &&& !final(app).want_autostart
            &&& final(app).stream matches Some(s)
            &&& old(app).selected_serial == Some(s.serial)
            &&& s.display_id == old(app).settings.display_id
            &&& s.max_size == old(app).settings.max_size
            &&& old(app).settings.bitrate_mbps <= 4294 ==> s.video_bit_rate
                == old(app).settings.bitrate_mbps * 1_000_000
            &&& s.max_fps == old(app).settings.max_fps
            &&& s.audio == old(app).settings.audio
            &&& s.audio_bit_rate == 128_000
            &&& s.audio_output_device == old(app).settings.audio_output_device
        },
        start ==> {
            &&& final(app).displays@.len() == 0
            &&& final(app).need_display_fetch
            &&& !final(app).has_texture
            &&& final(app).last_frame is None
            &&& final(app).last_generation == 0
            &&& *old(app) == (App {
                want_autostart: old(app).want_autostart,
                displays: old(app).displays,
                need_display_fetch: old(app).need_display_fetch,
                stream: old(app).stream,
                has_texture: old(app).has_texture,
                last_frame: old(app).last_frame,
                last_generation: old(app).last_generation,
                ..*final(app)
            })
        },
{
}

/// The badge tells how what is on screen is doing: its size and rate while it
/// streams, and else in a word or by its error.
pub proof fn law_badge_tells_how_the_stream_does(
    app: &App,
    panel: &Status,
    flat: &Status,
    fps: &str,
    decode_ms: Option<&str>,
    text: String,
    status: Status,
    width: String,
    height: String,
    error: String,
)
    requires
        call_ensures(App::status_header_badge, (app, panel, flat, fps, decode_ms), text),
        app.flat is Some ==> status == *flat,
        app.flat is None ==> status == *panel,
        status matches Status::Streaming { width: w, .. } ==> call_ensures(
            decimal_text,
            (w as u64,),
            width,
        ),
        status matches Status::Streaming { height: h, .. } ==> call_ensures(
            decimal_text,
            (h as u64,),
            height,
        ),
        status matches Status::Error(e) ==> call_ensures(App::screen, (app, &e), error),
    ensures
        app.flat is None && app.stream is None ==> text@ == "Desconectado"@,
        app.flat is Some || app.stream is Some ==> {
            &&& status is Connecting ==> text@ == "Conectando…"@
            &&& status is Stopped ==> text@ == "Parado"@
            &&& status is Error ==> text@ == error@
            &&& status is Streaming && decode_ms is None ==> text@ == width@ + "×"@ + height@
                + "  ·  "@ + fps@ + " fps"@
            &&& status is Streaming && decode_ms is Some ==> text@ == width@ + "×"@ + height@
                + "  ·  "@ + fps@ + " fps"@ + "  ·  "@ + decode_ms.unwrap()@ + " ms"@
        },
{
    if status is Streaming {
        assert(width@ + "×"@ + height@ + "  ·  "@ + fps@ + " fps"@ == (width@ + "×"@ + height@)
            + "  ·  "@ + fps@ + " fps"@);
    }
}

/// Without a picture the window asks for a device, or waits where one streams.
pub proof fn law_prompt_stands_in_for_the_picture(app: &App, prompt: Option<Prompt>)
    requires
        call_ensures(App::prompt, (app,), prompt),
    ensures
        prompt is None <==> app.has_texture,
        prompt == Some(Prompt::AwaitFrame) <==> !app.has_texture && (app.stream is Some
            || app.flat is Some),
        prompt == Some(Prompt::PickDevice) <==> !app.has_texture && app.stream is None
            && app.flat is None,
{
}

/// The picture is drawn through the lens that is set while it is flattened, only
/// turned where it is not and the tilt is worth it, and else as it is.
pub proof fn law_screen_shows_the_lens_that_is_set(app: &App, lens: Option<(u32, u32, u32)>)
    requires
        call_ensures(App::drawn_lens, (app,), lens),
    ensures
        app.lens_correct ==> lens == Some((app.lens_k1, app.lens_k2, app.rotation_deg)),
        !app.lens_correct ==> {
            let turned = !no_number(app.rotation_deg) && app.rotation_deg & 0x7fff_ffffu32
                > 0x3c23_d70a;
            &&& turned ==> lens == Some((0u32, 0u32, app.rotation_deg))
            &&& !turned ==> lens is None
        },
{
    crate::laws::picture::lemma_bits(app.rotation_deg);
}

/// The button for the advanced settings opens and closes them.
pub proof fn law_settings_button_turns_over(app: &mut App)
    requires
        call_ensures(App::toggle_settings, (app,), ()),
    ensures
        final(app).settings_open != old(app).settings_open,
        *old(app) == (App { settings_open: old(app).settings_open, ..*final(app) }),
{
}

/// F11 goes in and out of the full screen, and Escape only out.
pub proof fn law_full_screen_keys(is_fullscreen: bool, f11: bool, escape: bool, set: Option<bool>)
    requires
        call_ensures(fullscreen_key, (is_fullscreen, f11, escape), set),
    ensures
        f11 ==> set == Some(!is_fullscreen),
        !f11 && escape && is_fullscreen ==> set == Some(false),
        !f11 && !escape ==> set is None,
        !f11 && !is_fullscreen ==> set is None,
{
}

/// Whether a crop has these edges.
pub open spec fn has_edges(c: CropRect, min_x: u32, min_y: u32, max_x: u32, max_y: u32) -> bool {
    c.min_x == min_x && c.min_y == min_y && c.max_x == max_x && c.max_y == max_y
}

/// Whether a crop is the one of a preset: a half, the whole, or the middle half
/// both ways.
pub open spec fn is_preset_crop(preset: CropPreset, c: CropRect) -> bool {
    match preset {
        CropPreset::LeftEye => has_edges(c, 0, 0, 0x3f00_0000, 0x3f80_0000),
        CropPreset::RightEye => has_edges(c, 0x3f00_0000, 0, 0x3f80_0000, 0x3f80_0000),
        CropPreset::FullPanel => has_edges(c, 0, 0, 0x3f80_0000, 0x3f80_0000),
        CropPreset::Center => has_edges(c, 0x3e80_0000, 0x3e80_0000, 0x3f40_0000, 0x3f40_0000),
    }
}

/// Each preset crops what its name says.
pub proof fn law_crop_presets(preset: CropPreset, rect: CropRect)
    requires
        call_ensures(CropPreset::crop, (preset,), rect),
    ensures
        is_preset_crop(preset, rect),
{
}

/// Whether an event closes the advanced settings.
pub open spec fn closes(event: ModalEvent) -> bool {
    match event {
        ModalEvent::Escape
        | ModalEvent::Backdrop
        | ModalEvent::CloseButton
        | ModalEvent::ApplyAndClose => true,
        _ => false,
    }
}

/// Whether a lens profile is set: flattened, of the left eye, with the curve, edge
/// and tilt of the headset.
pub open spec fn has_profile(app: App, profile: LensProfile) -> bool {
    &&& app.lens_correct
    &&& has_edges(app.uv, 0, 0, 0x3f00_0000, 0x3f80_0000)
    &&& app.lens_k1 == (match profile {
        LensProfile::Quest3 => 0x3ca3_d70au32,
        LensProfile::Quest3s => 0x3d8f_5c29u32,
        LensProfile::Quest2 => 0x3dcc_cccdu32,
        LensProfile::QuestPro => 0x3c23_d70au32,
    })
    &&& app.lens_k2 == (match profile {
        LensProfile::Quest3 => 0xbe4c_cccdu32,
        LensProfile::Quest3s => 0xbe61_47aeu32,
        LensProfile::Quest2 => 0xbe80_0000u32,
        LensProfile::QuestPro => 0xbd23_d70au32,
    })
    &&& app.rotation_deg == (match profile {
        LensProfile::QuestPro => 0u32,
        _ => 0xbf80_0000u32,
    })
}

/// Whether the state is `before` but for what an event sets.
pub open spec fn sets(event: ModalEvent, before: App, after: App) -> bool {
    match event {
        ModalEvent::Lens(profile) => {
            &&& has_profile(after, profile)
            &&& before == (App {
                uv: before.uv,
                lens_correct: before.lens_correct,
                lens_k1: before.lens_k1,
                lens_k2: before.lens_k2,
                rotation_deg: before.rotation_deg,
                ..after
            })
        },
        ModalEvent::Crop(preset) => {
            &&& is_preset_crop(preset, after.uv)
            &&& before == (App { uv: before.uv, ..after })
        },
        ModalEvent::Flatten(on) => after == (App { lens_correct: on, ..before }),
        ModalEvent::Curve(k1) => after == (App { lens_k1: k1, ..before }),
        ModalEvent::Edge(k2) => after == (App { lens_k2: k2, ..before }),
        ModalEvent::Tilt(deg) => after == (App { rotation_deg: deg, ..before }),
        ModalEvent::Zoom(uv) => after == (App { uv, ..before }),
        ModalEvent::AutoReconnect(on) => after == (App { auto_reconnect: on, ..before }),
        ModalEvent::ResetLens => after == (App {
            lens_k1: 0x3ca3_d70a,
            lens_k2: 0xbe4c_cccd,
            rotation_deg: 0xbf80_0000,
            ..before
        }),
        _ => after == before,
    }
}

/// While the advanced settings are closed, or nothing is done in them, nothing
/// changes.
pub proof fn law_closed_settings_set_nothing(app: &mut App, events: &Vec<ModalEvent>)
    requires
        call_ensures(App::settings_modal, (app, events), ()),
        !old(app).settings_open || events@.len() == 0,
    ensures
        *final(app) == *old(app),
{
    if old(app).settings_open {
        assert(old(app).after_modal_all(events@) == *old(app));
        assert(forall|i: int| 0 <= i < events@.len() ==> !(#[trigger] events@[i]).is_close());
    }
}

/// One event sets what it is for.
#[verifier::rlimit(40)]
proof fn lemma_one_event(before: App, event: ModalEvent)
    ensures
        sets(event, before, before.after_modal(event)),
        before.after_modal(event).settings_open == before.settings_open,
{
}

/// What an event sets does not depend on whether the settings are open.
proof fn lemma_open_or_not(app: App, event: ModalEvent, open: bool)
    ensures
        (App { settings_open: open, ..app }).after_modal(event) == (App {
            settings_open: open,
            ..app.after_modal(event)
        }),
{
}

proof fn lemma_last_event(before: App, events: Seq<ModalEvent>, first: Seq<ModalEvent>)
    requires
        events.len() > 0,
        first == events.drop_last(),
    ensures
        before.after_modal_all(events) == before.after_modal_all(first).after_modal(
            events.last(),
        ),
        events.len() == 1 ==> before.after_modal_all(events) == before.after_modal(events[0]),
{
    if events.len() == 1 {
        assert(before.after_modal_all(first) == before);
    }
}

proof fn lemma_closing(before: App, after: App, events: Seq<ModalEvent>)
    requires
        before.settings_open,
        after.settings_open == forall|i: int|
            0 <= i < events.len() ==> !(#[trigger] events[i]).is_close(),
    ensures
        after.settings_open == none_closes(events),
{
    assert forall|i: int| 0 <= i < events.len() implies (#[trigger] events[i]).is_close()
        == closes(events[i]) by {}
    if none_closes(events) {
        assert forall|i: int| 0 <= i < events.len() implies !(
        #[trigger] events[i]).is_close() by {}
    }
}

/// Whether none of some events closes the settings.
pub open spec fn none_closes(events: Seq<ModalEvent>) -> bool {
    forall|i: int| 0 <= i < events.len() ==> !closes(#[trigger] events[i])
}

/// One event sets what it is for and nothing else, and closes the advanced
/// settings exactly where it is meant to.
pub proof fn law_each_event_sets_its_own(app: &mut App, events: &Vec<ModalEvent>)
    requires
        call_ensures(App::settings_modal, (app, events), ()),
        old(app).settings_open,
        events@.len() == 1,
    ensures
        sets(events@[0], *old(app), (App { settings_open: true, ..*final(app) })),
        final(app).settings_open <==> !closes(events@[0]),
{
    let e = events@[0];
    lemma_closing(*old(app), *final(app), events@);
    lemma_last_event(*old(app), events@, events@.drop_last());
    lemma_one_event(*old(app), e);
    let set = old(app).after_modal(e);
    assert((App { settings_open: true, ..*final(app) }) == set);
}

/// Whether the settings stay open through some events and one more.
proof fn lemma_none_closes(events: Seq<ModalEvent>, first: Seq<ModalEvent>, last: Seq<ModalEvent>)
    requires
        last.len() == 1,
        events == first.push(last[0]),
    ensures
        none_closes(events) == (none_closes(first) && none_closes(last)),
{
    let n = first.len() as int;
    assert(events[n] == last[0]);
    assert forall|i: int| 0 <= i < n implies events[i] == #[trigger] first[i] by {}
    if none_closes(first) && none_closes(last) {
        assert forall|i: int| 0 <= i < events.len() implies !closes(#[trigger] events[i]) by {
            if i < n {
                assert(!closes(first[i]));
            }
        }
    }
    if none_closes(events) {
        assert forall|i: int| 0 <= i < n implies !closes(#[trigger] first[i]) by {
            assert(!closes(events[i]));
        }
    }
}

/// What one look at the advanced settings makes of a state.
spec fn after_look(app: App, events: Seq<ModalEvent>) -> App {
    if !app.settings_open {
        app
    } else {
        App {
            settings_open: forall|i: int|
                0 <= i < events.len() ==> !(#[trigger] events[i]).is_close(),
            ..app.after_modal_all(events)
        }
    }
}

proof fn lemma_look(app: App, events: Seq<ModalEvent>, after: App)
    requires
        app.settings_open,
        after == after_look(app, events),
    ensures
        after == (App { settings_open: after.settings_open, ..app.after_modal_all(events) }),
        after.settings_open == none_closes(events),
{
    lemma_closing(app, after, events);
}

/// One more event goes on from where the others led.
proof fn lemma_one_more(
    app: App,
    some: App,
    one: App,
    all: App,
    events: Seq<ModalEvent>,
    first: Seq<ModalEvent>,
    last: Seq<ModalEvent>,
)
    requires
        last.len() == 1,
        events == first.push(last[0]),
        some == (App { settings_open: some.settings_open, ..app.after_modal_all(first) }),
        one == (App {
            settings_open: one.settings_open,
            ..(App { settings_open: true, ..some }).after_modal_all(last)
        }),
        all == (App { settings_open: all.settings_open, ..app.after_modal_all(events) }),
        all.settings_open == (some.settings_open && one.settings_open),
    ensures
        all == (App { settings_open: some.settings_open && one.settings_open, ..one }),
{
    let e = last[0];
    let mid = app.after_modal_all(first);
    let start = App { settings_open: true, ..some };
    assert(events.drop_last() =~= first);
    assert(events.last() == e);
    lemma_last_event(app, events, first);
    lemma_last_event(start, last, last.drop_last());
    assert(start == (App { settings_open: true, ..mid }));
    lemma_open_or_not(mid, e, true);
}

proof fn lemma_looks(
    app: App,
    some: App,
    one: App,
    all: App,
    events: Seq<ModalEvent>,
    first: Seq<ModalEvent>,
    last: Seq<ModalEvent>,
)
    requires
        app.settings_open,
        last.len() == 1,
        events == first.push(last[0]),
        some == after_look(app, first),
        one == after_look((App { settings_open: true, ..some }), last),
        all == after_look(app, events),
    ensures
        all == (App { settings_open: some.settings_open && one.settings_open, ..one }),
{
    lemma_look(app, first, some);
    lemma_look((App { settings_open: true, ..some }), last, one);
    lemma_look(app, events, all);
    lemma_none_closes(events, first, last);
    lemma_one_more(app, some, one, all, events, first, last);
}

/// Events count in their order: what some do and one more does is what that one
/// does after the others; the settings stay open only where none of them closes
/// them.
#[verifier::rlimit(60)]
pub proof fn law_events_count_in_order(
    all: &mut App,
    events: &Vec<ModalEvent>,
    some: &mut App,
    first: &Vec<ModalEvent>,
    one: &mut App,
    last: &Vec<ModalEvent>,
)
    requires
        call_ensures(App::settings_modal, (all, events), ()),
        call_ensures(App::settings_modal, (some, first), ()),
        call_ensures(App::settings_modal, (one, last), ()),
        old(all).settings_open,
        last@.len() == 1,
        events@ == first@.push(last@[0]),
        *old(some) == *old(all),
        *old(one) == (App { settings_open: true, ..*final(some) }),
    ensures
        *final(all) == (App {
            settings_open: final(some).settings_open && final(one).settings_open,
            ..*final(one)
        }),
{
    lemma_looks(
        *old(all),
        *final(some),
        *final(one),
        *final(all),
        events@,
        first@,
        last@,
    );
}

} // verus!
