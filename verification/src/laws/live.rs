//! The texture, the live outputs, screenshots and recordings.

use crate::app::App;
use crate::laws::picture::{is_complete, is_picture, lemma_rendered, samples_as, tells_true};
use crate::live::{BeginRecording, LivePictures, Source, TextureUpdate, ToggleRecording};
use crate::outputs::{CamStep, SpoutOutput, SpoutStep, VirtualCamOutput};
use crate::stream::FrameSlot;
use crate::view::ViewParams;
use crate::warp::{Lens, RemapCache};
use vstd::prelude::*;

verus! {

/// The flat view is on screen where there is one, else the panel stream.
pub proof fn law_flat_view_comes_first(app: &App, source: Option<Source>)
    requires
        call_ensures(App::frame_source, (app,), source),
    ensures
        app.flat is Some ==> source == Some(Source::Flat),
        app.flat is None && app.stream is Some ==> source == Some(Source::Panel),
        app.flat is None && app.stream is None ==> source is None,
{
}

/// A frame that has not been shown is put on screen once: it is the last frame
/// then, the texture has its size, and the slot is empty.
pub proof fn law_new_frames_are_shown(
    app: &mut App,
    slot: &mut FrameSlot,
    update: Option<TextureUpdate>,
)
    requires
        call_ensures(App::sync_texture, (app, slot), update),
    ensures
        old(slot).frame is None || old(slot).generation == old(app).last_generation ==> {
            &&& update is None
            &&& *final(app) == *old(app)
            &&& final(slot).frame == old(slot).frame
        },
        old(slot).frame is Some && old(slot).generation != old(app).last_generation ==> {
            &&& final(app).last_frame == old(slot).frame
            &&& final(app).last_generation == old(slot).generation
            &&& final(app).tex_size.0 == old(slot).frame.unwrap().width
            &&& final(app).tex_size.1 == old(slot).frame.unwrap().height
            &&& final(app).has_texture
            &&& final(slot).frame is None
            &&& old(app).has_texture ==> update == Some(TextureUpdate::Replace)
            &&& !old(app).has_texture ==> update == Some(TextureUpdate::Create)
        },
        final(slot).generation == old(slot).generation,
        *old(app) == (App {
            last_frame: old(app).last_frame,
            last_generation: old(app).last_generation,
            tex_size: old(app).tex_size,
            has_texture: old(app).has_texture,
            ..*final(app)
        }),
{
}

/// Whether a view is the one that is set.
pub open spec fn is_set_view(view: ViewParams, app: App) -> bool {
    &&& view.uv == app.uv
    &&& view.lens_correct == app.lens_correct
    &&& view.k1 == app.lens_k1
    &&& view.k2 == app.lens_k2
    &&& view.rotation_deg == app.rotation_deg
}

/// Whether a view is of the whole panel, not flattened and not turned.
pub open spec fn is_whole_view(view: ViewParams) -> bool {
    &&& !view.lens_correct
    &&& view.rotation_deg == 0
    &&& view.uv.min_x == 0
    &&& view.uv.min_y == 0
    &&& view.uv.max_x == 0x3f80_0000
    &&& view.uv.max_y == 0x3f80_0000
}

/// Whether a side of a picture is that of the crop, made even.
pub open spec fn is_evened(side: u32, crop: u32) -> bool {
    &&& side % 2 == 0
    &&& side >= 2
    &&& crop >= 2 ==> side <= crop < side + 2
}

/// Whether a live picture is of a view at a size: of the whole frame while a flat
/// view is on, and else of the view that is set, at the size of its crop.
pub open spec fn is_live_view(
    app: App,
    frame_w: u32,
    frame_h: u32,
    crop_w: u32,
    crop_h: u32,
    view: ViewParams,
    w: u32,
    h: u32,
) -> bool {
    &&& app.flat is Some ==> is_whole_view(view) && w == frame_w && h == frame_h
    &&& app.flat is None ==> is_set_view(view, app) && is_evened(w, crop_w) && is_evened(h, crop_h)
}

/// The view that is on screen is the one that is set, and a live picture is of that
/// view, or of the whole frame while a flat view is on.
pub proof fn law_live_pictures_are_of_the_view(
    app: &App,
    frame_w: u32,
    frame_h: u32,
    crop_w: u32,
    crop_h: u32,
    view: ViewParams,
    live: (ViewParams, u32, u32),
)
    requires
        call_ensures(App::view_params, (app,), view),
        call_ensures(App::live_view, (app, frame_w, frame_h, crop_w, crop_h), live),
    ensures
        is_set_view(view, *app),
        is_live_view(*app, frame_w, frame_h, crop_w, crop_h, live.0, live.1, live.2),
{
}

/// Each output that is on gets the last frame through the live view, the texture
/// share with red and blue swapped and the camera without; an output that is off
/// gets nothing.
pub proof fn law_outputs_get_the_live_picture<
    F: Fn(usize, usize, u32, u32) -> (usize, usize) + Sync,
>(
    lens: Lens,
    app: &App,
    cache: &mut RemapCache,
    crop_w: u32,
    crop_h: u32,
    sample: &F,
    live: (ViewParams, u32, u32),
    pictures: Option<LivePictures>,
)
    requires
        old(cache).wf(),
        tells_true(*old(cache), lens),
        app.last_frame matches Some(frame) ==> {
            &&& is_complete(frame)
            &&& call_ensures(
                App::live_view,
                (app, frame.width, frame.height, crop_w, crop_h),
                live,
            )
            &&& samples_as(*sample, lens, frame.width, frame.height, live.0, live.1, live.2)
        },
        call_ensures(
            App::push_live_outputs::<F>,
            (app, cache, crop_w, crop_h, sample),
            pictures,
        ),
    ensures
        app.last_frame is None ==> pictures is None,
        !app.spout_enabled && !app.vcam_enabled ==> pictures is None,
        pictures is None ==> *final(cache) == *old(cache),
        app.last_frame is Some && (app.spout_enabled || app.vcam_enabled) ==> {
            &&& pictures matches Some(p)
            &&& p.width == live.1
            &&& p.height == live.2
            &&& p.bgra is Some <==> app.spout_enabled
            &&& p.rgba is Some <==> app.vcam_enabled
            &&& p.bgra matches Some(bytes) ==> is_picture(
                lens,
                app.last_frame.unwrap(),
                live.0,
                live.1,
                live.2,
                true,
                bytes@,
            )
            &&& p.rgba matches Some(bytes) ==> is_picture(
                lens,
                app.last_frame.unwrap(),
                live.0,
                live.1,
                live.2,
                false,
                bytes@,
            )
            &&& is_live_view(
                *app,
                app.last_frame.unwrap().width,
                app.last_frame.unwrap().height,
                crop_w,
                crop_h,
                live.0,
                p.width,
                p.height,
            )
        },
{
    if let Some(p) = pictures {
        let frame = app.last_frame.unwrap();
        let (view, w, h) = live;
        if let Some(bytes) = p.bgra {
            lemma_rendered(
                lens,
                *old(cache),
                *final(cache),
                frame,
                view,
                w,
                h,
                true,
                *sample,
                bytes@,
            );
        }
        if let Some(bytes) = p.rgba {
            let before = if app.spout_enabled {
                *final(cache)
            } else {
                *old(cache)
            };
            lemma_rendered(lens, before, *final(cache), frame, view, w, h, false, *sample, bytes@);
        }
    }
}

/// A press of a button for a live output turns it over. One that is switched off
/// is closed, and its error is forgotten.
pub proof fn law_output_buttons_turn_over(spout: &mut App, vcam: &mut App)
    requires
        call_ensures(App::toggle_spout, (spout,), ()),
        call_ensures(App::toggle_vcam, (vcam,), ()),
    ensures
        final(spout).spout_enabled != old(spout).spout_enabled,
        final(spout).spout_error is None,
        old(spout).spout_enabled ==> final(spout).spout is None,
        !old(spout).spout_enabled ==> final(spout).spout == old(spout).spout,
        *old(spout) == (App {
            spout_enabled: old(spout).spout_enabled,
            spout: old(spout).spout,
            spout_error: old(spout).spout_error,
            ..*final(spout)
        }),
        final(vcam).vcam_enabled != old(vcam).vcam_enabled,
        final(vcam).vcam_error is None,
        old(vcam).vcam_enabled ==> final(vcam).vcam is None,
        !old(vcam).vcam_enabled ==> final(vcam).vcam == old(vcam).vcam,
        *old(vcam) == (App {
            vcam_enabled: old(vcam).vcam_enabled,
            vcam: old(vcam).vcam,
            vcam_error: old(vcam).vcam_error,
            ..*final(vcam)
        }),
{
}

/// The sender of the texture share is made before the first picture and used from
/// then on; where texture shares do not exist, nothing is done.
pub proof fn law_texture_share_is_made_once(app: &mut App, supported: bool, step: SpoutStep)
    requires
        call_ensures(App::spout_step, (app, supported), step),
    ensures
        final(app).spout is Some,
        old(app).spout is Some ==> final(app).spout == old(app).spout,
        old(app).spout is None ==> {
            &&& final(app).spout.unwrap().name@ == "Quest scrcpy"@
            &&& final(app).spout.unwrap().supported == supported
            &&& !final(app).spout.unwrap().open
        },
        !final(app).spout.unwrap().supported <==> step == SpoutStep::Skip,
        final(app).spout.unwrap().supported && !final(app).spout.unwrap().open <==> step
            == SpoutStep::Create,
        final(app).spout.unwrap().supported && final(app).spout.unwrap().open <==> step
            == SpoutStep::Send,
        *old(app) == (App { spout: old(app).spout, ..*final(app) }),
{
}

/// Once the sender is made, the next picture is sent.
pub proof fn law_made_sender_is_used(
    made: &mut App,
    next: &mut App,
    supported: bool,
    step: SpoutStep,
)
    requires
        call_ensures(App::spout_created, (made,), ()),
        call_ensures(App::spout_step, (next, supported), step),
        *old(next) == *final(made),
        old(made).spout matches Some(out) && out.supported,
    ensures
        step == SpoutStep::Send,
        *old(made) == (App { spout: old(made).spout, ..*final(made) }),
        final(made).spout.unwrap().name == old(made).spout.unwrap().name,
{
}

/// A failure to send to the texture share switches it off and is kept; a success
/// clears the failure before it.
pub proof fn law_texture_share_stops_on_failure(app: &mut App, result: Result<(), String>)
    requires
        call_ensures(App::spout_sent, (app, result), ()),
    ensures
        result is Ok ==> final(app).spout_error is None && *old(app) == (App {
            spout_error: old(app).spout_error,
            ..*final(app)
        }),
        result matches Err(e) ==> {
            &&& final(app).spout_error == Some(e)
            &&& !final(app).spout_enabled
            &&& final(app).spout is None
            &&& *old(app) == (App {
                spout_error: old(app).spout_error,
                spout_enabled: old(app).spout_enabled,
                spout: old(app).spout,
                ..*final(app)
            })
        },
{
}

/// A picture goes only into a camera of its own size, which is opened anew where
/// the size has changed.
pub proof fn law_camera_follows_the_size(
    app: &mut App,
    supported: bool,
    w: u32,
    h: u32,
    step: CamStep,
)
    requires
        call_ensures(App::vcam_step, (app, supported, w, h), step),
    ensures
        final(app).vcam is Some,
        old(app).vcam is Some ==> final(app).vcam == old(app).vcam,
        old(app).vcam is None ==> final(app).vcam.unwrap().camera is None && final(
            app).vcam.unwrap().supported == supported,
        !final(app).vcam.unwrap().supported <==> step == CamStep::Skip,
        final(app).vcam.unwrap().supported ==> {
            &&& step == CamStep::Send <==> final(app).vcam.unwrap().camera == Some((w, h))
            &&& step == CamStep::Open <==> final(app).vcam.unwrap().camera != Some((w, h))
        },
        *old(app) == (App { vcam: old(app).vcam, ..*final(app) }),
{
}

/// Once a camera is opened, pictures of its size are sent, and one of another size
/// opens another.
pub proof fn law_opened_camera_is_used(
    opened: &mut App,
    w: u32,
    h: u32,
    next: &mut App,
    supported: bool,
    nw: u32,
    nh: u32,
    step: CamStep,
)
    requires
        call_ensures(App::vcam_opened, (opened, w, h), ()),
        call_ensures(App::vcam_step, (next, supported, nw, nh), step),
        *old(next) == *final(opened),
        old(opened).vcam matches Some(out) && out.supported,
    ensures
        nw == w && nh == h ==> step == CamStep::Send,
        nw != w || nh != h ==> step == CamStep::Open,
        *old(opened) == (App { vcam: old(opened).vcam, ..*final(opened) }),
{
}

/// A failure to send to the camera switches it off and is kept; a success clears
/// the failure before it.
pub proof fn law_camera_stops_on_failure(app: &mut App, result: Result<(), String>)
    requires
        call_ensures(App::vcam_sent, (app, result), ()),
    ensures
        result is Ok ==> final(app).vcam_error is None && *old(app) == (App {
            vcam_error: old(app).vcam_error,
            ..*final(app)
        }),
        result matches Err(e) ==> {
            &&& final(app).vcam_error == Some(e)
            &&& !final(app).vcam_enabled
            &&& final(app).vcam is None
            &&& *old(app) == (App {
                vcam_error: old(app).vcam_error,
                vcam_enabled: old(app).vcam_enabled,
                vcam: old(app).vcam,
                ..*final(app)
            })
        },
{
}

/// A texture share makes its sender with the first picture and sends every other.
pub proof fn law_texture_share_steps(
    name: &str,
    supported: bool,
    out: SpoutOutput,
    first: SpoutStep,
    made: &mut SpoutOutput,
    second: SpoutStep,
)
    requires
        call_ensures(SpoutOutput::new, (name, supported), out),
        call_ensures(SpoutOutput::send, (&out,), first),
        call_ensures(SpoutOutput::on_created, (made,), ()),
        *old(made) == out,
        call_ensures(SpoutOutput::send, (&*final(made),), second),
    ensures
        out.name@ == name@,
        supported ==> first == SpoutStep::Create && second == SpoutStep::Send,
        !supported ==> first == SpoutStep::Skip && second == SpoutStep::Skip,
        final(made).name == out.name && final(made).supported == out.supported,
{
}

/// A camera is opened with the first picture, and sends those of the same size.
pub proof fn law_camera_steps(
    supported: bool,
    out: VirtualCamOutput,
    w: u32,
    h: u32,
    first: CamStep,
    opened: &mut VirtualCamOutput,
    nw: u32,
    nh: u32,
    second: CamStep,
)
    requires
        call_ensures(VirtualCamOutput::new, (supported,), out),
        call_ensures(VirtualCamOutput::send, (&out, w, h), first),
        call_ensures(VirtualCamOutput::on_opened, (opened, w, h), ()),
        *old(opened) == out,
        call_ensures(VirtualCamOutput::send, (&*final(opened), nw, nh), second),
    ensures
        !supported ==> first == CamStep::Skip && second == CamStep::Skip,
        supported ==> first == CamStep::Open,
        supported && nw == w && nh == h ==> second == CamStep::Send,
        supported && (nw != w || nh != h) ==> second == CamStep::Open,
{
}

/// A screenshot is told by where it was saved or why it was not, and only where
/// there is a frame to save.
pub proof fn law_screenshots_are_told(app: &mut App, saved: Result<String, String>)
    requires
        call_ensures(App::take_screenshot, (app, saved), ()),
    ensures
        old(app).last_frame is None ==> *final(app) == *old(app),
        old(app).last_frame is Some && saved is Ok ==> (final(app).capture_msg matches Some(m)
            && m@ == "📷 Saved "@ + saved->Ok_0@),
        old(app).last_frame is Some && saved is Err ==> (final(app).capture_msg matches Some(m)
            && m@ == "Screenshot failed: "@ + saved->Err_0@),
        *old(app) == (App { capture_msg: old(app).capture_msg, ..*final(app) }),
{
}

/// The record button stops what is being recorded, and begins where nothing is;
/// while nothing is streamed it does nothing.
pub proof fn law_record_button_turns_over(
    app: &mut App,
    panel: bool,
    flat: bool,
    ask: ToggleRecording,
)
    requires
        call_ensures(App::toggle_recording, (app, panel, flat), ask),
    ensures
        ({
            let panel_on = old(app).stream is Some;
            let flat_on = old(app).flat is Some;
            let records = panel_on && panel || flat_on && flat;
            &&& !panel_on && !flat_on ==> ask == ToggleRecording::Nothing
            &&& records ==> ask == (ToggleRecording::Stop { panel: panel_on, flat: flat_on })
            &&& records ==> (final(app).capture_msg matches Some(m) && m@ == "⏹ Recording saved."@)
            &&& (panel_on || flat_on) && !records ==> ask == ToggleRecording::Begin
            &&& !records ==> *final(app) == *old(app)
        }),
        *old(app) == (App { capture_msg: old(app).capture_msg, ..*final(app) }),
{
}

/// What is recorded is what is on screen: the flat view, or the panel stream
/// through the view that is set. Without a path nothing is.
pub proof fn law_recordings_are_of_what_is_shown(
    app: &mut App,
    path: Result<String, String>,
    what: BeginRecording,
)
    requires
        call_ensures(App::begin_recording, (app, path), what),
    ensures
        path is Err ==> what == BeginRecording::Nothing,
        path is Ok && old(app).flat is Some ==> what == BeginRecording::Flat,
        path is Ok && old(app).flat is None && old(app).stream is Some ==> (what matches
            BeginRecording::Panel(view) && is_set_view(view, *old(app))),
        old(app).flat is None && old(app).stream is None ==> what == BeginRecording::Nothing,
        path is Ok ==> (final(app).capture_msg matches Some(m) && m@ == "⏺ Recording to "@
            + path->Ok_0@),
        path is Err ==> (final(app).capture_msg matches Some(m) && m@ == "Record failed: "@
            + path->Err_0@),
        *old(app) == (App { capture_msg: old(app).capture_msg, ..*final(app) }),
{
}

} // verus!
