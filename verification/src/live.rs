//! What is made of the frames: the texture on screen, the live outputs,
//! screenshots and recordings.

use crate::app::App;
use crate::outputs::{CamStep, SpoutOutput, SpoutStep, VirtualCamOutput};
use crate::session::{Happening, Session};
use crate::stream::{FrameSlot, RecordCmd};
use crate::text::joined;
use crate::view::{even_extent, output_dims, untouched_view, ViewParams};
use crate::warp::{
    law_unchanged_view_is_lossless, renderable, rendered, samples_view, warp_to_bgra, warp_to_rgba,
    Frame, RemapCache,
};
use vstd::prelude::*;
use vstd::string::*;

verus! {

/// Where frames come from.
#[derive(Clone, Copy, Debug, PartialEq, Eq, Structural)]
pub enum Source {
    Flat,
    Panel,
}

/// What to do with the texture.
#[derive(Clone, Copy, Debug, PartialEq, Eq, Structural)]
pub enum TextureUpdate {
    /// Make a texture of the frame.
    Create,
    /// Put the frame into the texture that there is.
    Replace,
}

/// The pictures for the live outputs that are switched on.
pub struct LivePictures {
    pub width: u32,
    pub height: u32,
    pub bgra: Option<Vec<u8>>,
    pub rgba: Option<Vec<u8>>,
}

/// What a press of the record button asks for.
#[derive(Clone, Copy, Debug, PartialEq, Eq, Structural)]
pub enum ToggleRecording {
    /// Nothing: nothing is streamed.
    Nothing,
    /// Stop the recordings of what is streamed.
    Stop { panel: bool, flat: bool },
    /// Find a path to record to.
    Begin,
}

/// What to record.
#[derive(Clone, Copy, Debug, PartialEq, Eq, Structural)]
pub enum BeginRecording {
    Nothing,
    Flat,
    Panel(ViewParams),
}

impl App {
    /// Where the frames on screen come from.
    pub open spec fn source(&self) -> Option<Source> {
        if self.flat is Some {
            Some(Source::Flat)
        } else if self.stream is Some {
            Some(Source::Panel)
        } else {
            None
        }
    }

    /// Where the frames on screen come from: the flat view comes first.
    pub fn frame_source(&self) -> (source: Option<Source>)
        ensures
            source == self.source(),
    {
        if self.flat.is_some() {
            Some(Source::Flat)
        } else if self.stream.is_some() {
            Some(Source::Panel)
        } else {
            None
        }
    }

    /// Takes the frame from the slot, where there is one that has not been shown
    /// yet. The result tells what to do with the texture; the frame is then in
    /// [`App::last_frame`].
    pub fn sync_texture(&mut self, slot: &mut FrameSlot) -> (update: Option<TextureUpdate>)
        ensures
            *final(slot) == old(slot).taken_by(old(self).last_generation),
            match old(slot).newer_than(old(self).last_generation) {
                Some(frame) => {
                    &&& update == Some(
                        if old(self).has_texture {
                            TextureUpdate::Replace
                        } else {
                            TextureUpdate::Create
                        },
                    )
                    &&& *final(self) == (App {
                        last_generation: old(slot).generation,
                        tex_size: (frame.width, frame.height),
                        has_texture: true,
                        last_frame: Some(frame),
                        ..*old(self)
                    })
                },
                None => update is None && *final(self) == *old(self),
            },
    {
        let generation: u64 = slot.generation;
        match slot.take_newer(self.last_generation) {
            Some(frame) => {
                self.last_generation = generation;
                self.tex_size = (frame.width, frame.height);
                let update = if self.has_texture {
                    TextureUpdate::Replace
                } else {
                    TextureUpdate::Create
                };
                self.has_texture = true;
                self.last_frame = Some(frame);
                Some(update)
            },
            None => None,
        }
    }

    /// The view and size of a live picture, of a frame of `frame_w` by `frame_h`
    /// pixels out of which the view crops `crop_w` by `crop_h`.
    pub open spec fn live(&self, frame_w: u32, frame_h: u32, crop_w: u32, crop_h: u32) -> (
        ViewParams,
        u32,
        u32,
    ) {
        if self.flat is Some {
            (untouched_view(), frame_w, frame_h)
        } else {
            (self.view(), even_extent(crop_w) as u32, even_extent(crop_h) as u32)
        }
    }

    /// The view that is on screen.
    pub fn view_params(&self) -> (view: ViewParams)
        ensures
            view == self.view(),
    {
        ViewParams {
            uv: self.uv,
            lens_correct: self.lens_correct,
            k1: self.lens_k1,
            k2: self.lens_k2,
            rotation_deg: self.rotation_deg,
        }
    }

    /// The view and size of a live picture.
    pub fn live_view(&self, frame_w: u32, frame_h: u32, crop_w: u32, crop_h: u32) -> (live: (
        ViewParams,
        u32,
        u32,
    ))
        ensures
            live == self.live(frame_w, frame_h, crop_w, crop_h),
    {
        if self.flat.is_some() {
            (ViewParams::default(), frame_w, frame_h)
        } else {
            let (w, h) = output_dims(crop_w, crop_h);
            (self.view_params(), w, h)
        }
    }

    /// Renders the last frame for the live outputs that are switched on, where
    /// there is a frame and any of them is. The view crops `crop_w` by `crop_h`
    /// pixels out of the frame.
    pub fn push_live_outputs<F: Fn(usize, usize, u32, u32) -> (usize, usize) + Sync>(
        &self,
        cache: &mut RemapCache,
        crop_w: u32,
        crop_h: u32,
        sample: &F,
    ) -> (pictures: Option<LivePictures>)
        requires
            old(cache).wf(),
            self.last_frame matches Some(frame) ==> {
                let (view, w, h) = self.live(frame.width, frame.height, crop_w, crop_h);
                &&& self.spout_enabled ==> renderable(frame, view, w, h, true)
                &&& self.vcam_enabled ==> renderable(frame, view, w, h, false)
                &&& self.spout_enabled || self.vcam_enabled ==> samples_view(*sample, view, w, h)
            },
        ensures
            final(cache).wf(),
            pictures is Some <==> self.last_frame is Some && (self.spout_enabled
                || self.vcam_enabled),
            pictures is None ==> *final(cache) == *old(cache),
            pictures matches Some(p) ==> {
                let frame = self.last_frame.unwrap();
                let (view, w, h) = self.live(frame.width, frame.height, crop_w, crop_h);
                &&& p.width == w
                &&& p.height == h
                &&& p.bgra is Some <==> self.spout_enabled
                &&& p.rgba is Some <==> self.vcam_enabled
                &&& p.bgra matches Some(bytes) ==> rendered(
                    *old(cache),
                    *final(cache),
                    frame,
                    view,
                    w,
                    h,
                    true,
                    *sample,
                    bytes@,
                )
                &&& p.rgba matches Some(bytes) ==> rendered(
                    if self.spout_enabled {
                        *final(cache)
                    } else {
                        *old(cache)
                    },
                    *final(cache),
                    frame,
                    view,
                    w,
                    h,
                    false,
                    *sample,
                    bytes@,
                )
            },
    {
        if !self.spout_enabled && !self.vcam_enabled {
            return None;
        }
        match &self.last_frame {
            None => None,
            Some(frame) => {
                let (view, w, h) = self.live_view(frame.width, frame.height, crop_w, crop_h);
                let bgra = if self.spout_enabled {
                    Some(warp_to_bgra(cache, frame, &view, w, h, sample))
                } else {
                    None
                };
                let rgba = if self.vcam_enabled {
                    Some(warp_to_rgba(cache, frame, &view, w, h, sample))
                } else {
                    None
                };
                Some(LivePictures { width: w, height: h, bgra, rgba })
            },
        }
    }

    /// Switches the texture share on or off.
    pub fn toggle_spout(&mut self)
        ensures
            *final(self) == (App {
                spout_enabled: !old(self).spout_enabled,
                spout: if old(self).spout_enabled {
                    None
                } else {
                    old(self).spout
                },
                spout_error: None,
                ..*old(self)
            }),
    {
        self.spout_enabled = !self.spout_enabled;
        if !self.spout_enabled {
            self.spout = None;
        }
        self.spout_error = None;
    }

    /// Switches the virtual camera on or off.
    pub fn toggle_vcam(&mut self)
        ensures
            *final(self) == (App {
                vcam_enabled: !old(self).vcam_enabled,
                vcam: if old(self).vcam_enabled {
                    None
                } else {
                    old(self).vcam
                },
                vcam_error: None,
                ..*old(self)
            }),
    {
        self.vcam_enabled = !self.vcam_enabled;
        if !self.vcam_enabled {
            self.vcam = None;
        }
        self.vcam_error = None;
    }

    /// What to do to send a picture to the texture share, which comes to be with
    /// the first picture.
    pub fn spout_step(&mut self, supported: bool) -> (step: SpoutStep)
        ensures
            *final(self) == (App { spout: final(self).spout, ..*old(self) }),
            final(self).spout matches Some(out) && {
                &&& old(self).spout is Some ==> final(self).spout == old(self).spout
                &&& old(self).spout is None ==> out.name@ == "Quest scrcpy"@ && out.supported
                    == supported && !out.open
                &&& step == out.step()
            },
    {
        if self.spout.is_none() {
            self.spout = Some(SpoutOutput::new("Quest scrcpy", supported));
        }
        match &self.spout {
            Some(out) => out.send(),
            None => SpoutStep::Skip,
        }
    }

    /// The sender of the texture share has been made.
    pub fn spout_created(&mut self)
        ensures
            *final(self) == (App {
                spout: match old(self).spout {
                    Some(out) => Some(SpoutOutput { open: true, ..out }),
                    None => None,
                },
                ..*old(self)
            }),
    {
        if let Some(out) = self.spout.take() {
            let mut out = out;
            out.on_created();
            self.spout = Some(out);
        }
    }

    /// Takes the end of sending a picture to the texture share. An error switches
    /// it off.
    pub fn spout_sent(&mut self, result: Result<(), String>)
        ensures
            match result {
                Ok(_) => *final(self) == (App { spout_error: None, ..*old(self) }),
                Err(e) => *final(self) == (App {
                    spout_error: Some(e),
                    spout_enabled: false,
                    spout: None,
                    ..*old(self)
                }),
            },
    {
        match result {
            Ok(_) => {
                self.spout_error = None;
            },
            Err(e) => {
                self.spout_error = Some(e);
                self.spout_enabled = false;
                self.spout = None;
            },
        }
    }

    /// What to do to send a picture of that size to the virtual camera, which
    /// comes to be with the first picture.
    pub fn vcam_step(&mut self, supported: bool, w: u32, h: u32) -> (step: CamStep)
        ensures
            *final(self) == (App { vcam: final(self).vcam, ..*old(self) }),
            final(self).vcam matches Some(out) && {
                &&& old(self).vcam is Some ==> final(self).vcam == old(self).vcam
                &&& old(self).vcam is None ==> out.camera is None && out.supported == supported
                &&& step == out.step(w, h)
            },
    {
        if self.vcam.is_none() {
            self.vcam = Some(VirtualCamOutput::new(supported));
        }
        match &self.vcam {
            Some(out) => out.send(w, h),
            None => CamStep::Skip,
        }
    }

    /// A camera of that size has been opened.
    pub fn vcam_opened(&mut self, w: u32, h: u32)
        ensures
            *final(self) == (App {
                vcam: match old(self).vcam {
                    Some(out) => Some(VirtualCamOutput { camera: Some((w, h)), ..out }),
                    None => None,
                },
                ..*old(self)
            }),
    {
        if let Some(out) = self.vcam.take() {
            let mut out = out;
            out.on_opened(w, h);
            self.vcam = Some(out);
        }
    }

    /// Takes the end of sending a picture to the virtual camera. An error
    /// switches it off.
    pub fn vcam_sent(&mut self, result: Result<(), String>)
        ensures
            match result {
                Ok(_) => *final(self) == (App { vcam_error: None, ..*old(self) }),
                Err(e) => *final(self) == (App {
                    vcam_error: Some(e),
                    vcam_enabled: false,
                    vcam: None,
                    ..*old(self)
                }),
            },
    {
        match result {
            Ok(_) => {
                self.vcam_error = None;
            },
            Err(e) => {
                self.vcam_error = Some(e);
                self.vcam_enabled = false;
                self.vcam = None;
            },
        }
    }

    /// Takes the end of a screenshot: where it was saved, or why it was not.
    pub fn take_screenshot(&mut self, saved: Result<String, String>)
        ensures
            old(self).last_frame is None ==> *final(self) == *old(self),
            old(self).last_frame is Some ==> {
                &&& *final(self) == (App { capture_msg: final(self).capture_msg, ..*old(self) })
                &&& final(self).capture_msg matches Some(m)
                &&& m@ == (match saved {
                    Ok(path) => "📷 Saved "@ + path@,
                    Err(e) => "Screenshot failed: "@ + e@,
                })
            },
    {
        if self.last_frame.is_none() {
            return ;
        }
        self.capture_msg = Some(
            match saved {
                Ok(path) => joined("📷 Saved ", path.as_str()),
                Err(e) => joined("Screenshot failed: ", e.as_str()),
            },
        );
    }

    /// Whether what is streamed is being recorded, given what the panel stream
    /// and the flat view say of themselves.
    pub open spec fn records(&self, panel_recording: bool, flat_recording: bool) -> bool {
        (self.stream is Some && panel_recording) || (self.flat is Some && flat_recording)
    }

    /// Takes a press of the record button.
    pub fn toggle_recording(&mut self, panel_recording: bool, flat_recording: bool) -> (ask:
        ToggleRecording)
        ensures
            if !old(self).is_live() {
                ask is Nothing && *final(self) == *old(self)
            } else if old(self).records(panel_recording, flat_recording) {
                &&& ask == (ToggleRecording::Stop {
                    panel: old(self).stream is Some,
                    flat: old(self).flat is Some,
                })
                &&& *final(self) == (App { capture_msg: final(self).capture_msg, ..*old(self) })
                &&& final(self).capture_msg matches Some(m)
                &&& m@ == "⏹ Recording saved."@
            } else {
                ask is Begin && *final(self) == *old(self)
            },
    {
        let panel = self.stream.is_some();
        let flat = self.flat.is_some();
        if !panel && !flat {
            return ToggleRecording::Nothing;
        }
        if (panel && panel_recording) || (flat && flat_recording) {
            self.capture_msg = Some("⏹ Recording saved.".to_owned());
            return ToggleRecording::Stop { panel, flat };
        }
        ToggleRecording::Begin
    }

    /// Takes the path to record to, or why there is none.
    pub fn begin_recording(&mut self, path: Result<String, String>) -> (what: BeginRecording)
        ensures
            *final(self) == (App { capture_msg: final(self).capture_msg, ..*old(self) }),
            final(self).capture_msg matches Some(m) && m@ == (match path {
                Ok(p) => "⏺ Recording to "@ + p@,
                Err(e) => "Record failed: "@ + e@,
            }),
            what == (match (path, old(self).source()) {
                (Ok(_), Some(Source::Flat)) => BeginRecording::Flat,
                (Ok(_), Some(Source::Panel)) => BeginRecording::Panel(old(self).view()),
                _ => BeginRecording::Nothing,
            }),
    {
        match path {
            Ok(p) => {
                self.capture_msg = Some(joined("⏺ Recording to ", p.as_str()));
                match self.frame_source() {
                    Some(Source::Flat) => BeginRecording::Flat,
                    Some(Source::Panel) => BeginRecording::Panel(self.view_params()),
                    None => BeginRecording::Nothing,
                }
            },
            Err(e) => {
                self.capture_msg = Some(joined("Record failed: ", e.as_str()));
                BeginRecording::Nothing
            },
        }
    }
}

/// A clip shows what the live outputs send: a recording that is started while a
/// panel stream is on screen is of the same view, at the same size.
pub proof fn law_recording_matches_live_output<P>(
    app: App,
    session: Session<P>,
    path: P,
    frame_w: u32,
    frame_h: u32,
    crop_w: u32,
    crop_h: u32,
)
    requires
        app.source() == Some(Source::Panel),
    ensures
        ({
            let rec = session.after(Happening::Command(RecordCmd::Start(path, app.view()))).after(
                Happening::Frame(frame_w, frame_h),
            ).after(Happening::ClipOpened(crop_w, crop_h));
            let (view, w, h) = app.live(frame_w, frame_h, crop_w, crop_h);
            rec.recording && rec.rec_params == view && rec.clip == Some((w, h))
        }),
{
}

/// The flat view goes out whole and as it is: neither the crop nor the lens nor
/// the tilt touches it. Pixel `k` of the picture has the red, green and blue of
/// pixel `k` of the frame, in the one channel order or the other, and full alpha.
pub proof fn law_flat_view_is_untouched<F: Fn(usize, usize, u32, u32) -> (usize, usize)>(
    app: App,
    before: RemapCache,
    after: RemapCache,
    frame: Frame,
    crop_w: u32,
    crop_h: u32,
    swap_rb: bool,
    sample: F,
    out: Seq<u8>,
    k: int,
)
    requires
        app.flat is Some,
        ({
            let (view, w, h) = app.live(frame.width, frame.height, crop_w, crop_h);
            rendered(before, after, frame, view, w, h, swap_rb, sample, out)
        }),
        frame.rgba@.len() >= frame.byte_len(),
    ensures
        out.len() == frame.width * frame.height * 4,
        after == before,
        0 <= k < frame.width * frame.height ==> {
            &&& out[4 * k] == frame.rgba@[if swap_rb { 4 * k + 2 } else { 4 * k }]
            &&& out[4 * k + 1] == frame.rgba@[4 * k + 1]
            &&& out[4 * k + 2] == frame.rgba@[if swap_rb { 4 * k } else { 4 * k + 2 }]
            &&& out[4 * k + 3] == 255
        },
{
    if !swap_rb {
        law_unchanged_view_is_lossless(before, after, frame, untouched_view(), sample, out, k);
    }
    assert(frame.width * frame.height >= 0) by (nonlinear_arith);
    assert((4 * k) / 4 == k && (4 * k + 1) / 4 == k && (4 * k + 2) / 4 == k && (4 * k + 3) / 4
        == k);
    assert((4 * k) % 4 == 0 && (4 * k + 1) % 4 == 1 && (4 * k + 2) % 4 == 2 && (4 * k + 3) % 4
        == 3);
}

} // verus!
