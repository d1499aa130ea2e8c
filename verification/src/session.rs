//! One run of the stream: what the stream thread does next after each thing
//! that happens to it. The thread itself pushes and starts the device-side
//! server, connects, decodes and encodes, and reports back here.

use crate::stream::{elapsed, elapsed_ns, FrameSlot, Rate, RecordCmd, ServerOptions, Status};
use crate::view::{even_extent, output_dims, untouched_view, ViewParams};
use crate::warp::{renderable, rendered, samples_view, warp_to_bgra, Frame, RemapCache};
use vstd::prelude::*;

verus! {

/// How long a telemetry window is at least.
pub const WINDOW_NS: u64 = 500_000_000;

/// The size that is taken for the stream where it has not told its own.
pub const DEFAULT_WIDTH: u32 = 1920;
pub const DEFAULT_HEIGHT: u32 = 1088;

/// How far a run of the stream has come.
#[derive(Clone, Copy, Debug, PartialEq, Eq, Structural)]
pub enum RunPhase {
    PushServer,
    Forward,
    StartServer,
    Stream,
    Over,
}

/// What to do after a step of a run.
pub enum RunAction {
    Forward,
    StartServer(ServerOptions),
    Stream,
    /// Stop the server, remove the forward and show that the stream has stopped;
    /// the run ends with this result.
    TearDown(Result<(), String>),
    /// End the run with this error.
    Abort(String),
}

/// A run of the stream.
pub struct Run {
    pub phase: RunPhase,
    pub opts: ServerOptions,
}

impl Run {
    /// A run begins with pushing the server.
    pub fn new(opts: ServerOptions) -> (run: Run)
        ensures
            run.phase == RunPhase::PushServer,
            run.opts == opts,
    {
        Run { phase: RunPhase::PushServer, opts }
    }

    /// What follows a step, given how it ended: the next step, or the end. Once
    /// the server has been started it is always stopped again.
    pub open spec fn follow_up(self, outcome: Result<(), String>) -> RunAction {
        match (self.phase, outcome) {
            (RunPhase::Stream, r) => RunAction::TearDown(r),
            (_, Err(e)) => RunAction::Abort(e),
            (RunPhase::PushServer, Ok(_)) => RunAction::Forward,
            (RunPhase::Forward, Ok(_)) => RunAction::StartServer(self.opts),
            _ => RunAction::Stream,
        }
    }

    /// How far the run has come after a step.
    pub open spec fn next_phase(self, ok: bool) -> RunPhase {
        match (self.phase, ok) {
            (RunPhase::PushServer, true) => RunPhase::Forward,
            (RunPhase::Forward, true) => RunPhase::StartServer,
            (RunPhase::StartServer, true) => RunPhase::Stream,
            _ => RunPhase::Over,
        }
    }

    /// Goes on after a step that ended with `outcome`.
    pub fn advance(&mut self, outcome: Result<(), String>) -> (action: RunAction)
        requires
            old(self).phase != RunPhase::Over,
        ensures
            action == old(self).follow_up(outcome),
            *final(self) == (Run { phase: old(self).next_phase(outcome is Ok), ..*old(self) }),
    {
        match self.phase {
            RunPhase::Stream => {
                self.phase = RunPhase::Over;
                RunAction::TearDown(outcome)
            },
            RunPhase::PushServer => match outcome {
                Ok(_) => {
                    self.phase = RunPhase::Forward;
                    RunAction::Forward
                },
                Err(e) => {
                    self.phase = RunPhase::Over;
                    RunAction::Abort(e)
                },
            },
            RunPhase::Forward => match outcome {
                Ok(_) => {
                    self.phase = RunPhase::StartServer;
                    RunAction::StartServer(self.opts)
                },
                Err(e) => {
                    self.phase = RunPhase::Over;
                    RunAction::Abort(e)
                },
            },
            _ => match outcome {
                Ok(_) => {
                    self.phase = RunPhase::Stream;
                    RunAction::Stream
                },
                Err(e) => {
                    self.phase = RunPhase::Over;
                    RunAction::Abort(e)
                },
            },
        }
    }
}

/// A server that was started is stopped again: its run goes on to stream, and
/// however streaming ends, the device side is torn down and the run ends so.
pub proof fn law_started_server_is_stopped(
    run: Run,
    started: Result<(), String>,
    streamed: Result<(), String>,
)
    requires
        run.phase == RunPhase::StartServer,
        started is Ok,
    ensures
        run.follow_up(started) is Stream,
        ({
            let streaming = Run { phase: run.next_phase(true), ..run };
            streaming.follow_up(streamed) == RunAction::TearDown(streamed)
        }),
{
}

/// A recording that waits for the first frame, from which its size is taken.
pub struct PendingRecord<P> {
    pub path: P,
    pub view: ViewParams,
}

/// How the reading of the stream ends after an error.
#[derive(Clone, Copy, Debug, PartialEq, Eq, Structural)]
pub enum ReadEnd {
    /// The stream was stopped: leave in order.
    Leave,
    /// The stream has dropped: the error is the result of the run.
    Fail,
}

/// The state of the stream thread while it streams. The clip is encoded from the
/// processed (cropped, lens-flattened, turned) view, so that it matches what is
/// on screen.
pub struct Session<P> {
    pub has_decoder: bool,
    pub sess_w: u32,
    pub sess_h: u32,
    pub frame_w: u32,
    pub frame_h: u32,
    pub frames_since: u32,
    pub last_tick: u64,
    pub decode_us_since: u64,
    pub last_decode_us: u64,
    pub last_decode_frames: u32,
    /// The size of the clip that is being recorded.
    pub clip: Option<(u32, u32)>,
    pub rec_params: ViewParams,
    pub pending_record: Option<PendingRecord<P>>,
    /// What is shown of the recording.
    pub recording: bool,
}

/// What can happen to a session.
pub enum Happening<P> {
    /// A recording command came in.
    Command(RecordCmd<P>),
    /// The stream told its size.
    Resolution(u32, u32),
    /// A packet came in.
    Packet,
    /// A decoder was made.
    DecoderReady,
    /// The decoder took that many microseconds for a packet.
    Decoded(u64),
    /// The decoder gave a frame of that size.
    Frame(u32, u32),
    /// The encoder of a clip was made, for a crop of that size.
    ClipOpened(u32, u32),
    /// The encoder failed.
    WriteFailed,
    /// The frame was published.
    Published,
    /// The clock was read after a packet.
    Ticked(u64),
    /// The stream ended in order.
    Finished,
}

/// The larger of two extents.
pub open spec fn larger(a: u32, b: u32) -> u32 {
    if a > b {
        a
    } else {
        b
    }
}

impl<P> Session<P> {
    /// A clip that is being recorded is shown as a recording and has an even
    /// size, and a recording that waits is of the view that is to be recorded.
    pub open spec fn wf(&self) -> bool {
        &&& self.clip matches Some(dims) ==> {
            &&& self.recording
            &&& dims.0 >= 2 && dims.0 % 2 == 0
            &&& dims.1 >= 2 && dims.1 % 2 == 0
        }
        &&& self.pending_record matches Some(pending) ==> pending.view == self.rec_params
    }

    /// Whether the stream's size calls for a new decoder.
    pub open spec fn needs_decoder(&self, width: u32, height: u32) -> bool {
        !self.has_decoder || width != self.sess_w || height != self.sess_h
    }

    /// The telemetry of the window that ends at `now`.
    pub open spec fn rate_at(&self, now: u64) -> Rate {
        Rate {
            frames: self.frames_since,
            window_ns: elapsed(now, self.last_tick) as u64,
            decode_us: if self.frames_since > 0 {
                self.decode_us_since
            } else {
                self.last_decode_us
            },
            decode_frames: if self.frames_since > 0 {
                self.frames_since
            } else {
                self.last_decode_frames
            },
        }
    }

    /// The session after something has happened to it.
    pub open spec fn after(self, h: Happening<P>) -> Session<P> {
        match h {
            Happening::Command(RecordCmd::Start(path, view)) => Session {
                clip: None,
                pending_record: Some(PendingRecord { path, view }),
                rec_params: view,
                ..self
            },
            Happening::Command(RecordCmd::Stop) => Session {
                clip: None,
                pending_record: None,
                recording: false,
                ..self
            },
            Happening::Resolution(w, h) => if self.needs_decoder(w, h) {
                Session { sess_w: w, sess_h: h, ..self }
            } else {
                self
            },
            Happening::Packet => if self.has_decoder {
                self
            } else {
                Session {
                    sess_w: if self.sess_w > 0 {
                        self.sess_w
                    } else {
                        DEFAULT_WIDTH
                    },
                    sess_h: if self.sess_h > 0 {
                        self.sess_h
                    } else {
                        DEFAULT_HEIGHT
                    },
                    ..self
                }
            },
            Happening::DecoderReady => Session { has_decoder: true, ..self },
            Happening::Decoded(us) => Session {
                decode_us_since: (self.decode_us_since + us) as u64,
                ..self
            },
            Happening::Frame(w, h) => Session {
                frame_w: w,
                frame_h: h,
                pending_record: None,
                ..self
            },
            Happening::ClipOpened(w, h) => Session {
                clip: Some((even_extent(w) as u32, even_extent(h) as u32)),
                recording: true,
                ..self
            },
            Happening::WriteFailed => Session { clip: None, recording: false, ..self },
            Happening::Published => Session {
                frames_since: (self.frames_since + 1) as u32,
                ..self
            },
            Happening::Ticked(now) => if elapsed(now, self.last_tick) >= WINDOW_NS {
                Session {
                    frames_since: 0,
                    decode_us_since: 0,
                    last_tick: now,
                    last_decode_us: self.rate_at(now).decode_us,
                    last_decode_frames: self.rate_at(now).decode_frames,
                    ..self
                }
            } else {
                self
            },
            Happening::Finished => Session { clip: None, recording: false, ..self },
        }
    }

    /// The session after some things have happened to it, one after the other.
    pub open spec fn after_all(self, hs: Seq<Happening<P>>) -> Session<P>
        decreases hs.len(),
    {
        if hs.len() == 0 {
            self
        } else {
            self.after_all(hs.drop_last()).after(hs.last())
        }
    }

    /// A session that begins at `now`; `recording` is what is shown of the
    /// recording at that time.
    pub fn new(now: u64, recording: bool) -> (s: Session<P>)
        ensures
            s.wf(),
            !s.has_decoder,
            s.sess_w == 0 && s.sess_h == 0,
            s.frame_w == 0 && s.frame_h == 0,
            s.frames_since == 0 && s.decode_us_since == 0,
            s.last_decode_us == 0 && s.last_decode_frames == 0,
            s.last_tick == now,
            s.clip is None,
            s.pending_record is None,
            s.rec_params == untouched_view(),
            s.recording == recording,
    {
        Session {
            has_decoder: false,
            sess_w: 0,
            sess_h: 0,
            frame_w: 0,
            frame_h: 0,
            frames_since: 0,
            last_tick: now,
            decode_us_since: 0,
            last_decode_us: 0,
            last_decode_frames: 0,
            clip: None,
            rec_params: ViewParams::default(),
            pending_record: None,
            recording,
        }
    }

    /// Takes a recording command. The result tells whether there is a clip to
    /// finish first. A new recording is only armed: its encoder is made with the
    /// next decoded frame, when the size to crop from is known.
    pub fn on_command(&mut self, cmd: RecordCmd<P>) -> (finish_clip: bool)
        requires
            old(self).wf(),
        ensures
            final(self).wf(),
            *final(self) == old(self).after(Happening::Command(cmd)),
            finish_clip == (old(self).clip is Some),
    {
        let finish_clip = self.clip.is_some();
        self.clip = None;
        match cmd {
            RecordCmd::Start(path, view) => {
                self.pending_record = Some(PendingRecord { path, view });
                self.rec_params = view;
            },
            RecordCmd::Stop => {
                self.pending_record = None;
                self.recording = false;
            },
        }
        finish_clip
    }

    /// Takes a failure to read the stream.
    pub fn on_read_error(&self, stopped: bool) -> (end: ReadEnd)
        ensures
            end == (if stopped {
                ReadEnd::Leave
            } else {
                ReadEnd::Fail
            }),
    {
        if stopped {
            ReadEnd::Leave
        } else {
            ReadEnd::Fail
        }
    }

    /// Takes the stream's size. Where a new decoder is called for, the result is
    /// the size to make it for.
    pub fn on_resolution(&mut self, width: u32, height: u32) -> (make: Option<(u32, u32)>)
        requires
            old(self).wf(),
        ensures
            final(self).wf(),
            *final(self) == old(self).after(Happening::Resolution(width, height)),
            make == (if old(self).needs_decoder(width, height) {
                Some((larger(width, 1), larger(height, 1)))
            } else {
                None
            }),
    {
        if !self.has_decoder || width != self.sess_w || height != self.sess_h {
            self.sess_w = width;
            self.sess_h = height;
            let w: u32 = if width > 1 {
                width
            } else {
                1
            };
            let h: u32 = if height > 1 {
                height
            } else {
                1
            };
            Some((w, h))
        } else {
            None
        }
    }

    /// What is shown once a decoder has been made for the stream's size.
    pub fn resolution_status(&self) -> (status: Status)
        ensures
            status == (Status::Streaming {
                width: self.sess_w,
                height: self.sess_h,
                rate: Rate { frames: 0, window_ns: 0, decode_us: 0, decode_frames: 0 },
            }),
    {
        Status::Streaming {
            width: self.sess_w,
            height: self.sess_h,
            rate: Rate { frames: 0, window_ns: 0, decode_us: 0, decode_frames: 0 },
        }
    }

    /// Takes a packet. Where there is no decoder yet, the result is the size to
    /// make one for.
    pub fn on_packet(&mut self) -> (make: Option<(u32, u32)>)
        requires
            old(self).wf(),
        ensures
            final(self).wf(),
            *final(self) == old(self).after(Happening::Packet),
            make == (if old(self).has_decoder {
                None
            } else {
                Some((final(self).sess_w, final(self).sess_h))
            }),
    {
        if self.has_decoder {
            return None;
        }
        if self.sess_w == 0 {
            self.sess_w = DEFAULT_WIDTH;
        }
        if self.sess_h == 0 {
            self.sess_h = DEFAULT_HEIGHT;
        }
        Some((self.sess_w, self.sess_h))
    }

    /// A decoder has been made.
    pub fn on_decoder_ready(&mut self)
        requires
            old(self).wf(),
        ensures
            final(self).wf(),
            *final(self) == old(self).after(Happening::DecoderReady),
    {
        self.has_decoder = true;
    }

    /// The decoder took `us` microseconds for a packet.
    pub fn on_decoded(&mut self, us: u64)
        requires
            old(self).wf(),
            old(self).decode_us_since + us <= u64::MAX,
        ensures
            final(self).wf(),
            *final(self) == old(self).after(Happening::Decoded(us)),
    {
        self.decode_us_since = self.decode_us_since + us;
    }

    /// The decoder gave a frame. Where a recording waits for it, the result is
    /// that recording: its encoder is to be made now.
    pub fn on_frame(&mut self, width: u32, height: u32) -> (open: Option<PendingRecord<P>>)
        requires
            old(self).wf(),
        ensures
            final(self).wf(),
            *final(self) == old(self).after(Happening::Frame(width, height)),
            open == old(self).pending_record,
            open matches Some(pending) ==> pending.view == final(self).rec_params,
    {
        self.frame_w = width;
        self.frame_h = height;
        self.pending_record.take()
    }

    /// The encoder of a clip has been made, for a view that crops `crop_w` by
    /// `crop_h` pixels out of the frame.
    pub fn on_clip_opened(&mut self, crop_w: u32, crop_h: u32)
        requires
            old(self).wf(),
        ensures
            final(self).wf(),
            *final(self) == old(self).after(Happening::ClipOpened(crop_w, crop_h)),
    {
        self.clip = Some(output_dims(crop_w, crop_h));
        self.recording = true;
    }

    /// The picture of a frame for the clip that is being recorded, if one is.
    pub fn clip_picture<F: Fn(usize, usize, u32, u32) -> (usize, usize) + Sync>(
        &self,
        cache: &mut RemapCache,
        frame: &Frame,
        sample: &F,
    ) -> (picture: Option<Vec<u8>>)
        requires
            old(cache).wf(),
            self.clip matches Some(dims) ==> {
                &&& renderable(*frame, self.rec_params, dims.0, dims.1, true)
                &&& samples_view(*sample, self.rec_params, dims.0, dims.1)
            },
        ensures
            final(cache).wf(),
            match self.clip {
                Some(dims) => picture matches Some(bytes) && rendered(
                    *old(cache),
                    *final(cache),
                    *frame,
                    self.rec_params,
                    dims.0,
                    dims.1,
                    true,
                    *sample,
                    bytes@,
                ),
                None => picture is None && *final(cache) == *old(cache),
            },
    {
        match self.clip {
            Some((w, h)) => Some(warp_to_bgra(cache, frame, &self.rec_params, w, h, sample)),
            None => None,
        }
    }

    /// The encoder failed: the clip is to be finished as it is.
    pub fn on_write_failed(&mut self)
        requires
            old(self).wf(),
        ensures
            final(self).wf(),
            *final(self) == old(self).after(Happening::WriteFailed),
    {
        self.clip = None;
        self.recording = false;
    }

    /// Publishes the frame.
    pub fn publish(&mut self, slot: &mut FrameSlot, frame: Frame)
        requires
            old(self).wf(),
            old(self).frames_since < u32::MAX,
        ensures
            final(self).wf(),
            *final(self) == old(self).after(Happening::Published),
            *final(slot) == old(slot).published(frame),
    {
        slot.publish(frame);
        self.frames_since = self.frames_since + 1;
    }

    /// Reads the clock after a packet. At the end of a telemetry window the
    /// result is what is to be shown.
    pub fn tick(&mut self, now: u64) -> (status: Option<Status>)
        requires
            old(self).wf(),
        ensures
            final(self).wf(),
            *final(self) == old(self).after(Happening::Ticked(now)),
            status == (if elapsed(now, old(self).last_tick) >= WINDOW_NS {
                Some(
                    Status::Streaming {
                        width: larger(old(self).frame_w, old(self).sess_w),
                        height: larger(old(self).frame_h, old(self).sess_h),
                        rate: old(self).rate_at(now),
                    },
                )
            } else {
                None
            }),
    {
        let window_ns: u64 = elapsed_ns(now, self.last_tick);
        if window_ns < WINDOW_NS {
            return None;
        }
        let frames: u32 = self.frames_since;
        if frames > 0 {
            self.last_decode_us = self.decode_us_since;
            self.last_decode_frames = frames;
        }
        self.frames_since = 0;
        self.decode_us_since = 0;
        self.last_tick = now;
        let width: u32 = if self.frame_w > self.sess_w {
            self.frame_w
        } else {
            self.sess_w
        };
        let height: u32 = if self.frame_h > self.sess_h {
            self.frame_h
        } else {
            self.sess_h
        };
        Some(
            Status::Streaming {
                width,
                height,
                rate: Rate {
                    frames,
                    window_ns,
                    decode_us: self.last_decode_us,
                    decode_frames: self.last_decode_frames,
                },
            },
        )
    }

    /// Ends the session in order. The result tells whether there is a clip to
    /// finish.
    pub fn finish(&mut self) -> (finish_clip: bool)
        requires
            old(self).wf(),
        ensures
            final(self).wf(),
            *final(self) == old(self).after(Happening::Finished),
            finish_clip == (old(self).clip is Some),
    {
        let finish_clip = self.clip.is_some();
        self.clip = None;
        self.recording = false;
        finish_clip
    }
}

/// The view of the last recording that was started.
pub open spec fn last_started<P>(hs: Seq<Happening<P>>) -> Option<ViewParams>
    decreases hs.len(),
{
    if hs.len() == 0 {
        None
    } else {
        match hs.last() {
            Happening::Command(RecordCmd::Start(_, view)) => Some(view),
            _ => last_started(hs.drop_last()),
        }
    }
}

/// The view that a session records is the one with which the last recording was
/// started, whatever happened since.
pub proof fn law_recorded_view_is_the_started_one<P>(s: Session<P>, hs: Seq<Happening<P>>)
    ensures
        match last_started(hs) {
            Some(view) => s.after_all(hs).rec_params == view,
            None => s.after_all(hs).rec_params == s.rec_params,
        },
    decreases hs.len(),
{
    if hs.len() > 0 {
        law_recorded_view_is_the_started_one(s, hs.drop_last());
    }
}

/// Whatever happens, a clip that is being recorded is shown as a recording and
/// has an even size.
pub proof fn law_sessions_stay_well_formed<P>(s: Session<P>, hs: Seq<Happening<P>>)
    requires
        s.wf(),
    ensures
        s.after_all(hs).wf(),
    decreases hs.len(),
{
    if hs.len() > 0 {
        law_sessions_stay_well_formed(s, hs.drop_last());
    }
}

/// Whether nothing among what happened starts a recording or opens a clip.
pub open spec fn starts_nothing<P>(hs: Seq<Happening<P>>) -> bool {
    forall|i: int|
        0 <= i < hs.len() ==> !(#[trigger] hs[i] is ClipOpened) && !(hs[i] matches
            Happening::Command(cmd) && cmd is Start)
}

/// After a recording was stopped nothing is recorded, and nothing is shown as a
/// recording, until another one is started.
pub proof fn law_stopped_recording_stays_stopped<P>(s: Session<P>, hs: Seq<Happening<P>>)
    requires
        starts_nothing(hs),
    ensures
        ({
            let later = s.after(Happening::Command(RecordCmd::Stop)).after_all(hs);
            later.clip is None && later.pending_record is None && !later.recording
        }),
    decreases hs.len(),
{
    if hs.len() > 0 {
        let rest = hs.drop_last();
        assert forall|i: int| 0 <= i < rest.len() implies !(#[trigger] rest[i] is ClipOpened)
            && !(rest[i] matches Happening::Command(cmd) && cmd is Start) by {
            assert(rest[i] == hs[i]);
        }
        law_stopped_recording_stays_stopped(s, rest);
        assert(hs[hs.len() - 1] == hs.last());
    }
}

} // verus!
