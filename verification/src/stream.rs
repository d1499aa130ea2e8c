//! A mirroring thread: what it is started with, what it shows, and when it
//! tries again after the stream has dropped.
//!
//! Times are nanoseconds on one clock that does not go back.

use crate::view::ViewParams;
use crate::warp::Frame;
use vstd::arithmetic::power2::pow2;
use vstd::prelude::*;

verus! {

/// The wait before the first reconnect.
pub const BASE_BACKOFF_MS: u64 = 2_000;

/// The longest wait before a reconnect.
pub const MAX_BACKOFF_MS: u64 = 12_000;

/// How long a wait goes on before the stop flag is looked at again.
pub const NAP_MS: u64 = 100;

/// A run of this length counts as one that went well.
pub const GOOD_RUN_NS: u64 = 8_000_000_000;

/// The port that is used where no free one can be found.
pub const FALLBACK_PORT: u16 = 27183;

/// What a stream is started with.
#[derive(Clone, Debug)]
pub struct StreamConfig {
    pub serial: String,
    pub display_id: u32,
    pub max_size: u32,
    pub video_bit_rate: u32,
    pub max_fps: u32,
    pub audio: bool,
    pub audio_bit_rate: u32,
    /// The output device to play audio through; empty for the system default.
    pub audio_output_device: String,
}

/// What the device-side server is started with.
#[derive(Clone, Copy, Debug, PartialEq, Eq, Structural)]
pub struct ServerOptions {
    pub display_id: u32,
    pub max_size: u32,
    pub video_bit_rate: u32,
    pub max_fps: u32,
    pub audio: bool,
    pub audio_bit_rate: u32,
}

/// Frame rate and decode time, as the counts that they are quotients of.
#[derive(Clone, Copy, Debug, PartialEq, Eq, Structural)]
pub struct Rate {
    /// Frames of the last window, and how long the window was.
    pub frames: u32,
    pub window_ns: u64,
    /// Decode time and frames of the last window that had frames.
    pub decode_us: u64,
    pub decode_frames: u32,
}

/// What a stream is doing.
#[derive(Clone, Debug)]
pub enum Status {
    Connecting,
    Streaming { width: u32, height: u32, rate: Rate },
    Error(String),
    Stopped,
}

/// Shared, latest-only frame slot: the decoder overwrites, the screen takes.
pub struct FrameSlot {
    pub frame: Option<Frame>,
    pub generation: u64,
}

/// A recording command. `Start` carries where to record to and the view to
/// capture.
pub enum RecordCmd<P> {
    Start(P, ViewParams),
    Stop,
}

/// The number after `generation`; after the last comes zero.
pub open spec fn next_generation(generation: u64) -> u64 {
    if generation == u64::MAX {
        0
    } else {
        (generation + 1) as u64
    }
}

impl Default for FrameSlot {
    fn default() -> (slot: FrameSlot)
        ensures
            slot.frame is None,
            slot.generation == 0,
    {
        FrameSlot { frame: None, generation: 0 }
    }
}

impl FrameSlot {
    /// The slot after a frame has been put into it.
    pub open spec fn published(self, frame: Frame) -> FrameSlot {
        FrameSlot { frame: Some(frame), generation: next_generation(self.generation) }
    }

    /// The slot after some frames have been put into it, one after the other.
    pub open spec fn published_all(self, frames: Seq<Frame>) -> FrameSlot
        decreases frames.len(),
    {
        if frames.len() == 0 {
            self
        } else {
            self.published_all(frames.drop_last()).published(frames.last())
        }
    }

    /// What a screen gets that has already shown generation `seen`.
    pub open spec fn newer_than(self, seen: u64) -> Option<Frame> {
        if self.generation == seen {
            None
        } else {
            self.frame
        }
    }

    /// The slot after such a screen has taken what it gets.
    pub open spec fn taken_by(self, seen: u64) -> FrameSlot {
        if self.generation == seen {
            self
        } else {
            FrameSlot { frame: None, generation: self.generation }
        }
    }

    /// Puts a frame in the place of whatever the slot held.
    pub fn publish(&mut self, frame: Frame)
        ensures
            *final(self) == old(self).published(frame),
    {
        self.frame = Some(frame);
        self.generation = if self.generation == u64::MAX {
            0
        } else {
            self.generation + 1
        };
    }

    /// Takes the frame, where there is one and it is not of generation `seen`.
    pub fn take_newer(&mut self, seen: u64) -> (frame: Option<Frame>)
        ensures
            frame == old(self).newer_than(seen),
            *final(self) == old(self).taken_by(seen),
    {
        if self.generation == seen {
            return None;
        }
        self.frame.take()
    }
}

/// Publishing counts the generations on.
proof fn lemma_generation_counts(slot: FrameSlot, frames: Seq<Frame>)
    ensures
        slot.published_all(frames).generation == (slot.generation + frames.len()) % (u64::MAX + 1),
    decreases frames.len(),
{
    if frames.len() > 0 {
        lemma_generation_counts(slot, frames.drop_last());
    }
}

/// A screen that was up to date gets the frame that was published last, whatever
/// was published before it, and having taken it gets nothing more.
pub proof fn law_latest_frame_wins(slot: FrameSlot, frames: Seq<Frame>)
    requires
        0 < frames.len() <= u64::MAX,
    ensures
        slot.published_all(frames).newer_than(slot.generation) == Some(frames.last()),
        slot.published_all(frames).taken_by(slot.generation).newer_than(
            slot.published_all(frames).generation,
        ) is None,
{
    lemma_generation_counts(slot, frames);
}

/// The options of the server for a stream.
pub fn server_options(cfg: &StreamConfig) -> (opts: ServerOptions)
    ensures
        opts.display_id == cfg.display_id,
        opts.max_size == cfg.max_size,
        opts.video_bit_rate == cfg.video_bit_rate,
        opts.max_fps == cfg.max_fps,
        opts.audio == cfg.audio,
        opts.audio_bit_rate == cfg.audio_bit_rate,
{
    ServerOptions {
        display_id: cfg.display_id,
        max_size: cfg.max_size,
        video_bit_rate: cfg.video_bit_rate,
        max_fps: cfg.max_fps,
        audio: cfg.audio,
        audio_bit_rate: cfg.audio_bit_rate,
    }
}

/// The port to forward: the one that the system gave, or a fixed one.
pub fn free_port(given: Option<u16>) -> (port: u16)
    ensures
        port == (match given {
            Some(p) => p,
            None => FALLBACK_PORT,
        }),
{
    match given {
        Some(p) => p,
        None => FALLBACK_PORT,
    }
}

/// How much time has passed; none, where the clock seems to have gone back.
pub open spec fn elapsed(now: u64, since: u64) -> int {
    if now > since {
        now - since
    } else {
        0
    }
}

/// How much time has passed.
pub fn elapsed_ns(now: u64, since: u64) -> (ns: u64)
    ensures
        ns == elapsed(now, since),
{
    if now > since {
        now - since
    } else {
        0
    }
}

/// What the stream thread does after a run of the stream has ended.
pub enum AfterRun {
    /// End the thread.
    Exit,
    /// Show the status and end the thread.
    GiveUp(Status),
    /// Show that the stream is connecting, wait, and run the stream again.
    Retry { wait_ms: u64 },
}

/// The reconnect policy: waits get longer while runs keep failing early, and are
/// short again after a run that went well.
pub struct Reconnect {
    pub backoff_ms: u64,
}

/// Twice the wait, up to the longest.
pub open spec fn doubled(backoff_ms: int) -> int {
    if backoff_ms * 2 < MAX_BACKOFF_MS {
        backoff_ms * 2
    } else {
        MAX_BACKOFF_MS as int
    }
}

/// The wait after the first run of a series that failed, the second and so on,
/// counted from zero.
pub open spec fn series_wait(failures: nat) -> int
    decreases failures,
{
    if failures == 0 {
        BASE_BACKOFF_MS as int
    } else {
        doubled(series_wait((failures - 1) as nat))
    }
}

impl Reconnect {
    /// The wait stays between the shortest and the longest, in full naps.
    pub open spec fn wf(&self) -> bool {
        &&& BASE_BACKOFF_MS <= self.backoff_ms <= MAX_BACKOFF_MS
        &&& self.backoff_ms % NAP_MS == 0
    }

    /// The wait after a failed run of that length.
    pub open spec fn wait_after(self, ran_ns: u64) -> u64 {
        if ran_ns >= GOOD_RUN_NS {
            BASE_BACKOFF_MS
        } else {
            self.backoff_ms
        }
    }

    /// The policy after a failed run of that length.
    pub open spec fn retried(self, ran_ns: u64) -> Reconnect {
        Reconnect { backoff_ms: doubled(self.wait_after(ran_ns) as int) as u64 }
    }

    /// The policy after failed runs of those lengths, one after the other.
    pub open spec fn retried_all(self, runs_ns: Seq<u64>) -> Reconnect
        decreases runs_ns.len(),
    {
        if runs_ns.len() == 0 {
            self
        } else {
            self.retried_all(runs_ns.drop_last()).retried(runs_ns.last())
        }
    }

    /// The policy of a new thread.
    pub fn new() -> (policy: Reconnect)
        ensures
            policy.wf(),
            policy.backoff_ms == BASE_BACKOFF_MS,
    {
        Reconnect { backoff_ms: BASE_BACKOFF_MS }
    }

    /// Decides what follows a run that took `ran_ns` and ended with `result`.
    pub fn after_run(
        &mut self,
        stopped: bool,
        result: Result<(), String>,
        auto_reconnect: bool,
        ran_ns: u64,
    ) -> (next: AfterRun)
        requires
            old(self).wf(),
        ensures
            final(self).wf(),
            match result {
                Ok(_) => next is Exit && *final(self) == *old(self),
                Err(e) => if stopped {
                    next is Exit && *final(self) == *old(self)
                } else if !auto_reconnect {
                    next == AfterRun::GiveUp(Status::Error(e)) && *final(self) == *old(self)
                } else {
                    &&& next == AfterRun::Retry { wait_ms: old(self).wait_after(ran_ns) }
                    &&& *final(self) == old(self).retried(ran_ns)
                },
            },
    {
        if stopped {
            return AfterRun::Exit;
        }
        match result {
            Ok(_) => AfterRun::Exit,
            Err(e) => {
                if !auto_reconnect {
                    return AfterRun::GiveUp(Status::Error(e));
                }
                if ran_ns >= GOOD_RUN_NS {
                    self.backoff_ms = BASE_BACKOFF_MS;
                }
                let wait_ms: u64 = self.backoff_ms;
                self.backoff_ms = if wait_ms * 2 < MAX_BACKOFF_MS {
                    wait_ms * 2
                } else {
                    MAX_BACKOFF_MS
                };
                AfterRun::Retry { wait_ms }
            },
        }
    }
}

/// How long to nap next while waiting, if the wait is not over.
pub fn next_nap(waited_ms: u64, wait_ms: u64, stopped: bool) -> (nap: Option<u64>)
    ensures
        nap == (if waited_ms < wait_ms && !stopped {
            Some(NAP_MS)
        } else {
            None
        }),
{
    if waited_ms < wait_ms && !stopped {
        Some(NAP_MS)
    } else {
        None
    }
}

/// A wait lasts as long as the policy says: naps are taken while it is not over,
/// and together they make up the wait.
pub proof fn law_naps_make_up_the_wait(policy: Reconnect, ran_ns: u64, naps: nat)
    requires
        policy.wf(),
    ensures
        ({
            let wait = policy.wait_after(ran_ns);
            let enough = wait / NAP_MS;
            &&& naps * NAP_MS < wait <==> naps < enough
            &&& enough * NAP_MS == wait
        }),
{
}

/// While runs keep failing early the waits are two seconds, four, eight, and
/// then twelve each time.
pub proof fn law_backoff_series(failures: nat)
    ensures
        series_wait(failures) == (if BASE_BACKOFF_MS * pow2(failures) < MAX_BACKOFF_MS {
            BASE_BACKOFF_MS * pow2(failures)
        } else {
            MAX_BACKOFF_MS as int
        }),
    decreases failures,
{
    vstd::arithmetic::power2::lemma2_to64();
    if failures > 0 {
        law_backoff_series((failures - 1) as nat);
        vstd::arithmetic::power2::lemma_pow2_unfold(failures);
    }
}

/// A thread whose runs all fail early waits as the series says.
pub proof fn law_early_failures_follow_series(runs_ns: Seq<u64>, ran_ns: u64)
    requires
        forall|i: int| 0 <= i < runs_ns.len() ==> #[trigger] runs_ns[i] < GOOD_RUN_NS,
        ran_ns < GOOD_RUN_NS,
    ensures
        (Reconnect { backoff_ms: BASE_BACKOFF_MS }).retried_all(runs_ns).wait_after(ran_ns)
            == series_wait(runs_ns.len()),
    decreases runs_ns.len(),
{
    law_backoff_series(runs_ns.len());
    if runs_ns.len() > 0 {
        let rest = runs_ns.drop_last();
        assert forall|i: int| 0 <= i < rest.len() implies #[trigger] rest[i] < GOOD_RUN_NS by {
            assert(rest[i] == runs_ns[i]);
        }
        law_early_failures_follow_series(rest, runs_ns.last());
        law_backoff_series(rest.len());
    }
}

/// After a run that went well the wait is the shortest, and the series starts
/// anew, whatever happened before.
pub proof fn law_good_run_resets_backoff(policy: Reconnect, ran_ns: u64)
    requires
        ran_ns >= GOOD_RUN_NS,
    ensures
        policy.wait_after(ran_ns) == series_wait(0),
        policy.retried(ran_ns).backoff_ms == series_wait(1),
{
    reveal_with_fuel(series_wait, 2);
}

} // verus!
