//! The stream thread: frames, runs, reconnects and recordings.

use crate::laws::picture::{is_complete, is_picture, lemma_rendered, samples_as, tells_true};
use crate::session::{PendingRecord, ReadEnd, Run, RunAction, RunPhase, Session};
use crate::stream::{
    elapsed_ns, free_port, next_nap, server_options, AfterRun, FrameSlot, Reconnect, RecordCmd,
    ServerOptions, Status, StreamConfig,
};
use crate::warp::{Frame, Lens, RemapCache};
use vstd::prelude::*;

verus! {

/// A frame that is published is what the slot then holds, under another number
/// than before.
pub proof fn law_published_frames_are_held(slot: &mut FrameSlot, frame: Frame)
    requires
        call_ensures(FrameSlot::publish, (slot, frame), ()),
    ensures
        final(slot).frame == Some(frame),
        final(slot).generation != old(slot).generation,
        old(slot).generation < u64::MAX ==> final(slot).generation == old(slot).generation + 1,
{
}

/// Taking hands out what the slot holds, unless its number has been seen; and what
/// was handed out is gone.
pub proof fn law_frames_are_taken_once(slot: &mut FrameSlot, seen: u64, frame: Option<Frame>)
    requires
        call_ensures(FrameSlot::take_newer, (slot, seen), frame),
    ensures
        old(slot).generation == seen ==> frame is None && *final(slot) == *old(slot),
        old(slot).generation != seen ==> frame == old(slot).frame && final(slot).frame is None,
        final(slot).generation == old(slot).generation,
{
}

/// A slot is empty at first.
pub proof fn law_slots_begin_empty(slot: FrameSlot)
    requires
        call_ensures(FrameSlot::default, (), slot),
    ensures
        slot.frame is None && slot.generation == 0,
{
}

/// The server is asked for exactly what the stream was started with.
pub proof fn law_server_gets_what_was_asked(cfg: &StreamConfig, opts: ServerOptions)
    requires
        call_ensures(server_options, (cfg,), opts),
    ensures
        opts == (ServerOptions {
            display_id: cfg.display_id,
            max_size: cfg.max_size,
            video_bit_rate: cfg.video_bit_rate,
            max_fps: cfg.max_fps,
            audio: cfg.audio,
            audio_bit_rate: cfg.audio_bit_rate,
        }),
{
}

/// A port that the system gave is used as it is.
pub proof fn law_given_ports_are_used(given: Option<u16>, port: u16)
    requires
        call_ensures(free_port, (given,), port),
    ensures
        given matches Some(p) ==> port == p,
        given is None ==> port == 27183,
{
}

/// The time that has passed, added to when it began, is now.
pub proof fn law_elapsed_time_adds_up(now: u64, since: u64, ns: u64)
    requires
        call_ensures(elapsed_ns, (now, since), ns),
    ensures
        since <= now ==> since + ns == now,
        since > now ==> ns == 0,
{
}

/// A policy begins with a wait of two seconds.
pub proof fn law_waits_begin_with_two_seconds(policy: Reconnect)
    requires
        call_ensures(Reconnect::new, (), policy),
    ensures
        policy.backoff_ms == 2000,
        policy.wf(),
{
}

/// A run that ended in order, or was stopped, is the last. One that failed is told
/// where there is to be no other; else another comes, after two seconds where the
/// run lasted eight or more, and after the wait that was due where it did not. The
/// next wait is twice as long, but never longer than twelve seconds.
pub proof fn law_failed_runs_are_tried_again(
    policy: &mut Reconnect,
    stopped: bool,
    result: Result<(), String>,
    auto_reconnect: bool,
    ran_ns: u64,
    next: AfterRun,
)
    requires
        call_ensures(
            Reconnect::after_run,
            (policy, stopped, result, auto_reconnect, ran_ns),
            next,
        ),
    ensures
        stopped || result is Ok ==> next is Exit,
        !stopped && !auto_reconnect ==> (result matches Err(e) ==> next == AfterRun::GiveUp(
            Status::Error(e),
        )),
        stopped || result is Ok || !auto_reconnect ==> final(policy).backoff_ms == old(
            policy,
        ).backoff_ms,
        !stopped && auto_reconnect && result is Err ==> {
            &&& next matches AfterRun::Retry { wait_ms }
            &&& ran_ns >= 8_000_000_000 ==> wait_ms == 2000
            &&& ran_ns < 8_000_000_000 ==> wait_ms == old(policy).backoff_ms
            &&& final(policy).backoff_ms <= 12000
            &&& 2 * wait_ms <= 12000 ==> final(policy).backoff_ms == 2 * wait_ms
            &&& 2 * wait_ms > 12000 ==> final(policy).backoff_ms == 12000
        },
{
}

/// While a wait is not over and nothing was stopped, the thread naps for a tenth of
/// a second at a time.
pub proof fn law_naps_end_with_the_wait(
    waited_ms: u64,
    wait_ms: u64,
    stopped: bool,
    nap: Option<u64>,
)
    requires
        call_ensures(next_nap, (waited_ms, wait_ms, stopped), nap),
    ensures
        nap is Some <==> waited_ms < wait_ms && !stopped,
        nap matches Some(ms) ==> ms == 100,
{
}

/// A run pushes the server, forwards a port, starts the server with its options,
/// streams and is torn down, in this order; a step that fails before the server was
/// started ends it with that step's error.
pub proof fn law_runs_take_their_steps_in_order(
    run: &mut Run,
    outcome: Result<(), String>,
    action: RunAction,
)
    requires
        call_ensures(Run::advance, (run, outcome), action),
        old(run).phase != RunPhase::Over,
    ensures
        final(run).opts == old(run).opts,
        old(run).phase == RunPhase::Stream ==> action == RunAction::TearDown(outcome)
            && final(run).phase == RunPhase::Over,
        old(run).phase != RunPhase::Stream ==> {
            &&& outcome matches Err(e) ==> action == RunAction::Abort(e) && final(run).phase
                == RunPhase::Over
            &&& outcome is Ok && old(run).phase == RunPhase::PushServer ==> action is Forward
                && final(run).phase == RunPhase::Forward
            &&& outcome is Ok && old(run).phase == RunPhase::Forward ==> action
                == RunAction::StartServer(old(run).opts) && final(run).phase
                == RunPhase::StartServer
            &&& outcome is Ok && old(run).phase == RunPhase::StartServer ==> action is Stream
                && final(run).phase == RunPhase::Stream
        },
{
}

/// A run begins with pushing the server.
pub proof fn law_runs_begin_with_the_push(opts: ServerOptions, run: Run)
    requires
        call_ensures(Run::new, (opts,), run),
    ensures
        run.phase == RunPhase::PushServer,
        run.opts == opts,
{
}

/// A new session has seen nothing, records nothing and shows of recordings what was
/// shown before.
pub proof fn law_sessions_begin_empty<P>(now: u64, recording: bool, s: Session<P>)
    requires
        call_ensures(Session::<P>::new, (now, recording), s),
    ensures
        !s.has_decoder && s.clip is None && s.pending_record is None,
        s.sess_w == 0 && s.sess_h == 0 && s.frame_w == 0 && s.frame_h == 0,
        s.frames_since == 0 && s.decode_us_since == 0,
        s.last_decode_us == 0 && s.last_decode_frames == 0,
        s.last_tick == now,
        s.recording == recording,
        s.wf(),
{
}

/// A recording that is started waits with its own path and view, and one that is
/// stopped waits and shows no more; either way the clip at hand is finished, and
/// nothing else changes.
pub proof fn law_commands_start_and_stop_recordings<P>(
    s: &mut Session<P>,
    cmd: RecordCmd<P>,
    finish_clip: bool,
)
    requires
        call_ensures(Session::<P>::on_command, (s, cmd), finish_clip),
    ensures
        finish_clip <==> old(s).clip is Some,
        final(s).clip is None,
        cmd matches RecordCmd::Start(path, view) ==> {
            &&& final(s).pending_record == Some(PendingRecord { path, view })
            &&& final(s).rec_params == view
            &&& final(s).recording == old(s).recording
        },
        cmd is Stop ==> {
            &&& final(s).pending_record is None
            &&& final(s).rec_params == old(s).rec_params
            &&& !final(s).recording
        },
        (Session {
            clip: old(s).clip,
            pending_record: old(s).pending_record,
            rec_params: old(s).rec_params,
            recording: old(s).recording,
            ..*final(s)
        }) == *old(s),
{
}

/// Reading that fails is the end in order only where the stream was stopped.
pub proof fn law_read_errors_count_unless_stopped<P>(
    s: &Session<P>,
    stopped: bool,
    end: ReadEnd,
)
    requires
        call_ensures(Session::<P>::on_read_error, (s, stopped), end),
    ensures
        stopped <==> end == ReadEnd::Leave,
        !stopped <==> end == ReadEnd::Fail,
{
}

/// A decoder is made for the size that the stream tells, each time it differs; a
/// side of zero counts as one.
pub proof fn law_decoders_follow_the_size<P>(
    s: &mut Session<P>,
    width: u32,
    height: u32,
    make: Option<(u32, u32)>,
)
    requires
        call_ensures(Session::<P>::on_resolution, (s, width, height), make),
    ensures
        make is None <==> old(s).has_decoder && old(s).sess_w == width && old(s).sess_h == height,
        make matches Some(size) ==> {
            &&& width > 0 ==> size.0 == width
            &&& width == 0 ==> size.0 == 1
            &&& height > 0 ==> size.1 == height
            &&& height == 0 ==> size.1 == 1
        },
        final(s).sess_w == width && final(s).sess_h == height,
        (Session { sess_w: old(s).sess_w, sess_h: old(s).sess_h, ..*final(s) }) == *old(s),
{
}

/// The size that the stream told is shown, with nothing counted yet.
pub proof fn law_new_sizes_are_shown<P>(s: &Session<P>, status: Status)
    requires
        call_ensures(Session::<P>::resolution_status, (s,), status),
    ensures
        status matches Status::Streaming { width, height, rate } && width == s.sess_w && height
            == s.sess_h && rate.frames == 0 && rate.window_ns == 0 && rate.decode_us == 0
            && rate.decode_frames == 0,
{
}

/// A packet without a decoder gets one, of the size that was told or else of 1920
/// by 1088.
pub proof fn law_packets_get_a_decoder<P>(s: &mut Session<P>, make: Option<(u32, u32)>)
    requires
        call_ensures(Session::<P>::on_packet, (s,), make),
    ensures
        make is None <==> old(s).has_decoder,
        old(s).has_decoder ==> *final(s) == *old(s),
        make matches Some(size) ==> {
            &&& old(s).sess_w > 0 ==> size.0 == old(s).sess_w
            &&& old(s).sess_w == 0 ==> size.0 == 1920
            &&& old(s).sess_h > 0 ==> size.1 == old(s).sess_h
            &&& old(s).sess_h == 0 ==> size.1 == 1088
            &&& (final(s).sess_w, final(s).sess_h) == size
        },
        (Session { sess_w: old(s).sess_w, sess_h: old(s).sess_h, ..*final(s) }) == *old(s),
{
}

/// Decode times and frames are counted one by one, and nothing else changes.
pub proof fn law_work_is_counted<P>(
    ready: &mut Session<P>,
    decoded: &mut Session<P>,
    us: u64,
    published: &mut Session<P>,
    slot: &mut FrameSlot,
    frame: Frame,
)
    requires
        call_ensures(Session::<P>::on_decoder_ready, (ready,), ()),
        old(decoded).decode_us_since + us <= u64::MAX,
        call_ensures(Session::<P>::on_decoded, (decoded, us), ()),
        old(published).frames_since < u32::MAX,
        call_ensures(Session::<P>::publish, (published, slot, frame), ()),
    ensures
        final(ready).has_decoder,
        (Session { has_decoder: old(ready).has_decoder, ..*final(ready) }) == *old(ready),
        final(decoded).decode_us_since == old(decoded).decode_us_since + us,
        (Session { decode_us_since: old(decoded).decode_us_since, ..*final(decoded) }) == *old(
            decoded,
        ),
        final(published).frames_since == old(published).frames_since + 1,
        (Session { frames_since: old(published).frames_since, ..*final(published) }) == *old(
            published,
        ),
        final(slot).frame == Some(frame),
        final(slot).generation != old(slot).generation,
{
}

/// A recording that waits is handed out with the first frame, and only then.
pub proof fn law_first_frame_opens_the_clip<P>(
    s: &mut Session<P>,
    width: u32,
    height: u32,
    open: Option<PendingRecord<P>>,
)
    requires
        call_ensures(Session::<P>::on_frame, (s, width, height), open),
    ensures
        open == old(s).pending_record,
        final(s).pending_record is None,
        final(s).frame_w == width && final(s).frame_h == height,
        (Session {
            pending_record: old(s).pending_record,
            frame_w: old(s).frame_w,
            frame_h: old(s).frame_h,
            ..*final(s)
        }) == *old(s),
{
}

/// A clip has the size of the crop, as far as that is even, and is shown as a
/// recording from when it is opened until its encoder fails or the session ends.
pub proof fn law_clips_are_shown_while_they_last<P>(
    opened: &mut Session<P>,
    crop_w: u32,
    crop_h: u32,
    failed: &mut Session<P>,
    finished: &mut Session<P>,
    finish_clip: bool,
)
    requires
        call_ensures(Session::<P>::on_clip_opened, (opened, crop_w, crop_h), ()),
        call_ensures(Session::<P>::on_write_failed, (failed,), ()),
        call_ensures(Session::<P>::finish, (finished,), finish_clip),
    ensures
        final(opened).recording,
        final(opened).clip matches Some(d) && {
            &&& d.0 % 2 == 0 && d.1 % 2 == 0 && d.0 >= 2 && d.1 >= 2
            &&& crop_w >= 2 ==> d.0 <= crop_w < d.0 + 2
            &&& crop_h >= 2 ==> d.1 <= crop_h < d.1 + 2
            &&& crop_w < 2 ==> d.0 == 2
            &&& crop_h < 2 ==> d.1 == 2
        },
        (Session { clip: old(opened).clip, recording: old(opened).recording, ..*final(opened) })
            == *old(opened),
        final(failed).clip is None && !final(failed).recording,
        (Session { clip: old(failed).clip, recording: old(failed).recording, ..*final(failed) })
            == *old(failed),
        finish_clip <==> old(finished).clip is Some,
        final(finished).clip is None && !final(finished).recording,
        (Session {
            clip: old(finished).clip,
            recording: old(finished).recording,
            ..*final(finished)
        }) == *old(finished),
{
}

/// The picture of a frame for a clip shows the view that is recorded, at the size of
/// the clip, with blue before red; there is one exactly while a clip is recorded.
pub proof fn law_clips_show_the_recorded_view<
    P,
    F: Fn(usize, usize, u32, u32) -> (usize, usize) + Sync,
>(
    lens: Lens,
    s: &Session<P>,
    cache: &mut RemapCache,
    frame: &Frame,
    sample: &F,
    picture: Option<Vec<u8>>,
)
    requires
        old(cache).wf(),
        tells_true(*old(cache), lens),
        is_complete(*frame),
        s.clip matches Some(d) ==> samples_as(
            *sample,
            lens,
            frame.width,
            frame.height,
            s.rec_params,
            d.0,
            d.1,
        ),
        call_ensures(Session::<P>::clip_picture::<F>, (s, cache, frame, sample), picture),
    ensures
        picture is Some <==> s.clip is Some,
        s.clip matches Some(d) ==> is_picture(
            lens,
            *frame,
            s.rec_params,
            d.0,
            d.1,
            true,
            picture.unwrap()@,
        ),
{
    if let Some(d) = s.clip {
        lemma_rendered(
            lens,
            *old(cache),
            *final(cache),
            *frame,
            s.rec_params,
            d.0,
            d.1,
            true,
            *sample,
            picture.unwrap()@,
        );
    }
}

/// Every half second the frames of that time are told with how long it was, and the
/// decode time of the last frames; then counting begins anew.
pub proof fn law_telemetry_tells_what_was_counted<P>(
    s: &mut Session<P>,
    now: u64,
    status: Option<Status>,
)
    requires
        call_ensures(Session::<P>::tick, (s, now), status),
        old(s).last_tick <= now,
    ensures
        status is Some <==> now - old(s).last_tick >= 500_000_000,
        status is None ==> *final(s) == *old(s),
        status matches Some(shown) ==> {
            &&& shown matches Status::Streaming { width, height, rate }
            &&& width >= old(s).frame_w && width >= old(s).sess_w
            &&& width == old(s).frame_w || width == old(s).sess_w
            &&& height >= old(s).frame_h && height >= old(s).sess_h
            &&& height == old(s).frame_h || height == old(s).sess_h
            &&& rate.frames == old(s).frames_since
            &&& rate.window_ns == now - old(s).last_tick
            &&& old(s).frames_since > 0 ==> rate.decode_us == old(s).decode_us_since
                && rate.decode_frames == old(s).frames_since
            &&& old(s).frames_since == 0 ==> rate.decode_us == old(s).last_decode_us
                && rate.decode_frames == old(s).last_decode_frames
            &&& final(s).frames_since == 0 && final(s).decode_us_since == 0
            &&& final(s).last_tick == now
            &&& final(s).last_decode_us == rate.decode_us
            &&& final(s).last_decode_frames == rate.decode_frames
            &&& (Session {
                frames_since: old(s).frames_since,
                decode_us_since: old(s).decode_us_since,
                last_tick: old(s).last_tick,
                last_decode_us: old(s).last_decode_us,
                last_decode_frames: old(s).last_decode_frames,
                ..*final(s)
            }) == *old(s)
        },
{
}

} // verus!
