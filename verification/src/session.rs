//! One media file opened for playback: its metadata, whether it is paused,
//! its rate, the timestamp it publishes and the frame it shows.

use crate::frame::{frame_len, frame_size, FrameBuffer, FrameBufferView};
use crate::media::{LoadError, VideoMetadata};
use vstd::prelude::*;

verus! {

/// The slowest rate, in thousandths of normal speed. A rate at or below
/// zero would stall the pipeline.
pub const MIN_RATE_PERMILLE: u32 = 10;

/// Normal speed, in thousandths.
pub const NORMAL_RATE_PERMILLE: u32 = 1000;

/// `target` brought into the range from zero to `limit`.
pub open spec fn clamp_to(target: int, limit: int) -> int {
    if target < 0 {
        0
    } else if target > limit {
        limit
    } else {
        target
    }
}

/// A playback rate in thousandths of normal speed, never below the floor.
/// What the pipeline makes of a very high rate is up to it: the rate asked
/// for need not be the rate observed.
#[derive(Debug, Clone, Copy, PartialEq, Eq)]
pub struct PlaybackRate {
    permille: u32,
}

impl View for PlaybackRate {
    type V = u32;

    closed spec fn view(&self) -> u32 {
        self.permille
    }
}

impl PlaybackRate {
    #[verifier::type_invariant]
    spec fn above_floor(self) -> bool {
        self.permille >= MIN_RATE_PERMILLE
    }

    /// The rate of `permille` thousandths, raised to the floor where it lies
    /// below.
    pub fn from_permille(permille: u32) -> (rate: PlaybackRate)
        ensures
            rate@ == if permille < MIN_RATE_PERMILLE {
                MIN_RATE_PERMILLE
            } else {
                permille
            },
            rate@ >= MIN_RATE_PERMILLE,
    {
        if permille < MIN_RATE_PERMILLE {
            PlaybackRate { permille: MIN_RATE_PERMILLE }
        } else {
            PlaybackRate { permille }
        }
    }

    /// Normal speed.
    pub fn normal() -> (rate: PlaybackRate)
        ensures
            rate@ == NORMAL_RATE_PERMILLE,
    {
        PlaybackRate { permille: NORMAL_RATE_PERMILLE }
    }

    /// The rate in thousandths of normal speed.
    pub fn permille(&self) -> (permille: u32)
        ensures
            permille == self@,
            permille >= MIN_RATE_PERMILLE,
    {
        proof {
            use_type_invariant(self);
        }
        self.permille
    }
}

/// A flushing seek for the pipeline to carry out: to `position_ms`, playing
/// on at `rate`. The pipeline may land on the nearest point that it can
/// decode from, not on the exact millisecond.
#[derive(Debug, Clone, Copy, PartialEq, Eq)]
pub struct SeekRequest {
    pub position_ms: u64,
    pub rate: PlaybackRate,
}

/// A session as plain values.
pub struct SessionView {
    pub info: VideoMetadata,
    pub paused: bool,
    /// The rate that the pipeline plays at, as far as it has confirmed it.
    pub rate_permille: u32,
    /// The rate that was asked for and that the pipeline has not answered
    /// yet, if there is one.
    pub pending_rate: Option<u32>,
    pub timestamp_ms: u64,
    pub frame: FrameBufferView,
}

impl SessionView {
    /// The session as it is opened on `info`: running, at normal speed, at
    /// the start, with a black frame that is not marked as new.
    pub open spec fn opened(info: VideoMetadata) -> SessionView {
        SessionView {
            info,
            paused: false,
            rate_permille: NORMAL_RATE_PERMILLE,
            pending_rate: None,
            timestamp_ms: 0,
            frame: FrameBufferView {
                bytes: Seq::new(frame_len(info.width, info.height), |i: int| 0u8),
                dirty: false,
            },
        }
    }

    /// The position that a seek to `target_ms` lands on: the target brought
    /// into the range from zero to the duration.
    pub open spec fn seek_position(self, target_ms: int) -> u64 {
        clamp_to(target_ms, self.info.duration_ms as int) as u64
    }

    /// The session after a seek to `target_ms`: it publishes the position
    /// at once.
    pub open spec fn sought(self, target_ms: int) -> SessionView {
        SessionView { timestamp_ms: self.seek_position(target_ms), ..self }
    }

    /// The session with `paused` set so.
    pub open spec fn with_paused(self, paused: bool) -> SessionView {
        SessionView { paused, ..self }
    }

    /// The session after a rate was asked for: the rate waits for the
    /// pipeline's answer, and the session plays on at the rate it had.
    pub open spec fn rate_asked(self, rate_permille: u32) -> SessionView {
        SessionView { pending_rate: Some(rate_permille), ..self }
    }

    /// The session after the pipeline has answered the seek that carried a
    /// new rate. Where it took the seek, the rate that waited is the
    /// session's rate; where it refused, the session keeps the rate it had.
    /// Either way no rate waits any longer. Without a rate that waits
    /// nothing changes.
    pub open spec fn rate_settled(self, accepted: bool) -> SessionView {
        match self.pending_rate {
            Some(rate_permille) => SessionView {
                rate_permille: if accepted {
                    rate_permille
                } else {
                    self.rate_permille
                },
                pending_rate: None,
                ..self
            },
            None => self,
        }
    }

    /// The session after the decoder has delivered a frame: it publishes
    /// the pipeline's position, where the pipeline could tell it, and then
    /// offers the bytes to the frame buffer.
    pub open spec fn decoded(self, position_ms: Option<u64>, bytes: Seq<u8>) -> SessionView {
        SessionView {
            timestamp_ms: match position_ms {
                Some(p) => p,
                None => self.timestamp_ms,
            },
            frame: self.frame.written(bytes),
            ..self
        }
    }

    /// The session after a tick of the renderer.
    pub open spec fn rendered(self) -> SessionView {
        SessionView { frame: self.frame.after_fetch(), ..self }
    }

    /// The session after `control`.
    pub open spec fn control(self, control: Control) -> SessionView {
        match control {
            Control::Play => self.with_paused(false),
            Control::Pause => self.with_paused(true),
            Control::Seek(target_ms) => self.sought(target_ms),
            Control::SeekRelative(delta_ms) => self.sought(self.timestamp_ms + delta_ms),
            Control::SetRate(rate_permille) => self.rate_asked(rate_permille),
            Control::RateSettled(accepted) => self.rate_settled(accepted),
            Control::FrameDecoded(position_ms, bytes) => self.decoded(position_ms, bytes),
            Control::Update => self.rendered(),
        }
    }
}

/// What can be done to a session while it is alive.
pub enum Control {
    /// Resume playback.
    Play,
    /// Pause playback.
    Pause,
    /// Seek to a position in milliseconds.
    Seek(int),
    /// Seek to the published timestamp moved by so many milliseconds.
    SeekRelative(int),
    /// Ask for a rate in thousandths of normal speed.
    SetRate(u32),
    /// The pipeline has taken the seek that carried the new rate, or has
    /// refused it.
    RateSettled(bool),
    /// The decoder delivers a frame and, where it can tell it, its position.
    FrameDecoded(Option<u64>, Seq<u8>),
    /// The renderer ticks.
    Update,
}

/// A seek never leaves the media: whatever the target, the position lies
/// between zero and the duration, and it is the target where the target
/// does.
pub proof fn lemma_seek_stays_inside(session: SessionView, target_ms: int)
    ensures
        0 <= session.seek_position(target_ms) <= session.info.duration_ms,
        0 <= target_ms <= session.info.duration_ms ==> session.seek_position(target_ms)
            == target_ms,
        target_ms < 0 ==> session.seek_position(target_ms) == 0,
        target_ms > session.info.duration_ms ==> session.seek_position(target_ms)
            == session.info.duration_ms,
        session.sought(target_ms).timestamp_ms == session.seek_position(target_ms),
{
}

/// Nothing that is done to a session changes what is known of its video
/// or the size of its frames, and only the decoder and the renderer touch
/// the frame buffer at all.
pub proof fn lemma_controls_keep_frame_size(session: SessionView, control: Control)
    ensures
        session.control(control).info == session.info,
        session.control(control).frame.bytes.len() == session.frame.bytes.len(),
        !(control is FrameDecoded || control is Update) ==> session.control(control).frame
            == session.frame,
{
}

/// The rate of a session changes only when the pipeline has taken the seek
/// that carried a new rate, and then to that rate; whether the session is
/// paused changes only when it is paused or resumed.
pub proof fn lemma_controls_keep_rate_and_pause(session: SessionView, control: Control)
    ensures
        session.control(control).rate_permille != session.rate_permille ==> control
            == Control::RateSettled(true) && session.pending_rate == Some(
            session.control(control).rate_permille,
        ),
        !(control is Play || control is Pause) ==> session.control(control).paused
            == session.paused,
{
}

/// A rate that the pipeline refuses leaves no trace: the session is as it
/// was before the rate was asked for. A rate that the pipeline takes is the
/// session's rate, and nothing else has changed.
pub proof fn lemma_refused_rate_changes_nothing(session: SessionView, rate_permille: u32)
    requires
        session.pending_rate is None,
    ensures
        session.control(Control::SetRate(rate_permille)).control(Control::RateSettled(false))
            == session,
        session.control(Control::SetRate(rate_permille)).control(Control::RateSettled(true))
            == (SessionView { rate_permille, ..session }),
        session.control(Control::SetRate(rate_permille)).rate_permille == session.rate_permille,
        session.control(Control::SetRate(rate_permille)).timestamp_ms == session.timestamp_ms,
        session.control(Control::SetRate(rate_permille)).paused == session.paused,
{
}

/// One media file opened for playback.
#[derive(Debug)]
pub struct Session {
    info: VideoMetadata,
    paused: bool,
    rate: PlaybackRate,
    pending_rate: Option<PlaybackRate>,
    timestamp_ms: u64,
    frame: FrameBuffer,
}

impl View for Session {
    type V = SessionView;

    closed spec fn view(&self) -> SessionView {
        SessionView {
            info: self.info,
            paused: self.paused,
            rate_permille: self.rate@,
            pending_rate: match self.pending_rate {
                Some(rate) => Some(rate@),
                None => None,
            },
            timestamp_ms: self.timestamp_ms,
            frame: self.frame@,
        }
    }
}

impl Session {
    /// Opens a session on `info`. It fails with `ProbeFailed` where a frame
    /// of the video's size has more bytes than a buffer can hold, and only
    /// there.
    pub fn open(info: VideoMetadata) -> (r: Result<Session, LoadError>)
        ensures
            match r {
                Ok(session) => frame_len(info.width, info.height) <= usize::MAX && session@
                    == SessionView::opened(info),
                Err(e) => frame_len(info.width, info.height) > usize::MAX && e
                    == LoadError::ProbeFailed,
            },
    {
        match frame_size(info.width, info.height) {
            Some(size) => Ok(
                Session {
                    info,
                    paused: false,
                    rate: PlaybackRate::normal(),
                    pending_rate: None,
                    timestamp_ms: 0,
                    frame: FrameBuffer::new(size),
                },
            ),
            None => Err(LoadError::ProbeFailed),
        }
    }

    /// What is known of the video.
    pub fn info(&self) -> (info: &VideoMetadata)
        ensures
            *info == self@.info,
    {
        &self.info
    }

    /// Whether playback is paused.
    pub fn is_paused(&self) -> (paused: bool)
        ensures
            paused == self@.paused,
    {
        self.paused
    }

    /// The published timestamp in milliseconds. It is the position of the
    /// latest frame or of the latest seek, whichever came last.
    pub fn get_timestamp(&self) -> (timestamp_ms: u64)
        ensures
            timestamp_ms == self@.timestamp_ms,
    {
        self.timestamp_ms
    }

    /// The playback rate: the rate that the pipeline was last known to have
    /// taken, not one that still waits for its answer.
    pub fn get_rate(&self) -> (rate: PlaybackRate)
        ensures
            rate@ == self@.rate_permille,
    {
        self.rate
    }

    /// The size of the session's frames in bytes.
    pub fn frame_len(&self) -> (n: usize)
        ensures
            n == self@.frame.bytes.len(),
    {
        self.frame.len()
    }

    /// Resumes playback. The pipeline is to be set running.
    pub fn play(&mut self)
        ensures
            final(self)@ == old(self)@.with_paused(false),
    {
        self.paused = false;
    }

    /// Pauses playback. The pipeline is to be set paused; it and the frame
    /// buffer stay.
    pub fn pause(&mut self)
        ensures
            final(self)@ == old(self)@.with_paused(true),
    {
        self.paused = true;
    }

    /// Seeks to `target_ms`, brought into the range from zero to the
    /// duration. The position is published at once, before the pipeline has
    /// answered; the request that comes back is for the pipeline. The next
    /// decoded frame publishes the pipeline's own position again.
    pub fn seek(&mut self, target_ms: i64) -> (request: SeekRequest)
        ensures
            request.position_ms == old(self)@.seek_position(target_ms as int),
            request.rate@ == old(self)@.rate_permille,
            final(self)@ == old(self)@.sought(target_ms as int),
    {
        let position_ms: u64 = if target_ms < 0 {
            0
        } else if target_ms as u64 > self.info.duration_ms {
            self.info.duration_ms
        } else {
            target_ms as u64
        };
        self.timestamp_ms = position_ms;
        SeekRequest { position_ms, rate: self.rate }
    }

    /// Seeks to the published timestamp moved by `delta_ms`.
    pub fn seek_relative(&mut self, delta_ms: i64) -> (request: SeekRequest)
        ensures
            request.position_ms == old(self)@.seek_position(old(self)@.timestamp_ms + delta_ms),
            request.rate@ == old(self)@.rate_permille,
            final(self)@ == old(self)@.sought(old(self)@.timestamp_ms + delta_ms),
    {
        let target: i128 = self.timestamp_ms as i128 + delta_ms as i128;
        let position_ms: u64 = if target < 0 {
            0
        } else if target > self.info.duration_ms as i128 {
            self.info.duration_ms
        } else {
            target as u64
        };
        self.timestamp_ms = position_ms;
        SeekRequest { position_ms, rate: self.rate }
    }

    /// Asks for another playback rate. The pipeline learns of a rate only by
    /// a seek, so the request that comes back seeks to the published
    /// timestamp at the new rate. The session keeps the rate it had until
    /// `rate_settled` is told that the pipeline took the seek.
    pub fn set_rate(&mut self, rate: PlaybackRate) -> (request: SeekRequest)
        ensures
            request.position_ms == old(self)@.timestamp_ms,
            request.rate@ == rate@,
            final(self)@ == old(self)@.rate_asked(rate@),
    {
        self.pending_rate = Some(rate);
        SeekRequest { position_ms: self.timestamp_ms, rate }
    }

    /// Takes the pipeline's answer to the seek that `set_rate` asked for.
    /// Where the pipeline took it, the rate that was asked for is the
    /// session's rate; where it refused, the session is as it was before
    /// the rate was asked for. Says whether the rate was taken.
    pub fn rate_settled(&mut self, accepted: bool) -> (taken: bool)
        ensures
            taken == (accepted && old(self)@.pending_rate is Some),
            final(self)@ == old(self)@.rate_settled(accepted),
    {
        let pending = self.pending_rate;
        self.pending_rate = None;
        match pending {
            Some(rate) => {
                if accepted {
                    self.rate = rate;
                }
                accepted
            },
            None => false,
        }
    }

    /// The rate that was asked for and waits for the pipeline's answer, if
    /// one does.
    pub fn pending_rate(&self) -> (rate: Option<PlaybackRate>)
        ensures
            match rate {
                Some(rate) => self@.pending_rate == Some(rate@),
                None => self@.pending_rate is None,
            },
    {
        self.pending_rate
    }

    /// The decoder's side: publishes the pipeline's position, where it
    /// could tell it, then copies the frame into the buffer and marks it as
    /// new. Says whether the frame had the session's frame size and was
    /// taken.
    pub fn frame_decoded(&mut self, position_ms: Option<u64>, bytes: &[u8]) -> (taken: bool)
        ensures
            taken == (bytes@.len() == old(self)@.frame.bytes.len()),
            final(self)@ == old(self)@.decoded(position_ms, bytes@),
    {
        match position_ms {
            Some(p) => {
                self.timestamp_ms = p;
            },
            None => {},
        }
        self.frame.write(bytes)
    }

    /// The renderer's side, once per tick: where a frame has arrived since
    /// the last tick, copies it into `surface` and says so; otherwise
    /// nothing changes.
    pub fn update(&mut self, surface: &mut Vec<u8>) -> (fresh: bool)
        ensures
            fresh == old(self)@.frame.dirty,
            match old(self)@.frame.fetched() {
                Some(frame) => final(surface)@ == frame,
                None => final(surface)@ == old(surface)@,
            },
            final(self)@ == old(self)@.rendered(),
    {
        self.frame.fetch(surface)
    }
}

} // verus!
