//! The player's playback engine as a state machine. It decides; whoever
//! owns the decode pipeline carries out what it asks for: tear the pipeline
//! down, open one, set it running or paused, seek.
//!
//! A player holds at most one session, and a session is what a pipeline is
//! opened for. A new start tears the running session down before anything
//! is probed or opened, so two pipelines never run side by side.

use crate::command::{CommandView, ProjectorCommand};
use crate::media::{LoadError, VideoMetadata};
use crate::session::{Control, PlaybackRate, SeekRequest, Session, SessionView};
use crate::frame::frame_len;
use vstd::prelude::*;

verus! {

/// Where the engine stands.
#[derive(Debug, Clone, Copy, PartialEq, Eq, Structural)]
pub enum Phase {
    /// Nothing has been started, or playback was stopped.
    Idle,
    /// A start was accepted; the file is being probed.
    Loading,
    /// A session is running.
    Playing,
    /// A session is paused.
    Paused,
    /// The session has reached the end of its stream.
    Finished,
    /// The start failed; no session came of it.
    Error,
}

/// How a call of `finish_start` ended.
#[derive(Debug, Clone, Copy, PartialEq, Eq, Structural)]
pub enum StartOutcome {
    /// A session is alive; its pipeline is to be set running.
    Started,
    /// The start has failed and no session came of it.
    Failed(LoadError),
    /// The player was not loading; nothing has changed.
    Ignored,
}

/// A load for the caller to carry out: probe `path`, open its pipeline, and
/// tell `finish_start` how it went.
#[derive(Debug, Clone, PartialEq, Eq)]
pub struct StartRequest {
    /// The path of the media file, as the controller sent it.
    pub path: String,
    /// The text of the entry's skip policy. The engine does not act on it.
    pub skip: String,
    /// Whether a session was alive, whose pipeline is to be stopped and
    /// released before anything else is done.
    pub teardown: bool,
}

/// A player as plain values.
pub struct PlayerView {
    pub phase: Phase,
    /// The session that is alive, if one is.
    pub session: Option<SessionView>,
    /// Why the latest start failed, while the phase is `Error`.
    pub error: Option<LoadError>,
}

impl PlayerView {
    /// A session is alive exactly while the phase is `Playing` or `Paused`,
    /// and the phase says which of the two the session is in. An error is
    /// kept exactly while the phase is `Error`.
    pub open spec fn wf(self) -> bool {
        &&& self.session is Some <==> (self.phase is Playing || self.phase is Paused)
        &&& self.session matches Some(s) ==> (s.paused <==> self.phase is Paused)
        &&& self.error is Some <==> self.phase is Error
    }

    /// The number of sessions alive, and so of pipelines that may run.
    pub open spec fn live_sessions(self) -> nat {
        if self.session is Some {
            1
        } else {
            0
        }
    }

    /// The player that has not started anything.
    pub open spec fn idle() -> PlayerView {
        PlayerView { phase: Phase::Idle, session: None, error: None }
    }

    /// The player after a start was accepted: whatever ran is gone, and the
    /// probe is under way.
    pub open spec fn loading() -> PlayerView {
        PlayerView { phase: Phase::Loading, session: None, error: None }
    }

    /// The player after a start has failed with `error`.
    pub open spec fn failed(error: LoadError) -> PlayerView {
        PlayerView { phase: Phase::Error, session: None, error: Some(error) }
    }

    /// The player after its session has ended.
    pub open spec fn finished() -> PlayerView {
        PlayerView { phase: Phase::Finished, session: None, error: None }
    }

    /// The player that holds `session`.
    pub open spec fn holding(session: SessionView) -> PlayerView {
        PlayerView {
            phase: if session.paused {
                Phase::Paused
            } else {
                Phase::Playing
            },
            session: Some(session),
            error: None,
        }
    }

    /// How a load that was under way ends: with a running session on the
    /// metadata, or with the error of the load, or with `ProbeFailed` where
    /// a frame of the video would be too large to hold.
    pub open spec fn load_result(loaded: Result<VideoMetadata, LoadError>) -> Result<
        SessionView,
        LoadError,
    > {
        match loaded {
            Ok(info) => if frame_len(info.width, info.height) <= usize::MAX {
                Ok(SessionView::opened(info))
            } else {
                Err(LoadError::ProbeFailed)
            },
            Err(e) => Err(e),
        }
    }

    /// The player after the load has ended so, where it was loading; the
    /// player as it is where it was not.
    pub open spec fn finish_start(self, loaded: Result<VideoMetadata, LoadError>) -> PlayerView {
        if self.phase is Loading {
            match Self::load_result(loaded) {
                Ok(session) => Self::holding(session),
                Err(e) => Self::failed(e),
            }
        } else {
            self
        }
    }

    /// What `finish_start` answers.
    pub open spec fn start_outcome(self, loaded: Result<VideoMetadata, LoadError>) -> StartOutcome {
        if self.phase is Loading {
            match Self::load_result(loaded) {
                Ok(_) => StartOutcome::Started,
                Err(e) => StartOutcome::Failed(e),
            }
        } else {
            StartOutcome::Ignored
        }
    }

    /// The player after `control`: it reaches the session, where one is
    /// alive, and is lost on a player without one.
    pub open spec fn control(self, control: Control) -> PlayerView {
        match self.session {
            Some(s) => Self::holding(s.control(control)),
            None => self,
        }
    }

    /// The player after the pipeline was asked whether the stream has
    /// ended: a session that has ended is gone.
    pub open spec fn poll_end(self, end_of_stream: bool) -> PlayerView {
        if self.session is Some && end_of_stream {
            Self::finished()
        } else {
            self
        }
    }

    /// The player after an explicit stop: a session that was alive is gone
    /// and the player is idle; without one nothing changes.
    pub open spec fn stop(self) -> PlayerView {
        if self.session is Some {
            Self::idle()
        } else {
            self
        }
    }
}

/// One step of the engine.
pub enum Step {
    /// A start is accepted.
    BeginStart,
    /// The load that a start began ends, with the metadata of the file
    /// whose pipeline stands ready or with the reason why there is none.
    FinishStart(Result<VideoMetadata, LoadError>),
    /// Something is done to the session.
    Control(Control),
    /// The pipeline is asked whether its stream has ended.
    PollEnd(bool),
    /// Playback is stopped.
    Stop,
}

impl PlayerView {
    /// The player after `step`.
    pub open spec fn step(self, step: Step) -> PlayerView {
        match step {
            Step::BeginStart => Self::loading(),
            Step::FinishStart(loaded) => self.finish_start(loaded),
            Step::Control(control) => self.control(control),
            Step::PollEnd(end_of_stream) => self.poll_end(end_of_stream),
            Step::Stop => self.stop(),
        }
    }

    /// Whether `step` ends a session, whose pipeline is then to be stopped
    /// and released.
    pub open spec fn tears_down(self, step: Step) -> bool {
        self.session is Some && match step {
            Step::BeginStart => true,
            Step::PollEnd(end_of_stream) => end_of_stream,
            Step::Stop => true,
            _ => false,
        }
    }

    /// Whether `step` brings a session to life, whose pipeline is then to
    /// be set running.
    pub open spec fn opens(self, step: Step) -> bool {
        step matches Step::FinishStart(loaded) && self.start_outcome(loaded) is Started
    }
}

/// The player after a run of steps, from the idle player on.
pub open spec fn run(steps: Seq<Step>) -> PlayerView
    decreases steps.len(),
{
    if steps.len() == 0 {
        PlayerView::idle()
    } else {
        run(steps.drop_last()).step(steps.last())
    }
}

/// The number of pipelines that run after a run of steps, where whoever
/// owns them does as the engine says: one more for each session that came
/// to life, one less for each that ended.
pub open spec fn pipelines(steps: Seq<Step>) -> int
    decreases steps.len(),
{
    if steps.len() == 0 {
        0
    } else {
        let before = run(steps.drop_last());
        pipelines(steps.drop_last()) + (if before.opens(steps.last()) {
            1int
        } else {
            0int
        }) - (if before.tears_down(steps.last()) {
            1int
        } else {
            0int
        })
    }
}

/// A step keeps the player well-formed.
pub proof fn lemma_step_keeps_wf(player: PlayerView, step: Step)
    requires
        player.wf(),
    ensures
        player.step(step).wf(),
{
}

/// A session comes to life only on a player that is loading, which has
/// none: the session that ran before the start was torn down when the
/// start was accepted.
pub proof fn lemma_start_preempts(player: PlayerView, step: Step)
    requires
        player.wf(),
    ensures
        player.step(Step::BeginStart).live_sessions() == 0,
        player.tears_down(Step::BeginStart) <==> player.live_sessions() == 1,
        player.opens(step) ==> player.phase is Loading && player.live_sessions() == 0
            && player.step(step).live_sessions() == 1,
        step is FinishStart && !(player.phase is Loading) ==> player.step(step) == player,
{
}

/// Two pipelines never run side by side: whatever the steps, at most one
/// pipeline runs after them, and one runs exactly while a session is
/// alive.
pub proof fn lemma_never_two_pipelines(steps: Seq<Step>)
    ensures
        run(steps).wf(),
        pipelines(steps) == run(steps).live_sessions(),
        0 <= pipelines(steps) <= 1,
    decreases steps.len(),
{
    if steps.len() > 0 {
        lemma_never_two_pipelines(steps.drop_last());
        lemma_step_keeps_wf(run(steps.drop_last()), steps.last());
    }
}

/// A failed start leaves nothing behind that a later start could trip
/// over: the start that follows it ends as it would have ended on a fresh
/// player.
pub proof fn lemma_failed_start_leaves_no_trace(
    error: LoadError,
    loaded: Result<VideoMetadata, LoadError>,
)
    ensures
        PlayerView::failed(error).live_sessions() == 0,
        PlayerView::failed(error).step(Step::BeginStart).step(Step::FinishStart(loaded))
            == PlayerView::idle().step(Step::BeginStart).step(Step::FinishStart(loaded)),
{
}

/// The engine's states. A session is held by the two states in which one
/// is alive and by no other.
#[derive(Debug)]
enum State {
    Idle,
    Loading,
    Active(Session),
    Finished,
    Failed(LoadError),
}

/// The player's playback engine.
#[derive(Debug)]
pub struct Player {
    state: State,
}

impl View for Player {
    type V = PlayerView;

    closed spec fn view(&self) -> PlayerView {
        match self.state {
            State::Idle => PlayerView::idle(),
            State::Loading => PlayerView::loading(),
            State::Active(session) => PlayerView::holding(session@),
            State::Finished => PlayerView::finished(),
            State::Failed(e) => PlayerView::failed(e),
        }
    }
}

impl Player {
    /// Every player is well-formed.
    pub proof fn lemma_wf(self)
        ensures
            self@.wf(),
    {
    }

    /// The player that has not started anything.
    pub fn new() -> (player: Player)
        ensures
            player@ == PlayerView::idle(),
    {
        Player { state: State::Idle }
    }

    /// Where the engine stands.
    pub fn phase(&self) -> (phase: Phase)
        ensures
            phase == self@.phase,
            self@.wf(),
    {
        match &self.state {
            State::Idle => Phase::Idle,
            State::Loading => Phase::Loading,
            State::Active(session) => if session.is_paused() {
                Phase::Paused
            } else {
                Phase::Playing
            },
            State::Finished => Phase::Finished,
            State::Failed(_) => Phase::Error,
        }
    }

    /// The session that is alive, if one is.
    pub fn session(&self) -> (session: Option<&Session>)
        ensures
            match session {
                Some(s) => self@.session == Some(s@),
                None => self@.session is None,
            },
            self@.wf(),
    {
        match &self.state {
            State::Active(session) => Some(session),
            _ => None,
        }
    }

    /// Why the latest start failed, while the phase is `Error`.
    pub fn error(&self) -> (error: Option<LoadError>)
        ensures
            error == self@.error,
            self@.wf(),
    {
        match &self.state {
            State::Failed(e) => Some(*e),
            _ => None,
        }
    }

    /// Accepts a start: the player is loading, and the session that was
    /// alive is gone. Says whether there was one, whose pipeline is to be
    /// stopped and released before the new file is probed.
    pub fn begin_start(&mut self) -> (teardown: bool)
        ensures
            teardown == old(self)@.tears_down(Step::BeginStart),
            final(self)@ == old(self)@.step(Step::BeginStart),
    {
        let teardown = match &self.state {
            State::Active(_) => true,
            _ => false,
        };
        self.state = State::Loading;
        teardown
    }

    /// Takes a message from the controller. A `Start` is accepted as by
    /// `begin_start`, and what is then to be done comes back; anything else
    /// is no command, and nothing changes.
    pub fn on_command(&mut self, command: ProjectorCommand) -> (request: Option<StartRequest>)
        ensures
            match request {
                Some(r) => command@ == (CommandView::Start { path: r.path@, skip: r.skip@ })
                    && r.teardown == old(self)@.tears_down(Step::BeginStart) && final(self)@
                    == old(self)@.step(Step::BeginStart),
                None => command@ is VideoEnded && final(self)@ == old(self)@,
            },
    {
        match command {
            ProjectorCommand::Start { path, skip } => {
                let teardown = self.begin_start();
                Some(StartRequest { path, skip, teardown })
            },
            ProjectorCommand::VideoEnded => None,
        }
    }

    /// Ends the load that `begin_start` began. `loaded` is the metadata of
    /// the file whose pipeline stands ready, or the reason why there is
    /// none. Where the player was not loading, nothing changes.
    pub fn finish_start(&mut self, loaded: Result<VideoMetadata, LoadError>) -> (outcome:
        StartOutcome)
        ensures
            final(self)@ == old(self)@.step(Step::FinishStart(loaded)),
            outcome == old(self)@.start_outcome(loaded),
    {
        match &self.state {
            State::Loading => {},
            _ => {
                return StartOutcome::Ignored;
            },
        }
        let opened = match loaded {
            Ok(info) => Session::open(info),
            Err(e) => Err(e),
        };
        match opened {
            Ok(session) => {
                self.state = State::Active(session);
                StartOutcome::Started
            },
            Err(e) => {
                self.state = State::Failed(e);
                StartOutcome::Failed(e)
            },
        }
    }

    /// Resumes the session, where one is alive, and says whether one is:
    /// its pipeline is then to be set running.
    pub fn play(&mut self) -> (alive: bool)
        ensures
            alive == old(self)@.session is Some,
            final(self)@ == old(self)@.step(Step::Control(Control::Play)),
    {
        match &mut self.state {
            State::Active(session) => {
                session.play();
                true
            },
            _ => false,
        }
    }

    /// Pauses the session, where one is alive, and says whether one is:
    /// its pipeline is then to be set paused.
    pub fn pause(&mut self) -> (alive: bool)
        ensures
            alive == old(self)@.session is Some,
            final(self)@ == old(self)@.step(Step::Control(Control::Pause)),
    {
        match &mut self.state {
            State::Active(session) => {
                session.pause();
                true
            },
            _ => false,
        }
    }

    /// Seeks the session, where one is alive, to `target_ms` brought into
    /// the range from zero to the duration, and hands back the request for
    /// its pipeline.
    pub fn seek(&mut self, target_ms: i64) -> (request: Option<SeekRequest>)
        ensures
            final(self)@ == old(self)@.step(Step::Control(Control::Seek(target_ms as int))),
            match request {
                Some(request) => old(self)@.session matches Some(s) && request.position_ms
                    == s.seek_position(target_ms as int) && request.rate@ == s.rate_permille,
                None => old(self)@.session is None,
            },
    {
        match &mut self.state {
            State::Active(session) => Some(session.seek(target_ms)),
            _ => None,
        }
    }

    /// Seeks the session, where one is alive, to its published timestamp
    /// moved by `delta_ms`, and hands back the request for its pipeline.
    pub fn seek_relative(&mut self, delta_ms: i64) -> (request: Option<SeekRequest>)
        ensures
            final(self)@ == old(self)@.step(Step::Control(Control::SeekRelative(delta_ms as int))),
            match request {
                Some(request) => old(self)@.session matches Some(s) && request.position_ms
                    == s.seek_position(s.timestamp_ms + delta_ms) && request.rate@
                    == s.rate_permille,
                None => old(self)@.session is None,
            },
    {
        match &mut self.state {
            State::Active(session) => Some(session.seek_relative(delta_ms)),
            _ => None,
        }
    }

    /// Asks for another rate of the session, where one is alive, and hands
    /// back the request for its pipeline: a seek to the published timestamp
    /// at the new rate. The session keeps its rate until `rate_settled` is
    /// told that the pipeline took the seek.
    pub fn set_rate(&mut self, rate: PlaybackRate) -> (request: Option<SeekRequest>)
        ensures
            final(self)@ == old(self)@.step(Step::Control(Control::SetRate(rate@))),
            match request {
                Some(request) => old(self)@.session matches Some(s) && request.position_ms
                    == s.timestamp_ms && request.rate@ == rate@,
                None => old(self)@.session is None,
            },
    {
        match &mut self.state {
            State::Active(session) => Some(session.set_rate(rate)),
            _ => None,
        }
    }

    /// Takes the pipeline's answer to the seek that `set_rate` asked for.
    /// Where the pipeline took it, the session plays at the new rate; where
    /// it refused, the session is as it was before the rate was asked for.
    /// Says whether the rate was taken.
    pub fn rate_settled(&mut self, accepted: bool) -> (taken: bool)
        ensures
            final(self)@ == old(self)@.step(Step::Control(Control::RateSettled(accepted))),
            taken == (old(self)@.session matches Some(s) && s.pending_rate is Some && accepted),
    {
        match &mut self.state {
            State::Active(session) => session.rate_settled(accepted),
            _ => false,
        }
    }

    /// The decoder's side: hands a decoded frame and the pipeline's
    /// position to the session, where one is alive. Says whether the frame
    /// was taken.
    pub fn frame_decoded(&mut self, position_ms: Option<u64>, bytes: &[u8]) -> (taken: bool)
        ensures
            final(self)@ == old(self)@.step(
                Step::Control(Control::FrameDecoded(position_ms, bytes@)),
            ),
            taken == (old(self)@.session matches Some(s) && bytes@.len() == s.frame.bytes.len()),
    {
        match &mut self.state {
            State::Active(session) => session.frame_decoded(position_ms, bytes),
            _ => false,
        }
    }

    /// The renderer's side, once per tick: where a session is alive and a
    /// frame has arrived since the last tick, copies it into `surface` and
    /// says so; otherwise nothing changes.
    pub fn update(&mut self, surface: &mut Vec<u8>) -> (fresh: bool)
        ensures
            final(self)@ == old(self)@.step(Step::Control(Control::Update)),
            fresh == (old(self)@.session matches Some(s) && s.frame.dirty),
            match old(self)@.session {
                Some(s) => match s.frame.fetched() {
                    Some(frame) => final(surface)@ == frame,
                    None => final(surface)@ == old(surface)@,
                },
                None => final(surface)@ == old(surface)@,
            },
    {
        match &mut self.state {
            State::Active(session) => session.update(surface),
            _ => false,
        }
    }

    /// Takes note of whether the pipeline has reported the end of its
    /// stream since it was last asked. Where it has, the session is gone,
    /// its pipeline is to be stopped and released, and the `VideoEnded`
    /// that comes back is to be sent to the controller. Nothing is replayed.
    pub fn poll_end(&mut self, end_of_stream: bool) -> (event: Option<ProjectorCommand>)
        ensures
            final(self)@ == old(self)@.step(Step::PollEnd(end_of_stream)),
            match event {
                Some(event) => old(self)@.session is Some && end_of_stream && event
                    == ProjectorCommand::VideoEnded,
                None => !(old(self)@.session is Some && end_of_stream),
            },
    {
        let alive = match &self.state {
            State::Active(_) => true,
            _ => false,
        };
        if alive && end_of_stream {
            self.state = State::Finished;
            Some(ProjectorCommand::VideoEnded)
        } else {
            None
        }
    }

    /// Stops playback: the session that was alive is gone and the player is
    /// idle. Says whether there was one, whose pipeline is to be stopped
    /// and released.
    pub fn stop(&mut self) -> (teardown: bool)
        ensures
            teardown == old(self)@.tears_down(Step::Stop),
            final(self)@ == old(self)@.step(Step::Stop),
    {
        let alive = match &self.state {
            State::Active(_) => true,
            _ => false,
        };
        if alive {
            self.state = State::Idle;
        }
        alive
    }
}

} // verus!
