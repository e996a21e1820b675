//! The playback engine's configuration, the events its decoder reports,
//! decoded video frames, and the engine's control decisions.
//!
//! Decoding and audio output run on a thread outside the library. The
//! control logic here decides, for each request (play, pause, seek, ...),
//! the engine's next state and what to tell the decoder thread; the thread
//! plumbing carries that out.

use std::time::Duration;
use vstd::prelude::*;
use crate::errors::{JalwaError, JalwaErrorView};
use crate::status::PlaybackState;
use crate::seqs::{first, is_first, lemma_first_is, lemma_first_none};
use crate::text::{opt_seq, push_str};
use crate::media::ContainerFormat;

verus! {

/// `Clone` of `std::time::Duration`, a `Copy` type: the clone is the same
/// duration.
pub assume_specification[ <Duration as Clone>::clone ](d: &Duration) -> (res: Duration)
    ensures
        res == *d,
;

/// Playback engine configuration.
#[derive(Debug, Clone, Copy, PartialEq, Eq, Structural)]
pub struct EngineConfig {
    pub buffer_size: usize,
    pub sample_rate: u32,
    pub channels: u16,
}

impl Default for EngineConfig {
    /// Buffers of 4096 frames, 48 kHz, stereo.
    fn default() -> (c: EngineConfig)
        ensures
            c == (EngineConfig { buffer_size: 4096, sample_rate: 48000, channels: 2 }),
    {
        EngineConfig { buffer_size: 4096, sample_rate: 48000, channels: 2 }
    }
}

/// Events the decoder thread sends back to the engine and the interface.
#[derive(Debug, Clone)]
pub enum EngineEvent {
    StateChanged(PlaybackState),
    PositionUpdate(Duration),
    TrackFinished,
    TrackChanged,
    NearEnd,
    Error(String),
}

/// A decoded video frame ready for display (RGB24).
#[derive(Debug, Clone)]
pub struct DisplayFrame {
    /// RGB24 pixel data.
    pub data: Vec<u8>,
    /// Frame width in pixels.
    pub width: u32,
    /// Frame height in pixels.
    pub height: u32,
    /// Presentation timestamp.
    pub pts: Duration,
}

/// A command for the decoder thread that the control logic decides on.
#[derive(Debug, Clone, Copy, PartialEq, Eq, Structural)]
pub enum ControlCommand {
    Resume,
    Pause,
    Stop,
    /// Seek to this position, in nanoseconds.
    Seek(u128),
    Mute(bool),
    Normalize(bool),
}

/// What the engine is to do for a request.
#[derive(Debug, Clone, Copy, PartialEq, Eq, Structural)]
pub enum EngineStep {
    /// Nothing beyond the state change.
    Nothing,
    /// Send this command to the running decoder thread.
    Send(ControlCommand),
    /// Send the current equalizer settings to the running decoder thread.
    SendEqUpdate,
    /// Start a decoder thread for the current file, then record it with
    /// [`EngineControl::decoding_started`].
    StartDecoding,
}

/// The part of the playback engine's state that its control decisions
/// read and change. Times are in nanoseconds.
#[derive(Debug)]
pub struct EngineControl {
    pub state: PlaybackState,
    pub current_path: Option<String>,
    pub position_ns: u128,
    pub duration_ns: Option<u128>,
    pub muted: bool,
    pub eq_enabled: bool,
    pub normalize_enabled: bool,
    /// A decoder thread is running and takes commands.
    pub decoding: bool,
}

/// The abstract value of an [`EngineControl`].
pub struct EngineControlView {
    pub state: PlaybackState,
    pub current_path: Option<Seq<char>>,
    pub position_ns: u128,
    pub duration_ns: Option<u128>,
    pub muted: bool,
    pub eq_enabled: bool,
    pub normalize_enabled: bool,
    pub decoding: bool,
}

impl View for EngineControl {
    type V = EngineControlView;

    open spec fn view(&self) -> EngineControlView {
        EngineControlView {
            state: self.state,
            current_path: opt_seq(self.current_path),
            position_ns: self.position_ns,
            duration_ns: self.duration_ns,
            muted: self.muted,
            eq_enabled: self.eq_enabled,
            normalize_enabled: self.normalize_enabled,
            decoding: self.decoding,
        }
    }
}

/// `cmd` goes to the decoder thread if one runs.
pub open spec fn send_if(decoding: bool, cmd: ControlCommand) -> EngineStep {
    if decoding { EngineStep::Send(cmd) } else { EngineStep::Nothing }
}

impl EngineControlView {
    /// After `stop`: no decoder, stopped, at the start.
    pub open spec fn stopped(self) -> EngineControlView {
        EngineControlView { state: PlaybackState::Stopped, position_ns: 0, decoding: false, ..self }
    }

    /// The outcome of `play`.
    pub open spec fn play(self) -> (EngineControlView, Result<EngineStep, JalwaErrorView>) {
        if self.current_path is None {
            (self, Err(JalwaErrorView::Playback("no file loaded"@)))
        } else if self.state == PlaybackState::Paused {
            (EngineControlView { state: PlaybackState::Playing, ..self }, Ok(send_if(self.decoding, ControlCommand::Resume)))
        } else {
            (self, Ok(EngineStep::StartDecoding))
        }
    }

    /// The outcome of `pause`: only a playing engine pauses.
    pub open spec fn pause(self) -> (EngineControlView, EngineStep) {
        if self.state == PlaybackState::Playing {
            (EngineControlView { state: PlaybackState::Paused, ..self }, send_if(self.decoding, ControlCommand::Pause))
        } else {
            (self, EngineStep::Nothing)
        }
    }

    /// The outcome of `toggle`: a playing engine pauses, a paused or
    /// stopped one plays, a buffering one is left alone.
    pub open spec fn toggle(self) -> (EngineControlView, Result<EngineStep, JalwaErrorView>) {
        match self.state {
            PlaybackState::Playing => {
                let (s, step) = self.pause();
                (s, Ok(step))
            },
            PlaybackState::Paused | PlaybackState::Stopped => self.play(),
            PlaybackState::Buffering => (self, Ok(EngineStep::Nothing)),
        }
    }

    /// The outcome of seeking to `pos`: past the known end it is an error.
    pub open spec fn seek(self, pos: u128) -> (EngineControlView, Result<EngineStep, JalwaErrorView>) {
        match self.duration_ns {
            Some(d) => if pos > d {
                (self, Err(JalwaErrorView::Playback("seek beyond end"@)))
            } else {
                (EngineControlView { position_ns: pos, ..self }, Ok(send_if(self.decoding, ControlCommand::Seek(pos))))
            },
            None => (EngineControlView { position_ns: pos, ..self }, Ok(send_if(self.decoding, ControlCommand::Seek(pos)))),
        }
    }

    /// The state after a decoder event: a reported state is taken over, and
    /// a finished track stops the engine.
    pub open spec fn on_event_state(self, e: EngineEventKind) -> EngineControlView {
        match e {
            EngineEventKind::StateChanged(s) => EngineControlView { state: s, ..self },
            EngineEventKind::TrackFinished => EngineControlView { state: PlaybackState::Stopped, ..self },
            _ => self,
        }
    }
}

/// The kind of an [`EngineEvent`], with the reported state where there is
/// one.
pub enum EngineEventKind {
    StateChanged(PlaybackState),
    PositionUpdate,
    TrackFinished,
    TrackChanged,
    NearEnd,
    Error,
}

pub open spec fn event_kind(e: EngineEvent) -> EngineEventKind {
    match e {
        EngineEvent::StateChanged(s) => EngineEventKind::StateChanged(s),
        EngineEvent::PositionUpdate(_) => EngineEventKind::PositionUpdate,
        EngineEvent::TrackFinished => EngineEventKind::TrackFinished,
        EngineEvent::TrackChanged => EngineEventKind::TrackChanged,
        EngineEvent::NearEnd => EngineEventKind::NearEnd,
        EngineEvent::Error(_) => EngineEventKind::Error,
    }
}

impl EngineControl {
    /// A stopped engine with no file, unmuted, equalizer and normalization
    /// off, and no decoder thread.
    pub fn new() -> (e: EngineControl)
        ensures
            e@ == (EngineControlView {
                state: PlaybackState::Stopped,
                current_path: None,
                position_ns: 0,
                duration_ns: None,
                muted: false,
                eq_enabled: false,
                normalize_enabled: false,
                decoding: false,
            }),
    {
        EngineControl {
            state: PlaybackState::Stopped,
            current_path: None,
            position_ns: 0,
            duration_ns: None,
            muted: false,
            eq_enabled: false,
            normalize_enabled: false,
            decoding: false,
        }
    }

    /// Stops playback: a running decoder is told to stop (and is then
    /// joined by the caller); the engine is stopped at the start.
    pub fn stop(&mut self) -> (step: EngineStep)
        ensures
            final(self)@ == old(self)@.stopped(),
            step == send_if(old(self)@.decoding, ControlCommand::Stop),
    {
        let step = if self.decoding { EngineStep::Send(ControlCommand::Stop) } else { EngineStep::Nothing };
        self.decoding = false;
        self.state = PlaybackState::Stopped;
        self.position_ns = 0;
        step
    }

    /// Records a newly opened file (already found and probed by the
    /// caller): playback stops first, then the file is current, at its
    /// start, with the probed duration.
    pub fn open(&mut self, path: String, duration_ns: Option<u128>) -> (step: EngineStep)
        ensures
            final(self)@ == (EngineControlView {
                current_path: Some(path@),
                duration_ns: duration_ns,
                ..old(self)@.stopped()
            }),
            step == send_if(old(self)@.decoding, ControlCommand::Stop),
    {
        let step = self.stop();
        self.duration_ns = duration_ns;
        self.current_path = Some(path);
        self.position_ns = 0;
        self.state = PlaybackState::Stopped;
        step
    }

    /// Starts or resumes playback. Without a file it is an error; a paused
    /// engine resumes; otherwise a decoder thread is to be started.
    pub fn play(&mut self) -> (res: Result<EngineStep, JalwaError>)
        ensures
            (final(self)@, match res { Ok(s) => Ok(s), Err(e) => Err(e@) }) == old(self)@.play(),
    {
        if self.current_path.is_none() {
            return Err(JalwaError::Playback(String::from_str("no file loaded")));
        }
        if self.state == PlaybackState::Paused {
            self.state = PlaybackState::Playing;
            if self.decoding {
                return Ok(EngineStep::Send(ControlCommand::Resume));
            }
            return Ok(EngineStep::Nothing);
        }
        Ok(EngineStep::StartDecoding)
    }

    /// Records that a decoder thread was started for the current file.
    pub fn decoding_started(&mut self)
        ensures
            final(self)@ == (EngineControlView { state: PlaybackState::Playing, decoding: true, ..old(self)@ }),
    {
        self.decoding = true;
        self.state = PlaybackState::Playing;
    }

    /// Pauses a playing engine.
    pub fn pause(&mut self) -> (step: EngineStep)
        ensures
            (final(self)@, step) == old(self)@.pause(),
    {
        if self.state == PlaybackState::Playing {
            self.state = PlaybackState::Paused;
            if self.decoding {
                return EngineStep::Send(ControlCommand::Pause);
            }
        }
        EngineStep::Nothing
    }

    /// Toggles between playing and paused.
    pub fn toggle(&mut self) -> (res: Result<EngineStep, JalwaError>)
        ensures
            (final(self)@, match res { Ok(s) => Ok(s), Err(e) => Err(e@) }) == old(self)@.toggle(),
    {
        match self.state {
            PlaybackState::Playing => Ok(self.pause()),
            PlaybackState::Paused | PlaybackState::Stopped => self.play(),
            PlaybackState::Buffering => Ok(EngineStep::Nothing),
        }
    }

    /// Seeks to a position (nanoseconds from the start).
    pub fn seek(&mut self, position_ns: u128) -> (res: Result<EngineStep, JalwaError>)
        ensures
            (final(self)@, match res { Ok(s) => Ok(s), Err(e) => Err(e@) }) == old(self)@.seek(position_ns),
    {
        match self.duration_ns {
            Some(d) => {
                if position_ns > d {
                    return Err(JalwaError::Playback(String::from_str("seek beyond end")));
                }
            },
            None => {},
        }
        self.position_ns = position_ns;
        if self.decoding {
            Ok(EngineStep::Send(ControlCommand::Seek(position_ns)))
        } else {
            Ok(EngineStep::Nothing)
        }
    }

    /// Toggles mute.
    pub fn toggle_mute(&mut self) -> (step: EngineStep)
        ensures
            final(self)@ == (EngineControlView { muted: !old(self)@.muted, ..old(self)@ }),
            step == send_if(old(self)@.decoding, ControlCommand::Mute(!old(self)@.muted)),
    {
        self.muted = !self.muted;
        if self.decoding { EngineStep::Send(ControlCommand::Mute(self.muted)) } else { EngineStep::Nothing }
    }

    /// Toggles volume normalization.
    pub fn toggle_normalize(&mut self) -> (step: EngineStep)
        ensures
            final(self)@ == (EngineControlView { normalize_enabled: !old(self)@.normalize_enabled, ..old(self)@ }),
            step == send_if(old(self)@.decoding, ControlCommand::Normalize(!old(self)@.normalize_enabled)),
    {
        self.normalize_enabled = !self.normalize_enabled;
        if self.decoding { EngineStep::Send(ControlCommand::Normalize(self.normalize_enabled)) } else { EngineStep::Nothing }
    }

    /// Toggles the equalizer.
    pub fn toggle_eq(&mut self) -> (step: EngineStep)
        ensures
            final(self)@ == (EngineControlView { eq_enabled: !old(self)@.eq_enabled, ..old(self)@ }),
            step == if old(self)@.decoding { EngineStep::SendEqUpdate } else { EngineStep::Nothing },
    {
        self.eq_enabled = !self.eq_enabled;
        if self.decoding { EngineStep::SendEqUpdate } else { EngineStep::Nothing }
    }

    /// Takes in a decoder event.
    pub fn on_event(&mut self, event: &EngineEvent)
        ensures
            final(self)@ == old(self)@.on_event_state(event_kind(*event)),
    {
        match event {
            EngineEvent::StateChanged(s) => self.state = *s,
            EngineEvent::TrackFinished => self.state = PlaybackState::Stopped,
            _ => {},
        }
    }
}


/// What the play/pause requests do to the engine. Toggling a playing
/// engine pauses it: it becomes paused and a running decoder is told to
/// pause (nothing else happens, and no decoder is started). Toggling a
/// paused engine resumes it; toggling a stopped engine with a file starts a
/// decoder; without a file toggling fails. Toggling twice from playing, with
/// a file loaded, comes back to the same state.
pub proof fn lemma_toggle(s: EngineControlView)
    ensures
        s.state == PlaybackState::Playing ==> s.toggle() == (
            EngineControlView { state: PlaybackState::Paused, ..s },
            Ok::<EngineStep, JalwaErrorView>(if s.decoding { EngineStep::Send(ControlCommand::Pause) } else { EngineStep::Nothing }),
        ),
        s.state == PlaybackState::Playing ==> s.toggle().1 != Ok::<EngineStep, JalwaErrorView>(EngineStep::StartDecoding),
        s.state == PlaybackState::Playing ==> s.toggle() == (s.pause().0, Ok::<EngineStep, JalwaErrorView>(s.pause().1)),
        s.state == PlaybackState::Paused && s.current_path is Some ==> s.toggle() == (
            EngineControlView { state: PlaybackState::Playing, ..s },
            Ok::<EngineStep, JalwaErrorView>(if s.decoding { EngineStep::Send(ControlCommand::Resume) } else { EngineStep::Nothing }),
        ),
        s.state == PlaybackState::Stopped && s.current_path is Some
            ==> s.toggle() == (s, Ok::<EngineStep, JalwaErrorView>(EngineStep::StartDecoding)),
        (s.state == PlaybackState::Paused || s.state == PlaybackState::Stopped) && s.current_path is None
            ==> s.toggle() == (s, Err::<EngineStep, JalwaErrorView>(JalwaErrorView::Playback("no file loaded"@))),
        s.state == PlaybackState::Buffering ==> s.toggle() == (s, Ok::<EngineStep, JalwaErrorView>(EngineStep::Nothing)),
        s.state == PlaybackState::Playing && s.current_path is Some ==> s.toggle().0.toggle().0 == s,
{
}

/// Pausing: a playing engine becomes paused and a running decoder is told
/// to pause; an engine in any other state is left as it is.
pub proof fn lemma_pause(s: EngineControlView)
    ensures
        s.state == PlaybackState::Playing ==> s.pause() == (
            EngineControlView { state: PlaybackState::Paused, ..s },
            if s.decoding { EngineStep::Send(ControlCommand::Pause) } else { EngineStep::Nothing },
        ),
        s.state != PlaybackState::Playing ==> s.pause() == (s, EngineStep::Nothing),
{
}

/// Play, seek and stop. Playing without a file fails and changes nothing;
/// a paused engine resumes (a running decoder is told to); otherwise a
/// decoder is to be started. Seeking past the known end fails and changes
/// nothing; otherwise the position becomes the target and a running decoder
/// is told to seek there. Stopping leaves the engine stopped at the start
/// with no decoder.
pub proof fn lemma_play_seek_stop(s: EngineControlView, pos: u128)
    ensures
        s.current_path is None
            ==> s.play() == (s, Err::<EngineStep, JalwaErrorView>(JalwaErrorView::Playback("no file loaded"@))),
        s.current_path is Some && s.state == PlaybackState::Paused ==> s.play() == (
            EngineControlView { state: PlaybackState::Playing, ..s },
            Ok::<EngineStep, JalwaErrorView>(if s.decoding { EngineStep::Send(ControlCommand::Resume) } else { EngineStep::Nothing }),
        ),
        s.current_path is Some && s.state != PlaybackState::Paused
            ==> s.play() == (s, Ok::<EngineStep, JalwaErrorView>(EngineStep::StartDecoding)),
        (s.duration_ns matches Some(d) && pos > d)
            ==> s.seek(pos) == (s, Err::<EngineStep, JalwaErrorView>(JalwaErrorView::Playback("seek beyond end"@))),
        !(s.duration_ns matches Some(d) && pos > d) ==> s.seek(pos) == (
            EngineControlView { position_ns: pos, ..s },
            Ok::<EngineStep, JalwaErrorView>(if s.decoding { EngineStep::Send(ControlCommand::Seek(pos)) } else { EngineStep::Nothing }),
        ),
        s.stopped().state == PlaybackState::Stopped && s.stopped().position_ns == 0 && !s.stopped().decoding,
        s.stopped().current_path == s.current_path && s.stopped().duration_ns == s.duration_ns,
{
}

/// A command for the decoder thread, without the values (volume, equalizer
/// bands, the next file) that only the thread's audio processing reads.
#[derive(Debug, Clone, Copy, PartialEq, Eq, Structural)]
pub enum DecoderCommand {
    Play,
    Pause,
    Resume,
    Stop,
    /// Seek to this position, in nanoseconds.
    Seek(u128),
    Volume,
    Mute(bool),
    PrepareNext,
    EqUpdate,
    Normalize(bool),
}

/// The decoder thread's own state.
#[derive(Debug, Clone, Copy, PartialEq, Eq, Structural)]
pub struct DecoderState {
    /// Paused: the thread waits for the next command.
    pub paused: bool,
    /// The notice that the track nears its end has gone out.
    pub near_end_sent: bool,
    /// A next file is open for a gapless switch.
    pub next_ready: bool,
    pub muted: bool,
    /// Loudness normalization is on.
    pub normalize: bool,
}

/// What happens to the decoder thread.
#[derive(Debug)]
pub enum DecoderInput {
    /// A command arrived.
    Command(DecoderCommand),
    /// The file prepared for a gapless switch is open.
    NextOpened,
    /// The file to prepare could not be opened (the message says why).
    NextFailed(String),
    /// A buffer starting at `pos_ns` was decoded.
    Decoded { pos_ns: u128 },
    /// A decoded buffer could not be resampled or remixed.
    ConvertFailed(String),
    /// The decoder reached the end of the file.
    EndOfStream,
    /// Decoding failed.
    DecodeFailed(String),
    /// Writing to the audio output failed.
    OutputFailed(String),
    /// The engine's command channel closed.
    CommandsClosed,
}

/// What the decoder thread is to do.
#[derive(Debug)]
pub enum DecoderAction {
    /// Send this event to the engine.
    Report(EngineEvent),
    /// Seek the decoder to this position, in nanoseconds.
    SeekTo(u128),
    /// Clear the equalizer's filter state.
    ResetEq,
    /// Take over the equalizer settings that came with the command.
    UpdateEq,
    /// Take over the volume that came with the command.
    SetVolume,
    /// Record the paused state (with volume and mute) in the shared status.
    MarkPaused,
    /// Open the file that came with the command for a gapless switch.
    OpenNext,
    /// Continue with the prepared file.
    SwitchToNext,
    /// Stop taking commands and decode the next buffer.
    DecodeNext,
    /// Flush and close the audio output.
    FlushAndClose,
    /// Close the audio output.
    Close,
    /// End the thread.
    Exit,
}

/// The position at which less than two seconds of the track are left.
pub open spec fn near_end(duration_ns: Option<u128>, pos_ns: u128) -> bool {
    match duration_ns {
        Some(d) => d - pos_ns < 2_000_000_000,
        None => false,
    }
}

/// The decoder thread's next state and actions for an input.
pub open spec fn decoder_transition(s: DecoderState, input: DecoderInput, duration_ns: Option<u128>) -> (DecoderState, Seq<DecoderAction>) {
    match input {
        DecoderInput::Command(c) => match c {
            DecoderCommand::Stop => (s, seq![
                DecoderAction::FlushAndClose,
                DecoderAction::Report(EngineEvent::StateChanged(PlaybackState::Stopped)),
                DecoderAction::Exit,
            ]),
            DecoderCommand::Pause => (
                DecoderState { paused: true, ..s },
                seq![DecoderAction::Report(EngineEvent::StateChanged(PlaybackState::Paused)), DecoderAction::MarkPaused],
            ),
            DecoderCommand::Resume | DecoderCommand::Play => (
                DecoderState { paused: false, ..s },
                seq![DecoderAction::Report(EngineEvent::StateChanged(PlaybackState::Playing)), DecoderAction::DecodeNext],
            ),
            DecoderCommand::Seek(pos) => (s, seq![DecoderAction::SeekTo(pos), DecoderAction::ResetEq, DecoderAction::DecodeNext]),
            DecoderCommand::Volume => (s, seq![DecoderAction::SetVolume]),
            DecoderCommand::Mute(m) => (DecoderState { muted: m, ..s }, Seq::empty()),
            DecoderCommand::PrepareNext => (s, seq![DecoderAction::OpenNext]),
            DecoderCommand::EqUpdate => (s, seq![DecoderAction::UpdateEq]),
            DecoderCommand::Normalize(n) => (DecoderState { normalize: n, ..s }, Seq::empty()),
        },
        DecoderInput::NextOpened => (DecoderState { next_ready: true, ..s }, Seq::empty()),
        DecoderInput::NextFailed(m) => (s, seq![DecoderAction::Report(EngineEvent::Error(m))]),
        DecoderInput::Decoded { pos_ns } => if !s.near_end_sent && near_end(duration_ns, pos_ns) {
            (DecoderState { near_end_sent: true, ..s }, seq![DecoderAction::Report(EngineEvent::NearEnd)])
        } else {
            (s, Seq::empty())
        },
        DecoderInput::ConvertFailed(m) => (s, seq![DecoderAction::Report(EngineEvent::Error(m))]),
        DecoderInput::EndOfStream => if s.next_ready {
            (
                DecoderState { next_ready: false, near_end_sent: false, ..s },
                seq![DecoderAction::SwitchToNext, DecoderAction::ResetEq, DecoderAction::Report(EngineEvent::TrackChanged)],
            )
        } else {
            (s, seq![DecoderAction::FlushAndClose, DecoderAction::Report(EngineEvent::TrackFinished), DecoderAction::Exit])
        },
        DecoderInput::DecodeFailed(m) => (s, seq![
            DecoderAction::Report(EngineEvent::Error(m)),
            DecoderAction::FlushAndClose,
            DecoderAction::Exit,
        ]),
        DecoderInput::OutputFailed(m) => (s, seq![DecoderAction::Report(EngineEvent::Error(m)), DecoderAction::Close, DecoderAction::Exit]),
        DecoderInput::CommandsClosed => (s, seq![DecoderAction::FlushAndClose, DecoderAction::Exit]),
    }
}

impl DecoderState {
    /// The state a decoder thread starts in: playing, with no notice sent
    /// and no next file, and the engine's mute and normalization.
    pub fn new(muted: bool, normalize: bool) -> (s: DecoderState)
        ensures
            s == (DecoderState { paused: false, near_end_sent: false, next_ready: false, muted, normalize }),
    {
        DecoderState { paused: false, near_end_sent: false, next_ready: false, muted, normalize }
    }
}

fn one(a: DecoderAction) -> (v: Vec<DecoderAction>)
    ensures
        v@ == seq![a],
{
    let mut v = Vec::new();
    v.push(a);
    assert(v@ =~= seq![a]);
    v
}

fn two(a: DecoderAction, b: DecoderAction) -> (v: Vec<DecoderAction>)
    ensures
        v@ == seq![a, b],
{
    let mut v = Vec::new();
    v.push(a);
    v.push(b);
    assert(v@ =~= seq![a, b]);
    v
}

fn three(a: DecoderAction, b: DecoderAction, c: DecoderAction) -> (v: Vec<DecoderAction>)
    ensures
        v@ == seq![a, b, c],
{
    let mut v = Vec::new();
    v.push(a);
    v.push(b);
    v.push(c);
    assert(v@ =~= seq![a, b, c]);
    v
}

/// The decoder thread's decision for one input: its next state and what it
/// is to do, in order.
pub fn decoder_step(state: &mut DecoderState, input: DecoderInput, duration_ns: Option<u128>) -> (actions: Vec<DecoderAction>)
    ensures
        (*final(state), actions@) == decoder_transition(*old(state), input, duration_ns),
{
    match input {
        DecoderInput::Command(c) => match c {
            DecoderCommand::Stop => three(
                DecoderAction::FlushAndClose,
                DecoderAction::Report(EngineEvent::StateChanged(PlaybackState::Stopped)),
                DecoderAction::Exit,
            ),
            DecoderCommand::Pause => {
                state.paused = true;
                two(DecoderAction::Report(EngineEvent::StateChanged(PlaybackState::Paused)), DecoderAction::MarkPaused)
            },
            DecoderCommand::Resume | DecoderCommand::Play => {
                state.paused = false;
                two(DecoderAction::Report(EngineEvent::StateChanged(PlaybackState::Playing)), DecoderAction::DecodeNext)
            },
            DecoderCommand::Seek(pos) => three(DecoderAction::SeekTo(pos), DecoderAction::ResetEq, DecoderAction::DecodeNext),
            DecoderCommand::Volume => one(DecoderAction::SetVolume),
            DecoderCommand::Mute(m) => {
                state.muted = m;
                Vec::new()
            },
            DecoderCommand::PrepareNext => one(DecoderAction::OpenNext),
            DecoderCommand::EqUpdate => one(DecoderAction::UpdateEq),
            DecoderCommand::Normalize(n) => {
                state.normalize = n;
                Vec::new()
            },
        },
        DecoderInput::NextOpened => {
            state.next_ready = true;
            Vec::new()
        },
        DecoderInput::NextFailed(m) => one(DecoderAction::Report(EngineEvent::Error(m))),
        DecoderInput::Decoded { pos_ns } => {
            let close = match duration_ns {
                Some(d) => d < pos_ns || d - pos_ns < 2_000_000_000,
                None => false,
            };
            if !state.near_end_sent && close {
                state.near_end_sent = true;
                one(DecoderAction::Report(EngineEvent::NearEnd))
            } else {
                Vec::new()
            }
        },
        DecoderInput::ConvertFailed(m) => one(DecoderAction::Report(EngineEvent::Error(m))),
        DecoderInput::EndOfStream => {
            if state.next_ready {
                state.next_ready = false;
                state.near_end_sent = false;
                three(DecoderAction::SwitchToNext, DecoderAction::ResetEq, DecoderAction::Report(EngineEvent::TrackChanged))
            } else {
                three(DecoderAction::FlushAndClose, DecoderAction::Report(EngineEvent::TrackFinished), DecoderAction::Exit)
            }
        },
        DecoderInput::DecodeFailed(m) => three(
            DecoderAction::Report(EngineEvent::Error(m)),
            DecoderAction::FlushAndClose,
            DecoderAction::Exit,
        ),
        DecoderInput::OutputFailed(m) => three(DecoderAction::Report(EngineEvent::Error(m)), DecoderAction::Close, DecoderAction::Exit),
        DecoderInput::CommandsClosed => two(DecoderAction::FlushAndClose, DecoderAction::Exit),
    }
}

/// The near-end notice is sent at most once per track: it is sent on the
/// first decoded buffer less than two seconds from the end, a state that
/// has sent it gives no notice for any later buffer, and only the end of
/// the stream (a gapless switch to the next track) clears that state.
pub proof fn lemma_near_end_once(s: DecoderState, input: DecoderInput, duration_ns: Option<u128>, pos_ns: u128)
    ensures
        !s.near_end_sent && near_end(duration_ns, pos_ns) ==> decoder_transition(s, DecoderInput::Decoded { pos_ns }, duration_ns)
            == (DecoderState { near_end_sent: true, ..s }, seq![DecoderAction::Report(EngineEvent::NearEnd)]),
        s.near_end_sent ==> decoder_transition(s, DecoderInput::Decoded { pos_ns }, duration_ns).1.len() == 0,
        s.near_end_sent && !(input is EndOfStream) ==> decoder_transition(s, input, duration_ns).0.near_end_sent,
{
}

/// At the end of a stream, playback continues gaplessly with the prepared
/// next file (the track-change is reported and the thread goes on);
/// without one the track is reported finished and the thread exits.
pub proof fn lemma_end_of_stream(s: DecoderState, duration_ns: Option<u128>)
    ensures
        ({
            let (t, acts) = decoder_transition(s, DecoderInput::EndOfStream, duration_ns);
            &&& s.next_ready ==> !t.next_ready && !t.near_end_sent && acts.contains(DecoderAction::Report(EngineEvent::TrackChanged))
                && !acts.contains(DecoderAction::Exit)
            &&& !s.next_ready ==> acts.contains(DecoderAction::Report(EngineEvent::TrackFinished))
                && acts.last() == DecoderAction::Exit
        }),
{
    let (t, acts) = decoder_transition(s, DecoderInput::EndOfStream, duration_ns);
    if s.next_ready {
        assert(acts[2] == DecoderAction::Report(EngineEvent::TrackChanged));
        assert(acts[0] != DecoderAction::Exit && acts[1] != DecoderAction::Exit && acts[2] != DecoderAction::Exit);
    } else {
        assert(acts[1] == DecoderAction::Report(EngineEvent::TrackFinished));
    }
}

/// A stop command, in any state, reports the stopped state and ends the
/// thread after the output is flushed and closed.
pub proof fn lemma_stop_exits(s: DecoderState, duration_ns: Option<u128>)
    ensures
        ({
            let (t, acts) = decoder_transition(s, DecoderInput::Command(DecoderCommand::Stop), duration_ns);
            &&& t == s
            &&& acts[0] == DecoderAction::FlushAndClose
            &&& acts.contains(DecoderAction::Report(EngineEvent::StateChanged(PlaybackState::Stopped)))
            &&& acts.last() == DecoderAction::Exit
        }),
{
    let (t, acts) = decoder_transition(s, DecoderInput::Command(DecoderCommand::Stop), duration_ns);
    assert(acts[1] == DecoderAction::Report(EngineEvent::StateChanged(PlaybackState::Stopped)));
}

/// Pausing and then resuming a playing decoder gives back the state it had.
pub proof fn lemma_pause_resume(s: DecoderState, duration_ns: Option<u128>)
    requires
        !s.paused,
    ensures
        decoder_transition(
            decoder_transition(s, DecoderInput::Command(DecoderCommand::Pause), duration_ns).0,
            DecoderInput::Command(DecoderCommand::Resume),
            duration_ns,
        ).0 == s,
{
}



/// What `tarang::demux::detect_format` makes of a file's first bytes: the
/// container format, or the text of its error.
pub uninterp spec fn spec_detect_format(header: Seq<u8>) -> Result<ContainerFormat, Seq<char>>;

/// Calls `tarang::demux::detect_format` on a file's first bytes and turns
/// the crate's format into the library's. The result is named: a function
/// of the bytes alone. The crate's enum has exactly the library's eight
/// variants in the version built here; the last arm, which Rust requires of
/// a non-exhaustive enum, gives the format's name as an error.
#[verifier::external_body]
pub fn detect_format(header: &[u8]) -> (res: Result<ContainerFormat, String>)
    ensures
        match res {
            Ok(f) => spec_detect_format(header@) == Ok::<ContainerFormat, Seq<char>>(f),
            Err(e) => spec_detect_format(header@) == Err::<ContainerFormat, Seq<char>>(e@),
        },
{
    match tarang::demux::detect_format(header) {
        Ok(tarang::core::ContainerFormat::Mp4) => Ok(ContainerFormat::Mp4),
        Ok(tarang::core::ContainerFormat::Mkv) => Ok(ContainerFormat::Mkv),
        Ok(tarang::core::ContainerFormat::WebM) => Ok(ContainerFormat::WebM),
        Ok(tarang::core::ContainerFormat::Ogg) => Ok(ContainerFormat::Ogg),
        Ok(tarang::core::ContainerFormat::Wav) => Ok(ContainerFormat::Wav),
        Ok(tarang::core::ContainerFormat::Flac) => Ok(ContainerFormat::Flac),
        Ok(tarang::core::ContainerFormat::Mp3) => Ok(ContainerFormat::Mp3),
        Ok(tarang::core::ContainerFormat::Avi) => Ok(ContainerFormat::Avi),
        Ok(other) => Err(format!("{other:?}")),
        Err(e) => Err(e.to_string()),
    }
}

/// The containers video playback can demux.
#[derive(Debug, Clone, Copy, PartialEq, Eq, Structural)]
pub enum VideoContainer {
    Mp4,
    Mkv,
}

/// A format's variant name, as `{:?}` writes it.
pub open spec fn format_name(f: ContainerFormat) -> Seq<char> {
    match f {
        ContainerFormat::Mp4 => "Mp4"@,
        ContainerFormat::Mkv => "Mkv"@,
        ContainerFormat::WebM => "WebM"@,
        ContainerFormat::Ogg => "Ogg"@,
        ContainerFormat::Wav => "Wav"@,
        ContainerFormat::Flac => "Flac"@,
        ContainerFormat::Mp3 => "Mp3"@,
        ContainerFormat::Avi => "Avi"@,
    }
}

/// The container to demux for a detection result: MP4 and Matroska are
/// played; any other format, and a failed detection, give the error the
/// player reports.
pub open spec fn video_container_of(detected: Result<ContainerFormat, Seq<char>>) -> Result<VideoContainer, Seq<char>> {
    match detected {
        Ok(ContainerFormat::Mp4) => Ok(VideoContainer::Mp4),
        Ok(ContainerFormat::Mkv) => Ok(VideoContainer::Mkv),
        Ok(f) => Err("unsupported video container: "@ + format_name(f)),
        Err(e) => Err("detect format: "@ + e),
    }
}

/// The view of a result whose error is a string.
pub open spec fn str_result<A>(r: Result<A, String>) -> Result<A, Seq<char>> {
    match r {
        Ok(a) => Ok(a),
        Err(e) => Err(e@),
    }
}

fn push_format_name(s: &mut String, f: ContainerFormat)
    ensures
        final(s)@ == old(s)@ + format_name(f),
{
    match f {
        ContainerFormat::Mp4 => push_str(s, "Mp4"),
        ContainerFormat::Mkv => push_str(s, "Mkv"),
        ContainerFormat::WebM => push_str(s, "WebM"),
        ContainerFormat::Ogg => push_str(s, "Ogg"),
        ContainerFormat::Wav => push_str(s, "Wav"),
        ContainerFormat::Flac => push_str(s, "Flac"),
        ContainerFormat::Mp3 => push_str(s, "Mp3"),
        ContainerFormat::Avi => push_str(s, "Avi"),
    }
}

/// Chooses the demuxer for a detection result.
pub fn video_demuxer_for(detected: Result<ContainerFormat, String>) -> (res: Result<VideoContainer, String>)
    ensures
        str_result(res) == video_container_of(str_result(detected)),
{
    match detected {
        Ok(ContainerFormat::Mp4) => Ok(VideoContainer::Mp4),
        Ok(ContainerFormat::Mkv) => Ok(VideoContainer::Mkv),
        Ok(f) => {
            let mut m = String::from_str("unsupported video container: ");
            push_format_name(&mut m, f);
            Err(m)
        },
        Err(e) => {
            let mut m = String::from_str("detect format: ");
            push_str(&mut m, e.as_str());
            Err(m)
        },
    }
}

/// Detects a video file's container from its first bytes and chooses the
/// demuxer for it.
pub fn video_container(header: &[u8]) -> (res: Result<VideoContainer, String>)
    ensures
        str_result(res) == video_container_of(spec_detect_format(header@)),
{
    let detected = detect_format(header);
    video_demuxer_for(detected)
}

/// The kind of a stream in a media container.
#[derive(Debug, Clone, Copy, PartialEq, Eq, Structural)]
pub enum StreamKind {
    Audio,
    Video,
    Other,
}

/// The streams video playback takes: the first video stream, and the first
/// audio stream if there is one.
#[derive(Debug, Clone, Copy, PartialEq, Eq, Structural)]
pub struct VideoStreams {
    pub video: usize,
    pub audio: Option<usize>,
}

/// Index of the first stream of a kind.
pub open spec fn first_stream(kinds: Seq<StreamKind>, k: StreamKind) -> Option<int> {
    first(stream_is(kinds, k), kinds.len() as int)
}

/// Stream `i` is of kind `k`.
pub open spec fn stream_is(kinds: Seq<StreamKind>, k: StreamKind) -> spec_fn(int) -> bool {
    |i: int| kinds[i] == k
}

/// The streams video playback takes from a container; none without a
/// video stream.
pub open spec fn chosen_streams(kinds: Seq<StreamKind>) -> Option<VideoStreams> {
    match first_stream(kinds, StreamKind::Video) {
        Some(v) => Some(VideoStreams {
            video: v as usize,
            audio: match first_stream(kinds, StreamKind::Audio) {
                Some(a) => Some(a as usize),
                None => None,
            },
        }),
        None => None,
    }
}

fn find_stream(kinds: &Vec<StreamKind>, k: StreamKind) -> (res: Option<usize>)
    ensures
        match res {
            Some(i) => first_stream(kinds@, k) == Some(i as int),
            None => first_stream(kinds@, k) is None,
        },
{
    let ghost p = stream_is(kinds@, k);
    let mut i: usize = 0;
    while i < kinds.len()
        invariant
            i <= kinds.len(),
            p == stream_is(kinds@, k),
            forall|j: int| 0 <= j < i ==> !#[trigger] p(j),
        decreases kinds.len() - i,
    {
        let here = kinds[i] == k;
        if here {
            proof {
                assert(kinds@[i as int] == k);
                assert(p(i as int));
                assert(is_first(p, kinds@.len() as int, i as int));
                lemma_first_is(p, kinds@.len() as int, i as int);
            }
            return Some(i);
        }
        i = i + 1;
    }
    proof {
        lemma_first_none(p, kinds@.len() as int);
    }
    None
}

/// Chooses the streams to play from a container's streams, in order.
pub fn choose_streams(kinds: &Vec<StreamKind>) -> (res: Option<VideoStreams>)
    ensures
        res == chosen_streams(kinds@),
{
    match find_stream(kinds, StreamKind::Video) {
        Some(v) => Some(VideoStreams { video: v, audio: find_stream(kinds, StreamKind::Audio) }),
        None => None,
    }
}

/// The video decoder thread's own state.
#[derive(Debug, Clone, Copy, PartialEq, Eq, Structural)]
pub struct VideoState {
    pub paused: bool,
    pub muted: bool,
}

/// What happens to the video decoder thread.
#[derive(Debug)]
pub enum VideoInput {
    Command(DecoderCommand),
    /// The demuxer read a packet of stream `stream`.
    Packet { stream: usize },
    EndOfStream,
    /// Demuxing failed (the message says why).
    DemuxFailed(String),
    CommandsClosed,
}

/// What the video decoder thread is to do.
#[derive(Debug)]
pub enum VideoAction {
    Report(EngineEvent),
    SeekTo(u128),
    SetVolume,
    MarkPaused,
    DecodeNext,
    /// Decode the packet and send its frames for display.
    DecodeVideo,
    /// Write the packet to the audio output.
    WriteAudio,
    /// Flush the video decoder and send its last frames for display.
    DrainVideo,
    FlushAndClose,
    Exit,
}

/// The video decoder thread's next state and actions for an input; the
/// equalizer, normalization and gapless commands do nothing in video mode.
pub open spec fn video_transition(s: VideoState, streams: VideoStreams, input: VideoInput) -> (VideoState, Seq<VideoAction>) {
    match input {
        VideoInput::Command(c) => match c {
            DecoderCommand::Stop => (s, seq![
                VideoAction::FlushAndClose,
                VideoAction::Report(EngineEvent::StateChanged(PlaybackState::Stopped)),
                VideoAction::Exit,
            ]),
            DecoderCommand::Pause => (
                VideoState { paused: true, ..s },
                seq![VideoAction::Report(EngineEvent::StateChanged(PlaybackState::Paused)), VideoAction::MarkPaused],
            ),
            DecoderCommand::Resume | DecoderCommand::Play => (
                VideoState { paused: false, ..s },
                seq![VideoAction::Report(EngineEvent::StateChanged(PlaybackState::Playing)), VideoAction::DecodeNext],
            ),
            DecoderCommand::Seek(pos) => (s, seq![VideoAction::SeekTo(pos), VideoAction::DecodeNext]),
            DecoderCommand::Volume => (s, seq![VideoAction::SetVolume]),
            DecoderCommand::Mute(m) => (VideoState { muted: m, ..s }, Seq::empty()),
            _ => (s, Seq::empty()),
        },
        VideoInput::Packet { stream } => if stream == streams.video {
            (s, seq![VideoAction::DecodeVideo])
        } else if streams.audio == Some(stream) {
            (s, seq![VideoAction::WriteAudio])
        } else {
            (s, Seq::empty())
        },
        VideoInput::EndOfStream => (s, seq![
            VideoAction::DrainVideo,
            VideoAction::FlushAndClose,
            VideoAction::Report(EngineEvent::TrackFinished),
            VideoAction::Exit,
        ]),
        VideoInput::DemuxFailed(m) => (s, seq![VideoAction::Report(EngineEvent::Error(m)), VideoAction::Exit]),
        VideoInput::CommandsClosed => (s, seq![VideoAction::Exit]),
    }
}

fn vacts(a: Option<VideoAction>, b: Option<VideoAction>, c: Option<VideoAction>, d: Option<VideoAction>) -> (v: Vec<VideoAction>)
    ensures
        v@ == opt_seq_of(a) + opt_seq_of(b) + opt_seq_of(c) + opt_seq_of(d),
{
    let ghost (ga, gb, gc, gd) = (a, b, c, d);
    let mut v = Vec::new();
    match a { Some(x) => v.push(x), None => {} }
    assert(v@ =~= opt_seq_of(ga));
    match b { Some(x) => v.push(x), None => {} }
    assert(v@ =~= opt_seq_of(ga) + opt_seq_of(gb));
    match c { Some(x) => v.push(x), None => {} }
    assert(v@ =~= opt_seq_of(ga) + opt_seq_of(gb) + opt_seq_of(gc));
    match d { Some(x) => v.push(x), None => {} }
    assert(v@ =~= opt_seq_of(ga) + opt_seq_of(gb) + opt_seq_of(gc) + opt_seq_of(gd));
    v
}

pub open spec fn opt_seq_of<A>(o: Option<A>) -> Seq<A> {
    match o {
        Some(x) => seq![x],
        None => Seq::empty(),
    }
}

/// The video decoder thread's decision for one input.
pub fn video_step(state: &mut VideoState, streams: VideoStreams, input: VideoInput) -> (actions: Vec<VideoAction>)
    ensures
        (*final(state), actions@) == video_transition(*old(state), streams, input),
{
    let res = match input {
        VideoInput::Command(c) => match c {
            DecoderCommand::Stop => vacts(
                Some(VideoAction::FlushAndClose),
                Some(VideoAction::Report(EngineEvent::StateChanged(PlaybackState::Stopped))),
                Some(VideoAction::Exit),
                None,
            ),
            DecoderCommand::Pause => {
                state.paused = true;
                vacts(Some(VideoAction::Report(EngineEvent::StateChanged(PlaybackState::Paused))), Some(VideoAction::MarkPaused), None, None)
            },
            DecoderCommand::Resume | DecoderCommand::Play => {
                state.paused = false;
                vacts(Some(VideoAction::Report(EngineEvent::StateChanged(PlaybackState::Playing))), Some(VideoAction::DecodeNext), None, None)
            },
            DecoderCommand::Seek(pos) => vacts(Some(VideoAction::SeekTo(pos)), Some(VideoAction::DecodeNext), None, None),
            DecoderCommand::Volume => vacts(Some(VideoAction::SetVolume), None, None, None),
            DecoderCommand::Mute(m) => {
                state.muted = m;
                Vec::new()
            },
            _ => Vec::new(),
        },
        VideoInput::Packet { stream } => {
            if stream == streams.video {
                vacts(Some(VideoAction::DecodeVideo), None, None, None)
            } else if streams.audio == Some(stream) {
                vacts(Some(VideoAction::WriteAudio), None, None, None)
            } else {
                Vec::new()
            }
        },
        VideoInput::EndOfStream => vacts(
            Some(VideoAction::DrainVideo),
            Some(VideoAction::FlushAndClose),
            Some(VideoAction::Report(EngineEvent::TrackFinished)),
            Some(VideoAction::Exit),
        ),
        VideoInput::DemuxFailed(m) => vacts(Some(VideoAction::Report(EngineEvent::Error(m))), Some(VideoAction::Exit), None, None),
        VideoInput::CommandsClosed => vacts(Some(VideoAction::Exit), None, None, None),
    };
    proof {
        let (ns, acts) = video_transition(*old(state), streams, input);
        assert(res@ =~= acts);
    }
    res
}

} // verus!
