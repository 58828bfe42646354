//! The state a caller and the worker share: what the caller last asked for
//! and what the worker last reported.
//!
//! A caller changes it through commands and reads it through queries; the
//! worker applies what it finds there and writes back the position, errors
//! and the end of the stream. Every function here is one short, complete
//! change, so a lock held around each call gives both sides a consistent
//! picture.

use vstd::prelude::*;
use crate::error::OpenFailure;
use crate::error::SoundError;
use crate::states::State;
use crate::stream_info::spec_stream_duration;
use crate::stream_info::stream_duration;
use crate::stream_info::Span;
use crate::stream_info::StreamInfo;

verus! {

/// The number of refills in a row that found the device starved from which
/// an underrun counts as sustained.
pub const SUSTAINED_UNDERRUNS: u32 = 2;

/// A request a caller makes of a stream.
#[derive(Clone, Copy, Debug, PartialEq, Eq, Structural)]
pub enum Command {
    /// Start, or resume after a pause.
    Play,
    /// Hold playback where it is.
    Pause,
    /// End playback and go back to the first frame.
    Stop,
    /// Turn looping on or off.
    SetLooping(bool),
    /// Continue from the given frame.
    SetOffset(u64),
}

impl Command {
    /// The transport state a command asks for, if it asks for one.
    pub open spec fn target(self) -> Option<State> {
        match self {
            Command::Play => Some(State::Playing),
            Command::Pause => Some(State::Paused),
            Command::Stop => Some(State::Stopped),
            Command::SetLooping(_) => None,
            Command::SetOffset(_) => None,
        }
    }
}

/// The shared playback state as a plain value.
pub struct PlaybackView {
    /// What the decoder reported about the stream.
    pub info: StreamInfo,
    /// The transport state last asked for, or forced by the worker.
    pub transport: State,
    /// Whether the stream starts over when it reaches its end.
    pub looping: bool,
    /// The frame a caller asked to continue from, until the worker applies it.
    pub pending_seek: Option<u64>,
    /// The last error of the decoder or the device.
    pub error: Option<SoundError>,
    /// Whether the device context has been lost.
    pub device_lost: bool,
    /// The frame the worker has decoded up to.
    pub position: u64,
    /// How many refills in a row found the device starved.
    pub underruns: u32,
    /// Whether the stream is being torn down.
    pub terminate: bool,
}

impl PlaybackView {
    /// The state of a stream that has just been opened.
    pub open spec fn initial(info: StreamInfo) -> PlaybackView {
        PlaybackView {
            info,
            transport: State::Initial,
            looping: false,
            pending_seek: None,
            error: None,
            device_lost: false,
            position: 0,
            underruns: 0,
            terminate: false,
        }
    }

    /// The position never passes the end of the stream, and in a looping
    /// stream it is always a frame of the stream. A pending seek aims
    /// inside the stream or at its first frame. A stream whose device is
    /// lost is stopped and says so in its error.
    pub open spec fn wf(self) -> bool {
        &&& self.info.playable()
        &&& self.position <= self.info.frames
        &&& self.looping && self.info.frames > 0 ==> self.position < self.info.frames
        &&& self.pending_seek matches Some(frame) ==> frame == 0 || frame < self.info.frames
        &&& self.device_lost ==> self.transport == State::Stopped && self.error == Some(
            SoundError::DeviceUnavailable,
        )
    }

    /// Whether the device has been lost. A stream whose device is lost takes
    /// no more commands.
    pub open spec fn lost(self) -> bool {
        self.device_lost
    }

    /// The state after `play`.
    pub open spec fn play(self) -> PlaybackView {
        if self.lost() {
            self
        } else {
            PlaybackView { transport: State::Playing, ..self }
        }
    }

    /// The state after `pause`.
    pub open spec fn pause(self) -> PlaybackView {
        if self.lost() {
            self
        } else {
            PlaybackView { transport: State::Paused, ..self }
        }
    }

    /// The state after `stop`.
    pub open spec fn stop(self) -> PlaybackView {
        if self.lost() {
            self
        } else {
            PlaybackView { transport: State::Stopped, pending_seek: Some(0), ..self }
        }
    }

    /// The state after `set_looping`. A stream that stands at its end when
    /// looping is turned on stands at frame 0 from then on: that is where
    /// it goes on.
    pub open spec fn set_looping(self, looping: bool) -> PlaybackView {
        if self.lost() {
            self
        } else {
            PlaybackView {
                looping,
                position: if looping && self.position >= self.info.frames {
                    0
                } else {
                    self.position
                },
                ..self
            }
        }
    }

    /// The state after `set_offset`: a frame inside the stream replaces any
    /// seek still pending; a frame at or past the end is ignored.
    pub open spec fn set_offset(self, frame: u64) -> PlaybackView {
        if self.lost() || frame >= self.info.frames {
            self
        } else {
            PlaybackView { pending_seek: Some(frame), ..self }
        }
    }

    /// The state after one command.
    pub open spec fn apply(self, command: Command) -> PlaybackView {
        match command {
            Command::Play => self.play(),
            Command::Pause => self.pause(),
            Command::Stop => self.stop(),
            Command::SetLooping(looping) => self.set_looping(looping),
            Command::SetOffset(frame) => self.set_offset(frame),
        }
    }

    /// The state after a run of commands, first to last.
    pub open spec fn apply_all(self, commands: Seq<Command>) -> PlaybackView
        decreases commands.len(),
    {
        if commands.len() == 0 {
            self
        } else {
            self.apply_all(commands.drop_last()).apply(commands.last())
        }
    }

    /// The state once teardown has been asked for.
    pub open spec fn shut_down(self) -> PlaybackView {
        PlaybackView { terminate: true, ..self }
    }

    /// The state once the worker has taken the pending seek to apply it.
    pub open spec fn seek_taken(self) -> PlaybackView {
        PlaybackView { pending_seek: None, ..self }
    }

    /// The state once the decoder stands at `target`. A target that is not
    /// a frame of the stream counts as the first frame.
    pub open spec fn seek_applied(self, target: u64) -> PlaybackView {
        PlaybackView {
            position: if target < self.info.frames {
                target
            } else {
                0
            },
            ..self
        }
    }

    /// The frame a decode of `frames` frames from `position` reaches: the
    /// end of the stream at most.
    pub open spec fn reach_from(self, position: u64, frames: u64) -> u64 {
        if frames <= self.info.frames - position {
            (position + frames) as u64
        } else {
            self.info.frames
        }
    }

    /// The frame a decode of `frames` more frames reaches.
    pub open spec fn reach(self, frames: u64) -> u64 {
        self.reach_from(self.position, frames)
    }

    /// The state once `frames` more frames have been decoded. The position
    /// moves on, at most to the end of the stream; a looping stream that
    /// reaches its end stands at frame 0, where it goes on. An earlier
    /// error is forgotten, unless the device is lost.
    pub open spec fn advanced(self, frames: u64) -> PlaybackView {
        PlaybackView {
            position: if self.looping && self.reach(frames) >= self.info.frames {
                0
            } else {
                self.reach(frames)
            },
            error: if self.lost() {
                self.error
            } else {
                None
            },
            ..self
        }
    }

    /// The state once the decoder has been sent back to the first frame to
    /// loop.
    pub open spec fn rewound(self) -> PlaybackView {
        PlaybackView { position: 0, ..self }
    }

    /// The state once the decoder has failed or the device has rejected a
    /// buffer: playback is stopped, the error is recorded unless the device
    /// is lost, and the stream is due to start over from frame 0 unless
    /// the caller has already asked for another frame.
    pub open spec fn stopped_by(self, error: SoundError) -> PlaybackView {
        PlaybackView {
            error: if self.lost() {
                self.error
            } else {
                Some(error)
            },
            transport: State::Stopped,
            pending_seek: if self.pending_seek is Some {
                self.pending_seek
            } else {
                Some(0)
            },
            ..self
        }
    }

    /// The state once the device context is lost: playback is stopped for
    /// good.
    pub open spec fn device_gone(self) -> PlaybackView {
        PlaybackView {
            device_lost: true,
            error: Some(SoundError::DeviceUnavailable),
            transport: State::Stopped,
            ..self
        }
    }

    /// The state once a stream that does not loop has played to its end
    /// with no seek pending: stopped, at frame 0, and due to start over
    /// from there.
    pub open spec fn finished(self) -> PlaybackView {
        PlaybackView { transport: State::Stopped, position: 0, pending_seek: Some(0), ..self }
    }

    /// The state once one more refill has found the device starved.
    pub open spec fn starved(self) -> PlaybackView {
        PlaybackView {
            underruns: if self.underruns < u32::MAX {
                (self.underruns + 1) as u32
            } else {
                u32::MAX
            },
            ..self
        }
    }

    /// The state once the device has been found fed.
    pub open spec fn fed(self) -> PlaybackView {
        PlaybackView { underruns: 0, ..self }
    }
}

/// Why a stream cannot be constructed, if it cannot: without a device
/// context nothing is opened; a resource that does not open gives the
/// decoder's reason; one that opens must be playable.
pub open spec fn refusal(context_ok: bool, opened: Result<StreamInfo, OpenFailure>) -> Option<
    SoundError,
> {
    if !context_ok {
        Some(SoundError::InvalidContext)
    } else {
        match opened {
            Err(failure) => Some(failure.spec_error()),
            Ok(info) => if info.playable() {
                None
            } else {
                Some(SoundError::UnsupportedFormat)
            },
        }
    }
}

/// The frame a caller means by a signed offset: none for a negative one.
pub open spec fn spec_frame_of_offset(offset: i32) -> Option<u64> {
    if offset < 0 {
        None
    } else {
        Some(offset as u64)
    }
}

/// The signed offset that stands for a frame: the highest one for a frame
/// beyond it.
pub open spec fn spec_offset_of_frame(frame: u64) -> i32 {
    if frame > i32::MAX {
        i32::MAX
    } else {
        frame as i32
    }
}

/// Why a stream cannot be constructed, if it cannot.
pub fn refuse(context_ok: bool, opened: Result<StreamInfo, OpenFailure>) -> (error: Option<
    SoundError,
>)
    ensures
        error == refusal(context_ok, opened),
{
    if !context_ok {
        return Some(SoundError::InvalidContext);
    }
    match opened {
        Err(failure) => Some(failure.error()),
        Ok(info) => if info.is_playable() {
            None
        } else {
            Some(SoundError::UnsupportedFormat)
        },
    }
}

/// The frame a caller means by a signed offset, or nothing for a negative
/// one.
pub fn frame_of_offset(offset: i32) -> (frame: Option<u64>)
    ensures
        frame == spec_frame_of_offset(offset),
{
    if offset < 0 {
        None
    } else {
        Some(offset as u64)
    }
}

/// The signed offset that stands for a frame. A frame beyond the highest
/// offset is reported as the highest offset.
pub fn offset_of_frame(frame: u64) -> (offset: i32)
    ensures
        offset == spec_offset_of_frame(frame),
{
    if frame > 0x7fff_ffff {
        0x7fff_ffff
    } else {
        frame as i32
    }
}

/// The state shared between a caller and the worker of one stream.
pub struct PlaybackState {
    info: StreamInfo,
    transport: State,
    looping: bool,
    pending_seek: Option<u64>,
    error: Option<SoundError>,
    device_lost: bool,
    position: u64,
    underruns: u32,
    terminate: bool,
}

impl View for PlaybackState {
    type V = PlaybackView;

    closed spec fn view(&self) -> PlaybackView {
        PlaybackView {
            info: self.info,
            transport: self.transport,
            looping: self.looping,
            pending_seek: self.pending_seek,
            error: self.error,
            device_lost: self.device_lost,
            position: self.position,
            underruns: self.underruns,
            terminate: self.terminate,
        }
    }
}

impl PlaybackState {
    /// Holds of every state this module hands out.
    pub open spec fn wf(&self) -> bool {
        self@.wf()
    }

    /// The shared state of a new stream, from what the device binding and
    /// the decoder answered when the stream was set up. Construction fails
    /// exactly when `refusal` names an error, and with that error.
    pub fn new(context_ok: bool, opened: Result<StreamInfo, OpenFailure>) -> (made: Result<
        PlaybackState,
        SoundError,
    >)
        ensures
            made is Err <==> refusal(context_ok, opened) is Some,
            made matches Err(error) ==> refusal(context_ok, opened) == Some(error),
            made matches Ok(state) ==> opened matches Ok(info) && state@ == PlaybackView::initial(
                info,
            ) && state.wf(),
    {
        match refuse(context_ok, opened) {
            Some(error) => Err(error),
            None => match opened {
                Ok(info) => Ok(
                    PlaybackState {
                        info,
                        transport: State::Initial,
                        looping: false,
                        pending_seek: None,
                        error: None,
                        device_lost: false,
                        position: 0,
                        underruns: 0,
                        terminate: false,
                    },
                ),
                Err(failure) => Err(failure.error()),
            },
        }
    }

    /// Whether the device has been lost.
    pub fn is_lost(&self) -> (lost: bool)
        ensures
            lost == self@.lost(),
    {
        self.device_lost
    }

    /// Asks for playback to start or resume. Returns whether the worker has
    /// something new to look at: nothing changes if the stream is already
    /// playing or the device is lost.
    pub fn play(&mut self) -> (wake: bool)
        ensures
            final(self)@ == old(self)@.play(),
            wake == (old(self)@.play() != old(self)@),
            old(self).wf() ==> final(self).wf(),
    {
        if self.is_lost() || self.transport.is_playing() {
            false
        } else {
            self.transport = State::Playing;
            true
        }
    }

    /// Asks for playback to hold where it is. Returns whether anything
    /// changed.
    pub fn pause(&mut self) -> (wake: bool)
        ensures
            final(self)@ == old(self)@.pause(),
            wake == (old(self)@.pause() != old(self)@),
            old(self).wf() ==> final(self).wf(),
    {
        if self.is_lost() {
            return false;
        }
        let wake = match self.transport {
            State::Paused => false,
            _ => true,
        };
        self.transport = State::Paused;
        wake
    }

    /// Asks for playback to end and the stream to go back to its first
    /// frame. Returns whether anything changed.
    pub fn stop(&mut self) -> (wake: bool)
        ensures
            final(self)@ == old(self)@.stop(),
            wake == (old(self)@.stop() != old(self)@),
            old(self).wf() ==> final(self).wf(),
    {
        if self.is_lost() {
            return false;
        }
        let stopped = match self.transport {
            State::Stopped => true,
            _ => false,
        };
        let at_start = match self.pending_seek {
            Some(frame) => frame == 0,
            None => false,
        };
        self.transport = State::Stopped;
        self.pending_seek = Some(0);
        !(stopped && at_start)
    }

    /// Turns looping on or off. A stream that stands at its end when
    /// looping is turned on stands at frame 0 from then on, so that a
    /// looping stream is always read at one of its frames. Returns whether
    /// anything changed.
    pub fn set_looping(&mut self, looping: bool) -> (wake: bool)
        ensures
            final(self)@ == old(self)@.set_looping(looping),
            wake == (old(self)@.set_looping(looping) != old(self)@),
            old(self).wf() ==> final(self).wf(),
    {
        if self.is_lost() {
            return false;
        }
        let at_end = looping && self.position >= self.info.frames;
        let wake = self.looping != looping || (at_end && self.position != 0);
        self.looping = looping;
        if at_end {
            self.position = 0;
        }
        wake
    }

    /// Asks for playback to continue from `frame`. A frame inside the stream
    /// replaces a seek that is still pending; a frame at or past the end is
    /// ignored. Returns whether anything changed.
    pub fn set_offset(&mut self, frame: u64) -> (wake: bool)
        ensures
            final(self)@ == old(self)@.set_offset(frame),
            wake == (old(self)@.set_offset(frame) != old(self)@),
            old(self).wf() ==> final(self).wf(),
    {
        if self.is_lost() || frame >= self.info.frames {
            return false;
        }
        let same = match self.pending_seek {
            Some(pending) => pending == frame,
            None => false,
        };
        self.pending_seek = Some(frame);
        !same
    }

    /// Carries out one command. Returns whether anything changed.
    pub fn apply(&mut self, command: Command) -> (wake: bool)
        ensures
            final(self)@ == old(self)@.apply(command),
            wake == (old(self)@.apply(command) != old(self)@),
            old(self).wf() ==> final(self).wf(),
    {
        match command {
            Command::Play => self.play(),
            Command::Pause => self.pause(),
            Command::Stop => self.stop(),
            Command::SetLooping(looping) => self.set_looping(looping),
            Command::SetOffset(frame) => self.set_offset(frame),
        }
    }

    /// Asks the worker to tear the stream down. This works on a stream whose
    /// device is lost, too.
    pub fn shut_down(&mut self)
        ensures
            final(self)@ == old(self)@.shut_down(),
            old(self).wf() ==> final(self).wf(),
    {
        self.terminate = true;
    }

    /// The transport state last asked for, or forced by the worker.
    pub fn get_state(&self) -> (state: State)
        ensures
            state == self@.transport,
    {
        self.transport
    }

    /// Whether the transport state is `Playing`.
    pub fn is_playing(&self) -> (playing: bool)
        ensures
            playing == (self@.transport == State::Playing),
    {
        self.transport.is_playing()
    }

    /// Whether the stream starts over when it reaches its end.
    pub fn is_looping(&self) -> (looping: bool)
        ensures
            looping == self@.looping,
    {
        self.looping
    }

    /// The frame the worker last reported to have decoded up to. In a
    /// looping stream this is always a frame of the stream.
    pub fn get_offset(&self) -> (frame: u64)
        ensures
            frame == self@.position,
            self.wf() ==> frame <= self@.info.frames,
            self.wf() && self@.looping && self@.info.frames > 0 ==> frame < self@.info.frames,
    {
        self.position
    }

    /// The seek that the worker has not applied yet, if there is one.
    pub fn pending_seek(&self) -> (frame: Option<u64>)
        ensures
            frame == self@.pending_seek,
    {
        self.pending_seek
    }

    /// The last error of the decoder or the device, if it has not been
    /// followed by a successful decode.
    pub fn last_error(&self) -> (error: Option<SoundError>)
        ensures
            error == self@.error,
    {
        self.error
    }

    /// How many refills in a row found the device starved.
    pub fn underruns(&self) -> (count: u32)
        ensures
            count == self@.underruns,
    {
        self.underruns
    }

    /// Whether the device has been starved for `SUSTAINED_UNDERRUNS` refills
    /// in a row. This is a warning, not an error: playback goes on.
    pub fn underrun_sustained(&self) -> (sustained: bool)
        ensures
            sustained == (self@.underruns >= SUSTAINED_UNDERRUNS),
    {
        self.underruns >= SUSTAINED_UNDERRUNS
    }

    /// Whether teardown has been asked for.
    pub fn terminating(&self) -> (terminate: bool)
        ensures
            terminate == self@.terminate,
    {
        self.terminate
    }

    /// What the decoder reported about the stream.
    pub fn info(&self) -> (info: StreamInfo)
        ensures
            info == self@.info,
    {
        self.info
    }

    /// The playing time of the whole stream.
    pub fn get_duration(&self) -> (span: Span)
        requires
            self.wf(),
        ensures
            span == spec_stream_duration(self@.info.frames as nat, self@.info.sample_rate as nat),
    {
        stream_duration(self.info.frames, self.info.sample_rate)
    }

    /// Takes the pending seek, leaving none.
    pub(crate) fn take_seek(&mut self) -> (target: Option<u64>)
        ensures
            target == old(self)@.pending_seek,
            final(self)@ == old(self)@.seek_taken(),
    {
        let target = self.pending_seek;
        self.pending_seek = None;
        target
    }

    /// Records that the decoder stands at `target`.
    pub(crate) fn seek_applied(&mut self, target: u64)
        ensures
            final(self)@ == old(self)@.seek_applied(target),
    {
        self.position = if target < self.info.frames {
            target
        } else {
            0
        };
    }

    /// Records that `frames` more frames have been decoded.
    pub(crate) fn advance(&mut self, frames: u64)
        requires
            old(self).wf(),
        ensures
            final(self)@ == old(self)@.advanced(frames),
    {
        let reach: u64 = if frames <= self.info.frames - self.position {
            self.position + frames
        } else {
            self.info.frames
        };
        self.position = if self.looping && reach >= self.info.frames {
            0
        } else {
            reach
        };
        if !self.is_lost() {
            self.error = None;
        }
    }

    /// Records that the decoder has been sent back to the first frame.
    pub(crate) fn rewind(&mut self)
        ensures
            final(self)@ == old(self)@.rewound(),
    {
        self.position = 0;
    }

    /// Records a failure of the decoder or a rejected buffer, stops
    /// playback and asks for a restart.
    pub(crate) fn stop_on(&mut self, error: SoundError)
        ensures
            final(self)@ == old(self)@.stopped_by(error),
    {
        if !self.is_lost() {
            self.error = Some(error);
        }
        self.transport = State::Stopped;
        if self.pending_seek.is_none() {
            self.pending_seek = Some(0);
        }
    }

    /// Records the loss of the device context.
    pub(crate) fn lose_device(&mut self)
        ensures
            final(self)@ == old(self)@.device_gone(),
    {
        self.device_lost = true;
        self.error = Some(SoundError::DeviceUnavailable);
        self.transport = State::Stopped;
    }

    /// Records that the stream has played to its end.
    pub(crate) fn finish(&mut self)
        ensures
            final(self)@ == old(self)@.finished(),
    {
        self.transport = State::Stopped;
        self.position = 0;
        self.pending_seek = Some(0);
    }

    /// Records that one more refill has found the device starved.
    pub(crate) fn note_starved(&mut self)
        ensures
            final(self)@ == old(self)@.starved(),
    {
        if self.underruns < u32::MAX {
            self.underruns = self.underruns + 1;
        }
    }

    /// Records that the device has been found fed.
    pub(crate) fn note_fed(&mut self)
        ensures
            final(self)@ == old(self)@.fed(),
    {
        self.underruns = 0;
    }
}

/// Every command keeps the shared state well formed.
pub proof fn law_commands_keep_wf(state: PlaybackView, command: Command)
    requires
        state.wf(),
    ensures
        state.apply(command).wf(),
        state.shut_down().wf(),
{
}

/// A command changes nothing but what it is about. The error, the stream's
/// description and the underrun count are never touched by a caller; only
/// `stop` and `set_offset` touch the pending seek; and the position is
/// touched only where looping is turned on for a stream that stands at its
/// end, which stands at frame 0 from then on.
pub proof fn law_commands_leave_worker_fields(state: PlaybackView, command: Command)
    ensures
        state.apply(command).error == state.error,
        state.apply(command).device_lost == state.device_lost,
        state.apply(command).info == state.info,
        state.apply(command).underruns == state.underruns,
        state.apply(command).terminate == state.terminate,
        command.target() is Some && command != Command::Stop ==> state.apply(command).pending_seek
            == state.pending_seek,
        state.apply(command).position == state.position || (command == Command::SetLooping(true)
            && state.position >= state.info.frames && state.apply(command).position == 0),
{
}

/// After any run of commands the transport state is the one asked for by
/// the last command that asked for one, however quickly the commands
/// followed each other.
pub proof fn law_last_transport_command_wins(
    state: PlaybackView,
    commands: Seq<Command>,
    last: int,
)
    requires
        !state.lost(),
        0 <= last < commands.len(),
        commands[last].target() is Some,
        forall|j: int| last < j < commands.len() ==> commands[j].target() is None,
    ensures
        Some(state.apply_all(commands).transport) == commands[last].target(),
    decreases commands.len(),
{
    let init = commands.drop_last();
    lemma_commands_never_lose_device(state, init);
    if last < commands.len() - 1 {
        assert(commands.last().target() is None);
        assert(init[last] == commands[last]);
        assert forall|j: int| last < j < init.len() implies init[j].target() is None by {
            assert(init[j] == commands[j]);
        }
        law_last_transport_command_wins(state, init, last);
    }
}

/// Commands neither lose the device nor bring it back, and leave the error
/// alone.
pub proof fn lemma_commands_never_lose_device(state: PlaybackView, commands: Seq<Command>)
    ensures
        state.apply_all(commands).lost() == state.lost(),
        state.apply_all(commands).error == state.error,
    decreases commands.len(),
{
    if commands.len() > 0 {
        lemma_commands_never_lose_device(state, commands.drop_last());
    }
}

/// A run of commands never leaves the transport state at a value that was
/// not asked for: it is the state before the run or the target of one of
/// the commands.
pub proof fn law_transport_is_always_a_requested_state(
    state: PlaybackView,
    commands: Seq<Command>,
)
    ensures
        state.apply_all(commands).transport == state.transport || exists|i: int|
            0 <= i < commands.len() && commands[i].target() == Some(
                state.apply_all(commands).transport,
            ),
    decreases commands.len(),
{
    if commands.len() > 0 {
        let init = commands.drop_last();
        let before = state.apply_all(init);
        let after = state.apply_all(commands);
        law_transport_is_always_a_requested_state(state, init);
        if after.transport != before.transport {
            assert(commands[commands.len() - 1].target() == Some(after.transport));
        } else if before.transport != state.transport {
            let i = choose|i: int|
                0 <= i < init.len() && init[i].target() == Some(before.transport);
            assert(commands[i] == init[i]);
        }
    }
}

/// Of several seeks asked for before the worker looks, only the last one
/// inside the stream is pending.
pub proof fn law_last_seek_wins(state: PlaybackView, first: u64, second: u64)
    requires
        !state.lost(),
        second < state.info.frames,
    ensures
        state.set_offset(first).set_offset(second).pending_seek == Some(second),
        state.set_offset(first).set_offset(second) == state.set_offset(second),
{
}

/// `play` on a stream that is playing, paused or new makes it playing and
/// changes nothing else: the position is not reset and no seek is asked
/// for. Such a stream has not lost its device.
pub proof fn law_play_resumes_where_it_stands(state: PlaybackView)
    requires
        state.wf(),
        state.transport != State::Stopped,
    ensures
        !state.lost(),
        state.play() == (PlaybackView { transport: State::Playing, ..state }),
{
}

/// `pause` on a stream that is playing makes it paused and changes nothing
/// else: position, loop flag and pending seek stay as they are.
pub proof fn law_pause_holds_everything(state: PlaybackView)
    requires
        state.wf(),
        state.transport == State::Playing,
    ensures
        state.pause() == (PlaybackView { transport: State::Paused, ..state }),
{
}

/// Pausing and resuming moves nothing: the position read after `pause` and
/// the position read after the `play` that follows are both the position
/// from before, and no seek has been asked for on the way.
pub proof fn law_pause_resume_keeps_position(state: PlaybackView)
    requires
        state.wf(),
        state.transport == State::Playing,
    ensures
        state.pause().position == state.position,
        state.pause().play() == state,
{
}

/// `stop` on a stream that is playing or paused makes it stopped, with a
/// seek to frame 0 pending whatever seek was pending before, and leaves
/// the loop flag alone. The `play` that follows leaves that seek pending.
pub proof fn law_stop_play_asks_for_restart(state: PlaybackView)
    requires
        state.wf(),
        state.transport == State::Playing || state.transport == State::Paused,
    ensures
        state.stop() == (PlaybackView {
            transport: State::Stopped,
            pending_seek: Some(0),
            ..state
        }),
        state.stop().play() == (PlaybackView {
            transport: State::Playing,
            pending_seek: Some(0),
            ..state
        }),
{
}

/// `play` on a stopped stream whose device is not lost makes it playing.
/// A stream stopped by `stop`, by the natural end or by a failure has a
/// seek pending, so that it starts over from frame 0 unless the caller has
/// asked for another frame.
pub proof fn law_play_after_stop_starts_over(state: PlaybackView, error: SoundError)
    requires
        state.wf(),
        !state.lost(),
    ensures
        state.stop().play().transport == State::Playing,
        state.stop().play().pending_seek == Some(0u64),
        state.finished().play().transport == State::Playing,
        state.finished().play().pending_seek == Some(0u64),
        state.stopped_by(error).play().transport == State::Playing,
        state.pending_seek is None ==> state.stopped_by(error).play().pending_seek == Some(0u64),
{
}

/// A signed offset and the frame it stands for agree wherever the frame
/// has a signed offset of its own.
pub proof fn law_offsets_round_trip(offset: i32, frame: u64)
    ensures
        offset >= 0 ==> spec_frame_of_offset(offset) == Some(offset as u64)
            && spec_offset_of_frame(offset as u64) == offset,
        offset < 0 ==> spec_frame_of_offset(offset) is None,
        frame <= i32::MAX ==> spec_frame_of_offset(spec_offset_of_frame(frame)) == Some(frame),
        0 <= spec_offset_of_frame(frame),
{
}

} // verus!
