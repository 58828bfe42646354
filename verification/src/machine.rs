//! The worker of a stream as a state machine over plain values.
//!
//! The worker cannot decode or talk to the device from here. It returns an
//! action for the outside to carry out and is told the outcome as an event.
//! One round of the machine, from waking to sleeping again, applies a
//! pending seek, fills the free slots while the stream is to play, collects
//! what the device has consumed, brings the device to the transport state
//! asked for, and sleeps. A stream that loops never ends by itself: the
//! worker stops it only when the decoder or the device fails.

use vstd::prelude::*;
use crate::buffer_pool::all_free;
use crate::buffer_pool::has_tag;
use crate::buffer_pool::lowest;
use crate::buffer_pool::retagged;
use crate::buffer_pool::SlotTag;
use crate::buffer_pool::MIN_SLOTS;
use crate::error::SoundError;
use crate::playback::PlaybackView;
use crate::states::State;

verus! {

/// A transport primitive of the output device.
#[derive(Clone, Copy, Debug, PartialEq, Eq, Structural)]
pub enum Primitive {
    Play,
    Pause,
    Stop,
}

impl Primitive {
    /// The state a device is in after the primitive.
    pub open spec fn spec_state(self) -> State {
        match self {
            Primitive::Play => State::Playing,
            Primitive::Pause => State::Paused,
            Primitive::Stop => State::Stopped,
        }
    }

    /// The state a device is in after the primitive.
    pub fn state(self) -> (state: State)
        ensures
            state == self.spec_state(),
    {
        match self {
            Primitive::Play => State::Playing,
            Primitive::Pause => State::Paused,
            Primitive::Stop => State::Stopped,
        }
    }
}

/// What the worker asks the outside to do next.
#[derive(Clone, Copy, Debug, PartialEq, Eq, Structural)]
pub enum Action {
    /// Wait for a wake signal, or until the refill interval has passed.
    Sleep,
    /// Seek the decoder to `frame`; if `discard` is set, first stop the
    /// device and take back every buffer queued on it, consumed or not.
    Seek { frame: u64, discard: bool },
    /// Decode the next chunk into the buffer of `slot`.
    Decode { slot: usize },
    /// Queue the first `frames` frames of the buffer of `slot` on the
    /// device.
    Submit { slot: usize, frames: u64 },
    /// Take one consumed buffer back from the device, if it has one.
    Collect,
    /// Issue a transport primitive to the device.
    Device { primitive: Primitive },
    /// Release the decoder and the device source and end the worker.
    Exit,
}

/// What the outside reports back to the worker.
#[derive(Clone, Copy, Debug, PartialEq, Eq, Structural)]
pub enum Event {
    /// The sleep ended, by a wake signal or by the refill interval.
    Wake,
    /// The seek, submission or primitive asked for has been carried out.
    Done,
    /// The decoder produced `frames` frames; none means the stream has
    /// ended.
    Decoded { frames: u64 },
    /// The decoder failed to decode or to seek.
    DecoderFailed,
    /// The device gave back the buffer of `slot`, which it has consumed.
    Consumed { slot: usize },
    /// The device has no consumed buffer to give back.
    Drained,
    /// The device rejected the buffer it was given.
    Rejected,
    /// The device context is lost.
    DeviceFailed,
}

/// Where the worker is in its round: what it has asked for and waits to
/// hear about.
#[derive(Clone, Copy, Debug, PartialEq, Eq, Structural)]
pub enum Phase {
    /// Asleep between rounds.
    Idle,
    /// Applying a seek to `target`.
    Seeking { target: u64 },
    /// Decoding into `slot`; `rewound` once the decoder has been sent back
    /// to the first frame for this slot.
    Filling { slot: usize, rewound: bool },
    /// Sending the decoder back to the first frame to loop, with `slot`
    /// waiting for the chunk that follows.
    Rewinding { slot: usize },
    /// Queueing `slot`, which holds a chunk of `frames` frames, on the
    /// device.
    Submitting { slot: usize, frames: u64 },
    /// Taking consumed buffers back from the device.
    Collecting,
    /// Issuing a transport primitive.
    Commanding { primitive: Primitive },
    /// Torn down.
    Finished,
}

impl Phase {
    /// The action a worker in this phase waits on.
    pub open spec fn action(self) -> Action {
        match self {
            Phase::Idle => Action::Sleep,
            Phase::Seeking { target } => Action::Seek { frame: target, discard: true },
            Phase::Filling { slot, rewound } => Action::Decode { slot },
            Phase::Rewinding { slot } => Action::Seek { frame: 0, discard: false },
            Phase::Submitting { slot, frames } => Action::Submit { slot, frames },
            Phase::Collecting => Action::Collect,
            Phase::Commanding { primitive } => Action::Device { primitive },
            Phase::Finished => Action::Exit,
        }
    }

    /// Whether `event` is an outcome of the action this phase waits on.
    pub open spec fn answered_by(self, event: Event) -> bool {
        match self {
            Phase::Idle => event is Wake,
            Phase::Seeking { target } => event is Done || event is DecoderFailed
                || event is DeviceFailed,
            Phase::Filling { slot, rewound } => event is Decoded || event is DecoderFailed,
            Phase::Rewinding { slot } => event is Done || event is DecoderFailed,
            Phase::Submitting { slot, frames } => event is Done || event is Rejected
                || event is DeviceFailed,
            Phase::Collecting => event is Consumed || event is Drained || event is DeviceFailed,
            Phase::Commanding { primitive } => event is Done || event is DeviceFailed,
            Phase::Finished => false,
        }
    }
}

/// The worker's own state as a plain value.
pub struct ControllerView {
    /// The tags of the buffer pool.
    pub slots: Seq<SlotTag>,
    /// Where the worker is in its round.
    pub phase: Phase,
    /// Whether the decoder stands at the end of the stream with nothing
    /// more to give until it is sent to another frame.
    pub exhausted: bool,
    /// The state the device was last brought to.
    pub device: State,
}

impl ControllerView {
    /// A worker that has not run yet, over a pool of `capacity` free slots.
    pub open spec fn initial(capacity: nat) -> ControllerView {
        ControllerView {
            slots: all_free(capacity),
            phase: Phase::Idle,
            exhausted: false,
            device: State::Initial,
        }
    }

    /// Whether no slot but `except` is being decoded into.
    pub open spec fn no_decoding_but(self, except: int) -> bool {
        forall|j: int| 0 <= j < self.slots.len() && j != except ==> self.slots[j] != SlotTag::Decoding
    }

    /// The pool has a fixed size of at least `MIN_SLOTS`, and the tags agree
    /// with the phase: the slot being filled is the only one tagged
    /// `Decoding`, a slot being submitted is tagged `Queued`, and a worker
    /// that is torn down holds no slot.
    pub open spec fn wf(self) -> bool {
        &&& MIN_SLOTS <= self.slots.len() <= usize::MAX
        &&& match self.phase {
            Phase::Filling { slot, rewound } => {
                &&& slot < self.slots.len()
                &&& self.slots[slot as int] == SlotTag::Decoding
                &&& self.no_decoding_but(slot as int)
            },
            Phase::Rewinding { slot } => {
                &&& slot < self.slots.len()
                &&& self.slots[slot as int] == SlotTag::Decoding
                &&& self.no_decoding_but(slot as int)
            },
            Phase::Submitting { slot, frames } => {
                &&& slot < self.slots.len()
                &&& self.slots[slot as int] == SlotTag::Queued
                &&& self.no_decoding_but(-1)
            },
            Phase::Finished => self.slots == all_free(self.slots.len()),
            _ => self.no_decoding_but(-1),
        }
    }

    /// This state in another phase.
    pub open spec fn at(self, phase: Phase) -> ControllerView {
        ControllerView { phase, ..self }
    }

    /// This state with `slot` given the tag `tag`.
    pub open spec fn tagged(self, slot: int, tag: SlotTag) -> ControllerView {
        ControllerView { slots: self.slots.update(slot, tag), ..self }
    }

    /// Whether any buffer is queued on the device.
    pub open spec fn queued(self) -> bool {
        has_tag(self.slots, SlotTag::Queued)
    }
}

/// The machine when the device context is lost: the loss is recorded,
/// playback is stopped, and the worker goes to sleep for good.
pub open spec fn lose_device(c: ControllerView, s: PlaybackView) -> (ControllerView, PlaybackView) {
    (c.at(Phase::Idle), s.device_gone())
}

/// The start of a round. A worker whose device is lost sleeps on. A pending
/// seek is taken and applied before anything else; without one the round
/// goes on to fill the free slots.
pub open spec fn begin(c: ControllerView, s: PlaybackView) -> (ControllerView, PlaybackView) {
    if s.lost() {
        (c.at(Phase::Idle), s)
    } else {
        match s.pending_seek {
            Some(target) => (c.at(Phase::Seeking { target }), s.seek_taken()),
            None => fill(c, s),
        }
    }
}

/// Filling: while the stream is to play, the lowest free slot is taken
/// and decoded into. Where the decoder stands at the end of the stream, a
/// looping stream is first sent back to its first frame, and a stream that
/// does not loop has nothing more to decode. Without a slot to fill the
/// round goes on to collect consumed buffers.
pub open spec fn fill(c: ControllerView, s: PlaybackView) -> (ControllerView, PlaybackView) {
    if s.transport == State::Playing && (!c.exhausted || s.looping) && has_tag(
        c.slots,
        SlotTag::Free,
    ) {
        let slot = lowest(c.slots, SlotTag::Free);
        let taken = c.tagged(slot, SlotTag::Decoding);
        if c.exhausted {
            (taken.at(Phase::Rewinding { slot: slot as usize }), s)
        } else {
            (taken.at(Phase::Filling { slot: slot as usize, rewound: false }), s)
        }
    } else {
        (c.at(Phase::Collecting), s)
    }
}

/// The primitive that brings the device to the transport state asked for,
/// if one is needed. Nothing is issued twice, and the device is not started
/// with an empty queue.
pub open spec fn wanted(c: ControllerView, s: PlaybackView) -> Option<Primitive> {
    match s.transport {
        State::Initial => None,
        State::Playing => if c.device != State::Playing && c.queued() {
            Some(Primitive::Play)
        } else {
            None
        },
        State::Paused => if c.device != State::Paused {
            Some(Primitive::Pause)
        } else {
            None
        },
        State::Stopped => if c.device != State::Stopped {
            Some(Primitive::Stop)
        } else {
            None
        },
    }
}

/// The end of a round. A stream that is to play but has nothing queued,
/// and has more to decode or a seek to apply, is served at once with a new
/// round; otherwise the worker sleeps.
pub open spec fn rest(c: ControllerView, s: PlaybackView) -> (ControllerView, PlaybackView) {
    if s.transport == State::Playing && (!c.exhausted || s.pending_seek is Some) && !c.queued() {
        begin(c, s)
    } else {
        (c.at(Phase::Idle), s)
    }
}

/// Bringing the device to the transport state asked for.
pub open spec fn command(c: ControllerView, s: PlaybackView) -> (ControllerView, PlaybackView) {
    match wanted(c, s) {
        Some(primitive) => (c.at(Phase::Commanding { primitive }), s),
        None => rest(c, s),
    }
}

/// What the worker concludes once the device has no more consumed buffers
/// to give back.
///
/// A device that was playing and has nothing left in its queue has stopped
/// by itself. A stream that does not loop, is to play and has played out
/// is at its natural end: it is finished, unless a seek is pending, which
/// is a caller's word that the stream is to go on from another frame.
/// Otherwise, if the stream is to play, the device was starved, which is
/// counted. A device that is playing and still holds buffers is fed, and
/// the count starts over.
pub open spec fn settle(c: ControllerView, s: PlaybackView) -> (ControllerView, PlaybackView) {
    let played_out = s.transport == State::Playing && c.exhausted && !s.looping && !c.queued();
    let ran_dry = c.device == State::Playing && !c.queued();
    let c1 = ControllerView {
        device: if ran_dry {
            State::Stopped
        } else {
            c.device
        },
        ..c
    };
    let s1 = if played_out {
        if s.pending_seek is None {
            s.finished()
        } else {
            s
        }
    } else if s.transport == State::Playing && ran_dry {
        s.starved()
    } else if c.device == State::Playing && c.queued() {
        s.fed()
    } else {
        s
    };
    command(c1, s1)
}

/// The machine after the outcome of a seek that was asked for by a caller.
/// The device has discarded its queue, so every queued slot is free again.
/// A decoder that cannot seek stops the stream, which is then due to start
/// over from frame 0 like any stream that has failed.
pub open spec fn after_seek(c: ControllerView, s: PlaybackView, target: u64, event: Event) -> (
    ControllerView,
    PlaybackView,
) {
    let flushed = ControllerView {
        slots: retagged(c.slots, SlotTag::Queued, SlotTag::Free),
        device: State::Stopped,
        ..c
    };
    match event {
        Event::Done => fill(ControllerView { exhausted: false, ..flushed }, s.seek_applied(target)),
        Event::DecoderFailed => (
            flushed.at(Phase::Collecting),
            s.stopped_by(SoundError::DecodeFailure),
        ),
        _ => lose_device(c, s),
    }
}

/// The machine after the outcome of a decode into `slot`.
///
/// A chunk with frames is tagged `Queued` before it is submitted, with its
/// length, and moves the position on. At the end of the stream a looping
/// stream that is to play is sent back to its first frame, once per slot;
/// one that is not to play frees the slot and finds the end again when it
/// next plays. A stream that does not loop, or that gives nothing even
/// from its first frame, frees the slot and has nothing more to decode. A
/// failure frees the slot, stops playback and asks for a restart.
pub open spec fn after_decode(
    c: ControllerView,
    s: PlaybackView,
    slot: usize,
    rewound: bool,
    event: Event,
) -> (ControllerView, PlaybackView) {
    let freed = c.tagged(slot as int, SlotTag::Free).at(Phase::Collecting);
    match event {
        Event::Decoded { frames } => if frames > 0 {
            (
                c.tagged(slot as int, SlotTag::Queued).at(Phase::Submitting { slot, frames }),
                s.advanced(frames),
            )
        } else if s.looping && !rewound {
            if s.transport == State::Playing {
                (c.at(Phase::Rewinding { slot }), s)
            } else {
                (freed, s)
            }
        } else {
            (ControllerView { exhausted: true, ..freed }, s)
        },
        _ => (freed, s.stopped_by(SoundError::DecodeFailure)),
    }
}

/// The machine after the outcome of sending the decoder back to loop. The
/// decoder stands at the first frame again, and so does the position. A
/// stream that is no longer to play frees the slot.
pub open spec fn after_rewind(c: ControllerView, s: PlaybackView, slot: usize, event: Event) -> (
    ControllerView,
    PlaybackView,
) {
    let freed = c.tagged(slot as int, SlotTag::Free).at(Phase::Collecting);
    match event {
        Event::Done => if s.transport == State::Playing {
            (
                ControllerView { exhausted: false, ..c }.at(Phase::Filling { slot, rewound: true }),
                s.rewound(),
            )
        } else {
            (ControllerView { exhausted: false, ..freed }, s.rewound())
        },
        _ => (freed, s.stopped_by(SoundError::DecodeFailure)),
    }
}

/// The machine after the outcome of a submission. A buffer that the device
/// rejects is not on its queue: the slot is freed, playback is stopped and
/// a restart is asked for. The stream still takes commands.
pub open spec fn after_submit(c: ControllerView, s: PlaybackView, slot: usize, event: Event) -> (
    ControllerView,
    PlaybackView,
) {
    match event {
        Event::Done => fill(c, s),
        Event::Rejected => (
            c.tagged(slot as int, SlotTag::Free).at(Phase::Collecting),
            s.stopped_by(SoundError::DeviceUnavailable),
        ),
        _ => lose_device(c, s),
    }
}

/// The machine after the device's answer to a collection. A consumed slot
/// that was queued is freed and the collection goes on; any other answer
/// but a failure ends it.
pub open spec fn after_collect(c: ControllerView, s: PlaybackView, event: Event) -> (
    ControllerView,
    PlaybackView,
) {
    match event {
        Event::Consumed { slot } => if slot < c.slots.len() && c.slots[slot as int]
            == SlotTag::Queued {
            (c.tagged(slot as int, SlotTag::Free), s)
        } else {
            settle(c, s)
        },
        Event::DeviceFailed => lose_device(c, s),
        _ => settle(c, s),
    }
}

/// One step of the worker: the state after `event` has been reported.
///
/// A worker that is torn down stays so. A request for teardown is obeyed at
/// once, whatever was under way: every slot is freed and the worker is
/// finished. An event that is no outcome of the action waited on changes
/// nothing. Otherwise the phase decides.
pub open spec fn next(c: ControllerView, s: PlaybackView, event: Event) -> (
    ControllerView,
    PlaybackView,
) {
    if c.phase is Finished {
        (c, s)
    } else if s.terminate {
        (ControllerView { slots: all_free(c.slots.len()), ..c }.at(Phase::Finished), s)
    } else if !c.phase.answered_by(event) {
        (c, s)
    } else {
        match c.phase {
            Phase::Idle => begin(c, s),
            Phase::Seeking { target } => after_seek(c, s, target, event),
            Phase::Filling { slot, rewound } => after_decode(c, s, slot, rewound, event),
            Phase::Rewinding { slot } => after_rewind(c, s, slot, event),
            Phase::Submitting { slot, frames } => after_submit(c, s, slot, event),
            Phase::Collecting => after_collect(c, s, event),
            Phase::Commanding { primitive } => if event is Done {
                rest(ControllerView { device: primitive.spec_state(), ..c }, s)
            } else {
                lose_device(c, s)
            },
            Phase::Finished => (c, s),
        }
    }
}

} // verus!
