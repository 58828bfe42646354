//! The worker of a stream: the buffer pool and the round it is in.
//!
//! The outside runs the loop. It hands `step` the outcome of the last
//! action, with the shared state locked, and carries out the action that
//! comes back with the lock released.

use vstd::prelude::*;
use crate::buffer_pool::count_of;
use crate::buffer_pool::BufferPool;
use crate::buffer_pool::SlotTag;
use crate::error::SoundError;
use crate::machine::after_collect;
use crate::machine::after_decode;
use crate::machine::after_rewind;
use crate::machine::after_seek;
use crate::machine::after_submit;
use crate::machine::begin;
use crate::machine::command;
use crate::machine::fill;
use crate::machine::lose_device;
use crate::machine::next;
use crate::machine::rest;
use crate::machine::settle;
use crate::machine::wanted;
use crate::machine::Action;
use crate::machine::ControllerView;
use crate::machine::Event;
use crate::machine::Phase;
use crate::machine::Primitive;
use crate::playback::PlaybackState;
use crate::states::State;

verus! {

/// The worker's own state: the pool, the phase of the round, whether the
/// stream has ended, and the state the device was last brought to.
pub struct Controller {
    pool: BufferPool,
    phase: Phase,
    exhausted: bool,
    device: State,
}

impl View for Controller {
    type V = ControllerView;

    closed spec fn view(&self) -> ControllerView {
        ControllerView {
            slots: self.pool@,
            phase: self.phase,
            exhausted: self.exhausted,
            device: self.device,
        }
    }
}

impl Controller {
    /// Holds of every controller this module hands out.
    pub open spec fn wf(&self) -> bool {
        self@.wf()
    }

    /// A worker over a pool of `capacity` slots, or nothing if `capacity`
    /// is below the pool's minimum.
    pub fn new(capacity: usize) -> (made: Option<Controller>)
        ensures
            made is Some <==> capacity >= crate::buffer_pool::MIN_SLOTS,
            made matches Some(c) ==> c.wf() && c@ == ControllerView::initial(capacity as nat),
    {
        match BufferPool::new(capacity) {
            Some(pool) => Some(
                Controller { pool, phase: Phase::Idle, exhausted: false, device: State::Initial },
            ),
            None => None,
        }
    }

    /// A worker over a pool of the default size.
    pub fn with_default_slots() -> (made: Controller)
        ensures
            made.wf(),
            made@ == ControllerView::initial(crate::buffer_pool::DEFAULT_SLOTS as nat),
    {
        Controller {
            pool: BufferPool::with_default_slots(),
            phase: Phase::Idle,
            exhausted: false,
            device: State::Initial,
        }
    }

    /// Where the worker is in its round.
    pub fn phase(&self) -> (phase: Phase)
        ensures
            phase == self@.phase,
    {
        self.phase
    }

    /// The action the worker waits on.
    pub fn pending(&self) -> (action: Action)
        ensures
            action == self@.phase.action(),
    {
        match self.phase {
            Phase::Idle => Action::Sleep,
            Phase::Seeking { target } => Action::Seek { frame: target, discard: true },
            Phase::Filling { slot, rewound } => Action::Decode { slot },
            Phase::Rewinding { slot } => Action::Seek { frame: 0, discard: false },
            Phase::Submitting { slot, frames } => Action::Submit { slot, frames },
            Phase::Collecting => Action::Collect,
            Phase::Commanding { primitive } => Action::Device { primitive },
            Phase::Finished => Action::Exit,
        }
    }

    /// Whether `event` is an outcome of the action the worker waits on.
    pub fn expects(&self, event: Event) -> (expected: bool)
        ensures
            expected == self@.phase.answered_by(event),
    {
        match self.phase {
            Phase::Idle => match event {
                Event::Wake => true,
                _ => false,
            },
            Phase::Seeking { target } => match event {
                Event::Done => true,
                Event::DecoderFailed => true,
                Event::DeviceFailed => true,
                _ => false,
            },
            Phase::Filling { slot, rewound } => match event {
                Event::Decoded { frames } => true,
                Event::DecoderFailed => true,
                _ => false,
            },
            Phase::Rewinding { slot } => match event {
                Event::Done => true,
                Event::DecoderFailed => true,
                _ => false,
            },
            Phase::Submitting { slot, frames } => match event {
                Event::Done => true,
                Event::Rejected => true,
                Event::DeviceFailed => true,
                _ => false,
            },
            Phase::Collecting => match event {
                Event::Consumed { slot } => true,
                Event::Drained => true,
                Event::DeviceFailed => true,
                _ => false,
            },
            Phase::Commanding { primitive } => match event {
                Event::Done => true,
                Event::DeviceFailed => true,
                _ => false,
            },
            Phase::Finished => false,
        }
    }

    /// Whether the decoder stands at the end of the stream with nothing
    /// more to give until it is sent to another frame.
    pub fn is_exhausted(&self) -> (exhausted: bool)
        ensures
            exhausted == self@.exhausted,
    {
        self.exhausted
    }

    /// The state the device was last brought to.
    pub fn device_state(&self) -> (state: State)
        ensures
            state == self@.device,
    {
        self.device
    }

    /// The number of slots in the pool.
    pub fn capacity(&self) -> (capacity: usize)
        ensures
            capacity == self@.slots.len(),
    {
        self.pool.capacity()
    }

    /// The tag of `slot`, or nothing if the pool has no such slot.
    pub fn slot_tag(&self, slot: usize) -> (tag: Option<SlotTag>)
        ensures
            tag == if slot < self@.slots.len() {
                Some(self@.slots[slot as int])
            } else {
                None
            },
    {
        self.pool.tag(slot)
    }

    /// How many slots carry `tag`.
    pub fn count(&self, tag: SlotTag) -> (count: usize)
        ensures
            count == count_of(self@.slots, tag),
    {
        self.pool.count(tag)
    }

    fn lose_device(&mut self, shared: &mut PlaybackState)
        ensures
            final(self)@ == lose_device(old(self)@, old(shared)@).0,
            final(shared)@ == lose_device(old(self)@, old(shared)@).1,
    {
        self.phase = Phase::Idle;
        shared.lose_device();
    }

    fn fill(&mut self, shared: &mut PlaybackState)
        requires
            old(self)@.slots.len() <= usize::MAX,
        ensures
            final(self)@ == fill(old(self)@, old(shared)@).0,
            final(shared)@ == fill(old(self)@, old(shared)@).1,
    {
        if shared.is_playing() && (!self.exhausted || shared.is_looping()) {
            match self.pool.acquire_free() {
                Some(slot) => {
                    if self.exhausted {
                        self.phase = Phase::Rewinding { slot };
                    } else {
                        self.phase = Phase::Filling { slot, rewound: false };
                    }
                },
                None => {
                    self.phase = Phase::Collecting;
                },
            }
        } else {
            self.phase = Phase::Collecting;
        }
    }

    fn begin(&mut self, shared: &mut PlaybackState)
        requires
            old(self)@.slots.len() <= usize::MAX,
        ensures
            final(self)@ == begin(old(self)@, old(shared)@).0,
            final(shared)@ == begin(old(self)@, old(shared)@).1,
    {
        if shared.is_lost() {
            self.phase = Phase::Idle;
        } else {
            match shared.take_seek() {
                Some(target) => {
                    self.phase = Phase::Seeking { target };
                },
                None => {
                    assert(shared@ == old(shared)@);
                    self.fill(shared);
                },
            }
        }
    }

    fn rest(&mut self, shared: &mut PlaybackState)
        requires
            old(self)@.slots.len() <= usize::MAX,
        ensures
            final(self)@ == rest(old(self)@, old(shared)@).0,
            final(shared)@ == rest(old(self)@, old(shared)@).1,
    {
        if shared.is_playing() && (!self.exhausted || shared.pending_seek().is_some())
            && !self.pool.contains(SlotTag::Queued) {
            self.begin(shared);
        } else {
            self.phase = Phase::Idle;
        }
    }

    fn wanted(&self, shared: &PlaybackState) -> (primitive: Option<Primitive>)
        ensures
            primitive == wanted(self@, shared@),
    {
        match shared.get_state() {
            State::Initial => None,
            State::Playing => {
                if !self.device.is_playing() && self.pool.contains(SlotTag::Queued) {
                    Some(Primitive::Play)
                } else {
                    None
                }
            },
            State::Paused => match self.device {
                State::Paused => None,
                _ => Some(Primitive::Pause),
            },
            State::Stopped => match self.device {
                State::Stopped => None,
                _ => Some(Primitive::Stop),
            },
        }
    }

    fn command(&mut self, shared: &mut PlaybackState)
        requires
            old(self)@.slots.len() <= usize::MAX,
        ensures
            final(self)@ == command(old(self)@, old(shared)@).0,
            final(shared)@ == command(old(self)@, old(shared)@).1,
    {
        match self.wanted(shared) {
            Some(primitive) => {
                self.phase = Phase::Commanding { primitive };
            },
            None => {
                self.rest(shared);
            },
        }
    }

    fn settle(&mut self, shared: &mut PlaybackState)
        requires
            old(self)@.slots.len() <= usize::MAX,
        ensures
            final(self)@ == settle(old(self)@, old(shared)@).0,
            final(shared)@ == settle(old(self)@, old(shared)@).1,
    {
        let queued = self.pool.contains(SlotTag::Queued);
        let ran_dry = self.device.is_playing() && !queued;
        if shared.is_playing() && self.exhausted && !shared.is_looping() && !queued {
            if shared.pending_seek().is_none() {
                shared.finish();
            }
        } else if shared.is_playing() && ran_dry {
            shared.note_starved();
        } else if self.device.is_playing() && queued {
            shared.note_fed();
        }
        if ran_dry {
            self.device = State::Stopped;
        }
        self.command(shared);
    }

    fn after_seek(&mut self, shared: &mut PlaybackState, target: u64, event: Event)
        requires
            old(self)@.slots.len() <= usize::MAX,
        ensures
            final(self)@ == after_seek(old(self)@, old(shared)@, target, event).0,
            final(shared)@ == after_seek(old(self)@, old(shared)@, target, event).1,
    {
        match event {
            Event::Done => {
                self.pool.flush();
                self.device = State::Stopped;
                self.exhausted = false;
                shared.seek_applied(target);
                self.fill(shared);
            },
            Event::DecoderFailed => {
                self.pool.flush();
                self.device = State::Stopped;
                self.phase = Phase::Collecting;
                shared.stop_on(SoundError::DecodeFailure);
            },
            _ => {
                self.lose_device(shared);
            },
        }
    }

    fn after_decode(&mut self, shared: &mut PlaybackState, slot: usize, rewound: bool, event: Event)
        requires
            old(self).wf(),
            old(shared).wf(),
            old(self)@.phase == (Phase::Filling { slot, rewound }),
        ensures
            final(self)@ == after_decode(old(self)@, old(shared)@, slot, rewound, event).0,
            final(shared)@ == after_decode(old(self)@, old(shared)@, slot, rewound, event).1,
    {
        match event {
            Event::Decoded { frames } => {
                if frames > 0 {
                    self.pool.mark_queued(slot);
                    self.phase = Phase::Submitting { slot, frames };
                    shared.advance(frames);
                } else if shared.is_looping() && !rewound {
                    if shared.is_playing() {
                        self.phase = Phase::Rewinding { slot };
                    } else {
                        self.pool.reclaim(slot);
                        self.phase = Phase::Collecting;
                    }
                } else {
                    self.pool.reclaim(slot);
                    self.exhausted = true;
                    self.phase = Phase::Collecting;
                }
            },
            _ => {
                self.pool.reclaim(slot);
                self.phase = Phase::Collecting;
                shared.stop_on(SoundError::DecodeFailure);
            },
        }
    }

    fn after_rewind(&mut self, shared: &mut PlaybackState, slot: usize, event: Event)
        requires
            old(self).wf(),
            old(self)@.phase == (Phase::Rewinding { slot }),
        ensures
            final(self)@ == after_rewind(old(self)@, old(shared)@, slot, event).0,
            final(shared)@ == after_rewind(old(self)@, old(shared)@, slot, event).1,
    {
        match event {
            Event::Done => {
                self.exhausted = false;
                if shared.is_playing() {
                    self.phase = Phase::Filling { slot, rewound: true };
                } else {
                    self.pool.reclaim(slot);
                    self.phase = Phase::Collecting;
                }
                shared.rewind();
            },
            _ => {
                self.pool.reclaim(slot);
                self.phase = Phase::Collecting;
                shared.stop_on(SoundError::DecodeFailure);
            },
        }
    }

    fn after_submit(&mut self, shared: &mut PlaybackState, slot: usize, event: Event)
        requires
            old(self).wf(),
            old(self)@.phase matches Phase::Submitting { slot: s, frames } && s == slot,
        ensures
            final(self)@ == after_submit(old(self)@, old(shared)@, slot, event).0,
            final(shared)@ == after_submit(old(self)@, old(shared)@, slot, event).1,
    {
        match event {
            Event::Done => {
                self.fill(shared);
            },
            Event::Rejected => {
                self.pool.reclaim(slot);
                self.phase = Phase::Collecting;
                shared.stop_on(SoundError::DeviceUnavailable);
            },
            _ => {
                self.lose_device(shared);
            },
        }
    }

    fn after_collect(&mut self, shared: &mut PlaybackState, event: Event)
        requires
            old(self)@.slots.len() <= usize::MAX,
        ensures
            final(self)@ == after_collect(old(self)@, old(shared)@, event).0,
            final(shared)@ == after_collect(old(self)@, old(shared)@, event).1,
    {
        match event {
            Event::Consumed { slot } => {
                let queued = match self.pool.tag(slot) {
                    Some(SlotTag::Queued) => true,
                    _ => false,
                };
                if queued {
                    self.pool.reclaim(slot);
                } else {
                    self.settle(shared);
                }
            },
            Event::DeviceFailed => {
                self.lose_device(shared);
            },
            _ => {
                self.settle(shared);
            },
        }
    }

    /// Takes the outcome of the last action and returns the next one.
    ///
    /// The new state of the worker and of the shared state is the one `next`
    /// gives, and the action is the one the new phase waits on. The first
    /// call of a new worker is made with `Event::Wake`. A call with an event
    /// that is no outcome of the action waited on changes nothing and
    /// returns that action again.
    pub fn step(&mut self, shared: &mut PlaybackState, event: Event) -> (action: Action)
        requires
            old(self).wf(),
            old(shared).wf(),
        ensures
            final(self)@ == next(old(self)@, old(shared)@, event).0,
            final(shared)@ == next(old(self)@, old(shared)@, event).1,
            action == final(self)@.phase.action(),
            final(self).wf(),
            final(shared).wf(),
    {
        proof {
            crate::laws::law_step_keeps_wf(self@, shared@, event);
        }
        let finished = match self.phase {
            Phase::Finished => true,
            _ => false,
        };
        if finished {
        } else if shared.terminating() {
            self.pool.reclaim_all();
            self.phase = Phase::Finished;
        } else if !self.expects(event) {
        } else {
            match self.phase {
                Phase::Idle => {
                    self.begin(shared);
                },
                Phase::Seeking { target } => {
                    self.after_seek(shared, target, event);
                },
                Phase::Filling { slot, rewound } => {
                    self.after_decode(shared, slot, rewound, event);
                },
                Phase::Rewinding { slot } => {
                    self.after_rewind(shared, slot, event);
                },
                Phase::Submitting { slot, frames } => {
                    self.after_submit(shared, slot, event);
                },
                Phase::Collecting => {
                    self.after_collect(shared, event);
                },
                Phase::Commanding { primitive } => {
                    match event {
                        Event::Done => {
                            self.device = primitive.state();
                            self.rest(shared);
                        },
                        _ => {
                            self.lose_device(shared);
                        },
                    }
                },
                Phase::Finished => {},
            }
        }
        self.pending()
    }
}

} // verus!
