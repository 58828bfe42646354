//! What holds of the worker whatever the outside reports, proved of the
//! state machine that `Controller::step` carries out.

use vstd::prelude::*;
use crate::buffer_pool::all_free;
use crate::buffer_pool::count_of;
use crate::buffer_pool::has_tag;
use crate::buffer_pool::lemma_count_bounds;
use crate::buffer_pool::lemma_lowest_exists;
use crate::buffer_pool::lemma_lowest_is_unique;
use crate::buffer_pool::retagged;
use crate::buffer_pool::SlotTag;
use crate::buffer_pool::MIN_SLOTS;
use crate::error::SoundError;
use crate::machine::begin;
use crate::machine::command;
use crate::machine::fill;
use crate::machine::next;
use crate::machine::rest;
use crate::machine::settle;
use crate::machine::Action;
use crate::machine::ControllerView;
use crate::machine::Event;
use crate::machine::Phase;
use crate::machine::Primitive;
use crate::playback::Command;
use crate::playback::PlaybackView;
use crate::states::State;

verus! {

/// A worker between two slots: the pool has its fixed size and nothing is
/// being decoded into.
spec fn calm(c: ControllerView) -> bool {
    &&& MIN_SLOTS <= c.slots.len() <= usize::MAX
    &&& c.no_decoding_but(-1)
}

/// A state reached from `c` with no slot handed to the device: well formed,
/// over a pool of the same size, and at work on the decoder only if the
/// stream is to play.
spec fn settled_from(c: ControllerView, after: (ControllerView, PlaybackView)) -> bool {
    &&& after.0.wf()
    &&& after.0.slots.len() == c.slots.len()
    &&& after.0.phase !is Finished
    &&& after.0.phase !is Submitting
    &&& after.0.phase is Filling || after.0.phase is Rewinding ==> after.1.transport
        == State::Playing
}

proof fn lemma_fill(c: ControllerView, s: PlaybackView)
    requires
        calm(c),
    ensures
        settled_from(c, fill(c, s)),
        fill(c, s).1 == s,
        fill(c, s).0.phase !is Seeking,
        fill(c, s).0.phase !is Collecting ==> has_tag(c.slots, SlotTag::Free) && fill(c, s).0.slots
            == c.slots.update(crate::buffer_pool::lowest(c.slots, SlotTag::Free), SlotTag::Decoding),
        fill(c, s).0.phase is Collecting ==> fill(c, s).0.slots == c.slots,
{
    if has_tag(c.slots, SlotTag::Free) {
        lemma_lowest_exists(c.slots, SlotTag::Free);
    }
}

proof fn lemma_begin(c: ControllerView, s: PlaybackView)
    requires
        calm(c),
    ensures
        settled_from(c, begin(c, s)),
{
    lemma_fill(c, s);
}

proof fn lemma_rest(c: ControllerView, s: PlaybackView)
    requires
        calm(c),
    ensures
        settled_from(c, rest(c, s)),
{
    lemma_begin(c, s);
}

proof fn lemma_command(c: ControllerView, s: PlaybackView)
    requires
        calm(c),
    ensures
        settled_from(c, command(c, s)),
{
    lemma_rest(c, s);
}

proof fn lemma_settle(c: ControllerView, s: PlaybackView)
    requires
        calm(c),
    ensures
        settled_from(c, settle(c, s)),
{
    let ran_dry = c.device == State::Playing && !c.queued();
    let c1 = ControllerView {
        device: if ran_dry {
            State::Stopped
        } else {
            c.device
        },
        ..c
    };
    let s1 = if s.transport == State::Playing && c.exhausted && !s.looping && !c.queued() {
        if s.pending_seek is None {
            s.finished()
        } else {
            s
        }
    } else if s.transport == State::Playing && ran_dry {
        s.starved()
    } else if c.device == State::Playing && c.queued() {
        s.fed()
    } else {
        s
    };
    assert(calm(c1));
    lemma_command(c1, s1);
}

/// What one step keeps and what it may start.
#[verifier::rlimit(60)]
#[verifier::spinoff_prover]
proof fn lemma_step(c: ControllerView, s: PlaybackView, event: Event)
    requires
        c.wf(),
        s.wf(),
    ensures
        next(c, s, event).0.wf(),
        next(c, s, event).1.wf(),
        next(c, s, event).0.slots.len() == c.slots.len(),
        next(c, s, event).1.info == s.info,
        next(c, s, event).1.looping == s.looping,
        next(c, s, event).0.phase != c.phase && (next(c, s, event).0.phase is Filling || next(
            c,
            s,
            event,
        ).0.phase is Rewinding) ==> next(c, s, event).1.transport == State::Playing,
{
    if c.phase is Finished || s.terminate || !c.phase.answered_by(event) {
    } else {
        match c.phase {
            Phase::Idle => {
                lemma_begin(c, s);
            },
            Phase::Seeking { target } => {
                let flushed = ControllerView {
                    slots: retagged(c.slots, SlotTag::Queued, SlotTag::Free),
                    device: State::Stopped,
                    exhausted: false,
                    ..c
                };
                assert(calm(flushed));
                lemma_fill(flushed, s.seek_applied(target));
            },
            Phase::Filling { slot, rewound } => {},
            Phase::Rewinding { slot } => {},
            Phase::Submitting { slot, frames } => {
                lemma_fill(c, s);
            },
            Phase::Collecting => {
                lemma_settle(c, s);
            },
            Phase::Commanding { primitive } => {
                let c1 = ControllerView { device: primitive.spec_state(), ..c };
                assert(calm(c1));
                lemma_rest(c1, s);
            },
            Phase::Finished => {},
        }
    }
}

/// A step keeps the worker and the shared state well formed and the pool
/// at its size.
pub proof fn law_step_keeps_wf(c: ControllerView, s: PlaybackView, event: Event)
    requires
        c.wf(),
        s.wf(),
    ensures
        next(c, s, event).0.wf(),
        next(c, s, event).1.wf(),
        next(c, s, event).0.slots.len() == c.slots.len(),
        next(c, s, event).1.info == s.info,
{
    lemma_step(c, s, event);
}

/// The state after a run of events, first to last, with no command from a
/// caller in between.
pub open spec fn run(c: ControllerView, s: PlaybackView, events: Seq<Event>) -> (
    ControllerView,
    PlaybackView,
)
    decreases events.len(),
{
    if events.len() == 0 {
        (c, s)
    } else {
        let before = run(c, s, events.drop_last());
        next(before.0, before.1, events.last())
    }
}

/// Any run of events keeps the worker and the shared state well formed,
/// the pool at its size, and the loop flag as the caller set it.
pub proof fn law_run_keeps_wf(c: ControllerView, s: PlaybackView, events: Seq<Event>)
    requires
        c.wf(),
        s.wf(),
    ensures
        run(c, s, events).0.wf(),
        run(c, s, events).1.wf(),
        run(c, s, events).0.slots.len() == c.slots.len(),
        run(c, s, events).1.info == s.info,
        run(c, s, events).1.looping == s.looping,
    decreases events.len(),
{
    if events.len() > 0 {
        law_run_keeps_wf(c, s, events.drop_last());
        let before = run(c, s, events.drop_last());
        lemma_step(before.0, before.1, events.last());
    }
}

/// A buffer is handed out only under the tag that allows it. The slot the
/// worker asks to decode into is tagged `Decoding`, and is the only one;
/// the slot it asks to submit is tagged `Queued`, so nothing is submitted
/// while it is being decoded into. A worker that exits holds no slot.
pub proof fn law_actions_agree_with_tags(c: ControllerView, s: PlaybackView, event: Event)
    requires
        c.wf(),
        s.wf(),
    ensures
        ({
            let after = next(c, s, event).0;
            &&& after.phase.action() matches Action::Decode { slot } ==> slot < after.slots.len()
                && after.slots[slot as int] == SlotTag::Decoding
            &&& after.phase.action() matches Action::Submit { slot, frames } ==> slot
                < after.slots.len() && after.slots[slot as int] == SlotTag::Queued && !has_tag(
                after.slots,
                SlotTag::Decoding,
            )
            &&& after.phase.action() is Exit ==> after.slots == all_free(after.slots.len())
            &&& forall|i: int, j: int|
                0 <= i < after.slots.len() && 0 <= j < after.slots.len() && after.slots[i]
                    == SlotTag::Decoding && after.slots[j] == SlotTag::Decoding ==> i == j
        }),
{
    lemma_step(c, s, event);
    let after = next(c, s, event).0;
    assert forall|i: int, j: int|
        0 <= i < after.slots.len() && 0 <= j < after.slots.len() && after.slots[i]
            == SlotTag::Decoding && after.slots[j] == SlotTag::Decoding implies i == j by {
        match after.phase {
            Phase::Filling { slot, rewound } => {
                assert(i == slot && j == slot);
            },
            Phase::Rewinding { slot } => {
                assert(i == slot && j == slot);
            },
            _ => {
                assert(after.no_decoding_but(-1));
            },
        }
    }
}

/// Work on the decoder is started only while the stream is to play: a step
/// that brings the worker to decode, or to send the decoder back to loop,
/// leaves the stream playing.
pub proof fn law_decode_only_while_playing(c: ControllerView, s: PlaybackView, event: Event)
    requires
        c.wf(),
        s.wf(),
        next(c, s, event).0.phase != c.phase,
        next(c, s, event).0.phase is Filling || next(c, s, event).0.phase is Rewinding,
    ensures
        next(c, s, event).1.transport == State::Playing,
{
    lemma_step(c, s, event);
}

/// Whether a step is one at which the stream starts over: the decode that
/// reaches the end of a looping stream, the return of the decoder to the
/// first frame, or the natural end of a stream that does not loop and has
/// no seek pending.
pub open spec fn starts_over(c: ControllerView, s: PlaybackView, event: Event) -> bool {
    &&& c.phase !is Finished
    &&& !s.terminate
    &&& c.phase.answered_by(event)
    &&& {
        ||| event matches Event::Decoded { frames } && c.phase is Filling && frames > 0 && s.looping
            && s.reach(frames) >= s.info.frames
        ||| c.phase is Rewinding && event is Done
        ||| c.phase is Collecting && event !is DeviceFailed && !s.looping && c.exhausted
            && !c.queued() && s.transport == State::Playing && s.pending_seek is None
    }
}

/// How many steps of a run are ones at which the stream starts over.
pub open spec fn turns(c: ControllerView, s: PlaybackView, events: Seq<Event>) -> nat
    decreases events.len(),
{
    if events.len() == 0 {
        0
    } else {
        let before = run(c, s, events.drop_last());
        turns(c, s, events.drop_last()) + if starts_over(before.0, before.1, events.last()) {
            1nat
        } else {
            0nat
        }
    }
}

/// Whether an event reports a failed decode or seek or a rejected buffer.
pub open spec fn reports_failure(event: Event) -> bool {
    event is DecoderFailed || event is Rejected
}

/// The worker never passes the end of the stream, and moves the position
/// in three ways only: forward by the frames of a decoded chunk, to the
/// target of a seek it has applied, and back to frame 0 where the stream
/// starts over.
pub proof fn law_position_moves_forward_or_wraps(c: ControllerView, s: PlaybackView, event: Event)
    requires
        c.wf(),
        s.wf(),
    ensures
        ({
            let after = next(c, s, event).1;
            &&& after.position <= s.info.frames
            &&& {
                ||| after.position == s.position
                ||| after.position == 0 && starts_over(c, s, event)
                ||| event matches Event::Decoded { frames } && c.phase is Filling && frames > 0
                    && after.position > s.position && after.position == s.reach(frames)
                ||| c.phase matches Phase::Seeking { target } && event is Done && after.position
                    == if target < s.info.frames {
                    target
                } else {
                    0
                }
            }
        }),
{
    lemma_step(c, s, event);
    lemma_position_by_phase(c, s, event);
}

/// Outside the three phases that wait on the decoder, a step moves the
/// position only at the natural end of a stream that is to play.
proof fn lemma_position_by_phase(c: ControllerView, s: PlaybackView, event: Event)
    requires
        c.wf(),
        s.wf(),
    ensures
        c.phase is Idle || c.phase is Submitting || c.phase is Commanding || c.phase is Finished
            ==> next(c, s, event).1.position == s.position,
        c.phase is Collecting ==> next(c, s, event).1.position == s.position || (next(
            c,
            s,
            event,
        ).1.position == 0 && starts_over(c, s, event)),
        c.phase is Rewinding ==> next(c, s, event).1.position == s.position || (next(
            c,
            s,
            event,
        ).1.position == 0 && starts_over(c, s, event)),
{
}

/// The position of a looping stream is always a frame of the stream:
/// below the number of frames before and after every step of the worker,
/// every command of a caller, and so after any run of events.
pub proof fn law_looping_position_is_a_frame(
    c: ControllerView,
    s: PlaybackView,
    events: Seq<Event>,
    command: Command,
)
    requires
        c.wf(),
        s.wf(),
        s.looping,
        s.info.frames > 0,
    ensures
        s.position < s.info.frames,
        run(c, s, events).1.position < s.info.frames,
        s.apply(command).looping ==> s.apply(command).position < s.info.frames,
{
    law_run_keeps_wf(c, s, events);
}

/// Looping turned on for a stream that stands at its end puts the position
/// at frame 0, so that the stream is read at a frame from then on.
pub proof fn law_looping_turned_on_at_the_end_wraps(s: PlaybackView)
    requires
        s.wf(),
        !s.lost(),
        s.info.frames > 0,
    ensures
        s.set_looping(true).position < s.info.frames,
        s.position < s.info.frames ==> s.set_looping(true).position == s.position,
        s.position == s.info.frames ==> s.set_looping(true).position == 0,
{
}

/// Whether no seek is under way or pending that could move the position
/// back: none at all, or only the return to frame 0 of a stream that
/// stands there already.
spec fn no_seek_back(c: ControllerView, s: PlaybackView) -> bool {
    &&& s.pending_seek is None || {
        &&& s.pending_seek == Some(0u64)
        &&& s.position == 0
        &&& s.transport == State::Stopped
        &&& c.phase is Idle || c.phase is Commanding || c.phase is Finished
    }
    &&& c.phase matches Phase::Seeking { target } ==> target == 0 && s.position == 0
}

/// One step without a failure and without a seek that could move the
/// position back moves it back only where the stream starts over, and
/// leaves no such seek behind.
proof fn lemma_forward_step(c: ControllerView, s: PlaybackView, event: Event)
    requires
        c.wf(),
        s.wf(),
        no_seek_back(c, s),
        !reports_failure(event),
    ensures
        next(c, s, event).1.position >= s.position || (starts_over(c, s, event) && next(
            c,
            s,
            event,
        ).1.position == 0),
        no_seek_back(next(c, s, event).0, next(c, s, event).1),
{
    lemma_step(c, s, event);
    law_position_moves_forward_or_wraps(c, s, event);
    if c.phase is Finished || s.terminate || !c.phase.answered_by(event) {
    } else {
        match c.phase {
            Phase::Submitting { slot, frames } => {
                lemma_fill(c, s);
            },
            Phase::Commanding { primitive } => {
                let c1 = ControllerView { device: primitive.spec_state(), ..c };
                assert(calm(c1));
                lemma_fill(c1, s);
            },
            Phase::Idle => {
                lemma_fill(c, s);
            },
            Phase::Seeking { target } => {
                let flushed = ControllerView {
                    slots: retagged(c.slots, SlotTag::Queued, SlotTag::Free),
                    device: State::Stopped,
                    exhausted: false,
                    ..c
                };
                assert(calm(flushed));
                lemma_fill(flushed, s.seek_applied(target));
            },
            Phase::Collecting => {
                let ran_dry = c.device == State::Playing && !c.queued();
                let c1 = ControllerView {
                    device: if ran_dry {
                        State::Stopped
                    } else {
                        c.device
                    },
                    ..c
                };
                assert(calm(c1));
                lemma_fill(c1, s);
                lemma_fill(c1, s.starved());
                lemma_fill(c1, s.fed());
                lemma_fill(c1, s.finished());
            },
            _ => {},
        }
    }
}

proof fn lemma_forward_run(c: ControllerView, s: PlaybackView, events: Seq<Event>)
    requires
        c.wf(),
        s.wf(),
        no_seek_back(c, s),
        forall|i: int| 0 <= i < events.len() ==> !reports_failure(events[i]),
    ensures
        run(c, s, events).1.position + turns(c, s, events) * s.info.frames >= s.position,
        turns(c, s, events) == 0 ==> run(c, s, events).1.position >= s.position,
        no_seek_back(run(c, s, events).0, run(c, s, events).1),
    decreases events.len(),
{
    if events.len() > 0 {
        let init = events.drop_last();
        assert forall|i: int| 0 <= i < init.len() implies !reports_failure(init[i]) by {
            assert(init[i] == events[i]);
        }
        lemma_forward_run(c, s, init);
        law_run_keeps_wf(c, s, init);
        let before = run(c, s, init);
        assert(!reports_failure(events[events.len() - 1]));
        lemma_forward_step(before.0, before.1, events.last());
        let w = turns(c, s, init) as int;
        let f = s.info.frames as int;
        assert((w + 1) * f == w * f + f) by (nonlinear_arith);
        assert(0 <= w * f) by (nonlinear_arith)
            requires
                0 <= w,
                0 <= f,
        ;
    }
}

/// Between two reads with no seek, no failure and no command in between,
/// the position does not go back but where the stream starts over: the
/// later position, with the stream's length added once for every such
/// step, is not below the earlier one, and with no such step in between
/// the later position is not below the earlier one. In a looping stream
/// every such step is a wrap, since a looping stream has no natural end.
pub proof fn law_positions_go_back_only_where_stream_starts_over(
    c: ControllerView,
    s: PlaybackView,
    events: Seq<Event>,
)
    requires
        c.wf(),
        s.wf(),
        s.pending_seek is None,
        c.phase !is Seeking,
        forall|i: int| 0 <= i < events.len() ==> !reports_failure(events[i]),
    ensures
        run(c, s, events).1.position + turns(c, s, events) * s.info.frames >= s.position,
        turns(c, s, events) == 0 ==> run(c, s, events).1.position >= s.position,
        forall|c1: ControllerView, s1: PlaybackView, event: Event|
            s1.looping && #[trigger] starts_over(c1, s1, event) ==> c1.phase is Filling
                || c1.phase is Rewinding,
{
    lemma_forward_run(c, s, events);
}

/// When a looping stream reaches its end while it is to play, the worker
/// sends the decoder back to the first frame and decodes into the same
/// slot, with the position at frame 0.
pub proof fn law_loop_wraps_to_frame_zero(c: ControllerView, s: PlaybackView, slot: usize)
    requires
        c.wf(),
        s.wf(),
        !s.terminate,
        s.looping,
        s.transport == State::Playing,
        c.phase == (Phase::Filling { slot, rewound: false }),
    ensures
        ({
            let ended = next(c, s, Event::Decoded { frames: 0 });
            let wrapped = next(ended.0, ended.1, Event::Done);
            &&& ended.0.phase.action() == (Action::Seek { frame: 0, discard: false })
            &&& ended.0.slots == c.slots
            &&& ended.1 == s
            &&& wrapped.0.phase.action() == (Action::Decode { slot })
            &&& wrapped.0.slots == c.slots
            &&& !wrapped.0.exhausted
            &&& wrapped.1.position == 0
            &&& wrapped.1.transport == State::Playing
        }),
{
}

/// The worker stops a looping stream only on a failure: a step that is not
/// the report of a failed decode or seek, of a rejected buffer or of the
/// loss of the device leaves the transport state of a looping stream as it
/// is.
pub proof fn law_looping_stream_stops_only_on_failure(
    c: ControllerView,
    s: PlaybackView,
    event: Event,
)
    requires
        c.wf(),
        s.wf(),
        s.looping,
        !reports_failure(event),
        event !is DeviceFailed,
    ensures
        next(c, s, event).1.transport == s.transport,
        next(c, s, event).1.error == s.error || next(c, s, event).1.error is None,
{
}

/// A looping stream plays until it fails or a caller says otherwise: over
/// any run of events without a failure its transport state stays as it
/// is, however the pauses of the caller fell before the run.
pub proof fn law_looping_stream_plays_until_failure(
    c: ControllerView,
    s: PlaybackView,
    events: Seq<Event>,
)
    requires
        c.wf(),
        s.wf(),
        s.looping,
        forall|i: int|
            0 <= i < events.len() ==> !reports_failure(events[i]) && events[i] !is DeviceFailed,
    ensures
        run(c, s, events).1.transport == s.transport,
    decreases events.len(),
{
    if events.len() > 0 {
        let init = events.drop_last();
        assert forall|i: int| 0 <= i < init.len() implies !reports_failure(init[i]) && init[i]
            !is DeviceFailed by {
            assert(init[i] == events[i]);
        }
        law_looping_stream_plays_until_failure(c, s, init);
        law_run_keeps_wf(c, s, init);
        let before = run(c, s, init);
        assert(!reports_failure(events[events.len() - 1]));
        law_looping_stream_stops_only_on_failure(before.0, before.1, events.last());
    }
}

/// A looping stream that finds its end while it is paused has not ended:
/// the slot is freed, the stream is not marked as ended, and once it is
/// played again the worker decodes, finds the end and sends the decoder
/// back to loop.
pub proof fn law_paused_looping_stream_has_not_ended(
    c: ControllerView,
    s: PlaybackView,
    slot: usize,
)
    requires
        c.wf(),
        s.wf(),
        !s.terminate,
        s.looping,
        s.transport == State::Paused,
        c.phase == (Phase::Filling { slot, rewound: false }),
    ensures
        ({
            let found = next(c, s, Event::Decoded { frames: 0 });
            &&& found.1 == s
            &&& found.0.exhausted == c.exhausted
            &&& found.0.slots == c.slots.update(slot as int, SlotTag::Free)
            &&& found.0.phase.action() == Action::Collect
        }),
{
}

/// Whether `after` has the tags of `before` but for queued slots, which may
/// have been freed: nothing new has been decoded or queued.
pub open spec fn only_freed(before: ControllerView, after: ControllerView) -> bool {
    &&& after.slots.len() == before.slots.len()
    &&& forall|i: int|
        0 <= i < before.slots.len() && before.slots[i] != SlotTag::Queued ==> after.slots[i]
            == before.slots[i]
    &&& forall|i: int|
        0 <= i < before.slots.len() && before.slots[i] == SlotTag::Queued ==> after.slots[i]
            == SlotTag::Queued || after.slots[i] == SlotTag::Free
}

/// Whether the worker has nothing under way with the decoder or the
/// device's queue.
pub open spec fn at_ease(c: ControllerView) -> bool {
    c.phase is Idle || c.phase is Collecting || c.phase is Commanding || c.phase is Finished
}

/// A stream that is not to play holds its position. With no seek pending
/// and nothing under way, no run of events moves the position, starts the
/// stream, or decodes or queues anything, whatever the device and the
/// decoder report.
pub proof fn law_idle_stream_holds_position(
    c: ControllerView,
    s: PlaybackView,
    events: Seq<Event>,
)
    requires
        c.wf(),
        s.wf(),
        s.transport != State::Playing,
        s.pending_seek is None,
        at_ease(c),
    ensures
        run(c, s, events).1.position == s.position,
        run(c, s, events).1.transport != State::Playing,
        run(c, s, events).1.pending_seek is None,
        at_ease(run(c, s, events).0),
        only_freed(c, run(c, s, events).0),
    decreases events.len(),
{
    if events.len() > 0 {
        let before = run(c, s, events.drop_last());
        law_idle_stream_holds_position(c, s, events.drop_last());
        law_run_keeps_wf(c, s, events.drop_last());
        lemma_idle_step(before.0, before.1, events.last());
        let after = next(before.0, before.1, events.last());
        assert forall|i: int|
            0 <= i < c.slots.len() && c.slots[i] != SlotTag::Queued implies after.0.slots[i]
            == c.slots[i] by {
            assert(before.0.slots[i] == c.slots[i]);
        }
    }
}

proof fn lemma_idle_step(c: ControllerView, s: PlaybackView, event: Event)
    requires
        c.wf(),
        s.wf(),
        s.transport != State::Playing,
        s.pending_seek is None,
        at_ease(c),
    ensures
        next(c, s, event).1.position == s.position,
        next(c, s, event).1.transport != State::Playing,
        next(c, s, event).1.pending_seek is None,
        at_ease(next(c, s, event).0),
        only_freed(c, next(c, s, event).0),
{
}

/// What a stream that is not to play can come to while the worker finishes
/// what it had under way: it has not moved, or it stands where the one
/// decode or seek that was under way has put it, or, after a failure, at
/// frame 0.
pub open spec fn held_within_a_chunk(
    c: ControllerView,
    s: PlaybackView,
    events: Seq<Event>,
    position: u64,
) -> bool {
    ||| position == s.position
    ||| exists|i: int| 0 <= i < events.len() && position == next(c, s, events[i]).1.position
    ||| position == 0 && exists|i: int| 0 <= i < events.len() && reports_failure(events[i])
}

/// Where a run over a stream that is not to play stands: untouched, or at
/// ease after the one step that finished what was under way, or past a
/// failure with at most the restart at frame 0 ahead.
spec fn paused_run(
    c: ControllerView,
    s: PlaybackView,
    events: Seq<Event>,
    now: (ControllerView, PlaybackView),
) -> bool {
    &&& now.0.wf()
    &&& now.1.wf()
    &&& now.1.transport != State::Playing
    &&& held_within_a_chunk(c, s, events, now.1.position)
    &&& {
        ||| now == (c, s)
        ||| now.1.pending_seek is None && (at_ease(now.0) || now.0.phase is Submitting)
        ||| {
            &&& exists|i: int| 0 <= i < events.len() && reports_failure(events[i])
            &&& now.1.pending_seek is None || now.1.pending_seek == Some(0u64)
            &&& at_ease(now.0) || now.0.phase is Submitting || now.0.phase == (Phase::Seeking {
                target: 0,
            })
        }
    }
}

proof fn lemma_paused_step(
    c: ControllerView,
    s: PlaybackView,
    events: Seq<Event>,
    now: (ControllerView, PlaybackView),
    event: Event,
)
    requires
        c.wf(),
        s.wf(),
        s.transport != State::Playing,
        s.pending_seek is None,
        paused_run(c, s, events, now),
    ensures
        paused_run(c, s, events.push(event), next(now.0, now.1, event)),
{
    let longer = events.push(event);
    let after = next(now.0, now.1, event);
    lemma_step(now.0, now.1, event);
    assert(longer[events.len() as int] == event);
    assert forall|i: int| 0 <= i < events.len() implies longer[i] == events[i] by {}
    if exists|i: int| 0 <= i < events.len() && reports_failure(events[i]) {
        let i = choose|i: int| 0 <= i < events.len() && reports_failure(events[i]);
        assert(reports_failure(longer[i]));
    }
    if exists|i: int| 0 <= i < events.len() && now.1.position == next(c, s, events[i]).1.position {
        let i = choose|i: int|
            0 <= i < events.len() && now.1.position == next(c, s, events[i]).1.position;
        assert(longer[i] == events[i]);
    }
    if now.0.phase is Finished || now.1.terminate || !now.0.phase.answered_by(event) {
        assert(after.1 == now.1);
        assert(held_within_a_chunk(c, s, longer, after.1.position));
    } else if now == (c, s) {
        assert(after.1.position == next(c, s, longer[events.len() as int]).1.position);
        match c.phase {
            Phase::Idle => {
                lemma_fill(c, s);
            },
            Phase::Seeking { target } => {
                let flushed = ControllerView {
                    slots: retagged(c.slots, SlotTag::Queued, SlotTag::Free),
                    device: State::Stopped,
                    exhausted: false,
                    ..c
                };
                assert(calm(flushed));
                lemma_fill(flushed, s.seek_applied(target));
            },
            Phase::Submitting { slot, frames } => {
                lemma_fill(c, s);
            },
            _ => {},
        }
        if reports_failure(event) {
            assert(reports_failure(longer[events.len() as int]));
        }
    } else {
        if reports_failure(event) {
            assert(reports_failure(longer[events.len() as int]));
        }
        match now.0.phase {
            Phase::Idle => {
                lemma_fill(now.0, now.1);
            },
            Phase::Seeking { target } => {
                let flushed = ControllerView {
                    slots: retagged(now.0.slots, SlotTag::Queued, SlotTag::Free),
                    device: State::Stopped,
                    exhausted: false,
                    ..now.0
                };
                assert(calm(flushed));
                lemma_fill(flushed, now.1.seek_applied(target));
            },
            Phase::Submitting { slot, frames } => {
                lemma_fill(now.0, now.1);
            },
            _ => {},
        }
        assert(after.1.position == now.1.position || after.1.position == 0);
        assert(held_within_a_chunk(c, s, longer, after.1.position));
    }
}

proof fn lemma_paused_run(c: ControllerView, s: PlaybackView, events: Seq<Event>)
    requires
        c.wf(),
        s.wf(),
        s.transport != State::Playing,
        s.pending_seek is None,
    ensures
        paused_run(c, s, events, run(c, s, events)),
    decreases events.len(),
{
    if events.len() > 0 {
        let init = events.drop_last();
        lemma_paused_run(c, s, init);
        lemma_paused_step(c, s, init, run(c, s, init), events.last());
        assert(init.push(events.last()) =~= events);
    }
}

/// A pause holds for as long as it lasts. Over any run of events on a
/// stream that is not to play and has no seek pending, whatever the worker
/// had under way when the run began, the stream does not start playing,
/// and its position is the one from before, or the one that the single
/// decode or seek under way has put it at, or frame 0 after a failure.
pub proof fn law_paused_stream_moves_by_one_chunk_at_most(
    c: ControllerView,
    s: PlaybackView,
    events: Seq<Event>,
)
    requires
        c.wf(),
        s.wf(),
        s.transport != State::Playing,
        s.pending_seek is None,
    ensures
        run(c, s, events).1.transport != State::Playing,
        held_within_a_chunk(c, s, events, run(c, s, events).1.position),
{
    lemma_paused_run(c, s, events);
}

/// The worker applies a pending seek before it decodes anything else. From
/// sleep, the first action is the seek to the target, with the device's
/// queue discarded; once that is done no slot is queued any more, the
/// position is the target, and a stream that is to play decodes its next
/// chunk from there.
pub proof fn law_seek_is_applied_first(c: ControllerView, s: PlaybackView, target: u64)
    requires
        c.wf(),
        s.wf(),
        c.phase is Idle,
        !s.lost(),
        !s.terminate,
        s.pending_seek == Some(target),
    ensures
        ({
            let asked = next(c, s, Event::Wake);
            let done = next(asked.0, asked.1, Event::Done);
            &&& asked.0.phase.action() == (Action::Seek { frame: target, discard: true })
            &&& asked.0.slots == c.slots
            &&& asked.1 == s.seek_taken()
            &&& done.1.position == target
            &&& done.1.pending_seek is None
            &&& done.1.transport == s.transport
            &&& done.0.wf()
            &&& done.1.wf()
            &&& done.0.phase !is Seeking
            &&& !done.0.exhausted
            &&& !done.0.queued()
            &&& s.transport == State::Playing ==> done.0.phase.action() == (Action::Decode {
                slot: 0,
            })
            &&& s.transport != State::Playing ==> done.0.phase.action() == Action::Collect
        }),
{
    let asked = next(c, s, Event::Wake);
    let flushed = ControllerView {
        slots: retagged(c.slots, SlotTag::Queued, SlotTag::Free),
        device: State::Stopped,
        exhausted: false,
        ..asked.0
    };
    let applied = asked.1.seek_applied(target);
    assert(calm(flushed));
    lemma_fill(flushed, applied);
    assert forall|i: int| 0 <= i < flushed.slots.len() implies flushed.slots[i]
        == SlotTag::Free by {
        assert(c.slots[i] != SlotTag::Decoding);
    }
    assert(flushed.slots[0] == SlotTag::Free);
    lemma_lowest_is_unique(flushed.slots, SlotTag::Free, 0);
    let done = next(asked.0, asked.1, Event::Done);
    assert(done == fill(flushed, applied));
    if s.transport == State::Playing {
        assert forall|i: int| 0 <= i < done.0.slots.len() implies done.0.slots[i]
            != SlotTag::Queued by {
            assert(flushed.slots[i] == SlotTag::Free);
        }
    }
    lemma_step(c, s, Event::Wake);
    lemma_step(asked.0, asked.1, Event::Done);
}

/// `stop` followed by `play` starts the stream over, whatever its position
/// was: the worker's next round discards what was queued, sends the
/// decoder to frame 0, reports position 0 and decodes the first chunk from
/// there.
pub proof fn law_stop_then_play_restarts_at_frame_zero(c: ControllerView, s: PlaybackView)
    requires
        c.wf(),
        s.wf(),
        c.phase is Idle,
        !s.lost(),
        !s.terminate,
    ensures
        ({
            let asked = next(c, s.stop().play(), Event::Wake);
            let done = next(asked.0, asked.1, Event::Done);
            &&& asked.0.phase.action() == (Action::Seek { frame: 0, discard: true })
            &&& done.1.position == 0
            &&& done.1.transport == State::Playing
            &&& !done.0.queued()
            &&& done.0.phase.action() == (Action::Decode { slot: 0 })
        }),
{
    law_seek_is_applied_first(c, s.stop().play(), 0);
}

/// `play` on a stream that the worker has stopped starts it over. After
/// the natural end, a failed decode or a rejected buffer, with no seek
/// asked for by the caller, the worker's next round after `play` sends the
/// decoder to frame 0, reports position 0 and decodes the first chunk from
/// there.
pub proof fn law_play_after_the_worker_stopped_starts_over(
    c: ControllerView,
    s: PlaybackView,
    error: SoundError,
)
    requires
        c.wf(),
        s.wf(),
        c.phase is Idle,
        !s.lost(),
        !s.terminate,
        s.pending_seek is None,
    ensures
        ({
            let ended = next(c, s.finished().play(), Event::Wake);
            let restarted = next(ended.0, ended.1, Event::Done);
            let failed = next(c, s.stopped_by(error).play(), Event::Wake);
            let recovered = next(failed.0, failed.1, Event::Done);
            &&& ended.0.phase.action() == (Action::Seek { frame: 0, discard: true })
            &&& restarted.1.position == 0
            &&& restarted.1.transport == State::Playing
            &&& restarted.0.phase.action() == (Action::Decode { slot: 0 })
            &&& failed.0.phase.action() == (Action::Seek { frame: 0, discard: true })
            &&& recovered.1.position == 0
            &&& recovered.1.transport == State::Playing
            &&& recovered.0.phase.action() == (Action::Decode { slot: 0 })
        }),
{
    law_seek_is_applied_first(c, s.finished().play(), 0);
    law_seek_is_applied_first(c, s.stopped_by(error).play(), 0);
}

/// `set_offset` with a frame of the stream makes the worker continue from
/// that frame: its next round discards what was decoded before the seek,
/// reports the frame as position, and a chunk decoded after that moves the
/// position forward from there. Over any run of events after the seek,
/// with no failure in it, the stream is not read below that frame before
/// it starts over.
pub proof fn law_set_offset_continues_from_frame(
    c: ControllerView,
    s: PlaybackView,
    offset: u64,
    frames: u64,
    events: Seq<Event>,
)
    requires
        c.wf(),
        s.wf(),
        c.phase is Idle,
        !s.lost(),
        !s.terminate,
        offset < s.info.frames,
        s.transport == State::Playing,
        frames > 0,
        forall|i: int| 0 <= i < events.len() ==> !reports_failure(events[i]),
    ensures
        ({
            let asked = next(c, s.set_offset(offset), Event::Wake);
            let done = next(asked.0, asked.1, Event::Done);
            let decoded = next(done.0, done.1, Event::Decoded { frames });
            let later = run(done.0, done.1, events);
            &&& asked.0.phase.action() == (Action::Seek { frame: offset, discard: true })
            &&& done.1.position == offset
            &&& !done.0.queued()
            &&& done.0.phase.action() == (Action::Decode { slot: 0 })
            &&& decoded.0.phase.action() == (Action::Submit { slot: 0, frames })
            &&& decoded.1.position == s.reach_from(offset, frames) || (s.looping
                && decoded.1.position == 0 && s.reach_from(offset, frames) == s.info.frames)
            &&& turns(done.0, done.1, events) == 0 ==> later.1.position >= offset
        }),
{
    law_seek_is_applied_first(c, s.set_offset(offset), offset);
    let asked = next(c, s.set_offset(offset), Event::Wake);
    let done = next(asked.0, asked.1, Event::Done);
    law_positions_go_back_only_where_stream_starts_over(done.0, done.1, events);
}

/// Teardown is obeyed at the next step, whatever the worker was doing and
/// whatever is reported: the worker exits with every slot free, and stays
/// so.
pub proof fn law_teardown_frees_every_slot(c: ControllerView, s: PlaybackView, event: Event)
    requires
        c.wf(),
        s.terminate,
    ensures
        ({
            let after = next(c, s, event);
            &&& after.0.phase.action() == Action::Exit
            &&& after.0.slots == all_free(c.slots.len())
            &&& count_of(after.0.slots, SlotTag::Free) == c.slots.len()
            &&& after.1 == s
            &&& forall|later: Event| next(after.0, after.1, later) == after
        }),
{
    let after = next(c, s, event);
    assert(after.0.slots =~= all_free(c.slots.len()));
    lemma_count_bounds(after.0.slots, SlotTag::Free);
}

/// The worker changes the transport state in one way only: it stops a
/// stream that has ended or failed. It never touches the loop flag or the
/// request for teardown, and it leaves a pending seek alone except to take
/// it or, where it has stopped the stream, to ask for frame 0.
pub proof fn law_worker_only_stops(c: ControllerView, s: PlaybackView, event: Event)
    requires
        c.wf(),
        s.wf(),
    ensures
        ({
            let after = next(c, s, event).1;
            &&& after.transport == s.transport || after.transport == State::Stopped
            &&& after.looping == s.looping
            &&& after.terminate == s.terminate
            &&& after.info == s.info
            &&& after.pending_seek == s.pending_seek || after.pending_seek is None
                || after.pending_seek == Some(0u64)
        }),
{
}

/// The loss of the device is final: no step of the worker brings a lost
/// stream back, no command of a caller changes it, and a lost stream that
/// sleeps is never woken into work.
pub proof fn law_lost_device_is_final(c: ControllerView, s: PlaybackView, event: Event)
    requires
        c.wf(),
        s.wf(),
        s.lost(),
    ensures
        next(c, s, event).1.lost(),
        next(c, s, event).1.transport == State::Stopped,
        c.phase is Idle && !s.terminate ==> next(c, s, event) == (c, s),
        forall|command: Command| #[trigger] s.apply(command) == s,
{
    lemma_step(c, s, event);
}

/// The loss of the device context is recorded and stops the stream for
/// good.
pub proof fn law_device_failure_stops_stream(c: ControllerView, s: PlaybackView)
    requires
        c.wf(),
        s.wf(),
        !s.terminate,
        c.phase.answered_by(Event::DeviceFailed),
    ensures
        next(c, s, Event::DeviceFailed).1.lost(),
        next(c, s, Event::DeviceFailed).1.error == Some(SoundError::DeviceUnavailable),
        next(c, s, Event::DeviceFailed).1.transport == State::Stopped,
        next(c, s, Event::DeviceFailed).0.phase.action() == Action::Sleep,
{
}

/// A rejected buffer stops the stream without ending it. The error is
/// recorded, the slot is free again, and the stream still takes commands:
/// `play` makes it playing, and the worker's next round starts it over
/// from frame 0 unless the caller asked for another frame.
pub proof fn law_rejected_buffer_stops_stream(c: ControllerView, s: PlaybackView)
    requires
        c.wf(),
        s.wf(),
        !s.terminate,
        !s.lost(),
        c.phase is Submitting,
    ensures
        ({
            let after = next(c, s, Event::Rejected);
            &&& after.1.error == Some(SoundError::DeviceUnavailable)
            &&& after.1.transport == State::Stopped
            &&& !after.1.lost()
            &&& after.1.position == s.position
            &&& after.1.pending_seek == if s.pending_seek is Some {
                s.pending_seek
            } else {
                Some(0u64)
            }
            &&& after.0.phase.action() == Action::Collect
            &&& !has_tag(after.0.slots, SlotTag::Decoding)
            &&& c.phase matches Phase::Submitting { slot, frames } && after.0.slots
                == c.slots.update(slot as int, SlotTag::Free)
            &&& after.1.play().transport == State::Playing
        }),
{
    lemma_step(c, s, Event::Rejected);
    let after = next(c, s, Event::Rejected).0;
    assert(after.no_decoding_but(-1));
}

/// A failure of the decoder is recorded, stops the stream and frees the
/// slot that was being decoded into; it does not end the worker. The
/// stream still takes commands and is due to start over from frame 0
/// unless the caller asked for another frame.
pub proof fn law_decoder_failure_stops_stream(c: ControllerView, s: PlaybackView)
    requires
        c.wf(),
        s.wf(),
        !s.terminate,
        !s.lost(),
        c.phase.answered_by(Event::DecoderFailed),
    ensures
        ({
            let after = next(c, s, Event::DecoderFailed);
            &&& after.1.error == Some(SoundError::DecodeFailure)
            &&& after.1.transport == State::Stopped
            &&& !after.1.lost()
            &&& after.1.position == s.position
            &&& after.0.phase.action() == Action::Collect
            &&& !has_tag(after.0.slots, SlotTag::Decoding)
            &&& after.1.pending_seek == if s.pending_seek is Some {
                s.pending_seek
            } else {
                Some(0u64)
            }
            &&& after.1.play().transport == State::Playing
        }),
{
    lemma_step(c, s, Event::DecoderFailed);
    let after = next(c, s, Event::DecoderFailed).0;
    assert(after.no_decoding_but(-1));
}

/// A starved device is a warning, not an error. When a device that was
/// playing has consumed everything while the stream is to play and has not
/// ended, the worker counts the underrun, leaves the transport state and
/// the error alone, and starts the next round at once instead of sleeping.
pub proof fn law_underrun_is_refilled_at_once(c: ControllerView, s: PlaybackView)
    requires
        c.wf(),
        s.wf(),
        !s.terminate,
        !s.lost(),
        c.phase is Collecting,
        c.device == State::Playing,
        !c.queued(),
        !c.exhausted,
        s.transport == State::Playing,
    ensures
        ({
            let after = next(c, s, Event::Drained);
            &&& after.1.transport == State::Playing
            &&& after.1.error == s.error
            &&& after.1.position == s.position
            &&& after.1.underruns == if s.underruns < u32::MAX {
                s.underruns + 1
            } else {
                u32::MAX as int
            }
            &&& after.0.phase.action() !is Sleep
            &&& s.pending_seek is None ==> after.0.phase.action() == (Action::Decode { slot: 0 })
        }),
{
    let c1 = ControllerView { device: State::Stopped, ..c };
    let s1 = s.starved();
    assert(calm(c1));
    lemma_fill(c1, s1);
    assert forall|i: int| 0 <= i < c.slots.len() implies c.slots[i] == SlotTag::Free by {
        assert(c.slots[i] != SlotTag::Decoding);
        assert(c.slots[i] != SlotTag::Queued);
    }
    assert(c1.slots[0] == SlotTag::Free);
    lemma_lowest_is_unique(c1.slots, SlotTag::Free, 0);
}

/// The natural end. When a stream that does not loop is to play and has
/// ended, the device has consumed everything that was queued and no seek
/// is pending, the worker stops the stream and puts the position back to
/// frame 0, and the stream is due to start over from frame 0.
pub proof fn law_natural_end_stops_at_frame_zero(c: ControllerView, s: PlaybackView)
    requires
        c.wf(),
        s.wf(),
        !s.terminate,
        !s.looping,
        c.phase is Collecting,
        c.exhausted,
        !c.queued(),
        s.transport == State::Playing,
        s.pending_seek is None,
    ensures
        ({
            let after = next(c, s, Event::Drained);
            &&& after.1.transport == State::Stopped
            &&& after.1.position == 0
            &&& after.1.error == s.error
            &&& after.1.pending_seek == Some(0u64)
            &&& after.0.phase.action() is Sleep || after.0.phase.action() == (Action::Device {
                primitive: Primitive::Stop,
            })
        }),
{
}

/// Until the device has consumed everything that was queued, a stream that
/// has ended keeps playing: the worker neither stops it nor decodes.
pub proof fn law_ended_stream_drains_first(c: ControllerView, s: PlaybackView, event: Event)
    requires
        c.wf(),
        s.wf(),
        !s.terminate,
        !s.looping,
        c.phase is Collecting || c.phase is Idle,
        c.exhausted,
        c.queued(),
        s.pending_seek is None,
        s.transport == State::Playing,
        event is Wake || event is Drained,
    ensures
        next(c, s, event).1.transport == State::Playing,
        next(c, s, event).1.position == s.position,
        next(c, s, event).0.slots == c.slots,
        next(c, s, event).0.phase.action() !is Decode,
{
}

/// Looping turned on after the decoder has reached the end takes effect:
/// the worker's next round sends the decoder back to the first frame
/// instead of letting the stream end.
pub proof fn law_looping_turned_on_late_still_loops(c: ControllerView, s: PlaybackView)
    requires
        c.wf(),
        s.wf(),
        !s.terminate,
        !s.lost(),
        s.looping,
        c.phase is Idle,
        c.exhausted,
        has_tag(c.slots, SlotTag::Free),
        s.pending_seek is None,
        s.transport == State::Playing,
    ensures
        ({
            let woken = next(c, s, Event::Wake);
            let back = next(woken.0, woken.1, Event::Done);
            &&& woken.0.phase.action() == (Action::Seek { frame: 0, discard: false })
            &&& woken.1 == s
            &&& back.0.phase.action() is Decode
            &&& !back.0.exhausted
            &&& back.1.position == 0
            &&& back.1.transport == State::Playing
        }),
{
    lemma_fill(c, s);
}

/// A transport primitive is issued once. While the stream is to be paused
/// or stopped, the worker issues the primitive only if the device was not
/// brought to that state before, takes note once it is done, and sleeps;
/// it decodes nothing on the way and keeps the device's queue.
pub proof fn law_primitive_is_issued_once(c: ControllerView, s: PlaybackView)
    requires
        c.wf(),
        s.wf(),
        !s.terminate,
        c.phase is Collecting,
        s.transport == State::Paused || s.transport == State::Stopped,
    ensures
        ({
            let asked = next(c, s, Event::Drained);
            let done = next(asked.0, asked.1, Event::Done);
            let ran_dry = c.device == State::Playing && !c.queued();
            let reached = c.device == s.transport || (ran_dry && s.transport == State::Stopped);
            &&& asked.1.transport == s.transport
            &&& asked.0.slots == c.slots
            &&& reached ==> asked.0.phase.action() == Action::Sleep
            &&& !reached && s.transport == State::Paused ==> asked.0.phase.action() == (
            Action::Device { primitive: Primitive::Pause })
            &&& !reached && s.transport == State::Stopped ==> asked.0.phase.action() == (
            Action::Device { primitive: Primitive::Stop })
            &&& !reached ==> done.0.device == s.transport && done.0.phase.action()
                == Action::Sleep && done.0.slots == c.slots && done.1 == asked.1
        }),
{
}

/// Resuming after a pause plays what was queued before it: the worker's
/// next round takes back no queued buffer and discards nothing, and starts
/// the device again once the queue has been looked at.
pub proof fn law_resume_keeps_the_queue(c: ControllerView, s: PlaybackView)
    requires
        c.wf(),
        s.wf(),
        !s.terminate,
        s.transport == State::Paused,
        c.phase is Idle,
        c.device == State::Paused,
        c.queued(),
        s.pending_seek is None,
    ensures
        ({
            let woken = next(c, s.play(), Event::Wake);
            &&& woken.1 == s.play()
            &&& woken.1.position == s.position
            &&& woken.0.phase !is Seeking
            &&& forall|i: int|
                0 <= i < c.slots.len() && c.slots[i] == SlotTag::Queued ==> woken.0.slots[i]
                    == SlotTag::Queued
            &&& woken.0.phase is Collecting ==> next(woken.0, woken.1, Event::Drained).0.phase.action()
                == (Action::Device { primitive: Primitive::Play })
        }),
{
    lemma_fill(c, s.play());
    if has_tag(c.slots, SlotTag::Free) {
        lemma_lowest_exists(c.slots, SlotTag::Free);
    }
    let woken = next(c, s.play(), Event::Wake);
    if woken.0.phase is Collecting {
        assert(woken.0.slots == c.slots);
    }
}

/// Whether an event reports a failure of the decoder or of the device.
pub open spec fn reports_trouble(event: Event) -> bool {
    reports_failure(event) || event is DeviceFailed
}

/// A stream that a caller has asked to go on from another frame is not
/// ended under the caller's feet. While a seek is pending, no step takes a
/// playing stream out of `Playing` but the report of a failure or of the
/// loss of the device: the natural end waits for the seek. So a `stop`
/// followed by `play`, or a `set_offset`, that arrives while the worker
/// finds the end of the stream is not lost.
pub proof fn law_pending_seek_keeps_stream_playing(
    c: ControllerView,
    s: PlaybackView,
    event: Event,
)
    requires
        c.wf(),
        s.wf(),
        s.transport == State::Playing,
        s.pending_seek is Some,
        !reports_trouble(event),
    ensures
        next(c, s, event).1.transport == State::Playing,
        next(c, s, event).1.position == s.position || c.phase is Filling || c.phase is Rewinding
            || c.phase is Seeking,
{
}

/// A pending seek is kept as asked until the worker takes it. Over every
/// step, in every phase, the seek stays pending with its target, or the
/// worker has taken it and waits on the seek to that target with the
/// device's queue to be discarded.
pub proof fn law_pending_seek_is_kept_until_taken(
    c: ControllerView,
    s: PlaybackView,
    event: Event,
    target: u64,
)
    requires
        c.wf(),
        s.wf(),
        s.pending_seek == Some(target),
    ensures
        ({
            let after = next(c, s, event);
            ||| after.1.pending_seek == Some(target)
            ||| after.1.pending_seek is None && after.0.phase == (Phase::Seeking { target })
                && after.0.phase.action() == (Action::Seek { frame: target, discard: true })
                && after.0.slots == c.slots && after.1.transport == s.transport
        }),
{
    if c.phase is Finished || s.terminate || !c.phase.answered_by(event) {
    } else {
        match c.phase {
            Phase::Seeking { target: under_way } => {
                let flushed = ControllerView {
                    slots: retagged(c.slots, SlotTag::Queued, SlotTag::Free),
                    device: State::Stopped,
                    exhausted: false,
                    ..c
                };
                assert(calm(flushed));
                lemma_fill(flushed, s.seek_applied(under_way));
            },
            Phase::Submitting { slot, frames } => {
                lemma_fill(c, s);
            },
            _ => {},
        }
    }
}

/// A seek that is carried out lands on its target, in whatever state the
/// caller has put the stream meanwhile. Once the seek is done the position
/// is the target, nothing is queued any more, the stream has more to
/// decode, and a stream that is to play decodes into slot 0 while any
/// other collects.
pub proof fn law_seek_done_lands_on_target(c: ControllerView, s: PlaybackView, target: u64)
    requires
        c.wf(),
        s.wf(),
        !s.terminate,
        c.phase == (Phase::Seeking { target }),
    ensures
        ({
            let done = next(c, s, Event::Done);
            &&& done.1.position == if target < s.info.frames {
                target
            } else {
                0
            }
            &&& done.1 == s.seek_applied(target)
            &&& !done.0.queued()
            &&& !done.0.exhausted
            &&& done.0.device == State::Stopped
            &&& s.transport == State::Playing ==> done.0.phase.action() == (Action::Decode {
                slot: 0,
            })
            &&& s.transport != State::Playing ==> done.0.phase.action() == Action::Collect
        }),
{
    let flushed = ControllerView {
        slots: retagged(c.slots, SlotTag::Queued, SlotTag::Free),
        device: State::Stopped,
        exhausted: false,
        ..c
    };
    let applied = s.seek_applied(target);
    assert(calm(flushed));
    lemma_fill(flushed, applied);
    assert forall|i: int| 0 <= i < flushed.slots.len() implies flushed.slots[i]
        == SlotTag::Free by {
        assert(c.slots[i] != SlotTag::Decoding);
    }
    assert(flushed.slots[0] == SlotTag::Free);
    lemma_lowest_is_unique(flushed.slots, SlotTag::Free, 0);
    let done = next(c, s, Event::Done);
    assert(done == fill(flushed, applied));
    assert forall|i: int| 0 <= i < done.0.slots.len() implies done.0.slots[i]
        != SlotTag::Queued by {
        assert(flushed.slots[i] == SlotTag::Free);
    }
}

/// What is queued stays queued until the device has had it. With no seek
/// pending or under way and no teardown asked for, a step takes no slot
/// off the queue but the one the device reports as consumed, or the one
/// whose buffer it rejects.
pub proof fn law_queue_is_kept_until_consumed(c: ControllerView, s: PlaybackView, event: Event)
    requires
        c.wf(),
        s.wf(),
        !s.terminate,
        s.pending_seek is None,
        c.phase !is Seeking,
    ensures
        forall|i: int|
            0 <= i < c.slots.len() && c.slots[i] == SlotTag::Queued ==> {
                ||| next(c, s, event).0.slots[i] == SlotTag::Queued
                ||| event == (Event::Consumed { slot: i as usize }) && c.phase is Collecting
                ||| c.phase matches Phase::Submitting { slot, frames } && slot == i
                    && event is Rejected
            },
{
    lemma_step(c, s, event);
    if c.phase is Finished || !c.phase.answered_by(event) {
    } else {
        match c.phase {
            Phase::Idle => {
                lemma_queue_kept_by_fill(c, s);
            },
            Phase::Submitting { slot, frames } => {
                lemma_queue_kept_by_fill(c, s);
            },
            Phase::Collecting => {
                lemma_queue_kept_by_settle(c, s);
            },
            Phase::Commanding { primitive } => {
                let c1 = ControllerView { device: primitive.spec_state(), ..c };
                assert(calm(c1));
                lemma_queue_kept_by_fill(c1, s);
            },
            _ => {},
        }
    }
}

proof fn lemma_queue_kept_by_fill(c: ControllerView, s: PlaybackView)
    requires
        calm(c),
    ensures
        forall|i: int|
            0 <= i < c.slots.len() && c.slots[i] == SlotTag::Queued ==> fill(c, s).0.slots[i]
                == SlotTag::Queued,
{
    lemma_fill(c, s);
    if has_tag(c.slots, SlotTag::Free) {
        lemma_lowest_exists(c.slots, SlotTag::Free);
    }
}

proof fn lemma_queue_kept_by_settle(c: ControllerView, s: PlaybackView)
    requires
        calm(c),
        s.pending_seek is None,
    ensures
        forall|i: int|
            0 <= i < c.slots.len() && c.slots[i] == SlotTag::Queued ==> settle(c, s).0.slots[i]
                == SlotTag::Queued,
{
    let ran_dry = c.device == State::Playing && !c.queued();
    let c1 = ControllerView {
        device: if ran_dry {
            State::Stopped
        } else {
            c.device
        },
        ..c
    };
    assert(calm(c1));
    lemma_queue_kept_by_fill(c1, s);
    lemma_queue_kept_by_fill(c1, s.starved());
    lemma_queue_kept_by_fill(c1, s.fed());
    lemma_queue_kept_by_fill(c1, s.finished().seek_taken());
}

/// A pause holds the position within one chunk, counted in frames. Over
/// any run of events on a stream that is not to play, with no seek pending
/// or under way, the position is the one from before; or it lies beyond it
/// by no more than the frames of the one chunk whose decode was under way;
/// or it is frame 0, where that chunk has wrapped a looping stream, the
/// decoder has been sent back to loop, or a failure has been reported.
pub proof fn law_paused_position_moves_by_one_decoded_chunk(
    c: ControllerView,
    s: PlaybackView,
    events: Seq<Event>,
)
    requires
        c.wf(),
        s.wf(),
        s.transport != State::Playing,
        s.pending_seek is None,
        c.phase !is Seeking,
    ensures
        ({
            let position = run(c, s, events).1.position;
            ||| position == s.position
            ||| c.phase is Filling && exists|i: int|
                0 <= i < events.len() && (#[trigger] events[i] matches Event::Decoded { frames }
                    && s.position < position <= s.position + frames)
            ||| position == 0 && (c.phase is Filling || c.phase is Rewinding || exists|i: int|
                0 <= i < events.len() && reports_failure(#[trigger] events[i]))
        }),
{
    lemma_paused_run(c, s, events);
    let position = run(c, s, events).1.position;
    if position != s.position && !(position == 0 && exists|i: int|
        0 <= i < events.len() && reports_failure(events[i])) {
        let i = choose|i: int|
            0 <= i < events.len() && position == next(c, s, events[i]).1.position;
        law_position_moves_forward_or_wraps(c, s, events[i]);
        if position != 0 {
            assert(events[i] matches Event::Decoded { frames } && s.position < position
                <= s.position + frames);
        }
    }
}

} // verus!
