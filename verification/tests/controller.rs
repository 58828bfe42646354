use ears::buffer_pool::SlotTag;
use ears::controller::Controller;
use ears::error::SoundError;
use ears::machine::Action;
use ears::machine::Event;
use ears::machine::Phase;
use ears::machine::Primitive;
use ears::playback::PlaybackState;
use ears::states::State;
use ears::stream_info::StreamInfo;

fn opened(frames: u64) -> PlaybackState {
    PlaybackState::new(true, Ok(StreamInfo { frames, sample_rate: 1000, channels: 1 })).unwrap()
}

fn counts(ctrl: &Controller) -> (usize, usize, usize) {
    (ctrl.count(SlotTag::Free), ctrl.count(SlotTag::Decoding), ctrl.count(SlotTag::Queued))
}

#[test]
fn worker_needs_two_slots() {
    assert!(Controller::new(0).is_none());
    assert!(Controller::new(1).is_none());
    assert!(Controller::new(2).is_some());
}

#[test]
fn new_worker_sleeps_over_a_free_pool() {
    let ctrl = Controller::new(4).unwrap();
    assert_eq!(ctrl.phase(), Phase::Idle);
    assert_eq!(ctrl.pending(), Action::Sleep);
    assert_eq!(ctrl.capacity(), 4);
    assert_eq!(counts(&ctrl), (4, 0, 0));
    assert!(!ctrl.is_exhausted());
    assert_eq!(ctrl.device_state(), State::Initial);
    assert_eq!(ctrl.slot_tag(3), Some(SlotTag::Free));
    assert_eq!(ctrl.slot_tag(4), None);
    let default = Controller::with_default_slots();
    assert_eq!(default.capacity(), 3);
    assert_eq!(default.pending(), Action::Sleep);
}

#[test]
fn worker_of_an_unplayed_stream_decodes_nothing() {
    let mut ctrl = Controller::new(3).unwrap();
    let mut state = opened(100);
    assert_eq!(ctrl.step(&mut state, Event::Wake), Action::Collect);
    assert_eq!(ctrl.step(&mut state, Event::Drained), Action::Sleep);
    assert_eq!(counts(&ctrl), (3, 0, 0));
    assert_eq!(state.get_state(), State::Initial);
    assert_eq!(state.get_offset(), 0);
}

#[test]
fn playing_fills_every_slot_then_starts_the_device() {
    let mut ctrl = Controller::new(3).unwrap();
    let mut state = opened(1000);
    state.play();
    assert_eq!(ctrl.step(&mut state, Event::Wake), Action::Decode { slot: 0 });
    assert_eq!(ctrl.slot_tag(0), Some(SlotTag::Decoding));
    assert_eq!(
        ctrl.step(&mut state, Event::Decoded { frames: 100 }),
        Action::Submit { slot: 0, frames: 100 }
    );
    assert_eq!(ctrl.slot_tag(0), Some(SlotTag::Queued));
    assert_eq!(state.get_offset(), 100);
    assert_eq!(ctrl.step(&mut state, Event::Done), Action::Decode { slot: 1 });
    assert_eq!(
        ctrl.step(&mut state, Event::Decoded { frames: 100 }),
        Action::Submit { slot: 1, frames: 100 }
    );
    assert_eq!(ctrl.step(&mut state, Event::Done), Action::Decode { slot: 2 });
    assert_eq!(
        ctrl.step(&mut state, Event::Decoded { frames: 100 }),
        Action::Submit { slot: 2, frames: 100 }
    );
    assert_eq!(state.get_offset(), 300);
    assert_eq!(ctrl.step(&mut state, Event::Done), Action::Collect);
    assert_eq!(counts(&ctrl), (0, 0, 3));
    assert_eq!(
        ctrl.step(&mut state, Event::Drained),
        Action::Device { primitive: Primitive::Play }
    );
    assert_eq!(ctrl.device_state(), State::Initial);
    assert_eq!(ctrl.step(&mut state, Event::Done), Action::Sleep);
    assert_eq!(ctrl.device_state(), State::Playing);
    assert_eq!(state.get_state(), State::Playing);
}

#[test]
fn consumed_slots_are_refilled_on_the_next_round() {
    let mut ctrl = Controller::new(2).unwrap();
    let mut state = opened(1000);
    state.play();
    ctrl.step(&mut state, Event::Wake);
    ctrl.step(&mut state, Event::Decoded { frames: 10 });
    ctrl.step(&mut state, Event::Done);
    ctrl.step(&mut state, Event::Decoded { frames: 10 });
    assert_eq!(ctrl.step(&mut state, Event::Done), Action::Collect);
    ctrl.step(&mut state, Event::Drained);
    assert_eq!(ctrl.step(&mut state, Event::Done), Action::Sleep);
    // Nothing is free: the round only collects.
    assert_eq!(ctrl.step(&mut state, Event::Wake), Action::Collect);
    assert_eq!(ctrl.step(&mut state, Event::Consumed { slot: 0 }), Action::Collect);
    assert_eq!(ctrl.slot_tag(0), Some(SlotTag::Free));
    assert_eq!(ctrl.step(&mut state, Event::Drained), Action::Sleep);
    assert_eq!(state.underruns(), 0);
    // The freed slot is decoded into next.
    assert_eq!(ctrl.step(&mut state, Event::Wake), Action::Decode { slot: 0 });
    assert_eq!(
        ctrl.step(&mut state, Event::Decoded { frames: 10 }),
        Action::Submit { slot: 0, frames: 10 }
    );
    assert_eq!(state.get_offset(), 30);
}

#[test]
fn event_that_answers_nothing_changes_nothing() {
    let mut ctrl = Controller::new(3).unwrap();
    let mut state = opened(1000);
    state.play();
    assert_eq!(ctrl.step(&mut state, Event::Wake), Action::Decode { slot: 0 });
    for event in [
        Event::Wake,
        Event::Done,
        Event::Consumed { slot: 0 },
        Event::Drained,
        Event::DeviceFailed,
    ] {
        assert!(!ctrl.expects(event));
        assert_eq!(ctrl.step(&mut state, event), Action::Decode { slot: 0 });
        assert_eq!(counts(&ctrl), (2, 1, 0));
        assert_eq!(state.get_offset(), 0);
        assert_eq!(state.get_state(), State::Playing);
        assert_eq!(state.last_error(), None);
    }
    assert!(ctrl.expects(Event::Decoded { frames: 1 }));
    assert!(ctrl.expects(Event::DecoderFailed));
}

#[test]
fn pause_freezes_the_position() {
    let mut ctrl = Controller::new(3).unwrap();
    let mut state = opened(1000);
    state.play();
    ctrl.step(&mut state, Event::Wake);
    ctrl.step(&mut state, Event::Decoded { frames: 50 });
    ctrl.step(&mut state, Event::Done);
    // A pause arrives while slot 1 is being decoded into.
    state.pause();
    assert_eq!(
        ctrl.step(&mut state, Event::Decoded { frames: 50 }),
        Action::Submit { slot: 1, frames: 50 }
    );
    let frozen = state.get_offset();
    assert_eq!(frozen, 100);
    // No further decode is started.
    assert_eq!(ctrl.step(&mut state, Event::Done), Action::Collect);
    assert_eq!(
        ctrl.step(&mut state, Event::Drained),
        Action::Device { primitive: Primitive::Pause }
    );
    assert_eq!(ctrl.step(&mut state, Event::Done), Action::Sleep);
    for _ in 0..5 {
        assert_eq!(ctrl.step(&mut state, Event::Wake), Action::Collect);
        assert_eq!(ctrl.step(&mut state, Event::Drained), Action::Sleep);
        assert_eq!(state.get_offset(), frozen);
    }
    // Resuming continues from the frozen position, without a seek.
    state.play();
    assert_eq!(state.get_offset(), frozen);
    assert_eq!(ctrl.step(&mut state, Event::Wake), Action::Decode { slot: 2 });
    assert_eq!(
        ctrl.step(&mut state, Event::Decoded { frames: 50 }),
        Action::Submit { slot: 2, frames: 50 }
    );
    assert_eq!(state.get_offset(), frozen + 50);
    assert_eq!(ctrl.step(&mut state, Event::Done), Action::Collect);
    assert_eq!(
        ctrl.step(&mut state, Event::Drained),
        Action::Device { primitive: Primitive::Play }
    );
}

#[test]
fn stop_then_play_restarts_at_frame_zero() {
    let mut ctrl = Controller::new(3).unwrap();
    let mut state = opened(1000);
    state.play();
    ctrl.step(&mut state, Event::Wake);
    ctrl.step(&mut state, Event::Decoded { frames: 300 });
    ctrl.step(&mut state, Event::Done);
    ctrl.step(&mut state, Event::Decoded { frames: 300 });
    ctrl.step(&mut state, Event::Done);
    ctrl.step(&mut state, Event::Decoded { frames: 300 });
    ctrl.step(&mut state, Event::Done);
    ctrl.step(&mut state, Event::Drained);
    assert_eq!(ctrl.step(&mut state, Event::Done), Action::Sleep);
    assert_eq!(state.get_offset(), 900);
    state.stop();
    state.play();
    assert_eq!(ctrl.step(&mut state, Event::Wake), Action::Seek { frame: 0, discard: true });
    assert_eq!(state.pending_seek(), None);
    assert_eq!(ctrl.step(&mut state, Event::Done), Action::Decode { slot: 0 });
    assert_eq!(state.get_offset(), 0);
    assert_eq!(counts(&ctrl), (2, 1, 0));
    assert_eq!(
        ctrl.step(&mut state, Event::Decoded { frames: 300 }),
        Action::Submit { slot: 0, frames: 300 }
    );
    assert_eq!(state.get_offset(), 300);
}

#[test]
fn stop_without_play_stops_the_device() {
    let mut ctrl = Controller::new(2).unwrap();
    let mut state = opened(1000);
    state.play();
    ctrl.step(&mut state, Event::Wake);
    ctrl.step(&mut state, Event::Decoded { frames: 10 });
    ctrl.step(&mut state, Event::Done);
    ctrl.step(&mut state, Event::Decoded { frames: 10 });
    ctrl.step(&mut state, Event::Done);
    ctrl.step(&mut state, Event::Drained);
    ctrl.step(&mut state, Event::Done);
    assert_eq!(ctrl.device_state(), State::Playing);
    state.stop();
    assert_eq!(ctrl.step(&mut state, Event::Wake), Action::Seek { frame: 0, discard: true });
    assert_eq!(ctrl.step(&mut state, Event::Done), Action::Collect);
    assert_eq!(counts(&ctrl), (2, 0, 0));
    assert_eq!(state.get_offset(), 0);
    // The discard has stopped the device already: no primitive is needed.
    assert_eq!(ctrl.device_state(), State::Stopped);
    assert_eq!(ctrl.step(&mut state, Event::Drained), Action::Sleep);
    assert_eq!(state.get_state(), State::Stopped);
}

#[test]
fn seek_discards_what_was_decoded_before() {
    let mut ctrl = Controller::new(3).unwrap();
    let mut state = opened(1000);
    state.play();
    ctrl.step(&mut state, Event::Wake);
    ctrl.step(&mut state, Event::Decoded { frames: 100 });
    ctrl.step(&mut state, Event::Done);
    ctrl.step(&mut state, Event::Decoded { frames: 100 });
    ctrl.step(&mut state, Event::Done);
    ctrl.step(&mut state, Event::Decoded { frames: 100 });
    ctrl.step(&mut state, Event::Done);
    ctrl.step(&mut state, Event::Drained);
    ctrl.step(&mut state, Event::Done);
    assert_eq!(counts(&ctrl), (0, 0, 3));
    state.set_offset(700);
    assert_eq!(state.get_offset(), 300);
    assert_eq!(ctrl.step(&mut state, Event::Wake), Action::Seek { frame: 700, discard: true });
    assert_eq!(ctrl.step(&mut state, Event::Done), Action::Decode { slot: 0 });
    assert_eq!(state.get_offset(), 700);
    assert_eq!(counts(&ctrl), (2, 1, 0));
    let mut last = state.get_offset();
    assert_eq!(
        ctrl.step(&mut state, Event::Decoded { frames: 100 }),
        Action::Submit { slot: 0, frames: 100 }
    );
    assert!(state.get_offset() > last);
    last = state.get_offset();
    assert_eq!(last, 800);
    ctrl.step(&mut state, Event::Done);
    ctrl.step(&mut state, Event::Decoded { frames: 100 });
    assert_eq!(state.get_offset(), 900);
    // The device was stopped by the discard and is started again.
    ctrl.step(&mut state, Event::Done);
    ctrl.step(&mut state, Event::Decoded { frames: 100 });
    assert_eq!(ctrl.step(&mut state, Event::Done), Action::Collect);
    assert_eq!(
        ctrl.step(&mut state, Event::Drained),
        Action::Device { primitive: Primitive::Play }
    );
}

#[test]
fn seek_asked_for_during_a_seek_is_applied_next() {
    let mut ctrl = Controller::new(2).unwrap();
    let mut state = opened(1000);
    state.set_offset(100);
    assert_eq!(ctrl.step(&mut state, Event::Wake), Action::Seek { frame: 100, discard: true });
    state.set_offset(200);
    assert_eq!(ctrl.step(&mut state, Event::Done), Action::Collect);
    assert_eq!(state.get_offset(), 100);
    assert_eq!(state.pending_seek(), Some(200));
    assert_eq!(ctrl.step(&mut state, Event::Drained), Action::Sleep);
    assert_eq!(ctrl.step(&mut state, Event::Wake), Action::Seek { frame: 200, discard: true });
    ctrl.step(&mut state, Event::Done);
    assert_eq!(state.get_offset(), 200);
    assert_eq!(state.pending_seek(), None);
}

#[test]
fn position_never_passes_the_end() {
    let mut ctrl = Controller::new(2).unwrap();
    let mut state = opened(100);
    state.play();
    ctrl.step(&mut state, Event::Wake);
    ctrl.step(&mut state, Event::Decoded { frames: 70 });
    assert_eq!(state.get_offset(), 70);
    ctrl.step(&mut state, Event::Done);
    ctrl.step(&mut state, Event::Decoded { frames: u64::MAX });
    assert_eq!(state.get_offset(), 100);
}

#[test]
fn looping_stream_wraps_to_frame_zero() {
    let mut ctrl = Controller::new(2).unwrap();
    let mut state = opened(100);
    state.set_looping(true);
    state.play();
    assert_eq!(ctrl.step(&mut state, Event::Wake), Action::Decode { slot: 0 });
    assert_eq!(
        ctrl.step(&mut state, Event::Decoded { frames: 60 }),
        Action::Submit { slot: 0, frames: 60 }
    );
    assert_eq!(ctrl.step(&mut state, Event::Done), Action::Decode { slot: 1 });
    assert_eq!(
        ctrl.step(&mut state, Event::Decoded { frames: 40 }),
        Action::Submit { slot: 1, frames: 40 }
    );
    // The chunk reaches the end: a looping stream stands at frame 0.
    assert_eq!(state.get_offset(), 0);
    assert_eq!(ctrl.step(&mut state, Event::Done), Action::Collect);
    ctrl.step(&mut state, Event::Drained);
    ctrl.step(&mut state, Event::Done);
    assert_eq!(ctrl.step(&mut state, Event::Wake), Action::Collect);
    assert_eq!(ctrl.step(&mut state, Event::Consumed { slot: 0 }), Action::Collect);
    assert_eq!(ctrl.step(&mut state, Event::Drained), Action::Sleep);
    // The end of the stream: back to frame 0, same slot, same round.
    assert_eq!(ctrl.step(&mut state, Event::Wake), Action::Decode { slot: 0 });
    assert_eq!(
        ctrl.step(&mut state, Event::Decoded { frames: 0 }),
        Action::Seek { frame: 0, discard: false }
    );
    assert_eq!(ctrl.slot_tag(0), Some(SlotTag::Decoding));
    assert_eq!(ctrl.slot_tag(1), Some(SlotTag::Queued));
    assert_eq!(ctrl.step(&mut state, Event::Done), Action::Decode { slot: 0 });
    assert_eq!(state.get_offset(), 0);
    assert_eq!(
        ctrl.step(&mut state, Event::Decoded { frames: 60 }),
        Action::Submit { slot: 0, frames: 60 }
    );
    assert_eq!(state.get_offset(), 60);
    assert_eq!(state.get_state(), State::Playing);
    assert!(!ctrl.is_exhausted());
}

#[test]
fn looping_offsets_stay_in_the_stream_and_wrap() {
    let frames = 250u64;
    let chunk = 100u64;
    let mut ctrl = Controller::new(3).unwrap();
    let mut state = opened(frames);
    state.set_looping(true);
    state.play();
    let mut decoder = 0u64;
    let mut queue: Vec<usize> = Vec::new();
    let mut event = Event::Wake;
    let mut seen: Vec<u64> = Vec::new();
    let mut wraps = 0;
    for _ in 0..400 {
        let action = ctrl.step(&mut state, event);
        let offset = state.get_offset();
        assert!(offset < frames);
        if let Some(&last) = seen.last() {
            if offset < last {
                assert_eq!(offset, 0);
                wraps += 1;
            }
        }
        seen.push(offset);
        event = match action {
            Action::Sleep => Event::Wake,
            Action::Seek { frame, .. } => {
                decoder = frame;
                Event::Done
            }
            Action::Decode { .. } => {
                let got = chunk.min(frames - decoder);
                decoder += got;
                Event::Decoded { frames: got }
            }
            Action::Submit { slot, .. } => {
                queue.push(slot);
                Event::Done
            }
            Action::Collect => {
                if queue.len() > 1 {
                    Event::Consumed { slot: queue.remove(0) }
                } else {
                    Event::Drained
                }
            }
            Action::Device { .. } => Event::Done,
            Action::Exit => unreachable!(),
        };
    }
    assert!(wraps >= 3);
    assert!(seen.contains(&100));
    assert!(seen.contains(&200));
    assert!(!seen.contains(&250));
    assert_eq!(state.get_state(), State::Playing);
    assert_eq!(state.last_error(), None);
}

#[test]
fn stream_without_loop_ends_once_drained() {
    let mut ctrl = Controller::new(2).unwrap();
    let mut state = opened(100);
    state.play();
    ctrl.step(&mut state, Event::Wake);
    ctrl.step(&mut state, Event::Decoded { frames: 100 });
    assert_eq!(ctrl.step(&mut state, Event::Done), Action::Decode { slot: 1 });
    // The stream has ended: the slot is freed and nothing more is decoded.
    assert_eq!(ctrl.step(&mut state, Event::Decoded { frames: 0 }), Action::Collect);
    assert!(ctrl.is_exhausted());
    assert_eq!(counts(&ctrl), (1, 0, 1));
    ctrl.step(&mut state, Event::Drained);
    assert_eq!(ctrl.step(&mut state, Event::Done), Action::Sleep);
    // While the device still plays the last buffer the stream keeps playing.
    assert_eq!(ctrl.step(&mut state, Event::Wake), Action::Collect);
    assert_eq!(ctrl.step(&mut state, Event::Drained), Action::Sleep);
    assert_eq!(state.get_state(), State::Playing);
    assert_eq!(state.get_offset(), 100);
    // Once it is consumed the stream is stopped at frame 0.
    assert_eq!(ctrl.step(&mut state, Event::Wake), Action::Collect);
    assert_eq!(ctrl.step(&mut state, Event::Consumed { slot: 0 }), Action::Collect);
    assert_eq!(ctrl.step(&mut state, Event::Drained), Action::Sleep);
    assert_eq!(state.get_state(), State::Stopped);
    assert!(!state.is_playing());
    assert_eq!(state.get_offset(), 0);
    assert_eq!(state.last_error(), None);
    assert_eq!(ctrl.device_state(), State::Stopped);
    // The decoder is sent back, so that a later play starts from frame 0.
    assert_eq!(ctrl.step(&mut state, Event::Wake), Action::Seek { frame: 0, discard: true });
    assert_eq!(ctrl.step(&mut state, Event::Done), Action::Collect);
    assert!(!ctrl.is_exhausted());
    assert_eq!(ctrl.step(&mut state, Event::Drained), Action::Sleep);
    state.play();
    assert_eq!(ctrl.step(&mut state, Event::Wake), Action::Decode { slot: 0 });
}

#[test]
fn empty_looping_stream_keeps_playing_without_spinning() {
    let mut ctrl = Controller::new(2).unwrap();
    let mut state = opened(0);
    state.set_looping(true);
    state.play();
    for _ in 0..3 {
        let first = ctrl.step(&mut state, Event::Wake);
        assert!(
            first == Action::Decode { slot: 0 }
                || first == Action::Seek { frame: 0, discard: false }
        );
        if first == (Action::Decode { slot: 0 }) {
            assert_eq!(
                ctrl.step(&mut state, Event::Decoded { frames: 0 }),
                Action::Seek { frame: 0, discard: false }
            );
        }
        assert_eq!(ctrl.step(&mut state, Event::Done), Action::Decode { slot: 0 });
        // Nothing even from the first frame: the round ends and the worker
        // sleeps before it tries again.
        assert_eq!(ctrl.step(&mut state, Event::Decoded { frames: 0 }), Action::Collect);
        assert!(ctrl.is_exhausted());
        assert_eq!(ctrl.step(&mut state, Event::Drained), Action::Sleep);
        assert_eq!(state.get_state(), State::Playing);
        assert_eq!(state.get_offset(), 0);
        assert_eq!(state.last_error(), None);
        assert_eq!(counts(&ctrl), (2, 0, 0));
    }
}

#[test]
fn looping_stream_survives_pause_and_resume_at_its_end() {
    let mut ctrl = Controller::new(3).unwrap();
    let mut state = opened(100);
    state.set_looping(true);
    state.play();
    assert_eq!(ctrl.step(&mut state, Event::Wake), Action::Decode { slot: 0 });
    assert_eq!(
        ctrl.step(&mut state, Event::Decoded { frames: 100 }),
        Action::Submit { slot: 0, frames: 100 }
    );
    assert_eq!(ctrl.step(&mut state, Event::Done), Action::Decode { slot: 1 });
    // The pause arrives while slot 1 is being decoded into, and the
    // decoder finds the end.
    state.pause();
    assert_eq!(ctrl.step(&mut state, Event::Decoded { frames: 0 }), Action::Collect);
    assert!(!ctrl.is_exhausted());
    assert_eq!(counts(&ctrl), (2, 0, 1));
    assert_eq!(state.get_offset(), 0);
    assert_eq!(
        ctrl.step(&mut state, Event::Drained),
        Action::Device { primitive: Primitive::Pause }
    );
    assert_eq!(ctrl.step(&mut state, Event::Done), Action::Sleep);
    state.play();
    // Played again, the stream finds its end and loops.
    assert_eq!(ctrl.step(&mut state, Event::Wake), Action::Decode { slot: 1 });
    assert_eq!(
        ctrl.step(&mut state, Event::Decoded { frames: 0 }),
        Action::Seek { frame: 0, discard: false }
    );
    assert_eq!(ctrl.step(&mut state, Event::Done), Action::Decode { slot: 1 });
    assert_eq!(
        ctrl.step(&mut state, Event::Decoded { frames: 100 }),
        Action::Submit { slot: 1, frames: 100 }
    );
    assert_eq!(ctrl.step(&mut state, Event::Done), Action::Decode { slot: 2 });
    assert_eq!(
        ctrl.step(&mut state, Event::Decoded { frames: 0 }),
        Action::Seek { frame: 0, discard: false }
    );
    assert_eq!(ctrl.step(&mut state, Event::Done), Action::Decode { slot: 2 });
    assert_eq!(
        ctrl.step(&mut state, Event::Decoded { frames: 100 }),
        Action::Submit { slot: 2, frames: 100 }
    );
    assert_eq!(ctrl.step(&mut state, Event::Done), Action::Collect);
    assert_eq!(
        ctrl.step(&mut state, Event::Drained),
        Action::Device { primitive: Primitive::Play }
    );
    assert_eq!(ctrl.step(&mut state, Event::Done), Action::Sleep);
    // However the device drains, the stream is never stopped.
    let mut queue = vec![0usize, 1, 2];
    let mut event = Event::Wake;
    for _ in 0..200 {
        let action = ctrl.step(&mut state, event);
        assert_eq!(state.get_state(), State::Playing);
        assert!(state.get_offset() < 100);
        assert_eq!(state.last_error(), None);
        event = match action {
            Action::Sleep => Event::Wake,
            Action::Seek { .. } => Event::Done,
            Action::Decode { .. } => Event::Decoded { frames: 0 },
            Action::Submit { slot, .. } => {
                queue.push(slot);
                Event::Done
            }
            Action::Collect => {
                if queue.is_empty() {
                    Event::Drained
                } else {
                    Event::Consumed { slot: queue.remove(0) }
                }
            }
            Action::Device { .. } => Event::Done,
            Action::Exit => unreachable!(),
        };
    }
    assert!(state.is_looping());
}

#[test]
fn looping_stream_never_reports_its_length() {
    let mut ctrl = Controller::new(3).unwrap();
    let mut state = opened(1000);
    state.set_looping(true);
    state.play();
    assert_eq!(ctrl.step(&mut state, Event::Wake), Action::Decode { slot: 0 });
    assert_eq!(
        ctrl.step(&mut state, Event::Decoded { frames: 1000 }),
        Action::Submit { slot: 0, frames: 1000 }
    );
    assert_eq!(state.get_offset(), 0);
    assert!(state.is_looping());
    assert_eq!(state.get_state(), State::Playing);
}

#[test]
fn looping_turned_on_at_the_end_wraps_the_position() {
    let mut ctrl = Controller::new(2).unwrap();
    let mut state = opened(100);
    state.play();
    ctrl.step(&mut state, Event::Wake);
    ctrl.step(&mut state, Event::Decoded { frames: 100 });
    assert_eq!(state.get_offset(), 100);
    assert!(state.set_looping(true));
    assert_eq!(state.get_offset(), 0);
    // The decoder finds the end and is sent back to loop.
    assert_eq!(ctrl.step(&mut state, Event::Done), Action::Decode { slot: 1 });
    assert_eq!(
        ctrl.step(&mut state, Event::Decoded { frames: 0 }),
        Action::Seek { frame: 0, discard: false }
    );
    assert_eq!(ctrl.step(&mut state, Event::Done), Action::Decode { slot: 1 });
    assert_eq!(state.get_state(), State::Playing);
}

#[test]
fn looping_turned_on_after_the_end_was_found_still_loops() {
    let mut ctrl = Controller::new(2).unwrap();
    let mut state = opened(100);
    state.play();
    ctrl.step(&mut state, Event::Wake);
    ctrl.step(&mut state, Event::Decoded { frames: 100 });
    assert_eq!(ctrl.step(&mut state, Event::Done), Action::Decode { slot: 1 });
    assert_eq!(ctrl.step(&mut state, Event::Decoded { frames: 0 }), Action::Collect);
    assert!(ctrl.is_exhausted());
    ctrl.step(&mut state, Event::Drained);
    assert_eq!(ctrl.step(&mut state, Event::Done), Action::Sleep);
    state.set_looping(true);
    assert_eq!(state.get_offset(), 0);
    assert_eq!(ctrl.step(&mut state, Event::Wake), Action::Seek { frame: 0, discard: false });
    assert_eq!(ctrl.step(&mut state, Event::Done), Action::Decode { slot: 1 });
    assert!(!ctrl.is_exhausted());
    assert_eq!(
        ctrl.step(&mut state, Event::Decoded { frames: 100 }),
        Action::Submit { slot: 1, frames: 100 }
    );
    assert_eq!(ctrl.step(&mut state, Event::Done), Action::Collect);
    assert_eq!(ctrl.step(&mut state, Event::Consumed { slot: 0 }), Action::Collect);
    assert_eq!(ctrl.step(&mut state, Event::Consumed { slot: 1 }), Action::Collect);
    ctrl.step(&mut state, Event::Drained);
    assert_eq!(state.get_state(), State::Playing);
}

/// Plays a stream of 100 frames out on three slots, up to the collection
/// in which the device gives its last buffer back.
fn played_out() -> (Controller, PlaybackState) {
    let mut ctrl = Controller::new(3).unwrap();
    let mut state = opened(100);
    state.play();
    assert_eq!(ctrl.step(&mut state, Event::Wake), Action::Decode { slot: 0 });
    assert_eq!(
        ctrl.step(&mut state, Event::Decoded { frames: 100 }),
        Action::Submit { slot: 0, frames: 100 }
    );
    assert_eq!(ctrl.step(&mut state, Event::Done), Action::Decode { slot: 1 });
    assert_eq!(ctrl.step(&mut state, Event::Decoded { frames: 0 }), Action::Collect);
    assert_eq!(
        ctrl.step(&mut state, Event::Drained),
        Action::Device { primitive: Primitive::Play }
    );
    assert_eq!(ctrl.step(&mut state, Event::Done), Action::Sleep);
    assert_eq!(ctrl.step(&mut state, Event::Wake), Action::Collect);
    assert_eq!(ctrl.step(&mut state, Event::Consumed { slot: 0 }), Action::Collect);
    assert!(ctrl.is_exhausted());
    assert_eq!(counts(&ctrl), (3, 0, 0));
    assert_eq!(state.get_state(), State::Playing);
    (ctrl, state)
}

#[test]
fn stop_then_play_at_the_end_of_the_stream_is_not_lost() {
    let (mut ctrl, mut state) = played_out();
    // The caller restarts the stream before the worker hears that nothing
    // is left on the device.
    state.stop();
    state.play();
    assert_eq!(state.get_state(), State::Playing);
    assert_eq!(state.pending_seek(), Some(0));
    assert_eq!(
        ctrl.step(&mut state, Event::Drained),
        Action::Seek { frame: 0, discard: true }
    );
    assert_eq!(state.get_state(), State::Playing);
    assert_eq!(ctrl.step(&mut state, Event::Done), Action::Decode { slot: 0 });
    assert_eq!(state.get_offset(), 0);
    assert_eq!(state.get_state(), State::Playing);
    assert_eq!(state.last_error(), None);
    assert_eq!(
        ctrl.step(&mut state, Event::Decoded { frames: 100 }),
        Action::Submit { slot: 0, frames: 100 }
    );
    assert_eq!(state.get_offset(), 100);
    assert_eq!(state.get_state(), State::Playing);
}

#[test]
fn stream_played_out_with_no_seek_pending_ends() {
    let (mut ctrl, mut state) = played_out();
    assert_eq!(ctrl.step(&mut state, Event::Drained), Action::Sleep);
    assert_eq!(state.get_state(), State::Stopped);
    assert_eq!(state.get_offset(), 0);
    assert_eq!(state.pending_seek(), Some(0));
}

#[test]
fn seek_at_the_end_of_the_stream_goes_on_from_its_target() {
    let (mut ctrl, mut state) = played_out();
    state.set_offset(40);
    assert_eq!(
        ctrl.step(&mut state, Event::Drained),
        Action::Seek { frame: 40, discard: true }
    );
    assert_eq!(ctrl.step(&mut state, Event::Done), Action::Decode { slot: 0 });
    assert_eq!(state.get_offset(), 40);
    assert_eq!(state.get_state(), State::Playing);
    assert!(!ctrl.is_exhausted());
    assert_eq!(
        ctrl.step(&mut state, Event::Decoded { frames: 60 }),
        Action::Submit { slot: 0, frames: 60 }
    );
    assert_eq!(state.get_offset(), 100);
}

#[test]
fn play_after_a_failed_seek_at_the_end_is_not_swallowed() {
    let (mut ctrl, mut state) = played_out();
    state.set_offset(40);
    assert_eq!(
        ctrl.step(&mut state, Event::Drained),
        Action::Seek { frame: 40, discard: true }
    );
    assert_eq!(ctrl.step(&mut state, Event::DecoderFailed), Action::Collect);
    assert_eq!(state.get_state(), State::Stopped);
    assert_eq!(state.last_error(), Some(SoundError::DecodeFailure));
    assert_eq!(state.pending_seek(), Some(0));
    assert!(ctrl.is_exhausted());
    // The caller plays again while the worker collects.
    assert!(state.play());
    assert_eq!(
        ctrl.step(&mut state, Event::Drained),
        Action::Seek { frame: 0, discard: true }
    );
    assert_eq!(state.get_state(), State::Playing);
    assert_eq!(ctrl.step(&mut state, Event::Done), Action::Decode { slot: 0 });
    assert_eq!(state.get_state(), State::Playing);
    assert_eq!(state.get_offset(), 0);
}

#[test]
fn pending_seek_is_kept_through_every_phase_until_taken() {
    let mut ctrl = Controller::new(2).unwrap();
    let mut state = opened(1000);
    state.play();
    assert_eq!(ctrl.step(&mut state, Event::Wake), Action::Decode { slot: 0 });
    state.set_offset(500);
    let script = [
        Event::Decoded { frames: 100 },
        Event::Done,
        Event::Decoded { frames: 100 },
        Event::Done,
        Event::Drained,
        Event::Done,
    ];
    for event in script {
        let action = ctrl.step(&mut state, event);
        assert!(!matches!(action, Action::Seek { .. }));
        assert_eq!(state.pending_seek(), Some(500));
        assert_eq!(state.get_state(), State::Playing);
    }
    assert_eq!(ctrl.pending(), Action::Sleep);
    assert_eq!(ctrl.step(&mut state, Event::Wake), Action::Seek { frame: 500, discard: true });
    assert_eq!(state.pending_seek(), None);
    // A pause meanwhile does not change where the seek lands.
    state.pause();
    assert_eq!(ctrl.step(&mut state, Event::Done), Action::Collect);
    assert_eq!(state.get_offset(), 500);
    assert_eq!(counts(&ctrl), (2, 0, 0));
}

#[test]
fn decoder_failure_stops_the_stream_and_is_polled() {
    let mut ctrl = Controller::new(3).unwrap();
    let mut state = opened(1000);
    state.play();
    ctrl.step(&mut state, Event::Wake);
    ctrl.step(&mut state, Event::Decoded { frames: 100 });
    assert_eq!(ctrl.step(&mut state, Event::Done), Action::Decode { slot: 1 });
    assert_eq!(ctrl.step(&mut state, Event::DecoderFailed), Action::Collect);
    assert_eq!(state.last_error(), Some(SoundError::DecodeFailure));
    assert_eq!(state.get_state(), State::Stopped);
    assert_eq!(state.get_offset(), 100);
    assert_eq!(state.pending_seek(), Some(0));
    assert_eq!(counts(&ctrl), (2, 0, 1));
    assert!(!state.is_lost());
    assert_eq!(
        ctrl.step(&mut state, Event::Drained),
        Action::Device { primitive: Primitive::Stop }
    );
    assert_eq!(ctrl.step(&mut state, Event::Done), Action::Sleep);
    // The stream survives: played again it starts over from frame 0, and a
    // decode that works clears the error.
    assert!(state.play());
    assert_eq!(ctrl.step(&mut state, Event::Wake), Action::Seek { frame: 0, discard: true });
    assert_eq!(ctrl.step(&mut state, Event::Done), Action::Decode { slot: 0 });
    assert_eq!(state.get_offset(), 0);
    assert_eq!(state.last_error(), Some(SoundError::DecodeFailure));
    assert_eq!(
        ctrl.step(&mut state, Event::Decoded { frames: 100 }),
        Action::Submit { slot: 0, frames: 100 }
    );
    assert_eq!(state.last_error(), None);
    assert_eq!(state.get_offset(), 100);
}

#[test]
fn rejected_buffer_stops_the_stream_but_not_for_good() {
    let mut ctrl = Controller::new(3).unwrap();
    let mut state = opened(1000);
    state.play();
    ctrl.step(&mut state, Event::Wake);
    assert_eq!(
        ctrl.step(&mut state, Event::Decoded { frames: 100 }),
        Action::Submit { slot: 0, frames: 100 }
    );
    assert!(ctrl.expects(Event::Rejected));
    assert_eq!(ctrl.step(&mut state, Event::Rejected), Action::Collect);
    assert_eq!(state.last_error(), Some(SoundError::DeviceUnavailable));
    assert_eq!(state.get_state(), State::Stopped);
    assert!(!state.is_lost());
    assert_eq!(state.pending_seek(), Some(0));
    assert_eq!(counts(&ctrl), (3, 0, 0));
    assert_eq!(
        ctrl.step(&mut state, Event::Drained),
        Action::Device { primitive: Primitive::Stop }
    );
    assert_eq!(ctrl.step(&mut state, Event::Done), Action::Sleep);
    // The stream still takes commands and starts over.
    assert!(state.set_looping(true));
    assert!(state.play());
    assert_eq!(state.get_state(), State::Playing);
    assert_eq!(ctrl.step(&mut state, Event::Wake), Action::Seek { frame: 0, discard: true });
    assert_eq!(ctrl.step(&mut state, Event::Done), Action::Decode { slot: 0 });
    assert_eq!(
        ctrl.step(&mut state, Event::Decoded { frames: 100 }),
        Action::Submit { slot: 0, frames: 100 }
    );
    assert_eq!(state.last_error(), None);
    assert_eq!(ctrl.step(&mut state, Event::Done), Action::Decode { slot: 1 });
}

#[test]
fn rejection_answers_a_submission_only() {
    let mut ctrl = Controller::new(2).unwrap();
    let mut state = opened(1000);
    assert_eq!(ctrl.step(&mut state, Event::Wake), Action::Collect);
    assert!(!ctrl.expects(Event::Rejected));
    assert_eq!(ctrl.step(&mut state, Event::Rejected), Action::Collect);
    assert_eq!(state.last_error(), None);
    assert_eq!(state.get_state(), State::Initial);
}

#[test]
fn failed_seek_stops_the_stream() {
    let mut ctrl = Controller::new(2).unwrap();
    let mut state = opened(1000);
    state.play();
    state.set_offset(500);
    assert_eq!(ctrl.step(&mut state, Event::Wake), Action::Seek { frame: 500, discard: true });
    assert_eq!(ctrl.step(&mut state, Event::DecoderFailed), Action::Collect);
    assert_eq!(state.last_error(), Some(SoundError::DecodeFailure));
    assert_eq!(state.get_state(), State::Stopped);
    assert_eq!(state.get_offset(), 0);
    // The stream is due to start over, and tries once it is played again.
    assert_eq!(state.pending_seek(), Some(0));
    assert_eq!(ctrl.step(&mut state, Event::Drained), Action::Sleep);
    assert!(state.play());
    assert_eq!(ctrl.step(&mut state, Event::Wake), Action::Seek { frame: 0, discard: true });
    assert_eq!(ctrl.step(&mut state, Event::Done), Action::Decode { slot: 0 });
    assert_eq!(state.get_state(), State::Playing);
}

#[test]
fn failed_rewind_stops_the_stream() {
    let mut ctrl = Controller::new(2).unwrap();
    let mut state = opened(100);
    state.set_looping(true);
    state.play();
    ctrl.step(&mut state, Event::Wake);
    ctrl.step(&mut state, Event::Decoded { frames: 100 });
    ctrl.step(&mut state, Event::Done);
    assert_eq!(
        ctrl.step(&mut state, Event::Decoded { frames: 0 }),
        Action::Seek { frame: 0, discard: false }
    );
    assert_eq!(ctrl.step(&mut state, Event::DecoderFailed), Action::Collect);
    assert_eq!(state.last_error(), Some(SoundError::DecodeFailure));
    assert_eq!(state.get_state(), State::Stopped);
    assert_eq!(counts(&ctrl), (1, 0, 1));
}

#[test]
fn lost_device_makes_later_commands_no_ops() {
    let mut ctrl = Controller::new(3).unwrap();
    let mut state = opened(1000);
    state.play();
    ctrl.step(&mut state, Event::Wake);
    assert_eq!(
        ctrl.step(&mut state, Event::Decoded { frames: 100 }),
        Action::Submit { slot: 0, frames: 100 }
    );
    assert_eq!(ctrl.step(&mut state, Event::DeviceFailed), Action::Sleep);
    assert_eq!(state.last_error(), Some(SoundError::DeviceUnavailable));
    assert!(state.is_lost());
    assert_eq!(state.get_state(), State::Stopped);
    assert!(!state.play());
    assert!(!state.pause());
    assert!(!state.stop());
    assert!(!state.set_looping(true));
    assert!(!state.set_offset(5));
    assert_eq!(state.get_state(), State::Stopped);
    assert!(!state.is_looping());
    assert_eq!(state.pending_seek(), None);
    // The worker does no more work, but still obeys teardown.
    assert_eq!(ctrl.step(&mut state, Event::Wake), Action::Sleep);
    assert_eq!(ctrl.step(&mut state, Event::Wake), Action::Sleep);
    state.shut_down();
    assert_eq!(ctrl.step(&mut state, Event::Wake), Action::Exit);
    assert_eq!(counts(&ctrl), (3, 0, 0));
}

#[test]
fn device_loss_ends_the_stream_in_every_phase_that_uses_the_device() {
    // While seeking.
    let mut ctrl = Controller::new(2).unwrap();
    let mut state = opened(1000);
    state.set_offset(10);
    ctrl.step(&mut state, Event::Wake);
    assert_eq!(ctrl.step(&mut state, Event::DeviceFailed), Action::Sleep);
    assert!(state.is_lost());
    // While collecting.
    let mut ctrl = Controller::new(2).unwrap();
    let mut state = opened(1000);
    assert_eq!(ctrl.step(&mut state, Event::Wake), Action::Collect);
    assert_eq!(ctrl.step(&mut state, Event::DeviceFailed), Action::Sleep);
    assert!(state.is_lost());
    // While issuing a primitive.
    let mut ctrl = Controller::new(2).unwrap();
    let mut state = opened(1000);
    state.pause();
    ctrl.step(&mut state, Event::Wake);
    assert_eq!(
        ctrl.step(&mut state, Event::Drained),
        Action::Device { primitive: Primitive::Pause }
    );
    assert_eq!(ctrl.step(&mut state, Event::DeviceFailed), Action::Sleep);
    assert!(state.is_lost());
    assert_eq!(state.get_state(), State::Stopped);
}

#[test]
fn underrun_is_counted_and_refilled_at_once() {
    let mut ctrl = Controller::new(2).unwrap();
    let mut state = opened(10_000);
    state.play();
    ctrl.step(&mut state, Event::Wake);
    ctrl.step(&mut state, Event::Decoded { frames: 10 });
    ctrl.step(&mut state, Event::Done);
    ctrl.step(&mut state, Event::Decoded { frames: 10 });
    ctrl.step(&mut state, Event::Done);
    ctrl.step(&mut state, Event::Drained);
    assert_eq!(ctrl.step(&mut state, Event::Done), Action::Sleep);
    // The device consumes everything before the worker wakes.
    assert_eq!(ctrl.step(&mut state, Event::Wake), Action::Collect);
    assert_eq!(ctrl.step(&mut state, Event::Consumed { slot: 0 }), Action::Collect);
    assert_eq!(ctrl.step(&mut state, Event::Consumed { slot: 1 }), Action::Collect);
    // No sleep: the next round starts at once.
    assert_eq!(ctrl.step(&mut state, Event::Drained), Action::Decode { slot: 0 });
    assert_eq!(state.underruns(), 1);
    assert!(!state.underrun_sustained());
    assert_eq!(state.get_state(), State::Playing);
    assert_eq!(state.last_error(), None);
    assert_eq!(ctrl.device_state(), State::Stopped);
    ctrl.step(&mut state, Event::Decoded { frames: 10 });
    ctrl.step(&mut state, Event::Done);
    ctrl.step(&mut state, Event::Decoded { frames: 10 });
    assert_eq!(ctrl.step(&mut state, Event::Done), Action::Collect);
    // The device has stopped by itself and is started again.
    assert_eq!(
        ctrl.step(&mut state, Event::Drained),
        Action::Device { primitive: Primitive::Play }
    );
    assert_eq!(ctrl.step(&mut state, Event::Done), Action::Sleep);
    assert_eq!(state.underruns(), 1);
    // A second underrun in a row is a sustained one.
    ctrl.step(&mut state, Event::Wake);
    ctrl.step(&mut state, Event::Consumed { slot: 0 });
    ctrl.step(&mut state, Event::Consumed { slot: 1 });
    assert_eq!(ctrl.step(&mut state, Event::Drained), Action::Decode { slot: 0 });
    assert_eq!(state.underruns(), 2);
    assert!(state.underrun_sustained());
    assert_eq!(state.get_state(), State::Playing);
    // Once the device is found fed the count starts over.
    ctrl.step(&mut state, Event::Decoded { frames: 10 });
    ctrl.step(&mut state, Event::Done);
    ctrl.step(&mut state, Event::Decoded { frames: 10 });
    ctrl.step(&mut state, Event::Done);
    ctrl.step(&mut state, Event::Drained);
    assert_eq!(ctrl.step(&mut state, Event::Done), Action::Sleep);
    ctrl.step(&mut state, Event::Wake);
    assert_eq!(ctrl.step(&mut state, Event::Consumed { slot: 0 }), Action::Collect);
    assert_eq!(ctrl.step(&mut state, Event::Drained), Action::Sleep);
    assert_eq!(state.underruns(), 0);
    assert!(!state.underrun_sustained());
}

#[test]
fn consumed_report_for_a_slot_that_is_not_queued_ends_the_collection() {
    let mut ctrl = Controller::new(2).unwrap();
    let mut state = opened(1000);
    assert_eq!(ctrl.step(&mut state, Event::Wake), Action::Collect);
    assert_eq!(ctrl.step(&mut state, Event::Consumed { slot: 0 }), Action::Sleep);
    assert_eq!(ctrl.step(&mut state, Event::Wake), Action::Collect);
    assert_eq!(ctrl.step(&mut state, Event::Consumed { slot: 9 }), Action::Sleep);
    assert_eq!(counts(&ctrl), (2, 0, 0));
}

#[test]
fn teardown_while_playing_frees_every_slot() {
    let mut ctrl = Controller::new(3).unwrap();
    let mut state = opened(1000);
    state.play();
    ctrl.step(&mut state, Event::Wake);
    ctrl.step(&mut state, Event::Decoded { frames: 100 });
    ctrl.step(&mut state, Event::Done);
    assert_eq!(ctrl.pending(), Action::Decode { slot: 1 });
    assert_eq!(counts(&ctrl), (1, 1, 1));
    state.shut_down();
    // Whatever is reported next, the worker exits.
    assert_eq!(ctrl.step(&mut state, Event::Decoded { frames: 100 }), Action::Exit);
    assert_eq!(ctrl.phase(), Phase::Finished);
    assert_eq!(counts(&ctrl), (3, 0, 0));
    assert_eq!(state.get_offset(), 100);
    for event in [Event::Wake, Event::Done, Event::Drained, Event::DeviceFailed] {
        assert_eq!(ctrl.step(&mut state, event), Action::Exit);
        assert_eq!(counts(&ctrl), (3, 0, 0));
    }
}

#[test]
fn teardown_is_obeyed_from_every_phase() {
    let scripts: [&[Event]; 6] = [
        &[],
        &[Event::Wake],
        &[Event::Wake, Event::Decoded { frames: 10 }],
        &[Event::Wake, Event::Decoded { frames: 0 }],
        &[
            Event::Wake,
            Event::Decoded { frames: 10 },
            Event::Done,
            Event::Decoded { frames: 10 },
            Event::Done,
        ],
        &[
            Event::Wake,
            Event::Decoded { frames: 10 },
            Event::Done,
            Event::Decoded { frames: 10 },
            Event::Done,
            Event::Drained,
        ],
    ];
    for script in scripts {
        let mut ctrl = Controller::new(2).unwrap();
        let mut state = opened(1000);
        state.set_looping(true);
        state.play();
        for event in script {
            ctrl.step(&mut state, *event);
        }
        state.shut_down();
        assert_eq!(ctrl.step(&mut state, Event::Wake), Action::Exit);
        assert_eq!(counts(&ctrl), (2, 0, 0));
    }
}

#[test]
fn rapid_commands_leave_the_last_state_for_the_worker() {
    let mut ctrl = Controller::new(2).unwrap();
    let mut state = opened(1000);
    state.play();
    state.pause();
    state.stop();
    state.play();
    state.pause();
    assert_eq!(state.get_state(), State::Paused);
    // The worker sees the last state only: it applies the restart that
    // `stop` asked for and pauses, without decoding.
    assert_eq!(ctrl.step(&mut state, Event::Wake), Action::Seek { frame: 0, discard: true });
    assert_eq!(ctrl.step(&mut state, Event::Done), Action::Collect);
    assert_eq!(
        ctrl.step(&mut state, Event::Drained),
        Action::Device { primitive: Primitive::Pause }
    );
    assert_eq!(ctrl.step(&mut state, Event::Done), Action::Sleep);
    assert_eq!(state.get_state(), State::Paused);
    assert_eq!(counts(&ctrl), (2, 0, 0));
    state.play();
    state.stop();
    state.play();
    assert_eq!(state.get_state(), State::Playing);
    assert_eq!(ctrl.step(&mut state, Event::Wake), Action::Seek { frame: 0, discard: true });
    assert_eq!(ctrl.step(&mut state, Event::Done), Action::Decode { slot: 0 });
    assert_eq!(state.get_state(), State::Playing);
}

#[test]
fn pool_counts_add_up_after_every_step() {
    let mut ctrl = Controller::new(4).unwrap();
    let mut state = opened(500);
    state.set_looping(true);
    state.play();
    let mut decoder = 0u64;
    let mut queue: Vec<usize> = Vec::new();
    let mut event = Event::Wake;
    for round in 0..300 {
        let action = ctrl.step(&mut state, event);
        let (free, decoding, queued) = counts(&ctrl);
        assert_eq!(free + decoding + queued, 4);
        assert!(decoding <= 1);
        assert_eq!(queued, queue.len() + if let Action::Submit { .. } = action { 1 } else { 0 });
        event = match action {
            Action::Sleep => {
                if round % 7 == 0 {
                    state.set_offset((round as u64 * 13) % 500);
                }
                Event::Wake
            }
            Action::Seek { frame, discard } => {
                decoder = frame;
                if discard {
                    queue.clear();
                }
                Event::Done
            }
            Action::Decode { slot } => {
                assert_eq!(ctrl.slot_tag(slot), Some(SlotTag::Decoding));
                let got = 64u64.min(500 - decoder);
                decoder += got;
                Event::Decoded { frames: got }
            }
            Action::Submit { slot, .. } => {
                assert_eq!(ctrl.slot_tag(slot), Some(SlotTag::Queued));
                queue.push(slot);
                Event::Done
            }
            Action::Collect => {
                if round % 3 != 0 && !queue.is_empty() {
                    Event::Consumed { slot: queue.remove(0) }
                } else {
                    Event::Drained
                }
            }
            Action::Device { .. } => Event::Done,
            Action::Exit => unreachable!(),
        };
    }
}
