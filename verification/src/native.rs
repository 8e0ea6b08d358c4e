//! Native events as plain values, and what the engine makes of them.
//!
//! The windowing system reports far more than the engine reads. The types
//! here keep exactly what the rules below look at: whether an event belongs
//! to the window, and whether it says that the window was closed.

use vstd::prelude::*;
use std::collections::VecDeque;
use crate::app::Event;

verus! {

/// What happened to the window.
#[derive(Clone, Copy, Debug, PartialEq, Eq, Structural)]
pub enum NativeWindowEvent {
    /// The window was closed.
    Closed,
    /// Anything else: a resize, a key, the pointer.
    Other,
}

/// One event as the windowing system delivered it.
#[derive(Clone, Copy, Debug, PartialEq, Eq, Structural)]
pub enum NativeEvent {
    /// An event of the window.
    Window(NativeWindowEvent),
    /// An event that belongs to no window: a device, a wake-up, a suspension.
    Other,
}

/// Whether `event` says that the window was closed.
pub open spec fn is_close(event: NativeEvent) -> bool {
    event == NativeEvent::Window(NativeWindowEvent::Closed)
}

/// The engine event that a native event stands for, if any: a closed window
/// is `Event::Close`, and nothing else is recognized.
pub open spec fn translation(event: NativeEvent) -> Option<Event> {
    if is_close(event) {
        Some(Event::Close)
    } else {
        None
    }
}

/// Whether some event of the frame says that the window was closed.
pub open spec fn has_close(events: Seq<NativeEvent>) -> bool {
    exists|i: int| 0 <= i < events.len() && is_close(#[trigger] events[i])
}

/// What a frame reports for the events polled in it: `None`, the signal to
/// stop, once the window was closed, however many other events surround the
/// close; an idle tick otherwise.
pub open spec fn frame_outcome(events: Seq<NativeEvent>) -> Option<Event> {
    if has_close(events) {
        None
    } else {
        Some(Event::Idle)
    }
}

/// A frame stops exactly when one of its events translates to
/// `Event::Close`, and is an idle tick exactly when none of its events
/// translates at all.
pub proof fn lemma_outcome_by_translation(events: Seq<NativeEvent>)
    ensures
        frame_outcome(events) is None <==> exists|i: int|
            0 <= i < events.len() && translation(#[trigger] events[i]) == Some(Event::Close),
        frame_outcome(events) == Some(Event::Idle) <==> forall|i: int|
            0 <= i < events.len() ==> translation(#[trigger] events[i]) is None,
{
    if has_close(events) {
        let i = choose|i: int| 0 <= i < events.len() && is_close(#[trigger] events[i]);
        assert(translation(events[i]) == Some(Event::Close));
    }
}

/// Events that follow a close do not undo it, and events before it do not
/// hide it: two runs of events polled one after the other stop the frame
/// exactly when one of them does.
pub proof fn lemma_outcome_of_concatenation(first: Seq<NativeEvent>, second: Seq<NativeEvent>)
    ensures
        frame_outcome(first + second) is None <==> frame_outcome(first) is None || frame_outcome(
            second,
        ) is None,
{
    let all = first + second;
    if has_close(first) {
        let i = choose|i: int| 0 <= i < first.len() && is_close(#[trigger] first[i]);
        assert(is_close(all[i]));
    }
    if has_close(second) {
        let i = choose|i: int| 0 <= i < second.len() && is_close(#[trigger] second[i]);
        assert(is_close(all[first.len() + i]));
    }
    if has_close(all) {
        let i = choose|i: int| 0 <= i < all.len() && is_close(#[trigger] all[i]);
        if i < first.len() {
            assert(is_close(first[i]));
        } else {
            assert(is_close(second[i - first.len()]));
        }
    }
}

/// Translates one native event.
pub fn translate_native_event(native_event: NativeEvent) -> (translated: Option<Event>)
    ensures
        translated == translation(native_event),
{
    match native_event {
        NativeEvent::Window(we) => {
            match we {
                NativeWindowEvent::Closed => Some(Event::Close),
                _ => None,
            }
        },
        _ => None,
    }
}

/// Decides what a frame reports, from the events polled in it, oldest
/// first.
pub fn run(event_queue: VecDeque<NativeEvent>) -> (outcome: Option<Event>)
    ensures
        outcome == frame_outcome(event_queue@),
{
    let ghost polled = event_queue@;
    let mut pending = event_queue;
    let ghost mut seen: int = 0;
    loop
        invariant
            polled == event_queue@,
            0 <= seen <= polled.len(),
            pending@ == polled.subrange(seen, polled.len() as int),
            forall|i: int| 0 <= i < seen ==> !is_close(#[trigger] polled[i]),
        decreases polled.len() - seen,
    {
        match pending.pop_front() {
            Some(native_event) => {
                assert(native_event == polled[seen]);
                if let Some(e) = translate_native_event(native_event) {
                    assert(is_close(polled[seen]));
                    match e {
                        Event::Close => return None,
                        _ => return Some(e),
                    }
                }
                proof {
                    seen = seen + 1;
                }
            },
            None => {
                assert(seen == polled.len());
                return Some(Event::Idle);
            },
        }
    }
}

} // verus!
