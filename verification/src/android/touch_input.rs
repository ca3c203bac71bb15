//! Touches on their way from the screen to the render loop.
//!
//! Every one is kept, in order: a press and a lift between two frames must
//! both take effect.

use crate::renderer::touch::{TouchEvent, TouchState};
use vstd::prelude::*;

verus! {

/// Touches that have not been looked at.
pub type TouchQueue = Vec<TouchEvent>;

/// Adds a touch to the end of the queue.
pub fn push(queue: &mut TouchQueue, event: TouchEvent)
    ensures
        final(queue)@ == old(queue)@.push(event),
{
    queue.push(event);
}

/// Takes every touch out of the queue, in the order they were added.
pub fn drain(queue: &mut TouchQueue) -> (events: Vec<TouchEvent>)
    ensures
        events@ == old(queue)@,
        final(queue)@ == Seq::<TouchEvent>::empty(),
{
    let mut events: Vec<TouchEvent> = Vec::new();
    events.append(queue);
    events
}

/// The touch a motion event stands for. Being cancelled ends a touch like
/// being lifted does, and other actions are no touches.
pub open spec fn touch_of(action: i32, x: u32, y: u32) -> Option<TouchEvent> {
    if action == 0 {
        Some(TouchEvent::Down { x, y })
    } else if action == 1 || action == 3 {
        Some(TouchEvent::Up)
    } else if action == 2 {
        Some(TouchEvent::Move { x, y })
    } else {
        None
    }
}

/// Adds the touch that a motion event stands for to the queue.
pub fn touch_event(queue: &mut TouchQueue, action: i32, x: u32, y: u32)
    ensures
        final(queue)@ == (match touch_of(action, x, y) {
            Some(event) => old(queue)@.push(event),
            None => old(queue)@,
        }),
{
    let event = match action {
        0 => Some(TouchEvent::Down { x, y }),
        1 => Some(TouchEvent::Up),
        3 => Some(TouchEvent::Up),
        2 => Some(TouchEvent::Move { x, y }),
        _ => None,
    };
    if let Some(event) = event {
        push(queue, event);
    }
}

/// Nothing is lost or reordered between two drains: what the second yields
/// is what was pushed in between, and applying both batches is applying all
/// the touches in order.
pub proof fn drains_lose_nothing(
    state: TouchState,
    first: Seq<TouchEvent>,
    pushed_later: Seq<TouchEvent>,
)
    ensures
        state.after_all(first).after_all(Seq::<TouchEvent>::empty() + pushed_later)
            == state.after_all(first + pushed_later),
{
    crate::renderer::touch::events_in_batches(state, first, pushed_later);
    assert(Seq::<TouchEvent>::empty() + pushed_later == pushed_later);
}

} // verus!
