//! Touch state as a shader sees it.
//!
//! Coordinates are carried as the bit patterns of IEEE 754 single-precision
//! numbers, whose top bit is the sign. They are never computed with here:
//! only moved, and their sign set.

use vstd::prelude::*;

verus! {

/// The sign bit of a single-precision number.
pub const SIGN_BIT: u32 = 0x8000_0000;

/// One touch, in the order a finger makes them.
#[derive(Clone, Copy, PartialEq, Eq, Structural, Debug)]
pub enum TouchEvent {
    Down { x: u32, y: u32 },
    Move { x: u32, y: u32 },
    Up,
}

/// Where the pointer is, where it last went down, whether it is down, and
/// whether it ever was.
#[derive(Clone, Copy, PartialEq, Eq, Structural, Debug)]
pub struct TouchState {
    pub current_x: u32,
    pub current_y: u32,
    pub last_down_x: u32,
    pub last_down_y: u32,
    pub is_down: bool,
    pub ever_clicked: bool,
}

/// `bits` with the opposite sign if `negate` holds.
pub open spec fn signed(bits: u32, negate: bool) -> u32 {
    if negate {
        bits ^ SIGN_BIT
    } else {
        bits
    }
}

impl TouchState {
    /// No touch yet: every coordinate is zero.
    pub open spec fn untouched() -> TouchState {
        TouchState {
            current_x: 0,
            current_y: 0,
            last_down_x: 0,
            last_down_y: 0,
            is_down: false,
            ever_clicked: false,
        }
    }

    /// The state after `event`.
    pub open spec fn after(self, event: TouchEvent) -> TouchState {
        match event {
            TouchEvent::Down { x, y } => TouchState {
                current_x: x,
                current_y: y,
                last_down_x: x,
                last_down_y: y,
                is_down: true,
                ever_clicked: true,
            },
            TouchEvent::Move { x, y } => if self.is_down {
                TouchState { current_x: x, current_y: y, ..self }
            } else {
                self
            },
            TouchEvent::Up => TouchState { is_down: false, ..self },
        }
    }

    /// The state after each of `events` in turn.
    pub open spec fn after_all(self, events: Seq<TouchEvent>) -> TouchState
        decreases events.len(),
    {
        if events.len() == 0 {
            self
        } else {
            self.after_all(events.drop_last()).after(events.last())
        }
    }

    /// The four numbers a shader reads: the current position, then the last
    /// position of a press, its first number negated while pressed and its
    /// second once there has been a press.
    pub open spec fn encoded(self) -> Seq<u32> {
        seq![
            self.current_x,
            self.current_y,
            signed(self.last_down_x, self.is_down),
            signed(self.last_down_y, self.ever_clicked),
        ]
    }

    /// The pointer goes down at `(x, y)`.
    pub fn down(&mut self, x: u32, y: u32)
        ensures
            *final(self) == old(self).after(TouchEvent::Down { x, y }),
    {
        self.current_x = x;
        self.current_y = y;
        self.last_down_x = x;
        self.last_down_y = y;
        self.is_down = true;
        self.ever_clicked = true;
    }

    /// The pointer moves to `(x, y)`, which counts only while it is down.
    pub fn moved(&mut self, x: u32, y: u32)
        ensures
            *final(self) == old(self).after(TouchEvent::Move { x, y }),
    {
        if self.is_down {
            self.current_x = x;
            self.current_y = y;
        }
    }

    /// The pointer is lifted.
    pub fn up(&mut self)
        ensures
            *final(self) == old(self).after(TouchEvent::Up),
    {
        self.is_down = false;
    }

    /// Packs the state into the four numbers a shader reads.
    pub fn encode(&self) -> (four: [u32; 4])
        ensures
            four@ == self.encoded(),
    {
        let z: u32 = if self.is_down {
            self.last_down_x ^ SIGN_BIT
        } else {
            self.last_down_x
        };
        let w: u32 = if self.ever_clicked {
            self.last_down_y ^ SIGN_BIT
        } else {
            self.last_down_y
        };
        [self.current_x, self.current_y, z, w]
    }
}

impl Default for TouchState {
    fn default() -> (state: Self)
        ensures
            state == TouchState::untouched(),
    {
        TouchState {
            current_x: 0,
            current_y: 0,
            last_down_x: 0,
            last_down_y: 0,
            is_down: false,
            ever_clicked: false,
        }
    }
}

/// Negating changes the sign and nothing else, and negating again undoes it.
pub proof fn negation_changes_only_the_sign(bits: u32)
    ensures
        signed(signed(bits, true), true) == bits,
        signed(bits, true) & 0x7fff_ffff == bits & 0x7fff_ffff,
        signed(bits, true) & SIGN_BIT != bits & SIGN_BIT,
{
    assert((bits ^ 0x8000_0000u32) ^ 0x8000_0000u32 == bits) by (bit_vector);
    assert((bits ^ 0x8000_0000u32) & 0x7fff_ffffu32 == bits & 0x7fff_ffffu32) by (bit_vector);
    assert((bits ^ 0x8000_0000u32) & 0x8000_0000u32 != bits & 0x8000_0000u32) by (bit_vector);
}

/// A press is remembered: once there has been one, no event makes the state
/// forget it.
pub proof fn a_click_is_never_forgotten(state: TouchState, events: Seq<TouchEvent>)
    requires
        state.ever_clicked,
    ensures
        state.after_all(events).ever_clicked,
    decreases events.len(),
{
    if events.len() > 0 {
        a_click_is_never_forgotten(state, events.drop_last());
    }
}

/// While the pointer is up, moves change nothing.
pub proof fn moves_while_up_are_ignored(state: TouchState, x: u32, y: u32)
    requires
        !state.is_down,
    ensures
        state.after(TouchEvent::Move { x, y }) == state,
{
}

/// A press and a lift within one frame both count: the position is that of
/// the press, and the pointer is up.
pub proof fn a_tap_keeps_both_transitions(state: TouchState, x: u32, y: u32)
    ensures
        ({
            let tapped = state.after(TouchEvent::Down { x, y }).after(TouchEvent::Up);
            &&& tapped.encoded() == seq![x, y, x, signed(y, true)]
            &&& !tapped.is_down
        }),
{
}

/// Taking events in two batches is taking them all at once.
pub proof fn events_in_batches(state: TouchState, first: Seq<TouchEvent>, second: Seq<TouchEvent>)
    ensures
        state.after_all(first + second) == state.after_all(first).after_all(second),
    decreases second.len(),
{
    if second.len() == 0 {
        assert(first + second == first);
    } else {
        events_in_batches(state, first, second.drop_last());
        assert((first + second).drop_last() == first + second.drop_last());
    }
}

} // verus!
