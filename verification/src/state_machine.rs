//! The top-level coordinator: the state machine that owns the user-visible
//! policy — how many blinks per cycle, and how long to pause between cycles.
//!
//! Button presses grow the blink count; ticks either wait out the pause or
//! start the next flash cycle by emitting a `FlashLed` request; the flash
//! controller's `FlashLedDone` rearms the pause.  The LED-drive events it
//! consumes are carried out by the platform layer (see `crate::led`).

use vstd::prelude::*;

use crate::event::Event;

verus! {

/// Ticks the LED stays lit per blink, at the 10 Hz tick rate.
pub const LED_ON_TIME: usize = 4;

/// Ticks the LED stays dark between blinks.
pub const LED_OFF_TIME: usize = 3;

/// Ticks the coordinator pauses between completed flash cycles.
pub const WAIT_TIME: usize = 20;

/// The coordinator's state: the blink count the user has dialled up, whether
/// a flash cycle is running, and how much of the pause is still to wait.
pub struct StateMachine {
    /// Blinks per cycle; grows by one per button press, never shrinks.
    pub flash_count: usize,
    /// Whether a flash cycle has been requested and not yet reported done.
    pub flash_in_progress: bool,
    /// Ticks still to wait before the next cycle may start.
    pub pause_time_remaining: usize,
}

/// What one event does to the coordinator.
///
/// A button press dials one more blink into the count.  A tick starts the
/// next cycle — but only when none is running and the pause has fully
/// elapsed — and otherwise just waits the pause down.  A completed cycle
/// rearms the pause.  The LED-drive events are consumed (the platform layer
/// carries them out) and everything else is ignored; none of these change
/// the state or emit anything.
pub open spec fn coordinator_transition(m: StateMachine, e: Event) -> (StateMachine, Option<
    Event,
>) {
    match e {
        Event::ButtonPress => (
            StateMachine { flash_count: (m.flash_count + 1) as usize, ..m },
            None::<Event>,
        ),
        Event::TimeTick => {
            if !m.flash_in_progress && m.pause_time_remaining == 0 {
                (
                    StateMachine { flash_in_progress: true, ..m },
                    Some(
                        Event::FlashLed {
                            count: m.flash_count,
                            on_time: LED_ON_TIME,
                            off_time: LED_OFF_TIME,
                        },
                    ),
                )
            } else if m.pause_time_remaining > 0 {
                (
                    StateMachine {
                        pause_time_remaining: (m.pause_time_remaining - 1) as usize,
                        ..m
                    },
                    None::<Event>,
                )
            } else {
                (m, None::<Event>)
            }
        },
        Event::FlashLedDone => (
            StateMachine { flash_in_progress: false, pause_time_remaining: WAIT_TIME, ..m },
            None::<Event>,
        ),
        _ => (m, None::<Event>),
    }
}

impl StateMachine {
    /// The power-on policy: one blink per cycle, nothing running, no pause.
    pub fn new() -> (m: StateMachine)
        ensures
            m == (StateMachine {
                flash_count: 1,
                flash_in_progress: false,
                pause_time_remaining: 0,
            }),
    {
        StateMachine { flash_count: 1, flash_in_progress: false, pause_time_remaining: 0 }
    }

    /// Consume one event and return the follow-up request, if any.
    ///
    /// A new flash cycle is requested only when none is in progress and the
    /// pause has fully elapsed.  The blink count is bounded only by the
    /// counter width; one press per debounced edge keeps real systems far
    /// from that bound, so overflow is ruled out by precondition.
    pub fn execute(&mut self, event: &Event) -> (emitted: Option<Event>)
        requires
            *event is ButtonPress ==> old(self).flash_count < usize::MAX,
        ensures
            (*final(self), emitted) == coordinator_transition(*old(self), *event),
    {
        match *event {
            Event::ButtonPress => {
                self.flash_count = self.flash_count + 1;
                None
            },
            Event::TimeTick => {
                if !self.flash_in_progress && self.pause_time_remaining == 0 {
                    self.flash_in_progress = true;
                    Some(
                        Event::FlashLed {
                            count: self.flash_count,
                            on_time: LED_ON_TIME,
                            off_time: LED_OFF_TIME,
                        },
                    )
                } else if self.pause_time_remaining > 0 {
                    self.pause_time_remaining = self.pause_time_remaining - 1;
                    None
                } else {
                    None
                }
            },
            Event::FlashLedDone => {
                self.flash_in_progress = false;
                self.pause_time_remaining = WAIT_TIME;
                None
            },
            _ => None,
        }
    }
}

} // verus!
