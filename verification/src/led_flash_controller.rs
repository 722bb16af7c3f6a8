//! The flash controller: the state machine that owns LED on/off timing and
//! the count-down of blinks still owed.
//!
//! Driven by `TimeTick` and `FlashLed` events, it emits the LED-drive
//! commands and, when a sequence has fully run, `FlashLedDone`.  Every tick
//! first counts the running phase down by one, then evaluates the
//! transitions; a fresh `FlashLed` request preempts any in-flight sequence.

use vstd::prelude::*;

use crate::event::Event;

verus! {

/// The controller's phase: idle, LED dark between blinks, or LED lit.
#[derive(Clone, Copy, PartialEq, Eq, Structural, Debug)]
pub enum State {
    /// No request pending.
    Inactive,
    /// LED dark, counting down the gap before the next blink.
    Off,
    /// LED lit, counting down the blink.
    On,
}

/// The flash controller's state.  `time_remaining` counts the current
/// phase down; `flashes_remaining` counts the blink cycles still owed.
pub struct LedFlashController {
    /// The current phase.
    pub state: State,
    /// Ticks the LED stays lit per blink.
    pub on_time: usize,
    /// Ticks the LED stays dark between blinks.
    pub off_time: usize,
    /// Ticks left in the current phase.
    pub time_remaining: usize,
    /// Blink cycles still owed.
    pub flashes_remaining: usize,
}

/// Count a tick field down by one, stopping at zero.
pub open spec fn count_down(n: usize) -> usize {
    if n > 0 {
        (n - 1) as usize
    } else {
        0
    }
}

/// What one `TimeTick` does: count the phase down, then take the first
/// transition that applies.
///
/// The lit phase announces itself with `LedTurnOn` exactly once per blink:
/// a request preloads `time_remaining` to one more than the on time, so the
/// decrement lands on `on_time` only on the first tick after entering the
/// lit phase.  A finished lit phase pays off one owed blink and starts the
/// dark phase; a finished dark phase starts the next blink, or reports the
/// whole sequence done when no blink is owed.
pub open spec fn tick_transition(c: LedFlashController) -> (LedFlashController, Option<Event>) {
    let t = count_down(c.time_remaining);
    if c.state is On && t == c.on_time && c.flashes_remaining > 0 {
        (LedFlashController { time_remaining: t, ..c }, Some(Event::LedTurnOn))
    } else if c.state is On && t == 0 {
        (
            LedFlashController {
                state: State::Off,
                time_remaining: c.off_time,
                flashes_remaining: count_down(c.flashes_remaining),
                ..c
            },
            Some(Event::LedTurnOff),
        )
    } else if c.state is Off && t == 0 && c.flashes_remaining > 0 {
        (
            LedFlashController { state: State::On, time_remaining: c.on_time, ..c },
            Some(Event::LedTurnOn),
        )
    } else if c.state is Off && t == 0 && c.flashes_remaining == 0 {
        (
            LedFlashController { state: State::Inactive, time_remaining: t, ..c },
            Some(Event::FlashLedDone),
        )
    } else {
        (LedFlashController { time_remaining: t, ..c }, None)
    }
}

/// What a `FlashLed` request does, whatever the current phase: adopt the
/// requested times and count, preload the countdown with one extra tick so
/// the first tick's decrement lands exactly on the on time, and enter the
/// lit phase.  No event is emitted by the request itself.
pub open spec fn request_transition(
    c: LedFlashController,
    count: usize,
    on_time: usize,
    off_time: usize,
) -> LedFlashController
    recommends
        on_time < usize::MAX,
{
    LedFlashController {
        state: State::On,
        on_time,
        off_time,
        time_remaining: (on_time + 1) as usize,
        flashes_remaining: count,
    }
}

/// What one event does to the controller: requests and ticks drive it,
/// every other event leaves it untouched and emits nothing.
pub open spec fn process_transition(c: LedFlashController, e: Event) -> (
    LedFlashController,
    Option<Event>,
) {
    match e {
        Event::FlashLed { count, on_time, off_time } => (
            request_transition(c, count, on_time, off_time),
            None::<Event>,
        ),
        Event::TimeTick => tick_transition(c),
        _ => (c, None::<Event>),
    }
}

impl LedFlashController {
    /// A controller with no request pending.
    pub fn new() -> (c: Self)
        ensures
            c == (LedFlashController {
                state: State::Inactive,
                on_time: 0,
                off_time: 0,
                time_remaining: 0,
                flashes_remaining: 0,
            }),
    {
        LedFlashController {
            state: State::Inactive,
            on_time: 0,
            off_time: 0,
            time_remaining: 0,
            flashes_remaining: 0,
        }
    }

    /// Advance time by one tick: count the phase down, then evaluate the
    /// transition table.
    fn handle_time_tick(&mut self) -> (emitted: Option<Event>)
        ensures
            (*final(self), emitted) == tick_transition(*old(self)),
    {
        if self.time_remaining > 0 {
            self.time_remaining = self.time_remaining - 1;
        }
        match self.state {
            State::On => {
                if self.time_remaining == self.on_time && self.flashes_remaining > 0 {
                    Some(Event::LedTurnOn)
                } else if self.time_remaining == 0 {
                    if self.flashes_remaining > 0 {
                        self.flashes_remaining = self.flashes_remaining - 1;
                    }
                    self.state = State::Off;
                    self.time_remaining = self.off_time;
                    Some(Event::LedTurnOff)
                } else {
                    None
                }
            },
            State::Off => {
                if self.time_remaining == 0 && self.flashes_remaining > 0 {
                    self.time_remaining = self.on_time;
                    self.state = State::On;
                    Some(Event::LedTurnOn)
                } else if self.time_remaining == 0 && self.flashes_remaining == 0 {
                    self.state = State::Inactive;
                    Some(Event::FlashLedDone)
                } else {
                    None
                }
            },
            State::Inactive => None,
        }
    }

    /// Adopt a flash request: set the times and the owed count, preload the
    /// countdown, and enter the lit phase.
    fn handle_led_flash_request(&mut self, count: usize, on_time: usize, off_time: usize) -> (
        emitted: Option<Event>)
        requires
            on_time < usize::MAX,
        ensures
            *final(self) == request_transition(*old(self), count, on_time, off_time),
            emitted is None,
    {
        self.on_time = on_time;
        self.off_time = off_time;
        self.state = State::On;
        self.time_remaining = on_time + 1;
        self.flashes_remaining = count;
        None
    }

    /// Consume one event: a request adopts new timing, a tick advances the
    /// running sequence, anything else is ignored.  At most one event is
    /// emitted per call.
    pub fn process_event(&mut self, event: &Event) -> (emitted: Option<Event>)
        requires
            *event matches Event::FlashLed { on_time, .. } ==> on_time < usize::MAX,
        ensures
            (*final(self), emitted) == process_transition(*old(self), *event),
    {
        match *event {
            Event::FlashLed { count, on_time, off_time } => self.handle_led_flash_request(
                count,
                on_time,
                off_time,
            ),
            Event::TimeTick => self.handle_time_tick(),
            _ => None,
        }
    }
}

} // verus!
