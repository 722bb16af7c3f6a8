//! Events and the shared event channel.
//!
//! Interrupt service routines raise events into a single shared channel and
//! the foreground dispatch loop drains it.  The backing container is created
//! once by `init` and then only ever grows and shrinks at one end: producers
//! push there and the consumer pops there, so removal order is
//! last-in-first-out.  Every access is bracketed by the critical-section
//! guard, because an interrupt can raise an event while the foreground loop
//! is mid-removal.

use vstd::prelude::*;

use crate::critical_section::CriticalSection;

verus! {

/// The closed set of events the system exchanges.
#[derive(Clone, Copy, PartialEq, Eq, Structural, Debug)]
pub enum Event {
    /// A debounced falling edge on the user button.
    ButtonPress,
    /// One firing of the periodic timer.
    TimeTick,
    /// A command: blink the LED `count` times, lit for `on_time` ticks and
    /// dark for `off_time` ticks per blink.
    FlashLed { count: usize, on_time: usize, off_time: usize },
    /// A command to the LED driver: light the LED.
    LedTurnOn,
    /// A command to the LED driver: darken the LED.
    LedTurnOff,
    /// A requested flash sequence has fully completed.
    FlashLedDone,
}

/// The machine bound a flash request must respect: the flash controller
/// preloads one extra tick into its countdown, so the on time must leave
/// room for that increment.
pub open spec fn event_ok(e: Event) -> bool {
    e matches Event::FlashLed { on_time, .. } ==> on_time < usize::MAX
}

/// Every pending event respects the machine bound on flash requests.
pub open spec fn channel_events_ok(q: Seq<Event>) -> bool {
    forall|i: int| 0 <= i < q.len() ==> event_ok(#[trigger] q[i])
}

/// Appending an in-bounds event keeps every pending event in bounds.
pub proof fn lemma_push_preserves_events_ok(q: Seq<Event>, e: Event)
    requires
        channel_events_ok(q),
        event_ok(e),
    ensures
        channel_events_ok(q.push(e)),
{
    assert forall|i: int| 0 <= i < q.push(e).len() implies event_ok(#[trigger] q.push(e)[i]) by {
        if i < q.len() {
            assert(event_ok(q[i]));
        }
    }
}

/// Dropping the last pending event keeps every remaining one in bounds.
pub proof fn lemma_drop_last_preserves_events_ok(q: Seq<Event>)
    requires
        channel_events_ok(q),
        q.len() > 0,
    ensures
        channel_events_ok(q.drop_last()),
{
    assert forall|i: int| 0 <= i < q.drop_last().len() implies event_ok(
        #[trigger] q.drop_last()[i],
    ) by {
        assert(event_ok(q[i]));
    }
}

/// The shared event channel: an initially-absent container of events,
/// explicitly created once, then append-and-drain at the same end.
pub struct EventChannel {
    queue: Option<Vec<Event>>,
}

/// What `init` does to the channel's model: create the backing container if
/// it is absent, and leave an existing one — and its contents — alone.
pub open spec fn init_model(m: Option<Seq<Event>>) -> Option<Seq<Event>> {
    match m {
        Some(s) => Some(s),
        None => Some(Seq::<Event>::empty()),
    }
}

/// Law: initializing the channel twice is the same as initializing it once —
/// there is still exactly one backing container, and contents are not reset.
pub proof fn lemma_init_idempotent(m: Option<Seq<Event>>)
    ensures
        init_model(init_model(m)) == init_model(m),
{
}

impl EventChannel {
    /// The channel as mathematics: absent, or the sequence of pending
    /// events in submission order.
    pub closed spec fn model(self) -> Option<Seq<Event>> {
        match self.queue {
            Some(q) => Some(q@),
            None => None,
        }
    }

    /// Whether the backing container has been created.
    pub open spec fn initialized(self) -> bool {
        self.model() is Some
    }

    /// The pending events in submission order (empty while uninitialized).
    pub open spec fn contents(self) -> Seq<Event> {
        match self.model() {
            Some(s) => s,
            None => Seq::<Event>::empty(),
        }
    }

    /// A channel whose backing container does not exist yet.
    pub fn new() -> (channel: Self)
        ensures
            !channel.initialized(),
    {
        EventChannel { queue: None }
    }

    /// Create the backing container if absent.  Idempotent: a second call
    /// leaves the existing container and its contents untouched.  Must run
    /// before any producer raises an event.
    pub fn init(&mut self)
        ensures
            final(self).model() == init_model(old(self).model()),
            final(self).initialized(),
    {
        if self.queue.is_none() {
            self.queue = Some(Vec::<Event>::new());
        }
    }

    /// Whether the backing container has been created.
    pub fn is_initialized(&self) -> (r: bool)
        ensures
            r == self.initialized(),
    {
        self.queue.is_some()
    }

    /// How many events are pending.
    pub fn pending(&self) -> (n: usize)
        requires
            self.initialized(),
        ensures
            n == self.contents().len(),
    {
        match &self.queue {
            Some(q) => q.len(),
            None => {
                proof {
                    assert(false);
                }
                0
            },
        }
    }

    /// Append `event` to the channel, under the critical-section guard.
    ///
    /// Callable from both interrupt and foreground context; the guard is
    /// held exactly for the append and released on return.  If the backing
    /// allocator cannot grow the container the device aborts — there is no
    /// partial degradation.
    pub fn raise(&mut self, cs: &mut CriticalSection, event: Event)
        requires
            old(self).initialized(),
            old(cs).well_formed(),
            old(cs).depth < usize::MAX,
        ensures
            final(self).initialized(),
            final(self).contents() == old(self).contents().push(event),
            *final(cs) == *old(cs),
            channel_events_ok(old(self).contents()) && event_ok(event) ==> channel_events_ok(
                final(self).contents(),
            ),
    {
        proof {
            if channel_events_ok(old(self).contents()) && event_ok(event) {
                lemma_push_preserves_events_ok(old(self).contents(), event);
            }
        }
        cs.enter();
        match &mut self.queue {
            Some(q) => q.push(event),
            None => {
                proof {
                    assert(false);
                }
            },
        }
        cs.exit();
    }

    /// Remove and return the most recently raised event still pending, or
    /// `None` if the channel is empty, under the critical-section guard.
    ///
    /// At most one event leaves per call, and it is always the last one
    /// raised: removal order is last-in-first-out.  Never blocks.
    pub fn get(&mut self, cs: &mut CriticalSection) -> (taken: Option<Event>)
        requires
            old(self).initialized(),
            old(cs).well_formed(),
            old(cs).depth < usize::MAX,
        ensures
            final(self).initialized(),
            *final(cs) == *old(cs),
            old(self).contents().len() == 0 ==> taken is None && final(self).contents()
                == old(self).contents(),
            old(self).contents().len() > 0 ==> taken == Some(old(self).contents().last())
                && final(self).contents() == old(self).contents().drop_last(),
            channel_events_ok(old(self).contents()) ==> channel_events_ok(
                final(self).contents(),
            ),
    {
        proof {
            if channel_events_ok(old(self).contents()) && old(self).contents().len() > 0 {
                lemma_drop_last_preserves_events_ok(old(self).contents());
            }
        }
        cs.enter();
        let taken = match &mut self.queue {
            Some(q) => q.pop(),
            None => {
                proof {
                    assert(false);
                }
                None
            },
        };
        cs.exit();
        taken
    }
}

} // verus!
