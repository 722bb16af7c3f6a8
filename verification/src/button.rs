//! The button interrupt: the part of the service routine that the event
//! model sees.
//!
//! The platform layer configures the pin, clears the hardware
//! interrupt-pending flag on each debounced falling edge, and then calls
//! here; each edge raises exactly one `ButtonPress` into the shared channel
//! and runs to completion without blocking.

use vstd::prelude::*;

use crate::critical_section::CriticalSection;
use crate::event::Event;
use crate::event::EventChannel;
use crate::event::channel_events_ok;

verus! {

/// One debounced falling edge on the button: raise a single `ButtonPress`.
pub fn handler(channel: &mut EventChannel, cs: &mut CriticalSection)
    requires
        old(channel).initialized(),
        old(cs).well_formed(),
        old(cs).depth < usize::MAX,
    ensures
        final(channel).initialized(),
        final(channel).contents() == old(channel).contents().push(Event::ButtonPress),
        *final(cs) == *old(cs),
        channel_events_ok(old(channel).contents()) ==> channel_events_ok(
            final(channel).contents(),
        ),
{
    channel.raise(cs, Event::ButtonPress);
}

} // verus!
