//! The periodic-tick interrupt: the part of the service routine that the
//! event model sees.
//!
//! The platform layer arms the system timer and routes its firing here; each
//! firing raises exactly one `TimeTick` into the shared channel and runs to
//! completion without blocking.

use vstd::prelude::*;

use crate::critical_section::CriticalSection;
use crate::event::Event;
use crate::event::EventChannel;
use crate::event::channel_events_ok;

verus! {

/// One firing of the periodic timer: raise a single `TimeTick`.
pub fn handler(channel: &mut EventChannel, cs: &mut CriticalSection)
    requires
        old(channel).initialized(),
        old(cs).well_formed(),
        old(cs).depth < usize::MAX,
    ensures
        final(channel).initialized(),
        final(channel).contents() == old(channel).contents().push(Event::TimeTick),
        *final(cs) == *old(cs),
        channel_events_ok(old(channel).contents()) ==> channel_events_ok(
            final(channel).contents(),
        ),
{
    channel.raise(cs, Event::TimeTick);
}

} // verus!
