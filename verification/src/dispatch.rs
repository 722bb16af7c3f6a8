//! One iteration of the foreground dispatch loop.
//!
//! The loop runs forever after system start: drain the most recently raised
//! event from the channel, hand the same event to the coordinator and then
//! to the flash controller, and raise each follow-up they return back into
//! the channel before the next iteration.  Follow-ups raised here are seen
//! only on a future drain, never within the same iteration.  The loop
//! itself — the busy poll — lives in the platform layer; the whole step it
//! repeats is here.

use vstd::prelude::*;

use crate::critical_section::CriticalSection;
use crate::event::Event;
use crate::event::EventChannel;
use crate::event::channel_events_ok;
use crate::event::event_ok;
use crate::led_flash_controller::LedFlashController;
use crate::led_flash_controller::process_transition;
use crate::state_machine::StateMachine;
use crate::state_machine::coordinator_transition;

verus! {

/// Append a follow-up event, if there is one.
pub open spec fn push_maybe(q: Seq<Event>, e: Option<Event>) -> Seq<Event> {
    match e {
        Some(ev) => q.push(ev),
        None => q,
    }
}

/// What one dispatch iteration does, as mathematics: nothing on an empty
/// channel; otherwise the most recently raised event leaves the channel, the
/// coordinator and then the flash controller each consume that same event,
/// and their follow-ups are appended in that order.
pub open spec fn dispatch_transition(
    q: Seq<Event>,
    coordinator: StateMachine,
    controller: LedFlashController,
) -> (Seq<Event>, StateMachine, LedFlashController, Option<Event>) {
    if q.len() == 0 {
        (q, coordinator, controller, None::<Event>)
    } else {
        let e = q.last();
        let stepped_coordinator = coordinator_transition(coordinator, e);
        let stepped_controller = process_transition(controller, e);
        (
            push_maybe(push_maybe(q.drop_last(), stepped_coordinator.1), stepped_controller.1),
            stepped_coordinator.0,
            stepped_controller.0,
            Some(e),
        )
    }
}

/// Run one iteration of the dispatch loop and return the event it consumed,
/// if any.
///
/// At most one event is removed from the channel per iteration, and it is
/// always the most recently raised one still pending.  The follow-up events
/// the consumers return are raised back into the channel — the
/// coordinator's first, then the flash controller's — and every event left
/// pending still respects the machine bound on flash requests, so the next
/// iteration may run under the same preconditions.
pub fn dispatch_step(
    channel: &mut EventChannel,
    cs: &mut CriticalSection,
    coordinator: &mut StateMachine,
    controller: &mut LedFlashController,
) -> (processed: Option<Event>)
    requires
        old(channel).initialized(),
        channel_events_ok(old(channel).contents()),
        old(cs).well_formed(),
        old(cs).depth < usize::MAX,
        old(coordinator).flash_count < usize::MAX,
    ensures
        final(channel).initialized(),
        *final(cs) == *old(cs),
        (final(channel).contents(), *final(coordinator), *final(controller), processed)
            == dispatch_transition(old(channel).contents(), *old(coordinator), *old(controller)),
        processed is Some <==> old(channel).contents().len() > 0,
        processed matches Some(e) ==> e == old(channel).contents().last(),
        channel_events_ok(final(channel).contents()),
{
    let taken = channel.get(cs);
    match taken {
        Some(e) => {
            proof {
                assert(event_ok(old(channel).contents()[old(channel).contents().len() - 1]));
            }
            let follow_up = coordinator.execute(&e);
            match follow_up {
                Some(f) => channel.raise(cs, f),
                None => (),
            }
            let follow_up = controller.process_event(&e);
            match follow_up {
                Some(f) => channel.raise(cs, f),
                None => (),
            }
            Some(e)
        },
        None => None,
    }
}

} // verus!
