//! The LED-drive policy: which color the LED driver must be set to when an
//! LED-drive event is consumed.
//!
//! The platform layer owns the GPIO pins; it asks this module what a
//! consumed event demands of the LED and writes the pins accordingly.  The
//! active color of a blink is red.

use vstd::prelude::*;

use crate::event::Event;

verus! {

/// A color the LED driver can be set to.
#[derive(Clone, Copy, PartialEq, Eq, Structural, Debug)]
pub enum LedColor {
    Red,
    Green,
    Blue,
    Off,
}

/// The LED drive an event demands: lit blinks show red, `LedTurnOff` darkens
/// the LED, and no other event touches it.
pub open spec fn spec_command_for(e: Event) -> Option<LedColor> {
    match e {
        Event::LedTurnOn => Some(LedColor::Red),
        Event::LedTurnOff => Some(LedColor::Off),
        _ => None,
    }
}

/// What the LED driver must be set to when `event` is consumed, or `None`
/// if the event does not touch the LED.
pub fn command_for(event: &Event) -> (cmd: Option<LedColor>)
    ensures
        cmd == spec_command_for(*event),
{
    match *event {
        Event::LedTurnOn => Some(LedColor::Red),
        Event::LedTurnOff => Some(LedColor::Off),
        _ => None,
    }
}

} // verus!
