//! Core of an interrupt-driven LED flasher for a single-core microcontroller.
//!
//! Button presses raise events, a periodic timer tick advances time, and an
//! LED blinks a requested number of times before pausing and repeating.  The
//! crate verifies the machinery that makes this safe without an operating
//! system: a nesting-safe critical-section guard, a shared last-in-first-out
//! event channel drained by a foreground dispatch loop, and the two
//! cooperating state machines that consume events and chain new ones.
//!
//! Hardware register programming (GPIO, clocks, the vector table) is left to
//! the platform layer, which owns the state declared here and calls into it.

pub mod button;
pub mod critical_section;
pub mod dispatch;
pub mod event;
pub mod exception;
pub mod led;
pub mod led_flash_controller;
pub mod state_machine;
pub mod systick;

pub use critical_section::CriticalSection;
pub use event::Event;
pub use event::EventChannel;
pub use led_flash_controller::LedFlashController;
pub use state_machine::StateMachine;
