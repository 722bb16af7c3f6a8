//! Exception classification for the fault handlers.
//!
//! Hardware faults are not part of the event model: each fault vector is
//! routed to a dedicated handler that halts the device rather than attempt
//! recovery.  The handlers here name the condition being halted on; the
//! platform layer installs them in its vector table and traps (breakpoint)
//! on whatever they return.

use vstd::prelude::*;

verus! {

/// Why the device is halting: the exception vector that fired.
#[derive(Clone, Copy, PartialEq, Eq, Structural, Debug)]
pub enum HaltReason {
    /// An exception with no dedicated handler fired.
    UnexpectedException,
    /// The non-maskable interrupt fired.
    NonMaskableInterrupt,
    /// A hard fault: an unrecoverable error escalated by the core.
    HardFault,
    /// A memory management fault.
    MemoryFault,
    /// A bus fault: a failed memory access.
    BusFault,
    /// A usage fault: an undefined or illegal instruction.
    UsageFault,
}

/// Any exception vector without a dedicated handler: halt.
pub fn default_handler() -> (reason: HaltReason)
    ensures
        reason == HaltReason::UnexpectedException,
{
    HaltReason::UnexpectedException
}

/// The non-maskable interrupt vector: halt.
pub fn nmi() -> (reason: HaltReason)
    ensures
        reason == HaltReason::NonMaskableInterrupt,
{
    HaltReason::NonMaskableInterrupt
}

/// The hard-fault vector: halt.
pub fn hard_fault() -> (reason: HaltReason)
    ensures
        reason == HaltReason::HardFault,
{
    HaltReason::HardFault
}

/// The memory-management-fault vector: halt.
pub fn memory_fault() -> (reason: HaltReason)
    ensures
        reason == HaltReason::MemoryFault,
{
    HaltReason::MemoryFault
}

/// The bus-fault vector: halt.
pub fn bus_fault() -> (reason: HaltReason)
    ensures
        reason == HaltReason::BusFault,
{
    HaltReason::BusFault
}

/// The usage-fault vector: halt.
pub fn usage_fault() -> (reason: HaltReason)
    ensures
        reason == HaltReason::UsageFault,
{
    HaltReason::UsageFault
}

} // verus!
