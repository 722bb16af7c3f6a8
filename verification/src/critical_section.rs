//! A nesting-safe critical-section guard: a reference-counted interrupt mask.
//!
//! Shared state is touched from both interrupt and foreground context, so
//! every access is bracketed by `enter`/`exit`.  Entering masks interrupts
//! if they are not already masked and increments the nesting depth; exiting
//! decrements the depth and unmasks only when the depth returns to zero, so
//! that guarded regions nest freely (an interrupt preempting a guarded
//! region may guard again).  The physical mask line is modelled by the
//! `interrupts_masked` field; the platform layer drives the real mask
//! register from it.

use vstd::prelude::*;

verus! {

/// The reference-counted interrupt mask.  `depth` counts how many guarded
/// regions are currently open; `interrupts_masked` models whether the
/// hardware interrupt mask is engaged.
pub struct CriticalSection {
    /// How many guarded regions are currently open.
    pub depth: usize,
    /// Whether interrupts are physically masked.
    pub interrupts_masked: bool,
}

impl CriticalSection {
    /// Interrupts are masked exactly while some guarded region is open.
    pub open spec fn well_formed(self) -> bool {
        self.interrupts_masked <==> self.depth > 0
    }

    /// The guard as the mathematical state the transition laws speak of.
    pub open spec fn gstate(self) -> GuardState {
        GuardState { depth: self.depth as int, masked: self.interrupts_masked }
    }

    /// A fresh guard: no region open, interrupts unmasked.
    pub fn new() -> (cs: Self)
        ensures
            cs.depth == 0,
            !cs.interrupts_masked,
            cs.well_formed(),
    {
        CriticalSection { depth: 0, interrupts_masked: false }
    }

    /// Open a guarded region: mask interrupts and count the nesting.
    ///
    /// Nesting depth is bounded only by the counter width; bounded call-stack
    /// nesting keeps real systems far from that bound, so overflow is ruled
    /// out by precondition.
    pub fn enter(&mut self)
        requires
            old(self).well_formed(),
            old(self).depth < usize::MAX,
        ensures
            final(self).depth == old(self).depth + 1,
            final(self).interrupts_masked,
            final(self).well_formed(),
            final(self).gstate() == guard_step(old(self).gstate(), GuardOp::Enter),
    {
        self.interrupts_masked = true;
        self.depth = self.depth + 1;
    }

    /// Close the innermost guarded region: count down, and unmask
    /// interrupts only when no region remains open.
    ///
    /// Closing a region when none is open would discard interrupt state that
    /// was never saved — a fatal programming error, ruled out by
    /// precondition.
    pub fn exit(&mut self)
        requires
            old(self).well_formed(),
            old(self).depth > 0,
        ensures
            final(self).depth == old(self).depth - 1,
            final(self).interrupts_masked <==> final(self).depth > 0,
            final(self).well_formed(),
            final(self).gstate() == guard_step(old(self).gstate(), GuardOp::Exit),
    {
        self.depth = self.depth - 1;
        if self.depth == 0 {
            self.interrupts_masked = false;
        }
    }
}

/// One action on the guard: opening or closing a guarded region.
#[derive(Clone, Copy, PartialEq, Eq, Structural, Debug)]
pub enum GuardOp {
    Enter,
    Exit,
}

/// Guard state as mathematics: the open-region count and the mask line.
pub struct GuardState {
    pub depth: int,
    pub masked: bool,
}

/// Interrupts are masked exactly while some guarded region is open.
pub open spec fn mask_matches_depth(s: GuardState) -> bool {
    s.masked <==> s.depth > 0
}

/// How one guard action transforms the state: entering masks and counts up;
/// exiting counts down and unmasks only when the last region closes.
pub open spec fn guard_step(s: GuardState, op: GuardOp) -> GuardState {
    match op {
        GuardOp::Enter => GuardState { depth: s.depth + 1, masked: true },
        GuardOp::Exit => GuardState {
            depth: s.depth - 1,
            masked: if s.depth == 1 { false } else { s.masked },
        },
    }
}

/// The state after a whole sequence of guard actions.
pub open spec fn guard_run(s: GuardState, ops: Seq<GuardOp>) -> GuardState
    decreases ops.len(),
{
    if ops.len() == 0 {
        s
    } else {
        guard_run(guard_step(s, ops[0]), ops.drop_first())
    }
}

/// A sequence of guard actions is admissible when every exit closes a
/// region that is actually open.
pub open spec fn guard_ops_admissible(s: GuardState, ops: Seq<GuardOp>) -> bool
    decreases ops.len(),
{
    ops.len() == 0 || {
        &&& (ops[0] is Exit ==> s.depth > 0)
        &&& guard_ops_admissible(guard_step(s, ops[0]), ops.drop_first())
    }
}

/// Law: across every admissible sequence of guard acquisitions and releases,
/// interrupts are physically masked exactly while the nesting depth is
/// positive, and the depth never goes negative.
pub proof fn lemma_mask_matches_depth_preserved(s: GuardState, ops: Seq<GuardOp>)
    requires
        s.depth >= 0,
        mask_matches_depth(s),
        guard_ops_admissible(s, ops),
    ensures
        guard_run(s, ops).depth >= 0,
        mask_matches_depth(guard_run(s, ops)),
    decreases ops.len(),
{
    if ops.len() > 0 {
        lemma_mask_matches_depth_preserved(guard_step(s, ops[0]), ops.drop_first());
    }
}

} // verus!
