use vstd::prelude::*;

verus! {

/// Snapshot of the interrupt controller: which interrupts are raised and
/// which are unmasked.
#[derive(Clone, Copy, Debug, PartialEq, Eq, Structural)]
pub struct InterruptState {
    pub status: u16,
    pub mask: u16,
}

impl InterruptState {
    /// No interrupt raised, every interrupt masked.
    pub fn new() -> (r: InterruptState)
        ensures
            r.status == 0,
            r.mask == 0,
    {
        InterruptState { status: 0, mask: 0 }
    }

    pub open spec fn spec_active(self) -> bool {
        self.status & self.mask != 0
    }

    /// True when at least one unmasked interrupt is raised.
    pub fn active(self) -> (r: bool)
        ensures
            r == self.spec_active(),
    {
        self.status & self.mask != 0
    }
}

/// State shared between the CPU and the rest of the console for the
/// duration of a step: the virtual clock, the interrupt controller's
/// state and the frame counter.
#[derive(Clone, Copy, Debug)]
pub struct SharedState {
    /// CPU cycles elapsed since power on.
    pub now: u64,
    /// Set when the peripherals have pending time-based work.
    pub sync_pending: bool,
    pub irq_state: InterruptState,
    /// Incremented on each vertical blanking.
    pub frame: u32,
}

impl SharedState {
    /// Time zero, nothing pending, no interrupt, frame zero.
    pub fn new() -> (r: SharedState)
        ensures
            r.now == 0,
            !r.sync_pending,
            r.irq_state.status == 0 && r.irq_state.mask == 0,
            r.frame == 0,
    {
        SharedState { now: 0, sync_pending: false, irq_state: InterruptState::new(), frame: 0 }
    }

    /// Advance the clock by `cycles`.
    pub fn tick(&mut self, cycles: u64)
        ensures
            final(self).now == old(self).now.wrapping_add(cycles),
            final(self).sync_pending == old(self).sync_pending,
            final(self).irq_state == old(self).irq_state,
            final(self).frame == old(self).frame,
    {
        self.now = self.now.wrapping_add(cycles);
    }
}

/// Two wrapping advances of the clock make one.
pub proof fn lemma_ticks_add(a: u64, b: u64, c: u64)
    requires
        b + c <= u64::MAX,
    ensures
        a.wrapping_add(b).wrapping_add(c) == a.wrapping_add((b + c) as u64),
{
}

} // verus!
