use vstd::prelude::*;
use crate::fdcan::FdCan;
use crate::registers::{Registers, IR_DRX};

verus! {

/// Single-slot wake signal shared by an interrupt handler and one waiting
/// task: a wake sets it, the waiter consumes it. Wakes do not queue; a
/// waiter sees only that at least one came since it last looked.
pub struct WakeSlot {
    pending: bool,
}

impl WakeSlot {
    /// Whether a wake is waiting to be observed.
    pub closed spec fn is_pending(self) -> bool {
        self.pending
    }

    /// A slot with no wake.
    pub fn new() -> (r: Self)
        ensures
            !r.is_pending(),
    {
        WakeSlot { pending: false }
    }

    /// Signals the waiter.
    pub fn wake(&mut self)
        ensures
            final(self).is_pending(),
    {
        self.pending = true;
    }

    /// Consumes the signal: whether a wake came since the last call.
    pub fn take(&mut self) -> (r: bool)
        ensures
            r == old(self).is_pending(),
            !final(self).is_pending(),
    {
        let r = self.pending;
        self.pending = false;
        r
    }
}

/// Interrupt entry of a channel: reads the interrupt flags, wakes the
/// receive waiter where a message reached a dedicated RX buffer, and clears
/// every flag (the two top bits of the register are reserved).
pub fn on_interrupt<M>(can: &mut FdCan<M>, waker: &mut WakeSlot)
    ensures
        final(waker).is_pending() == (old(waker).is_pending() || old(can).regs().ir & IR_DRX != 0),
        final(can).regs() == (Registers { ir: old(can).regs().ir & 0xC000_0000, ..old(can).regs() }),
        final(can).cached() == old(can).cached(),
        final(can).channel() == old(can).channel(),
{
    let ir = can.can.ir;
    if ir & IR_DRX != 0 {
        waker.wake();
    }
    can.can.ir = ir & 0xC000_0000;
}

} // verus!
