use vstd::prelude::*;

use crate::shared::InterruptState;

verus! {

/// The exceptions the CPU can raise.
#[derive(Clone, Copy, Debug, PartialEq, Eq, Structural)]
pub enum Exception {
    Interrupt,
    LoadAddressError,
    StoreAddressError,
    SysCall,
    Break,
    IllegalInstruction,
    CoprocessorError,
    Overflow,
}

impl Exception {
    pub open spec fn spec_code(self) -> u32 {
        match self {
            Exception::Interrupt => 0x0,
            Exception::LoadAddressError => 0x4,
            Exception::StoreAddressError => 0x5,
            Exception::SysCall => 0x8,
            Exception::Break => 0x9,
            Exception::IllegalInstruction => 0xa,
            Exception::CoprocessorError => 0xb,
            Exception::Overflow => 0xc,
        }
    }

    /// The MIPS cause code of the exception.
    pub fn code(self) -> (r: u32)
        ensures
            r == self.spec_code(),
    {
        match self {
            Exception::Interrupt => 0x0,
            Exception::LoadAddressError => 0x4,
            Exception::StoreAddressError => 0x5,
            Exception::SysCall => 0x8,
            Exception::Break => 0x9,
            Exception::IllegalInstruction => 0xa,
            Exception::CoprocessorError => 0xb,
            Exception::Overflow => 0xc,
        }
    }
}

/// Status register bit 16: stores go to the cache, not to memory.
pub const SR_ISOLATE_CACHE: u32 = 1 << 16;
/// Status register bit 22: exception vectors in ROM.
pub const SR_BEV: u32 = 1 << 22;

/// System control coprocessor: status, cause and exception PC.
#[derive(Clone, Copy, Debug, PartialEq, Eq, Structural)]
pub struct Cop0 {
    pub sr: u32,
    /// Software-written part of CAUSE and the last exception's fields;
    /// the external interrupt bit is merged in on read.
    pub cause: u32,
    pub epc: u32,
}

/// Status register after exception entry: the (KU, IE) stack in bits
/// [5:0] is pushed by two bits, the current pair cleared.
pub open spec fn sr_after_exception(sr: u32) -> u32 {
    (sr & !0x3f) | ((sr << 2) & 0x3f)
}

/// Status register after RFE: the (KU, IE) stack is popped, the oldest
/// pair staying in place.
pub open spec fn sr_after_rfe(sr: u32) -> u32 {
    (sr & !0xf) | ((sr & 0x3f) >> 2)
}

/// CAUSE after exception entry with the given code and delay-slot flag.
pub open spec fn cause_after_exception(cause: u32, code: u32, delay_slot: bool) -> u32 {
    let c = (cause & !0x7c) | (code << 2);
    if delay_slot {
        c | 0x8000_0000
    } else {
        c & !0x8000_0000
    }
}

/// The handler address for the given status register.
pub open spec fn exception_vector(sr: u32) -> u32 {
    if sr & SR_BEV != 0 {
        0xbfc0_0180
    } else {
        0x8000_0080
    }
}

impl Cop0 {
    pub open spec fn spec_cause(self, irq_state: InterruptState) -> u32 {
        if irq_state.spec_active() {
            self.cause | 0x400
        } else {
            self.cause
        }
    }

    pub open spec fn spec_irq_active(self, irq_state: InterruptState) -> bool {
        (self.spec_cause(irq_state) & self.sr) & 0x700 != 0 && self.sr & 1 != 0
    }

    pub open spec fn spec_cache_isolated(self) -> bool {
        self.sr & SR_ISOLATE_CACHE != 0
    }

    pub open spec fn new_spec() -> Cop0 {
        Cop0 { sr: 0, cause: 0, epc: 0 }
    }

    /// Reset state: every register zero.
    pub fn new() -> (r: Cop0)
        ensures
            r == Cop0::new_spec(),
    {
        Cop0 { sr: 0, cause: 0, epc: 0 }
    }

    pub fn sr(&self) -> (r: u32)
        ensures
            r == self.sr,
    {
        self.sr
    }

    pub fn set_sr(&mut self, sr: u32)
        ensures
            *final(self) == (Cop0 { sr, ..*old(self) }),
    {
        self.sr = sr;
    }

    /// Write CAUSE: only the two software interrupt bits [9:8] take the
    /// new value.
    pub fn set_cause(&mut self, v: u32)
        ensures
            *final(self) == (Cop0 { cause: (old(self).cause & !0x300) | (v & 0x300), ..*old(self) }),
    {
        self.cause = (self.cause & !0x300) | (v & 0x300);
    }

    /// CAUSE as software reads it: bit 10 reflects the interrupt
    /// controller.
    pub fn cause(&self, irq_state: InterruptState) -> (r: u32)
        ensures
            r == self.spec_cause(irq_state),
    {
        if irq_state.active() {
            self.cause | 0x400
        } else {
            self.cause
        }
    }

    pub fn epc(&self) -> (r: u32)
        ensures
            r == self.epc,
    {
        self.epc
    }

    /// True when stores are redirected to the cache.
    pub fn cache_isolated(&self) -> (r: bool)
        ensures
            r == self.spec_cache_isolated(),
    {
        self.sr & SR_ISOLATE_CACHE != 0
    }

    /// True when an interrupt is pending, unmasked and enabled.
    pub fn irq_active(&self, irq_state: InterruptState) -> (r: bool)
        ensures
            r == self.spec_irq_active(irq_state),
    {
        let cause = self.cause(irq_state);
        let pending = (cause & self.sr) & 0x700 != 0;
        pending && (self.sr & 1 != 0)
    }

    /// Enter an exception raised by the instruction at `pc`; return the
    /// address of the handler.
    pub fn enter_exception(&mut self, cause: Exception, pc: u32, in_delay_slot: bool) -> (r: u32)
        ensures
            r == exception_vector(old(self).sr),
            final(self).sr == sr_after_exception(old(self).sr),
            final(self).cause == cause_after_exception(old(self).cause, cause.spec_code(), in_delay_slot),
            final(self).epc == (if in_delay_slot { pc.wrapping_sub(4) } else { pc }),
    {
        let mode = self.sr & 0x3f;
        self.sr = (self.sr & !0x3f) | ((mode << 2) & 0x3f);
        proof {
            lemma_mode_shift(old(self).sr);
        }
        self.cause = (self.cause & !0x7c) | (cause.code() << 2);
        if in_delay_slot {
            self.epc = pc.wrapping_sub(4);
            self.cause = self.cause | 0x8000_0000;
        } else {
            self.epc = pc;
            self.cause = self.cause & !0x8000_0000;
        }
        if self.sr & SR_BEV != 0 {
            proof {
                lemma_mode_shift(old(self).sr);
            }
            0xbfc0_0180
        } else {
            proof {
                lemma_mode_shift(old(self).sr);
            }
            0x8000_0080
        }
    }

    /// Return from exception: pop the (KU, IE) stack.
    pub fn return_from_exception(&mut self)
        ensures
            final(self).sr == sr_after_rfe(old(self).sr),
            final(self).cause == old(self).cause,
            final(self).epc == old(self).epc,
    {
        let mode = self.sr & 0x3f;
        self.sr = (self.sr & !0xf) | (mode >> 2);
    }
}

proof fn lemma_mode_shift(sr: u32)
    by (bit_vector)
    ensures
        (sr & !0x3f) | (((sr & 0x3f) << 2) & 0x3f) == (sr & !0x3f) | ((sr << 2) & 0x3f),
        ((sr & !0x3f) | ((sr << 2) & 0x3f)) & SR_BEV == sr & SR_BEV,
{
}

/// The three (KU, IE) pairs of the status register, current first.
pub open spec fn mode_stack(sr: u32) -> Seq<u32> {
    seq![sr & 3, (sr >> 2) & 3, (sr >> 4) & 3]
}

/// Pushing a stack of three: the new top is the given pair, the oldest
/// entry is lost.
pub open spec fn stack_push(s: Seq<u32>, top: u32) -> Seq<u32> {
    seq![top, s[0], s[1]]
}

/// Popping a stack of three: the oldest entry stays at the bottom.
pub open spec fn stack_pop(s: Seq<u32>) -> Seq<u32> {
    seq![s[1], s[2], s[2]]
}

/// Status register after a sequence of events: `true` for an exception
/// entry, `false` for an RFE.
pub open spec fn sr_after_events(sr: u32, events: Seq<bool>) -> u32
    decreases events.len(),
{
    if events.len() == 0 {
        sr
    } else {
        let next = if events[0] {
            sr_after_exception(sr)
        } else {
            sr_after_rfe(sr)
        };
        sr_after_events(next, events.drop_first())
    }
}

/// The mode stack after the same sequence of events, taken as stack
/// operations.
pub open spec fn stack_after_events(s: Seq<u32>, events: Seq<bool>) -> Seq<u32>
    decreases events.len(),
{
    if events.len() == 0 {
        s
    } else {
        let next = if events[0] {
            stack_push(s, 0)
        } else {
            stack_pop(s)
        };
        stack_after_events(next, events.drop_first())
    }
}

proof fn lemma_mode_bits(sr: u32)
    by (bit_vector)
    ensures
        sr_after_exception(sr) & 3 == 0,
        (sr_after_exception(sr) >> 2) & 3 == sr & 3,
        (sr_after_exception(sr) >> 4) & 3 == (sr >> 2) & 3,
        sr_after_exception(sr) & !0x3f == sr & !0x3f,
        sr_after_rfe(sr) & 3 == (sr >> 2) & 3,
        (sr_after_rfe(sr) >> 2) & 3 == (sr >> 4) & 3,
        (sr_after_rfe(sr) >> 4) & 3 == (sr >> 4) & 3,
        sr_after_rfe(sr) & !0x3f == sr & !0x3f,
{
}

/// Exception entry pushes the cleared (KU, IE) pair on the stack of three
/// pairs held in SR[5:0] and RFE pops it; the other bits of SR are not
/// touched.
pub proof fn lemma_mode_stack_step(sr: u32)
    ensures
        mode_stack(sr_after_exception(sr)) == stack_push(mode_stack(sr), 0),
        mode_stack(sr_after_rfe(sr)) == stack_pop(mode_stack(sr)),
        sr_after_exception(sr) & !0x3f == sr & !0x3f,
        sr_after_rfe(sr) & !0x3f == sr & !0x3f,
{
    lemma_mode_bits(sr);
    assert(mode_stack(sr_after_exception(sr)) =~= stack_push(mode_stack(sr), 0));
    assert(mode_stack(sr_after_rfe(sr)) =~= stack_pop(mode_stack(sr)));
}

/// Under any sequence of exception entries and RFEs, SR[5:0] behaves as a
/// last-in first-out stack of three (KU, IE) pairs, and the rest of SR is
/// kept.
pub proof fn lemma_mode_stack_events(sr: u32, events: Seq<bool>)
    ensures
        mode_stack(sr_after_events(sr, events)) == stack_after_events(mode_stack(sr), events),
        sr_after_events(sr, events) & !0x3f == sr & !0x3f,
    decreases events.len(),
{
    if events.len() > 0 {
        lemma_mode_stack_step(sr);
        let next = if events[0] {
            sr_after_exception(sr)
        } else {
            sr_after_rfe(sr)
        };
        lemma_mode_stack_events(next, events.drop_first());
    }
}

/// An exception entry followed by an RFE gives back the current and
/// previous (KU, IE) pairs, and every bit of SR above the stack.
pub proof fn lemma_exception_then_rfe(sr: u32)
    ensures
        sr_after_rfe(sr_after_exception(sr)) & 0xf == sr & 0xf,
        sr_after_rfe(sr_after_exception(sr)) & !0x3f == sr & !0x3f,
{
    lemma_mode_bits(sr);
    lemma_mode_bits(sr_after_exception(sr));
    assert(sr_after_rfe(sr_after_exception(sr)) & 0xf == sr & 0xf) by (bit_vector);
}

} // verus!
