use vstd::prelude::*;

use super::{Cpu, Fatal, StepEvent};
use crate::cop0::Exception;
use crate::instruction::{Instruction, RegisterIndex};
use crate::shared::{InterruptState, SharedState};

verus! {

/// `r` with its success value dropped.
pub open spec fn unit_of(r: Result<StepEvent, Fatal>) -> Result<(), Fatal> {
    match r {
        Ok(_) => Ok(()),
        Err(f) => Err(f),
    }
}

/// SPECIAL subfunctions that only compute a value for rd.
pub open spec fn is_special_alu(f: u32) -> bool {
    f == 0x00 || f == 0x02 || f == 0x03 || f == 0x04 || f == 0x06 || f == 0x07 || f == 0x21 || f
        == 0x23 || f == 0x24 || f == 0x25 || f == 0x26 || f == 0x27 || f == 0x2a || f == 0x2b
}

/// Primary opcodes of the coprocessors the console lacks: COP1, COP3,
/// LWC0, LWC1, LWC3, SWC0, SWC1 and SWC3.
pub open spec fn is_missing_cop(f: u32) -> bool {
    f == 0x11 || f == 0x13 || f == 0x30 || f == 0x31 || f == 0x33 || f == 0x38 || f == 0x39 || f
        == 0x3b
}

impl Cpu {
    /// The effect of a SPECIAL (primary opcode 0) instruction.
    pub open spec fn special_executes(&self, n: Cpu, i: Instruction, r: Result<StepEvent, Fatal>) -> bool {
        let f = i.0 & 0x3f;
        let s = self.spec_regs()[i.spec_s().0 as int];
        let t = self.spec_regs()[i.spec_t().0 as int];
        if is_special_alu(f) {
            r == Ok::<StepEvent, Fatal>(StepEvent::Done) && self.alu(n, i.spec_d(), self.special_value(i))
        } else if f == 0x08 {
            r == Ok::<StepEvent, Fatal>(StepEvent::Done) && self.flowed(n, true, s, None)
        } else if f == 0x09 {
            r == Ok::<StepEvent, Fatal>(StepEvent::Done) && self.flowed(n, true, s, Some(i.spec_d()))
        } else if f == 0x0c {
            r == Ok::<StepEvent, Fatal>(StepEvent::Done) && self.raised(n, Exception::SysCall)
        } else if f == 0x0d {
            if self.spec_debug_on_break() {
                r == Ok::<StepEvent, Fatal>(StepEvent::DebugBreak) && self.retired(n) && self.same_flow(n) && self.same_units(n)
            } else {
                r == Ok::<StepEvent, Fatal>(StepEvent::Done) && self.raised(n, Exception::Break)
            }
        } else if f == 0x10 {
            r == Ok::<StepEvent, Fatal>(StepEvent::Done) && self.alu(n, i.spec_d(), self.spec_hi())
        } else if f == 0x11 {
            r == Ok::<StepEvent, Fatal>(StepEvent::Done) && self.set_hilo(n, s, self.spec_lo())
        } else if f == 0x12 {
            r == Ok::<StepEvent, Fatal>(StepEvent::Done) && self.alu(n, i.spec_d(), self.spec_lo())
        } else if f == 0x13 {
            r == Ok::<StepEvent, Fatal>(StepEvent::Done) && self.set_hilo(n, self.spec_hi(), s)
        } else if f == 0x18 {
            let v = super::ops::mult_bits(s, t);
            r == Ok::<StepEvent, Fatal>(StepEvent::Done) && self.set_hilo(n, (v >> 32) as u32, v as u32)
        } else if f == 0x19 {
            let p = super::ops::multu_result(s, t);
            r == Ok::<StepEvent, Fatal>(StepEvent::Done) && self.set_hilo(n, p.0, p.1)
        } else if f == 0x1a {
            let p = super::ops::div_result(s, t);
            r == Ok::<StepEvent, Fatal>(StepEvent::Done) && self.set_hilo(n, p.0, p.1)
        } else if f == 0x1b {
            let p = super::ops::divu_result(s, t);
            r == Ok::<StepEvent, Fatal>(StepEvent::Done) && self.set_hilo(n, p.0, p.1)
        } else if f == 0x20 {
            r == Ok::<StepEvent, Fatal>(StepEvent::Done) && if super::ops::add_overflows(s, t) {
                self.raised(n, Exception::Overflow)
            } else {
                self.alu(n, i.spec_d(), s.wrapping_add(t))
            }
        } else if f == 0x22 {
            r == Ok::<StepEvent, Fatal>(StepEvent::Done) && if super::ops::sub_overflows(s, t) {
                self.raised(n, Exception::Overflow)
            } else {
                self.alu(n, i.spec_d(), s.wrapping_sub(t))
            }
        } else {
            r == Ok::<StepEvent, Fatal>(StepEvent::Done) && self.raised(n, Exception::IllegalInstruction)
        }
    }

    /// The effect of executing `i` from `self`, with `irq_state` the
    /// interrupt controller's state: the new state `n` and the step's
    /// result `r`.
    pub open spec fn executes(&self, n: Cpu, i: Instruction, irq_state: InterruptState, r: Result<StepEvent, Fatal>) -> bool {
        let f = i.0 >> 26;
        let done = Ok::<StepEvent, Fatal>(StepEvent::Done);
        if f == 0x00 {
            self.special_executes(n, i, r)
        } else if f == 0x01 {
            r == done && self.flowed(n, self.bxx_taken(i), self.branch_target(i), if Cpu::bxx_links(i) {
                Some(RegisterIndex(31))
            } else {
                None
            })
        } else if f == 0x02 {
            r == done && self.flowed(n, true, self.jump_target(i), None)
        } else if f == 0x03 {
            r == done && self.flowed(n, true, self.jump_target(i), Some(RegisterIndex(31)))
        } else if 0x04 <= f <= 0x07 {
            r == done && self.flowed(n, self.cond_taken(i), self.branch_target(i), None)
        } else if f == 0x08 {
            let a = self.spec_regs()[i.spec_s().0 as int];
            r == done && if super::ops::add_overflows(a, i.spec_imm_se()) {
                self.raised(n, Exception::Overflow)
            } else {
                self.alu(n, i.spec_t(), a.wrapping_add(i.spec_imm_se()))
            }
        } else if 0x09 <= f <= 0x0f {
            r == done && self.alu(n, i.spec_t(), self.imm_value(i))
        } else if f == 0x10 {
            let op = (i.0 >> 21) & 0x1f;
            if op == 0x00 {
                (r is Ok ==> r == done) && self.mfc0_done(n, i, irq_state, unit_of(r))
            } else if op == 0x04 {
                (r is Ok ==> r == done) && self.mtc0_done(n, i, unit_of(r))
            } else if op == 0x10 {
                (r is Ok ==> r == done) && self.rfe_done(n, i, unit_of(r))
            } else {
                r == Err::<StepEvent, Fatal>(Fatal::UnhandledCop0Opcode) && n == *self
            }
        } else if is_missing_cop(f) {
            r == done && self.raised(n, Exception::CoprocessorError)
        } else if f == 0x12 {
            self.cop2_done(n, i, match r {
                Ok(StepEvent::GteCommand(c)) => Ok(Some(c)),
                Ok(_) => Ok(None),
                Err(e) => Err(e),
            }) && !(r matches Ok(StepEvent::DebugBreak))
        } else if f == 0x20 || f == 0x21 || f == 0x23 || f == 0x24 || f == 0x25 {
            r == done && self.load_done(n, i)
        } else if f == 0x22 || f == 0x26 {
            r == done && self.partial_load_done(n, i, f == 0x22)
        } else if f == 0x28 || f == 0x29 || f == 0x2b {
            (r is Ok ==> r == done) && self.store_op_done(n, i, unit_of(r))
        } else if f == 0x2a || f == 0x2e {
            (r is Ok ==> r == done) && self.partial_store_done(n, i, f == 0x2a, unit_of(r))
        } else if f == 0x32 {
            r == done && self.lwc2_done(n, i)
        } else if f == 0x3a {
            (r is Ok ==> r == done) && self.swc2_done(n, i, unit_of(r))
        } else {
            r == done && self.raised(n, Exception::IllegalInstruction)
        }
    }
}


impl Cpu {
    /// Decode `instruction` and run it, after charging one cycle.
    pub(super) fn decode_and_execute(&mut self, instruction: Instruction, shared: &mut SharedState) -> (r: Result<StepEvent, Fatal>)
        requires
            old(self).wf(),
        ensures
            final(self).wf(),
            old(self).executes(*final(self), instruction, old(shared).irq_state, r),
            final(shared).now == old(shared).now.wrapping_add(1),
            final(shared).sync_pending == old(shared).sync_pending,
            final(shared).irq_state == old(shared).irq_state,
            final(shared).frame == old(shared).frame,
    {
        shared.tick(1);
        let f = instruction.function();
        if f == 0x00 {
            let sub = instruction.subfunction();
            if sub == 0x00 || sub == 0x02 || sub == 0x03 || sub == 0x04 || sub == 0x06 || sub == 0x07
                || sub == 0x21 || sub == 0x23 || sub == 0x24 || sub == 0x25 || sub == 0x26 || sub
                == 0x27 || sub == 0x2a || sub == 0x2b {
                self.op_special_alu(instruction);
            } else if sub == 0x08 {
                self.op_jr(instruction);
            } else if sub == 0x09 {
                self.op_jalr(instruction);
            } else if sub == 0x0c {
                self.op_raise(Exception::SysCall);
            } else if sub == 0x0d {
                if self.op_break() {
                    return Ok(StepEvent::DebugBreak);
                }
            } else if sub == 0x10 {
                self.op_mfhi(instruction);
            } else if sub == 0x11 {
                self.op_mthi(instruction);
            } else if sub == 0x12 {
                self.op_mflo(instruction);
            } else if sub == 0x13 {
                self.op_mtlo(instruction);
            } else if sub == 0x18 {
                self.op_mult(instruction);
            } else if sub == 0x19 {
                self.op_multu(instruction);
            } else if sub == 0x1a {
                self.op_div(instruction);
            } else if sub == 0x1b {
                self.op_divu(instruction);
            } else if sub == 0x20 {
                self.op_add(instruction);
            } else if sub == 0x22 {
                self.op_sub(instruction);
            } else {
                self.op_raise(Exception::IllegalInstruction);
            }
            Ok(StepEvent::Done)
        } else if f == 0x01 {
            self.op_bxx(instruction);
            Ok(StepEvent::Done)
        } else if f == 0x02 {
            self.op_j(instruction);
            Ok(StepEvent::Done)
        } else if f == 0x03 {
            self.op_jal(instruction);
            Ok(StepEvent::Done)
        } else if 0x04 <= f && f <= 0x07 {
            self.op_branch_cond(instruction);
            Ok(StepEvent::Done)
        } else if f == 0x08 {
            self.op_addi(instruction);
            Ok(StepEvent::Done)
        } else if 0x09 <= f && f <= 0x0f {
            self.op_imm_alu(instruction);
            Ok(StepEvent::Done)
        } else if f == 0x10 {
            let op = instruction.cop_opcode();
            let r = if op == 0x00 {
                self.op_mfc0(instruction, shared.irq_state)
            } else if op == 0x04 {
                self.op_mtc0(instruction)
            } else if op == 0x10 {
                self.op_rfe(instruction)
            } else {
                Err(Fatal::UnhandledCop0Opcode)
            };
            match r {
                Ok(()) => Ok(StepEvent::Done),
                Err(e) => Err(e),
            }
        } else if f == 0x11 || f == 0x13 || f == 0x30 || f == 0x31 || f == 0x33 || f == 0x38 || f
            == 0x39 || f == 0x3b {
            self.op_raise(Exception::CoprocessorError);
            Ok(StepEvent::Done)
        } else if f == 0x12 {
            match self.op_cop2(instruction) {
                Ok(Some(c)) => Ok(StepEvent::GteCommand(c)),
                Ok(None) => Ok(StepEvent::Done),
                Err(e) => Err(e),
            }
        } else if f == 0x20 || f == 0x21 || f == 0x23 || f == 0x24 || f == 0x25 {
            self.op_load(instruction);
            Ok(StepEvent::Done)
        } else if f == 0x22 || f == 0x26 {
            self.op_load_partial(instruction, f == 0x22);
            Ok(StepEvent::Done)
        } else if f == 0x28 || f == 0x29 || f == 0x2b {
            match self.op_store(instruction) {
                Ok(()) => Ok(StepEvent::Done),
                Err(e) => Err(e),
            }
        } else if f == 0x2a || f == 0x2e {
            match self.op_store_partial(instruction, f == 0x2a) {
                Ok(()) => Ok(StepEvent::Done),
                Err(e) => Err(e),
            }
        } else if f == 0x32 {
            self.op_lwc2(instruction);
            Ok(StepEvent::Done)
        } else if f == 0x3a {
            match self.op_swc2(instruction) {
                Ok(()) => Ok(StepEvent::Done),
                Err(e) => Err(e),
            }
        } else {
            self.op_raise(Exception::IllegalInstruction);
            Ok(StepEvent::Done)
        }
    }
}

} // verus!
