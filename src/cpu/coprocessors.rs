use vstd::prelude::*;

use super::{Cpu, Fatal, PROCESSOR_ID};
use crate::cop0::{Cop0, sr_after_rfe};
use crate::instruction::Instruction;
use crate::shared::InterruptState;

verus! {

impl Cpu {
    /// MFC0 ran, or hit an unsupported register.
    pub open spec fn mfc0_done(&self, n: Cpu, instruction: Instruction, irq_state: InterruptState, r: Result<(), Fatal>) -> bool {
        match self.cop0_read(instruction, irq_state) {
        Some(v) => r is Ok && self.loaded(n, instruction.spec_t(), v),
        None => r == Err::<(), Fatal>(Fatal::Cop0Read(instruction.spec_d().0)) && n == *self,
        }
    }

    /// MTC0 ran, or hit an unsupported register or a non-zero write to a
    /// breakpoint register.
    pub open spec fn mtc0_done(&self, n: Cpu, instruction: Instruction, r: Result<(), Fatal>) -> bool {
        match self.cop0_write(instruction) {
        Ok(c) => r is Ok && self.cop0_set(n, c),
        Err(f) => r == Err::<(), Fatal>(f),
        }
    }

    /// RFE ran, or had the wrong low bits.
    pub open spec fn rfe_done(&self, n: Cpu, instruction: Instruction, r: Result<(), Fatal>) -> bool {
        &&& instruction.0 & 0x3f != 0x10 ==> r == Err::<(), Fatal>(Fatal::InvalidRfe)
        &&& instruction.0 & 0x3f == 0x10 ==> r is Ok && self.cop0_set(
            n,
            Cop0 { sr: sr_after_rfe(self.spec_cop0().sr), ..self.spec_cop0() },
        )
    }

    /// A COP2 instruction ran: a GTE command is handed out unrun, a move
    /// to or from a GTE register is made, anything else is fatal.
    pub open spec fn cop2_done(&self, n: Cpu, instruction: Instruction, r: Result<Option<u32>, Fatal>) -> bool {
        let op = (instruction.0 >> 21) & 0x1f;
        let t = instruction.spec_t();
        let d = instruction.spec_d().0 as int;
        let g = self.spec_gte();
        let v = self.spec_regs()[t.0 as int];
        if op & 0x10 != 0 {
            r == Ok::<Option<u32>, Fatal>(Some(instruction.0)) && n == *self
        } else if op == 0 {
            r == Ok::<Option<u32>, Fatal>(None) && self.loaded(n, t, g.data[d])
        } else if op == 2 {
            r == Ok::<Option<u32>, Fatal>(None) && self.loaded(n, t, g.control[d])
        } else if op == 4 || op == 6 {
            &&& r == Ok::<Option<u32>, Fatal>(None)
            &&& self.retired(n)
            &&& self.same_flow(n)
            &&& op == 4 ==> n.spec_gte().data@ == g.data@.update(d, v) && n.spec_gte().control == g.control
            &&& op == 6 ==> n.spec_gte().control@ == g.control@.update(d, v) && n.spec_gte().data == g.data
            &&& n.spec_hi() == self.spec_hi()
            &&& n.spec_lo() == self.spec_lo()
            &&& n.spec_icache() == self.spec_icache()
            &&& n.spec_inter() == self.spec_inter()
            &&& n.spec_cop0() == self.spec_cop0()
            &&& n.spec_debug_on_break() == self.spec_debug_on_break()
        } else {
            r == Err::<Option<u32>, Fatal>(Fatal::UnhandledGteOpcode) && n == *self
        }
    }

    /// What MFC0 reads from cop0 register rd: `None` for a register this
    /// core does not support.
    pub open spec fn cop0_read(&self, i: Instruction, irq_state: InterruptState) -> Option<u32> {
        let r = i.spec_d().0;
        if r == 6 || r == 7 || r == 8 {
            Some(0)
        } else if r == 12 {
            Some(self.spec_cop0().sr)
        } else if r == 13 {
            Some(self.spec_cop0().spec_cause(irq_state))
        } else if r == 14 {
            Some(self.spec_cop0().epc)
        } else if r == 15 {
            Some(PROCESSOR_ID)
        } else {
            None
        }
    }

    /// Cop0 after MTC0 writes rt to cop0 register rd, or the fatal
    /// condition it hits: breakpoint registers take only 0.
    pub open spec fn cop0_write(&self, i: Instruction) -> Result<Cop0, Fatal> {
        let r = i.spec_d().0;
        let v = self.spec_regs()[i.spec_t().0 as int];
        let c = self.spec_cop0();
        if r == 3 || r == 5 || r == 6 || r == 7 || r == 9 || r == 11 {
            if v == 0 {
                Ok(c)
            } else {
                Err(Fatal::Cop0Write(r, v))
            }
        } else if r == 12 {
            Ok(Cop0 { sr: v, ..c })
        } else if r == 13 {
            Ok(Cop0 { cause: (c.cause & !0x300) | (v & 0x300), ..c })
        } else {
            Err(Fatal::Cop0Write(r, v))
        }
    }

    /// The pending load was written back and cop0 became `c`.
    pub open spec fn cop0_set(&self, n: Cpu, c: Cop0) -> bool {
        &&& self.retired(n)
        &&& self.same_flow(n)
        &&& n.spec_cop0() == c
        &&& n.spec_hi() == self.spec_hi()
        &&& n.spec_lo() == self.spec_lo()
        &&& n.spec_icache() == self.spec_icache()
        &&& n.spec_inter() == self.spec_inter()
        &&& n.spec_gte() == self.spec_gte()
        &&& n.spec_debug_on_break() == self.spec_debug_on_break()
    }

    /// MFC0: queue the cop0 register's value as a load into rt.
    pub(super) fn op_mfc0(&mut self, instruction: Instruction, irq_state: InterruptState) -> (r: Result<(), Fatal>)
        requires
            old(self).wf(),
        ensures
            final(self).wf(),
            old(self).mfc0_done(*final(self), instruction, irq_state, r),
    {
        let cpu_r = instruction.t();
        let cop_r = instruction.d().0;
        let v = if cop_r == 6 || cop_r == 7 || cop_r == 8 {
            0
        } else if cop_r == 12 {
            self.cop0.sr()
        } else if cop_r == 13 {
            self.cop0.cause(irq_state)
        } else if cop_r == 14 {
            self.cop0.epc()
        } else if cop_r == 15 {
            PROCESSOR_ID
        } else {
            return Err(Fatal::Cop0Read(cop_r));
        };
        self.delayed_load_chain(cpu_r, v);
        Ok(())
    }

    /// MTC0: write rt to a cop0 register.
    pub(super) fn op_mtc0(&mut self, instruction: Instruction) -> (r: Result<(), Fatal>)
        requires
            old(self).wf(),
        ensures
            final(self).wf(),
            old(self).mtc0_done(*final(self), instruction, r),
    {
        let cop_r = instruction.d().0;
        let v = self.reg(instruction.t());
        self.delayed_load();
        if cop_r == 3 || cop_r == 5 || cop_r == 6 || cop_r == 7 || cop_r == 9 || cop_r == 11 {
            if v != 0 {
                return Err(Fatal::Cop0Write(cop_r, v));
            }
        } else if cop_r == 12 {
            self.cop0.set_sr(v);
        } else if cop_r == 13 {
            self.cop0.set_cause(v);
        } else {
            return Err(Fatal::Cop0Write(cop_r, v));
        }
        Ok(())
    }

    /// RFE: pop the (KU, IE) stack. The low six bits must read 0b010000.
    pub(super) fn op_rfe(&mut self, instruction: Instruction) -> (r: Result<(), Fatal>)
        requires
            old(self).wf(),
        ensures
            final(self).wf(),
            old(self).rfe_done(*final(self), instruction, r),
    {
        self.delayed_load();
        if instruction.0 & 0x3f != 0x10 {
            return Err(Fatal::InvalidRfe);
        }
        self.cop0.return_from_exception();
        Ok(())
    }

    /// COP2: a GTE command is handed out (`Some(opcode)`), without touching
    /// the load slot; MFC2, CFC2, MTC2 and CTC2 move words between rt and
    /// GTE register rd.
    pub(super) fn op_cop2(&mut self, instruction: Instruction) -> (r: Result<Option<u32>, Fatal>)
        requires
            old(self).wf(),
        ensures
            final(self).wf(),
            old(self).cop2_done(*final(self), instruction, r),
    {
        let cop_opcode = instruction.cop_opcode();
        let cpu_r = instruction.t();
        let cop_r = instruction.d().0;
        if cop_opcode & 0x10 != 0 {
            Ok(Some(instruction.0))
        } else if cop_opcode == 0 {
            let v = self.gte.data(cop_r);
            self.delayed_load_chain(cpu_r, v);
            Ok(None)
        } else if cop_opcode == 2 {
            let v = self.gte.control(cop_r);
            self.delayed_load_chain(cpu_r, v);
            Ok(None)
        } else if cop_opcode == 4 {
            let v = self.reg(cpu_r);
            self.delayed_load();
            self.gte.set_data(cop_r, v);
            Ok(None)
        } else if cop_opcode == 6 {
            let v = self.reg(cpu_r);
            self.delayed_load();
            self.gte.set_control(cop_r, v);
            Ok(None)
        } else {
            Err(Fatal::UnhandledGteOpcode)
        }
    }
}

} // verus!
