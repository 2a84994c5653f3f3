use vstd::prelude::*;

use crate::bytes::AccessWidth;
use crate::cop0::{
    Cop0,
    Exception,
    cause_after_exception,
    exception_vector,
    sr_after_exception,
};
use crate::gte::Gte;
use crate::icache::{ICacheLine, ICACHE_LINES};
use crate::instruction::{Instruction, RegisterIndex};
use crate::memory::Interconnect;
use crate::shared::InterruptState;

pub mod ops;
pub mod memops;
pub mod coprocessors;
pub mod decode;
pub mod step;
pub mod state;

pub use state::{InvalidState, STATE_WORDS};

verus! {

/// Value of the processor ID register (cop0 r15).
pub const PROCESSOR_ID: u32 = 0x0000_0002;
/// CPU clock in Hz.
pub const CPU_FREQ_HZ: u32 = 33_868_500;
/// Address of the first instruction after reset, the start of the BIOS.
pub const RESET_PC: u32 = 0xbfc0_0000;
/// Reset value of the general purpose registers and of HI and LO.
pub const RESET_REG: u32 = 0xdead_beef;

/// Conditions that stop the emulator: the guest did something this core
/// does not model.
#[derive(Clone, Copy, Debug, PartialEq, Eq, Structural)]
pub enum Fatal {
    UnhandledCop0Opcode,
    UnhandledGteOpcode,
    /// Read of an unsupported cop0 register.
    Cop0Read(u32),
    /// Write of an unsupported cop0 register, or a non-zero write to a
    /// breakpoint register: register and value.
    Cop0Write(u32, u32),
    /// An RFE encoding with the wrong low bits.
    InvalidRfe,
    /// A store with the cache isolated while the instruction cache is off.
    IsolatedCacheDisabled,
    /// A store with the cache isolated that is not a word of zero: width
    /// in bytes and value.
    IsolatedStoreUnsupported(u32, u32),
}

/// A fatal condition with the instruction and its address.
#[derive(Clone, Copy, Debug, PartialEq, Eq, Structural)]
pub struct FatalError {
    pub kind: Fatal,
    pub instruction: u32,
    pub pc: u32,
}

/// What a step hands back to its caller besides the new CPU state.
#[derive(Clone, Copy, Debug, PartialEq, Eq, Structural)]
pub enum StepEvent {
    /// Nothing for the caller to do.
    Done,
    /// A BREAK instruction ran while breaks go to the debugger.
    DebugBreak,
    /// A GTE command (the whole opcode) for the caller's GTE to run.
    GteCommand(u32),
}

/// The MIPS R3000A CPU with its instruction cache, coprocessors and bus.
pub struct Cpu {
    /// Address of the next instruction to fetch.
    pc: u32,
    /// Address of the instruction after that one; a branch changes it.
    next_pc: u32,
    /// Address of the instruction being executed.
    current_pc: u32,
    regs: [u32; 32],
    hi: u32,
    lo: u32,
    icache: [ICacheLine; 256],
    inter: Interconnect,
    cop0: Cop0,
    gte: Gte,
    /// Pending load: target register and value. Register 0 means none.
    load: (RegisterIndex, u32),
    /// Set by an instruction that branched: the next one is in its delay
    /// slot.
    branch: bool,
    /// Set while the instruction executes in a delay slot.
    delay_slot: bool,
    /// BREAK goes to the debugger instead of raising an exception.
    debug_on_break: bool,
}

/// `regs` with register `i` set to `v`; register 0 stays 0.
pub open spec fn reg_write(regs: Seq<u32>, i: RegisterIndex, v: u32) -> Seq<u32> {
    regs.update(i.0 as int, v).update(0, 0)
}

/// The empty load delay slot.
pub open spec fn no_load() -> (RegisterIndex, u32) {
    (RegisterIndex(0), 0)
}

/// Writing back an empty load delay slot leaves the registers as they are.
pub proof fn lemma_empty_load_slot(regs: Seq<u32>, v: u32)
    requires
        regs.len() == 32,
        regs[0] == 0,
    ensures
        reg_write(regs, RegisterIndex(0), v) == regs,
{
    assert(reg_write(regs, RegisterIndex(0), v) =~= regs);
}

impl Cpu {
    pub closed spec fn spec_pc(&self) -> u32 {
        self.pc
    }

    pub closed spec fn spec_next_pc(&self) -> u32 {
        self.next_pc
    }

    pub closed spec fn spec_current_pc(&self) -> u32 {
        self.current_pc
    }

    pub closed spec fn spec_regs(&self) -> Seq<u32> {
        self.regs@
    }

    pub closed spec fn spec_hi(&self) -> u32 {
        self.hi
    }

    pub closed spec fn spec_lo(&self) -> u32 {
        self.lo
    }

    pub closed spec fn spec_icache(&self) -> Seq<ICacheLine> {
        self.icache@
    }

    pub closed spec fn spec_inter(&self) -> Interconnect {
        self.inter
    }

    pub closed spec fn spec_cop0(&self) -> Cop0 {
        self.cop0
    }

    pub closed spec fn spec_gte(&self) -> Gte {
        self.gte
    }

    pub closed spec fn spec_load(&self) -> (RegisterIndex, u32) {
        self.load
    }

    pub closed spec fn spec_branch(&self) -> bool {
        self.branch
    }

    pub closed spec fn spec_delay_slot(&self) -> bool {
        self.delay_slot
    }

    pub closed spec fn spec_debug_on_break(&self) -> bool {
        self.debug_on_break
    }

    /// Register 0 reads 0, the pending load names a register, the bus is
    /// well formed.
    pub open spec fn wf(&self) -> bool {
        &&& self.spec_regs().len() == 32
        &&& self.spec_regs()[0] == 0
        &&& self.spec_load().0.wf()
        &&& self.spec_inter().wf()
        &&& self.spec_icache().len() == ICACHE_LINES
    }

    /// Registers once the pending load is written back.
    pub open spec fn committed(&self) -> Seq<u32> {
        reg_write(self.spec_regs(), self.spec_load().0, self.spec_load().1)
    }

    /// `n` has the same program counters and branch flags as `self`.
    pub open spec fn same_flow(&self, n: Cpu) -> bool {
        &&& n.spec_pc() == self.spec_pc()
        &&& n.spec_next_pc() == self.spec_next_pc()
        &&& n.spec_current_pc() == self.spec_current_pc()
        &&& n.spec_branch() == self.spec_branch()
        &&& n.spec_delay_slot() == self.spec_delay_slot()
    }

    /// `n` has the same HI, LO, cache, bus, coprocessors and debug setting
    /// as `self`.
    pub open spec fn same_units(&self, n: Cpu) -> bool {
        &&& n.spec_hi() == self.spec_hi()
        &&& n.spec_lo() == self.spec_lo()
        &&& n.spec_icache() == self.spec_icache()
        &&& n.spec_inter() == self.spec_inter()
        &&& n.spec_cop0() == self.spec_cop0()
        &&& n.spec_gte() == self.spec_gte()
        &&& n.spec_debug_on_break() == self.spec_debug_on_break()
    }

    /// The pending load was written back and the slot emptied.
    pub open spec fn retired(&self, n: Cpu) -> bool {
        n.spec_regs() == self.committed() && n.spec_load() == no_load()
    }

    /// The pending load was written back, then `d` was set to `v`.
    pub open spec fn wrote(&self, n: Cpu, d: RegisterIndex, v: u32) -> bool {
        n.spec_regs() == reg_write(self.committed(), d, v) && n.spec_load() == no_load()
    }

    /// An ALU instruction: write-back, then `d` set to `v`, nothing else.
    pub open spec fn alu(&self, n: Cpu, d: RegisterIndex, v: u32) -> bool {
        self.wrote(n, d, v) && self.same_flow(n) && self.same_units(n)
    }

    /// A new load of `v` into `t` was queued: the pending one is written
    /// back unless it targets `t` too, in which case it is dropped.
    pub open spec fn chained(&self, n: Cpu, t: RegisterIndex, v: u32) -> bool {
        &&& n.spec_regs() == (if self.spec_load().0 != t {
            reg_write(self.spec_regs(), self.spec_load().0, self.spec_load().1)
        } else {
            self.spec_regs()
        })
        &&& n.spec_load() == (t, v)
    }

    /// Exception entry from `self`: cop0 updated, PC at the handler;
    /// registers and load slot are left to the caller's clause.
    pub open spec fn entered(&self, n: Cpu, cause: Exception) -> bool {
        &&& n.spec_cop0().sr == sr_after_exception(self.spec_cop0().sr)
        &&& n.spec_cop0().cause == cause_after_exception(
            self.spec_cop0().cause,
            cause.spec_code(),
            self.spec_delay_slot(),
        )
        &&& n.spec_cop0().epc == (if self.spec_delay_slot() {
            self.spec_current_pc().wrapping_sub(4)
        } else {
            self.spec_current_pc()
        })
        &&& n.spec_pc() == exception_vector(self.spec_cop0().sr)
        &&& n.spec_next_pc() == n.spec_pc().wrapping_add(4)
        &&& n.spec_current_pc() == self.spec_current_pc()
        &&& n.spec_branch() == self.spec_branch()
        &&& n.spec_delay_slot() == self.spec_delay_slot()
        &&& n.spec_hi() == self.spec_hi()
        &&& n.spec_lo() == self.spec_lo()
        &&& n.spec_icache() == self.spec_icache()
        &&& n.spec_inter() == self.spec_inter()
        &&& n.spec_gte() == self.spec_gte()
        &&& n.spec_debug_on_break() == self.spec_debug_on_break()
    }

    /// The pending load was written back, then `cause` was raised.
    pub open spec fn raised(&self, n: Cpu, cause: Exception) -> bool {
        self.retired(n) && self.entered(n, cause)
    }

    /// Reset state, running from the bus `inter`.
    pub fn new(inter: Interconnect) -> (r: Cpu)
        requires
            inter.wf(),
        ensures
            r.wf(),
            r.spec_pc() == RESET_PC,
            r.spec_next_pc() == RESET_PC + 4,
            r.spec_current_pc() == 0,
            r.spec_regs()[0] == 0,
            forall|i: int| 1 <= i < 32 ==> #[trigger] r.spec_regs()[i] == RESET_REG,
            r.spec_hi() == RESET_REG,
            r.spec_lo() == RESET_REG,
            forall|i: int|
                0 <= i < ICACHE_LINES ==> (#[trigger] r.spec_icache()[i]).tag_valid == 0 && forall|
                    j: int,
                | 0 <= j < 4 ==> r.spec_icache()[i].line[j] == Instruction(0),
            r.spec_inter() == inter,
            r.spec_cop0() == Cop0::new_spec(),
            r.spec_load() == no_load(),
            !r.spec_branch(),
            !r.spec_delay_slot(),
            !r.spec_debug_on_break(),
    {
        let mut regs = [RESET_REG; 32];
        regs[0] = 0;
        let pc = RESET_PC;
        let line = ICacheLine::new();
        Cpu {
            pc,
            next_pc: pc.wrapping_add(4),
            current_pc: 0,
            regs,
            hi: RESET_REG,
            lo: RESET_REG,
            icache: [line; 256],
            inter,
            cop0: Cop0::new(),
            gte: Gte::new(),
            load: (RegisterIndex(0), 0),
            branch: false,
            delay_slot: false,
            debug_on_break: false,
        }
    }

    /// Send BREAK instructions to the debugger instead of raising an
    /// exception.
    pub fn set_debug_on_break(&mut self, enabled: bool)
        ensures
            final(self).spec_debug_on_break() == enabled,
            final(self).wf() == old(self).wf(),
            old(self).same_flow(*final(self)),
            final(self).spec_regs() == old(self).spec_regs(),
            final(self).spec_load() == old(self).spec_load(),
            final(self).spec_hi() == old(self).spec_hi(),
            final(self).spec_lo() == old(self).spec_lo(),
            final(self).spec_icache() == old(self).spec_icache(),
            final(self).spec_inter() == old(self).spec_inter(),
            final(self).spec_cop0() == old(self).spec_cop0(),
            final(self).spec_gte() == old(self).spec_gte(),
    {
        self.debug_on_break = enabled;
    }

    /// The memory bus.
    pub fn interconnect(&self) -> (r: &Interconnect)
        ensures
            *r == self.spec_inter(),
    {
        &self.inter
    }

    /// The memory bus, for writing to it.
    pub fn interconnect_mut(&mut self) -> (r: &mut Interconnect)
        ensures
            *r == old(self).spec_inter(),
            final(self).spec_inter() == *final(r),
            old(self).same_flow(*final(self)),
            final(self).spec_regs() == old(self).spec_regs(),
            final(self).spec_load() == old(self).spec_load(),
            final(self).spec_hi() == old(self).spec_hi(),
            final(self).spec_lo() == old(self).spec_lo(),
            final(self).spec_icache() == old(self).spec_icache(),
            final(self).spec_cop0() == old(self).spec_cop0(),
            final(self).spec_gte() == old(self).spec_gte(),
            final(self).spec_debug_on_break() == old(self).spec_debug_on_break(),
    {
        &mut self.inter
    }

    /// Value of register `index`.
    fn reg(&self, index: RegisterIndex) -> (r: u32)
        requires
            index.wf(),
        ensures
            r == self.regs@[index.0 as int],
    {
        self.regs[index.0 as usize]
    }

    /// Set register `index`; register 0 stays 0.
    fn set_reg(&mut self, index: RegisterIndex, val: u32)
        requires
            index.wf(),
        ensures
            final(self).regs@ == reg_write(old(self).regs@, index, val),
            final(self).load == old(self).load,
            old(self).same_flow(*final(self)),
            old(self).same_units(*final(self)),
    {
        self.regs[index.0 as usize] = val;
        self.regs[0] = 0;
    }

    /// Write back the pending load and empty the slot. Called after an
    /// instruction reads its operands and before it writes its result.
    fn delayed_load(&mut self)
        requires
            old(self).load.0.wf(),
        ensures
            old(self).retired(*final(self)),
            old(self).same_flow(*final(self)),
            old(self).same_units(*final(self)),
            old(self).load.0 == RegisterIndex(0) && old(self).regs@[0] == 0 ==> final(self).regs@
                == old(self).regs@,
    {
        let (reg, val) = self.load;
        self.set_reg(reg, val);
        self.load = (RegisterIndex(0), 0);
        proof {
            if old(self).load.0 == RegisterIndex(0) && old(self).regs@[0] == 0 {
                lemma_empty_load_slot(old(self).regs@, val);
            }
        }
    }

    /// Queue a load of `val` into `reg`. A pending load to the same
    /// register is dropped; one to another register is written back.
    fn delayed_load_chain(&mut self, reg: RegisterIndex, val: u32)
        requires
            old(self).load.0.wf(),
        ensures
            old(self).chained(*final(self), reg, val),
            old(self).same_flow(*final(self)),
            old(self).same_units(*final(self)),
    {
        let (pending_reg, pending_val) = self.load;
        if pending_reg != reg {
            self.set_reg(pending_reg, pending_val);
        }
        self.load = (reg, val);
    }

    /// Branch to `pc + (offset << 2)`: the next instruction is in the
    /// delay slot.
    fn branch(&mut self, offset: u32)
        ensures
            final(self).next_pc == old(self).pc.wrapping_add(offset << 2),
            final(self).branch,
            final(self).pc == old(self).pc,
            final(self).current_pc == old(self).current_pc,
            final(self).delay_slot == old(self).delay_slot,
            final(self).regs == old(self).regs,
            final(self).load == old(self).load,
            old(self).same_units(*final(self)),
    {
        let offset = offset << 2;
        self.next_pc = self.pc.wrapping_add(offset);
        self.branch = true;
    }

    /// Raise `cause` for the current instruction: update cop0 and jump to
    /// the handler, with no delay slot.
    fn exception(&mut self, cause: Exception)
        ensures
            old(self).entered(*final(self), cause),
            final(self).regs == old(self).regs,
            final(self).load == old(self).load,
    {
        let handler = self.cop0.enter_exception(cause, self.current_pc, self.delay_slot);
        self.pc = handler;
        self.next_pc = self.pc.wrapping_add(4);
    }
}


impl Cpu {
    /// The general purpose registers.
    pub fn regs(&self) -> (r: &[u32])
        ensures
            r@ == self.spec_regs(),
    {
        self.regs.as_slice()
    }

    /// Set register `index` as a debugger would; register 0 stays 0.
    pub fn set_register(&mut self, index: u32, val: u32)
        requires
            old(self).wf(),
            index < 32,
        ensures
            final(self).wf(),
            final(self).spec_regs() == reg_write(old(self).spec_regs(), RegisterIndex(index), val),
            final(self).spec_load() == old(self).spec_load(),
            old(self).same_flow(*final(self)),
            old(self).same_units(*final(self)),
    {
        self.set_reg(RegisterIndex(index), val);
    }

    /// The cop0 status register.
    pub fn sr(&self) -> (r: u32)
        ensures
            r == self.spec_cop0().sr,
    {
        self.cop0.sr()
    }

    /// The cop0 cause register as software reads it.
    pub fn cause(&self, irq_state: InterruptState) -> (r: u32)
        ensures
            r == self.spec_cop0().spec_cause(irq_state),
    {
        self.cop0.cause(irq_state)
    }

    /// The exception PC.
    pub fn epc(&self) -> (r: u32)
        ensures
            r == self.spec_cop0().epc,
    {
        self.cop0.epc()
    }

    /// The bad virtual address register, which this core does not
    /// emulate: always 0.
    pub fn bad(&self) -> (r: u32)
        ensures
            r == 0,
    {
        0
    }

    pub fn lo(&self) -> (r: u32)
        ensures
            r == self.spec_lo(),
    {
        self.lo
    }

    pub fn hi(&self) -> (r: u32)
        ensures
            r == self.spec_hi(),
    {
        self.hi
    }

    /// Address of the next instruction to fetch.
    pub fn pc(&self) -> (r: u32)
        ensures
            r == self.spec_pc(),
    {
        self.pc
    }

    /// Address of the instruction after the next one.
    pub fn next_pc(&self) -> (r: u32)
        ensures
            r == self.spec_next_pc(),
    {
        self.next_pc
    }

    /// Line `index` of the instruction cache.
    pub fn icache_line(&self, index: usize) -> (r: ICacheLine)
        requires
            index < ICACHE_LINES,
        ensures
            r == self.spec_icache()[index as int],
    {
        self.icache[index]
    }

    /// Address of the instruction that ran last.
    pub fn current_pc(&self) -> (r: u32)
        ensures
            r == self.spec_current_pc(),
    {
        self.current_pc
    }

    /// The pending load: target register and value.
    pub fn pending_load(&self) -> (r: (u32, u32))
        ensures
            r == (self.spec_load().0.0, self.spec_load().1),
    {
        (self.load.0.0, self.load.1)
    }

    /// True while the next instruction is in a branch delay slot.
    pub fn in_delay_slot(&self) -> (r: bool)
        ensures
            r == self.spec_delay_slot(),
    {
        self.delay_slot
    }

    /// The GTE's registers.
    pub fn gte(&self) -> (r: &Gte)
        ensures
            *r == self.spec_gte(),
    {
        &self.gte
    }

    /// Replace the GTE's registers, after running a command on them.
    pub fn set_gte(&mut self, gte: Gte)
        ensures
            final(self).spec_gte() == gte,
            final(self).wf() == old(self).wf(),
            old(self).same_flow(*final(self)),
            final(self).spec_regs() == old(self).spec_regs(),
            final(self).spec_load() == old(self).spec_load(),
            final(self).spec_hi() == old(self).spec_hi(),
            final(self).spec_lo() == old(self).spec_lo(),
            final(self).spec_icache() == old(self).spec_icache(),
            final(self).spec_inter() == old(self).spec_inter(),
            final(self).spec_cop0() == old(self).spec_cop0(),
            final(self).spec_debug_on_break() == old(self).spec_debug_on_break(),
    {
        self.gte = gte;
    }

    /// Jump to `pc`: the next instruction is fetched there.
    pub fn set_pc(&mut self, pc: u32)
        ensures
            final(self).spec_pc() == pc,
            final(self).spec_next_pc() == pc.wrapping_add(4),
            final(self).spec_current_pc() == old(self).spec_current_pc(),
            final(self).spec_branch() == old(self).spec_branch(),
            final(self).spec_delay_slot() == old(self).spec_delay_slot(),
            final(self).wf() == old(self).wf(),
            final(self).spec_regs() == old(self).spec_regs(),
            final(self).spec_load() == old(self).spec_load(),
            old(self).same_units(*final(self)),
    {
        self.pc = pc;
        self.next_pc = pc.wrapping_add(4);
    }

    /// Force the PC from a debugger: as `set_pc`, and the next instruction
    /// is not in a delay slot.
    pub fn force_pc(&mut self, pc: u32)
        ensures
            final(self).spec_pc() == pc,
            final(self).spec_next_pc() == pc.wrapping_add(4),
            !final(self).spec_delay_slot(),
            final(self).spec_current_pc() == old(self).spec_current_pc(),
            final(self).spec_branch() == old(self).spec_branch(),
            final(self).wf() == old(self).wf(),
            final(self).spec_regs() == old(self).spec_regs(),
            final(self).spec_load() == old(self).spec_load(),
            old(self).same_units(*final(self)),
    {
        self.pc = pc;
        self.next_pc = self.pc.wrapping_add(4);
        self.delay_slot = false;
    }

    /// Read memory with no side effect, for a debugger.
    pub fn examine(&self, width: AccessWidth, addr: u32) -> (r: u32)
        requires
            self.wf(),
        ensures
            r == self.spec_inter().load_spec(width, addr),
    {
        self.inter.load(width, addr)
    }
}

} // verus!
