use vstd::prelude::*;

use super::{Cpu, Fatal, FatalError, StepEvent};
use crate::bytes::AccessWidth;
use crate::cop0::Exception;
use crate::icache::{ICacheLine, lemma_tag_valid};
use crate::instruction::Instruction;
use crate::shared::{SharedState, lemma_ticks_add};

verus! {

/// The error the step reports for `r`, decided by the instruction.
pub open spec fn with_kind(r: Result<StepEvent, FatalError>) -> Result<StepEvent, Fatal> {
    match r {
        Ok(e) => Ok(e),
        Err(f) => Err(f.kind),
    }
}

impl Cpu {
    /// Code at `pc` is fetched through the instruction cache: KUSEG or
    /// KSEG0, with the cache on.
    pub open spec fn fetch_cached(&self, pc: u32) -> bool {
        pc < 0xa000_0000 && self.spec_inter().spec_cache_control().spec_icache_enabled()
    }

    /// The cache line for `pc` holds its word: same tag, and the word is
    /// at or after the line's first valid one.
    pub open spec fn fetch_hit(&self, pc: u32) -> bool {
        let line = self.spec_icache()[((pc >> 4) & 0xff) as int];
        line.tag_valid & 0xffff_f000 == pc & 0x7fff_f000 && (line.tag_valid >> 2) & 7 <= (pc >> 2)
            & 3
    }

    /// The instruction a fetch at `pc` returns: the cached word on a hit,
    /// else the word in memory.
    pub open spec fn fetch_word(&self, pc: u32) -> Instruction {
        if self.fetch_cached(pc) && self.fetch_hit(pc) {
            self.spec_icache()[((pc >> 4) & 0xff) as int].line[((pc >> 2) & 3) as int]
        } else {
            Instruction(self.spec_inter().load_spec(AccessWidth::Word, pc))
        }
    }

    /// Cycles a fetch at `pc` takes: 4 uncached, nothing on a hit, and on a
    /// miss 3 plus one per word loaded into the line.
    pub open spec fn fetch_ticks(&self, pc: u32) -> u64 {
        if !self.fetch_cached(pc) {
            4
        } else if self.fetch_hit(pc) {
            0
        } else {
            (3 + (4 - ((pc >> 2) & 3))) as u64
        }
    }

    /// `n`'s instruction cache is `self`'s after a fetch at `pc`. On a miss
    /// the line is refilled from the word of `pc` to its end, words before
    /// it are left invalid, and the tag records `pc`.
    pub open spec fn filled(&self, n: Cpu, pc: u32) -> bool {
        let li = ((pc >> 4) & 0xff) as int;
        let k = ((pc >> 2) & 3) as int;
        if self.fetch_cached(pc) && !self.fetch_hit(pc) {
            &&& n.spec_icache().len() == self.spec_icache().len()
            &&& forall|j: int|
                0 <= j < n.spec_icache().len() && j != li ==> #[trigger] n.spec_icache()[j]
                    == self.spec_icache()[j]
            &&& n.spec_icache()[li].tag_valid == pc & 0x7fff_f00c
            &&& forall|j: int|
                k <= j < 4 ==> #[trigger] n.spec_icache()[li].line[j] == Instruction(
                    self.spec_inter().load_spec(AccessWidth::Word, (pc + 4 * (j - k)) as u32),
                )
            &&& forall|j: int|
                0 <= j < k ==> #[trigger] n.spec_icache()[li].line[j] == self.spec_icache()[li].line[j]
        } else {
            n.spec_icache() == self.spec_icache()
        }
    }

    /// `mid` is `self` once the instruction at `pc` is fetched and the
    /// program counters advanced: the fetched instruction becomes the
    /// current one, and it is in a delay slot when the previous one
    /// branched.
    pub open spec fn prefetch(&self, mid: Cpu) -> bool {
        &&& mid.spec_current_pc() == self.spec_pc()
        &&& mid.spec_pc() == self.spec_next_pc()
        &&& mid.spec_next_pc() == self.spec_next_pc().wrapping_add(4)
        &&& !mid.spec_branch()
        &&& mid.spec_delay_slot() == self.spec_branch()
        &&& self.filled(mid, self.spec_pc())
        &&& mid.spec_regs() == self.spec_regs()
        &&& mid.spec_load() == self.spec_load()
        &&& mid.spec_hi() == self.spec_hi()
        &&& mid.spec_lo() == self.spec_lo()
        &&& mid.spec_inter() == self.spec_inter()
        &&& mid.spec_cop0() == self.spec_cop0()
        &&& mid.spec_gte() == self.spec_gte()
        &&& mid.spec_debug_on_break() == self.spec_debug_on_break()
    }

    /// `n` is `self` with an interrupt taken: the exception is entered and
    /// nothing else changes.
    pub open spec fn interrupted(&self, n: Cpu) -> bool {
        &&& self.entered(n, Exception::Interrupt)
        &&& n.spec_regs() == self.spec_regs()
        &&& n.spec_load() == self.spec_load()
    }

    /// What a step from `self` at an aligned PC does once the instruction
    /// is fetched into `mid`, with `sh` the shared state at the start: an
    /// interrupt is taken before the instruction runs, except that a GTE
    /// instruction still runs first; otherwise the instruction runs.
    pub open spec fn runs(&self, mid: Cpu, n: Cpu, sh: SharedState, r: Result<StepEvent, FatalError>) -> bool {
        let i = self.fetch_word(self.spec_pc());
        &&& r matches Err(e) ==> e.instruction == i.0 && e.pc == self.spec_pc()
        &&& if mid.spec_cop0().spec_irq_active(sh.irq_state) {
            if i.0 >> 26 == 0x12 {
                exists|mid2: Cpu|
                    #[trigger] mid.executes(mid2, i, sh.irq_state, with_kind(r)) && (r is Ok
                        ==> mid2.interrupted(n)) && (r is Err ==> n == mid2)
            } else {
                r == Ok::<StepEvent, FatalError>(StepEvent::Done) && mid.interrupted(n)
            }
        } else {
            mid.executes(n, i, sh.irq_state, with_kind(r))
        }
    }

    /// Cycles a step from `self` at an aligned PC charges: the fetch, one
    /// for the instruction, and one more for an interrupt.
    pub open spec fn step_ticks(&self, mid: Cpu, sh: SharedState, r: Result<StepEvent, FatalError>) -> u64 {
        let i = self.fetch_word(self.spec_pc());
        let f = self.fetch_ticks(self.spec_pc());
        if mid.spec_cop0().spec_irq_active(sh.irq_state) {
            if i.0 >> 26 == 0x12 {
                if r is Ok {
                    (f + 2) as u64
                } else {
                    (f + 1) as u64
                }
            } else {
                (f + 1) as u64
            }
        } else {
            (f + 1) as u64
        }
    }

    /// Fetch the instruction at `current_pc` through the instruction cache.
    fn fetch_instruction(&mut self, shared: &mut SharedState) -> (r: Instruction)
        requires
            old(self).wf(),
        ensures
            final(self).wf(),
            r == old(self).fetch_word(old(self).current_pc),
            old(self).filled(*final(self), old(self).current_pc),
            final(shared).now == old(shared).now.wrapping_add(old(self).fetch_ticks(old(self).current_pc)),
            final(shared).sync_pending == old(shared).sync_pending,
            final(shared).irq_state == old(shared).irq_state,
            final(shared).frame == old(shared).frame,
            old(self).same_flow(*final(self)),
            final(self).regs == old(self).regs,
            final(self).load == old(self).load,
            final(self).hi == old(self).hi,
            final(self).lo == old(self).lo,
            final(self).inter == old(self).inter,
            final(self).cop0 == old(self).cop0,
            final(self).gte == old(self).gte,
            final(self).debug_on_break == old(self).debug_on_break,
    {
        let pc = self.current_pc;
        let cc = self.inter.cache_control();
        let cached = pc < 0xa000_0000;
        if cached && cc.icache_enabled() {
            let tag = pc & 0x7fff_f000;
            let li = (pc >> 4) & 0xff;
            let index = (pc >> 2) & 3;
            assert(li < 256 && index < 4) by (bit_vector)
                requires
                    li == (pc >> 4) & 0xff,
                    index == (pc >> 2) & 3,
            ;
            let mut line: ICacheLine = self.icache[li as usize];
            if line.tag() != tag || line.valid_index() > index {
                let ghost start = shared.now;
                let ghost line0 = line;
                shared.tick(3);
                let mut cpc = pc;
                let mut i = index;
                while i < 4
                    invariant
                        self.wf(),
                        self == old(self),
                        pc == self.current_pc,
                        pc < 0xa000_0000,
                        index <= i <= 4,
                        index < 4,
                        cpc == pc + 4 * (i - index),
                        shared.now == start.wrapping_add((3 + (i - index)) as u64),
                        shared.sync_pending == old(shared).sync_pending,
                        shared.irq_state == old(shared).irq_state,
                        shared.frame == old(shared).frame,
                        forall|j: int|
                            index <= j < i ==> #[trigger] line.line[j] == Instruction(
                                self.inter.load_spec(AccessWidth::Word, (pc + 4 * (j - index)) as u32),
                            ),
                        forall|j: int| 0 <= j < index ==> #[trigger] line.line[j] == line0.line[j],
                    decreases 4 - i,
                {
                    shared.tick(1);
                    let instruction = Instruction(self.inter.load_instruction(cpc));
                    line.set_instruction(i, instruction);
                    cpc = cpc + 4;
                    i = i + 1;
                }
                line.set_tag_valid(pc);
                self.icache[li as usize] = line;
            }
            line.instruction(index)
        } else {
            shared.tick(4);
            Instruction(self.inter.load_instruction(pc))
        }
    }
}


impl Cpu {
    /// Run one instruction. Pending peripheral work is acknowledged first;
    /// a misaligned PC raises LoadAddressError before anything is fetched
    /// (the pending load stays pending). `Err` reports a condition this
    /// core does not model, with the instruction and its address.
    pub fn run_next_instruction(&mut self, shared: &mut SharedState) -> (r: Result<StepEvent, FatalError>)
        requires
            old(self).wf(),
        ensures
            final(self).wf(),
            final(self).spec_regs()[0] == 0,
            r is Ok ==> final(self).spec_current_pc() == old(self).spec_pc(),
            !final(shared).sync_pending,
            final(shared).irq_state == old(shared).irq_state,
            final(shared).frame == old(shared).frame,
            old(self).spec_pc() % 4 != 0 ==> {
                &&& r == Ok::<StepEvent, FatalError>(StepEvent::Done)
                &&& final(shared).now == old(shared).now
                &&& final(self).spec_regs() == old(self).spec_regs()
                &&& final(self).spec_load() == old(self).spec_load()
                &&& final(self).spec_pc() == crate::cop0::exception_vector(old(self).spec_cop0().sr)
                &&& final(self).spec_next_pc() == final(self).spec_pc().wrapping_add(4)
                &&& final(self).spec_cop0().sr == crate::cop0::sr_after_exception(old(self).spec_cop0().sr)
                &&& final(self).spec_cop0().cause == crate::cop0::cause_after_exception(
                    old(self).spec_cop0().cause,
                    Exception::LoadAddressError.spec_code(),
                    old(self).spec_delay_slot(),
                )
                &&& final(self).spec_cop0().epc == (if old(self).spec_delay_slot() {
                    old(self).spec_pc().wrapping_sub(4)
                } else {
                    old(self).spec_pc()
                })
                &&& final(self).spec_branch() == old(self).spec_branch()
                &&& final(self).spec_delay_slot() == old(self).spec_delay_slot()
                &&& final(self).spec_icache() == old(self).spec_icache()
                &&& final(self).spec_inter() == old(self).spec_inter()
            },
            old(self).spec_pc() % 4 == 0 ==> exists|mid: Cpu|
                #[trigger] old(self).prefetch(mid) && old(self).runs(mid, *final(self), *old(shared), r)
                    && final(shared).now == old(shared).now.wrapping_add(
                    old(self).step_ticks(mid, *old(shared), r),
                ),
            old(self).spec_pc() % 4 == 0 && r is Ok ==> final(self).spec_delay_slot() == old(self).spec_branch(),
            r is Ok ==> final(self).spec_branch() || final(self).spec_next_pc() == final(self).spec_pc().wrapping_add(4),
    {
        if shared.sync_pending {
            shared.sync_pending = false;
        }
        self.current_pc = self.pc;
        if self.current_pc % 4 != 0 {
            self.exception(Exception::LoadAddressError);
            return Ok(StepEvent::Done);
        }
        let ghost before = *self;
        let instruction = self.fetch_instruction(shared);
        self.pc = self.next_pc;
        self.next_pc = self.pc.wrapping_add(4);
        self.delay_slot = self.branch;
        self.branch = false;
        let ghost mid = *self;
        assert(old(self).prefetch(mid));
        let ghost fetched_at = shared.now;
        assert(fetched_at == old(shared).now.wrapping_add(old(self).fetch_ticks(old(self).pc)));
        proof {
            lemma_tag_valid(old(self).pc, 0);
            assert(old(self).fetch_ticks(old(self).pc) <= 7);
            lemma_ticks_add(old(shared).now, old(self).fetch_ticks(old(self).pc), 1);
            lemma_ticks_add(old(shared).now, (old(self).fetch_ticks(old(self).pc) + 1) as u64, 1);
            lemma_ticks_add(fetched_at, 1, 1);
        }
        let pc = self.current_pc;
        if self.cop0.irq_active(shared.irq_state) {
            let mut event = StepEvent::Done;
            if instruction.is_gte_op() {
                match self.decode_and_execute(instruction, shared) {
                    Ok(e) => {
                        event = e;
                    },
                    Err(kind) => {
                        let r = Err(FatalError { kind, instruction: instruction.0, pc });
                        assert(with_kind(r) == Err::<StepEvent, Fatal>(kind));
                        assert(mid.executes(*self, instruction, old(shared).irq_state, with_kind(r)));
                        assert(old(self).runs(mid, *self, *old(shared), r));
                        return r;
                    },
                }
            }
            shared.tick(1);
            self.exception(Exception::Interrupt);
            Ok(event)
        } else {
            match self.decode_and_execute(instruction, shared) {
                Ok(e) => Ok(e),
                Err(kind) => Err(FatalError { kind, instruction: instruction.0, pc }),
            }
        }
    }
}

} // verus!
