use vstd::prelude::*;

use super::Cpu;
use crate::cop0::Cop0;
use crate::gte::Gte;
use crate::icache::{ICacheLine, ICACHE_LINES};
use crate::instruction::{Instruction, RegisterIndex};
use crate::memory::Interconnect;

verus! {

/// Number of words in a saved CPU state: program counters, registers,
/// HI/LO, the load slot, flags, cop0, the GTE registers, and five words
/// (tag and instructions) per cache line.
pub const STATE_WORDS: usize = 107 + 5 * 256;

/// A saved state that cannot be restored.
#[derive(Clone, Copy, Debug, PartialEq, Eq, Structural)]
pub enum InvalidState {
    /// The state does not have `STATE_WORDS` words.
    Length,
    /// The load slot names a register above 31.
    LoadRegister,
    /// Register 0 is not 0.
    ZeroRegister,
}

/// The branch flags packed in one word.
pub open spec fn flags_word(branch: bool, delay_slot: bool, debug_on_break: bool) -> u32 {
    ((if branch { 1int } else { 0 }) + (if delay_slot { 2int } else { 0 }) + (if debug_on_break { 4int } else { 0 })) as u32
}

/// A word sequence the CPU state can be restored from.
pub open spec fn valid_state(w: Seq<u32>) -> bool {
    w.len() == STATE_WORDS && w[37] < 32 && w[3] == 0
}

impl Cpu {
    /// Word `k` of the saved state.
    pub open spec fn state_word(&self, k: int) -> u32 {
        if k == 0 {
            self.spec_pc()
        } else if k == 1 {
            self.spec_next_pc()
        } else if k == 2 {
            self.spec_current_pc()
        } else if 3 <= k < 35 {
            self.spec_regs()[k - 3]
        } else if k == 35 {
            self.spec_hi()
        } else if k == 36 {
            self.spec_lo()
        } else if k == 37 {
            self.spec_load().0.0
        } else if k == 38 {
            self.spec_load().1
        } else if k == 39 {
            flags_word(self.spec_branch(), self.spec_delay_slot(), self.spec_debug_on_break())
        } else if k == 40 {
            self.spec_cop0().sr
        } else if k == 41 {
            self.spec_cop0().cause
        } else if k == 42 {
            self.spec_cop0().epc
        } else if 43 <= k < 75 {
            self.spec_gte().data[k - 43]
        } else if 75 <= k < 107 {
            self.spec_gte().control[k - 75]
        } else {
            let l = self.spec_icache()[(k - 107) / 5];
            let j = (k - 107) % 5;
            if j == 0 {
                l.tag_valid
            } else {
                l.line[j - 1].0
            }
        }
    }

    /// The saved state of the CPU (the bus is saved on its own).
    pub open spec fn state_words(&self) -> Seq<u32> {
        Seq::new(STATE_WORDS as nat, |k: int| self.state_word(k))
    }

    /// `self`'s CPU state (all but the bus) is the one saved in `w`.
    pub open spec fn restored_from(&self, w: Seq<u32>) -> bool {
        &&& self.spec_pc() == w[0]
        &&& self.spec_next_pc() == w[1]
        &&& self.spec_current_pc() == w[2]
        &&& self.spec_regs() == w.subrange(3, 35)
        &&& self.spec_hi() == w[35]
        &&& self.spec_lo() == w[36]
        &&& self.spec_load() == (RegisterIndex(w[37]), w[38])
        &&& self.spec_branch() == (w[39] % 2 == 1)
        &&& self.spec_delay_slot() == ((w[39] / 2) % 2 == 1)
        &&& self.spec_debug_on_break() == ((w[39] / 4) % 2 == 1)
        &&& self.spec_cop0() == (Cop0 { sr: w[40], cause: w[41], epc: w[42] })
        &&& self.spec_gte().data@ == w.subrange(43, 75)
        &&& self.spec_gte().control@ == w.subrange(75, 107)
        &&& self.spec_icache().len() == ICACHE_LINES
        &&& forall|i: int|
            0 <= i < ICACHE_LINES ==> (#[trigger] self.spec_icache()[i]).tag_valid == w[107 + 5 * i]
                && forall|j: int|
                0 <= j < 4 ==> self.spec_icache()[i].line[j] == Instruction(w[108 + 5 * i + j])
    }

    /// `n` holds the same CPU state as `self`: every register, flag,
    /// coprocessor register and cache word.
    pub open spec fn same_state(&self, n: Cpu) -> bool {
        &&& self.same_flow(n)
        &&& n.spec_regs() == self.spec_regs()
        &&& n.spec_load() == self.spec_load()
        &&& n.spec_hi() == self.spec_hi()
        &&& n.spec_lo() == self.spec_lo()
        &&& n.spec_icache() == self.spec_icache()
        &&& n.spec_cop0() == self.spec_cop0()
        &&& n.spec_gte() == self.spec_gte()
        &&& n.spec_debug_on_break() == self.spec_debug_on_break()
    }

    /// Save the CPU state (all but the bus) as words.
    pub fn save_state(&self) -> (r: Vec<u32>)
        requires
            self.wf(),
        ensures
            r@ == self.state_words(),
    {
        let mut out: Vec<u32> = Vec::with_capacity(STATE_WORDS);
        out.push(self.pc);
        out.push(self.next_pc);
        out.push(self.current_pc);
        let mut i: usize = 0;
        while i < 32
            invariant
                i <= 32,
                out@.len() == 3 + i,
                forall|k: int| 0 <= k < out@.len() ==> out@[k] == self.state_word(k),
            decreases 32 - i,
        {
            out.push(self.regs[i]);
            i = i + 1;
        }
        out.push(self.hi);
        out.push(self.lo);
        out.push(self.load.0.0);
        out.push(self.load.1);
        let flags: u32 = (if self.branch { 1 } else { 0 }) + (if self.delay_slot { 2 } else { 0 }) + (
        if self.debug_on_break { 4 } else { 0 });
        out.push(flags);
        out.push(self.cop0.sr);
        out.push(self.cop0.cause);
        out.push(self.cop0.epc);
        let mut i: usize = 0;
        while i < 32
            invariant
                i <= 32,
                out@.len() == 43 + i,
                forall|k: int| 0 <= k < out@.len() ==> out@[k] == self.state_word(k),
            decreases 32 - i,
        {
            out.push(self.gte.data[i]);
            i = i + 1;
        }
        let mut i: usize = 0;
        while i < 32
            invariant
                i <= 32,
                out@.len() == 75 + i,
                forall|k: int| 0 <= k < out@.len() ==> out@[k] == self.state_word(k),
            decreases 32 - i,
        {
            out.push(self.gte.control[i]);
            i = i + 1;
        }
        let mut i: usize = 0;
        while i < ICACHE_LINES
            invariant
                self.wf(),
                i <= ICACHE_LINES,
                out@.len() == 107 + 5 * i,
                forall|k: int| 0 <= k < out@.len() ==> out@[k] == self.state_word(k),
            decreases ICACHE_LINES - i,
        {
            let line = self.icache[i];
            let ghost base = 107 + 5 * i;
            assert((base - 107) / 5 == i && (base + 1 - 107) / 5 == i && (base + 2 - 107) / 5 == i
                && (base + 3 - 107) / 5 == i && (base + 4 - 107) / 5 == i);
            assert((base - 107) % 5 == 0 && (base + 1 - 107) % 5 == 1 && (base + 2 - 107) % 5 == 2
                && (base + 3 - 107) % 5 == 3 && (base + 4 - 107) % 5 == 4);
            out.push(line.tag_valid);
            out.push(line.line[0].0);
            out.push(line.line[1].0);
            out.push(line.line[2].0);
            out.push(line.line[3].0);
            i = i + 1;
        }
        assert(out@ =~= self.state_words());
        out
    }

    /// Restore a CPU state saved by `save_state`, running from `inter`.
    pub fn from_state(inter: Interconnect, words: &[u32]) -> (r: Result<Cpu, InvalidState>)
        requires
            inter.wf(),
        ensures
            r is Ok <==> valid_state(words@),
            words@.len() != STATE_WORDS ==> r == Err::<Cpu, InvalidState>(InvalidState::Length),
            r matches Ok(c) ==> c.wf() && c.restored_from(words@) && c.spec_inter() == inter,
    {
        if words.len() != STATE_WORDS {
            return Err(InvalidState::Length);
        }
        if words[37] >= 32 {
            return Err(InvalidState::LoadRegister);
        }
        if words[3] != 0 {
            return Err(InvalidState::ZeroRegister);
        }
        let mut regs = [0u32; 32];
        let mut data = [0u32; 32];
        let mut control = [0u32; 32];
        let mut i: usize = 0;
        while i < 32
            invariant
                i <= 32,
                words@.len() == STATE_WORDS,
                forall|k: int| 0 <= k < i ==> regs@[k] == words@[3 + k],
                forall|k: int| 0 <= k < i ==> data@[k] == words@[43 + k],
                forall|k: int| 0 <= k < i ==> control@[k] == words@[75 + k],
            decreases 32 - i,
        {
            regs[i] = words[3 + i];
            data[i] = words[43 + i];
            control[i] = words[75 + i];
            i = i + 1;
        }
        let mut icache = [ICacheLine::new(); 256];
        let mut i: usize = 0;
        while i < ICACHE_LINES
            invariant
                i <= ICACHE_LINES,
                words@.len() == STATE_WORDS,
                forall|n: int|
                    0 <= n < i ==> (#[trigger] icache@[n]).tag_valid == words@[107 + 5 * n] && forall|
                        j: int,
                    | 0 <= j < 4 ==> icache@[n].line[j] == Instruction(words@[108 + 5 * n + j]),
            decreases ICACHE_LINES - i,
        {
            let b = 107 + 5 * i;
            icache[i] = ICacheLine {
                tag_valid: words[b],
                line: [
                    Instruction(words[b + 1]),
                    Instruction(words[b + 2]),
                    Instruction(words[b + 3]),
                    Instruction(words[b + 4]),
                ],
            };
            i = i + 1;
        }
        let flags = words[39];
        let c = Cpu {
            pc: words[0],
            next_pc: words[1],
            current_pc: words[2],
            regs,
            hi: words[35],
            lo: words[36],
            icache,
            inter,
            cop0: Cop0 { sr: words[40], cause: words[41], epc: words[42] },
            gte: Gte { data, control },
            load: (RegisterIndex(words[37]), words[38]),
            branch: flags % 2 == 1,
            delay_slot: (flags / 2) % 2 == 1,
            debug_on_break: (flags / 4) % 2 == 1,
        };
        assert(c.regs@ =~= words@.subrange(3, 35));
        assert(c.gte.data@ =~= words@.subrange(43, 75));
        assert(c.gte.control@ =~= words@.subrange(75, 107));
        Ok(c)
    }
}

/// Saving a CPU state and restoring it gives back every register, flag,
/// coprocessor register and cache word.
pub proof fn lemma_state_round_trip(c: Cpu, n: Cpu)
    requires
        c.wf(),
        n.restored_from(c.state_words()),
    ensures
        valid_state(c.state_words()),
        c.same_state(n),
{
    let w = c.state_words();
    assert(n.spec_regs() =~= c.spec_regs());
    assert(n.spec_gte().data@ =~= c.spec_gte().data@);
    assert(n.spec_gte().control@ =~= c.spec_gte().control@);
    assert(n.spec_gte().data =~= c.spec_gte().data);
    assert(n.spec_gte().control =~= c.spec_gte().control);
    assert forall|i: int| 0 <= i < ICACHE_LINES implies #[trigger] n.spec_icache()[i] == c.spec_icache()[i] by {
        assert((107 + 5 * i - 107) / 5 == i && (107 + 5 * i - 107) % 5 == 0);
        assert forall|j: int| 0 <= j < 4 implies n.spec_icache()[i].line[j] == c.spec_icache()[i].line[j] by {
            assert((108 + 5 * i + j - 107) / 5 == i && (108 + 5 * i + j - 107) % 5 == j + 1);
        }
        assert(n.spec_icache()[i].line =~= c.spec_icache()[i].line);
    }
    assert(n.spec_icache() =~= c.spec_icache());
    assert(n.spec_load().0 == c.spec_load().0);
}

} // verus!
