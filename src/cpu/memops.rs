use vstd::prelude::*;

use super::{Cpu, Fatal};
use crate::bytes::AccessWidth;
use crate::cop0::Exception;
use crate::icache::ICacheLine;
use crate::memory::{Interconnect, in_ram, physical};
use crate::instruction::{Instruction, RegisterIndex};

verus! {

/// LWL: the 1 to 4 most significant bytes of the register come from the
/// aligned word `w`, by the address's offset `k` in its word.
pub open spec fn lwl_merge(cur: u32, k: u32, w: u32) -> u32 {
    if k == 0 {
        (cur & 0x00ff_ffff) | (w << 24)
    } else if k == 1 {
        (cur & 0x0000_ffff) | (w << 16)
    } else if k == 2 {
        (cur & 0x0000_00ff) | (w << 8)
    } else {
        w
    }
}

/// LWR: the 4 to 1 least significant bytes of the register come from the
/// aligned word `w`.
pub open spec fn lwr_merge(cur: u32, k: u32, w: u32) -> u32 {
    if k == 0 {
        w
    } else if k == 1 {
        (cur & 0xff00_0000) | (w >> 8)
    } else if k == 2 {
        (cur & 0xffff_0000) | (w >> 16)
    } else {
        (cur & 0xffff_ff00) | (w >> 24)
    }
}

/// SWL: the word written back over the aligned word `mem`.
pub open spec fn swl_merge(mem: u32, k: u32, v: u32) -> u32 {
    if k == 0 {
        (mem & 0xffff_ff00) | (v >> 24)
    } else if k == 1 {
        (mem & 0xffff_0000) | (v >> 16)
    } else if k == 2 {
        (mem & 0xff00_0000) | (v >> 8)
    } else {
        v
    }
}

/// SWR: the word written back over the aligned word `mem`.
pub open spec fn swr_merge(mem: u32, k: u32, v: u32) -> u32 {
    if k == 0 {
        v
    } else if k == 1 {
        (mem & 0x0000_00ff) | (v << 8)
    } else if k == 2 {
        (mem & 0x0000_ffff) | (v << 16)
    } else {
        (mem & 0x00ff_ffff) | (v << 24)
    }
}

/// The word-aligned address containing `addr`.
pub open spec fn aligned(addr: u32) -> u32 {
    (addr - addr % 4) as u32
}

/// Sign extension of a byte.
pub open spec fn sext8(v: u32) -> u32 {
    if v & 0x80 != 0 {
        v | 0xffff_ff00
    } else {
        v
    }
}

/// Sign extension of a half-word.
pub open spec fn sext16(v: u32) -> u32 {
    if v & 0x8000 != 0 {
        v | 0xffff_0000
    } else {
        v
    }
}

impl Cpu {
    /// Effective address of a load or store: rs plus the sign-extended
    /// immediate.
    pub open spec fn ea(&self, i: Instruction) -> u32 {
        self.spec_regs()[i.spec_s().0 as int].wrapping_add(i.spec_imm_se())
    }

    /// What a load of `width` at `addr` reads.
    pub open spec fn mem(&self, width: AccessWidth, addr: u32) -> u32 {
        self.spec_inter().load_spec(width, addr)
    }

    /// The fatal condition a store of `val` with `width` hits, if any:
    /// with the cache isolated only words of zero are supported, and only
    /// with the instruction cache on.
    pub open spec fn store_fault(&self, width: AccessWidth, val: u32) -> Option<Fatal> {
        if !self.spec_cop0().spec_cache_isolated() {
            None
        } else if !self.spec_inter().spec_cache_control().spec_icache_enabled() {
            Some(Fatal::IsolatedCacheDisabled)
        } else if width != AccessWidth::Word || val != 0 {
            Some(Fatal::IsolatedStoreUnsupported(width.spec_size() as u32, val))
        } else {
            None
        }
    }

    /// The instruction cache after a store of `val` at `addr` with the
    /// cache isolated: in tag test mode the line is invalidated, else the
    /// word is written into it.
    pub open spec fn cache_written(&self, n: Cpu, addr: u32, val: u32) -> bool {
        let li = ((addr >> 4) & 0xff) as int;
        let idx = ((addr >> 2) & 3) as int;
        let line = self.spec_icache()[li];
        &&& n.spec_icache().len() == self.spec_icache().len()
        &&& forall|j: int| 0 <= j < n.spec_icache().len() && j != li ==> #[trigger] n.spec_icache()[j] == self.spec_icache()[j]
        &&& if self.spec_inter().spec_cache_control().spec_tag_test_mode() {
            n.spec_icache()[li].tag_valid == line.tag_valid | 0x10 && n.spec_icache()[li].line == line.line
        } else {
            n.spec_icache()[li].tag_valid == line.tag_valid && n.spec_icache()[li].line@ == line.line@.update(idx, Instruction(val))
        }
    }

    /// Effect of a store that hit no fatal condition on the cache and the
    /// bus; everything else but registers and load slot is kept.
    pub open spec fn stored(&self, n: Cpu, width: AccessWidth, addr: u32, val: u32) -> bool {
        &&& if self.spec_cop0().spec_cache_isolated() {
            self.cache_written(n, addr, val) && n.spec_inter() == self.spec_inter()
        } else {
            n.spec_icache() == self.spec_icache() && self.spec_inter().store_spec(n.spec_inter(), width, addr, val)
        }
        &&& self.same_flow(n)
        &&& n.spec_hi() == self.spec_hi()
        &&& n.spec_lo() == self.spec_lo()
        &&& n.spec_cop0() == self.spec_cop0()
        &&& n.spec_gte() == self.spec_gte()
        &&& n.spec_debug_on_break() == self.spec_debug_on_break()
    }

    /// A load of `v` into `t` was queued; nothing else changed.
    pub open spec fn loaded(&self, n: Cpu, t: RegisterIndex, v: u32) -> bool {
        self.chained(n, t, v) && self.same_flow(n) && self.same_units(n)
    }

    /// A store instruction completed: write-back, then the store.
    pub open spec fn store_done(&self, n: Cpu, width: AccessWidth, addr: u32, val: u32, r: Result<(), Fatal>) -> bool {
        &&& r == (match self.store_fault(width, val) {
            Some(f) => Err(f),
            None => Ok(()),
        })
        &&& r is Ok ==> self.retired(n) && self.stored(n, width, addr, val)
    }

    /// Handle a store while the cache is isolated: only the instruction
    /// cache is written. In tag test mode the line of `addr` is
    /// invalidated; otherwise `val` is written as the word of `addr` in
    /// its line.
    pub fn cache_maintenance(&mut self, width: AccessWidth, addr: u32, val: u32) -> (r: Result<(), Fatal>)
        requires
            old(self).wf(),
            old(self).spec_cop0().spec_cache_isolated(),
        ensures
            final(self).wf(),
            r == (match old(self).store_fault(width, val) {
                Some(f) => Err(f),
                None => Ok(()),
            }),
            r is Err ==> *final(self) == *old(self),
            r is Ok ==> old(self).stored(*final(self), width, addr, val),
            final(self).spec_regs() == old(self).spec_regs(),
            final(self).spec_load() == old(self).spec_load(),
    {
        let cc = self.inter.cache_control();
        if !cc.icache_enabled() {
            return Err(Fatal::IsolatedCacheDisabled);
        }
        if width != AccessWidth::Word || val != 0 {
            return Err(Fatal::IsolatedStoreUnsupported(width.size(), val));
        }
        let li = (addr >> 4) & 0xff;
        let index = (addr >> 2) & 3;
        assert(li < 256 && index < 4) by (bit_vector)
            requires
                li == (addr >> 4) & 0xff,
                index == (addr >> 2) & 3,
        ;
        let mut line: ICacheLine = self.icache[li as usize];
        if cc.tag_test_mode() {
            line.invalidate();
        } else {
            line.set_instruction(index, Instruction(val));
        }
        self.icache[li as usize] = line;
        Ok(())
    }

    /// Memory read.
    fn load(&self, width: AccessWidth, addr: u32) -> (r: u32)
        requires
            self.wf(),
        ensures
            r == self.mem(width, addr),
    {
        self.inter.load(width, addr)
    }

    /// Memory write, or cache maintenance while the cache is isolated.
    fn store(&mut self, width: AccessWidth, addr: u32, val: u32) -> (r: Result<(), Fatal>)
        requires
            old(self).wf(),
        ensures
            final(self).wf(),
            r == (match old(self).store_fault(width, val) {
                Some(f) => Err(f),
                None => Ok(()),
            }),
            r is Err ==> *final(self) == *old(self),
            r is Ok ==> old(self).stored(*final(self), width, addr, val),
            final(self).regs == old(self).regs,
            final(self).load == old(self).load,
    {
        if self.cop0.cache_isolated() {
            self.cache_maintenance(width, addr, val)
        } else {
            self.inter.store(width, addr, val);
            Ok(())
        }
    }
}


/// Width of the plain loads and stores by primary opcode: LB, LBU, SB
/// bytes; LH, LHU, SH half-words; LW, SW words.
pub open spec fn width_of(f: u32) -> AccessWidth {
    if f == 0x20 || f == 0x24 || f == 0x28 {
        AccessWidth::Byte
    } else if f == 0x21 || f == 0x25 || f == 0x29 {
        AccessWidth::HalfWord
    } else {
        AccessWidth::Word
    }
}

/// `addr` is a multiple of the access width.
pub open spec fn width_aligned(width: AccessWidth, addr: u32) -> bool {
    addr % (width.spec_size() as u32) == 0
}

fn width_for(f: u32) -> (r: AccessWidth)
    ensures
        r == width_of(f),
{
    if f == 0x20 || f == 0x24 || f == 0x28 {
        AccessWidth::Byte
    } else if f == 0x21 || f == 0x25 || f == 0x29 {
        AccessWidth::HalfWord
    } else {
        AccessWidth::Word
    }
}

impl Cpu {
    /// LB, LH, LW, LBU or LHU ran: the load was queued, or the address
    /// was misaligned and LoadAddressError raised.
    pub open spec fn load_done(&self, n: Cpu, instruction: Instruction) -> bool {
        if width_aligned(width_of(instruction.0 >> 26), self.ea(instruction)) {
        self.loaded(n, instruction.spec_t(), self.load_value(instruction))
        } else {
        self.raised(n, Exception::LoadAddressError)
        }
    }

    /// LWL (`left`) or LWR ran: the merged word was queued for rt.
    pub open spec fn partial_load_done(&self, n: Cpu, instruction: Instruction, left: bool) -> bool {
        self.loaded(
        n,
        instruction.spec_t(),
        self.partial_load_value(instruction, left),
        )
    }

    /// SB, SH or SW ran: the store was made, or the address was
    /// misaligned and StoreAddressError raised.
    pub open spec fn store_op_done(&self, n: Cpu, instruction: Instruction, r: Result<(), Fatal>) -> bool {
        let width = width_of(instruction.0 >> 26);
        let a = self.ea(instruction);
        if width_aligned(width, a) {
            self.store_done(
                n,
                width,
                a,
                self.spec_regs()[instruction.spec_t().0 as int],
                r,
            )
        } else {
            r is Ok && self.raised(n, Exception::StoreAddressError)
        }
    }

    /// SWL (`left`) or SWR ran: the merged word was stored at the aligned
    /// address.
    pub open spec fn partial_store_done(&self, n: Cpu, instruction: Instruction, left: bool, r: Result<(), Fatal>) -> bool {
        self.store_done(
        n,
        AccessWidth::Word,
        aligned(self.ea(instruction)),
        self.partial_store_value(instruction, left),
        r,
        )
    }

    /// LWC2 ran: the word went to GTE data register rt, or the address
    /// was misaligned and LoadAddressError raised.
    pub open spec fn lwc2_done(&self, n: Cpu, instruction: Instruction) -> bool {
        let a = self.ea(instruction);
        if a % 4 == 0 {
            &&& self.retired(n)
            &&& self.same_flow(n)
            &&& n.spec_gte().data@ == self.spec_gte().data@.update(
                instruction.spec_t().0 as int,
                self.mem(AccessWidth::Word, a),
            )
            &&& n.spec_gte().control == self.spec_gte().control
            &&& n.spec_hi() == self.spec_hi()
            &&& n.spec_lo() == self.spec_lo()
            &&& n.spec_icache() == self.spec_icache()
            &&& n.spec_inter() == self.spec_inter()
            &&& n.spec_cop0() == self.spec_cop0()
            &&& n.spec_debug_on_break() == self.spec_debug_on_break()
        } else {
            self.raised(n, Exception::LoadAddressError)
        }
    }

    /// SWC2 ran: GTE data register rt was stored, or the address was
    /// misaligned and LoadAddressError raised.
    pub open spec fn swc2_done(&self, n: Cpu, instruction: Instruction, r: Result<(), Fatal>) -> bool {
        let a = self.ea(instruction);
        if a % 4 == 0 {
            self.store_done(
                n,
                AccessWidth::Word,
                a,
                self.spec_gte().data[instruction.spec_t().0 as int],
                r,
            )
        } else {
            r is Ok && self.raised(n, Exception::LoadAddressError)
        }
    }

    /// The value LB, LH, LW, LBU or LHU puts in rt.
    pub open spec fn load_value(&self, i: Instruction) -> u32 {
        let f = i.0 >> 26;
        let v = self.mem(width_of(f), self.ea(i));
        if f == 0x20 {
            sext8(v)
        } else if f == 0x21 {
            sext16(v)
        } else {
            v
        }
    }

    /// The value of rt that LWL and LWR merge into: the pending load's
    /// when it targets rt, else the register's.
    pub open spec fn merge_base(&self, t: RegisterIndex) -> u32 {
        if self.spec_load().0 == t {
            self.spec_load().1
        } else {
            self.spec_regs()[t.0 as int]
        }
    }

    /// The value LWL (`left`) or LWR puts in rt.
    pub open spec fn partial_load_value(&self, i: Instruction, left: bool) -> u32 {
        let a = self.ea(i);
        let w = self.mem(AccessWidth::Word, aligned(a));
        let cur = self.merge_base(i.spec_t());
        if left {
            lwl_merge(cur, a % 4, w)
        } else {
            lwr_merge(cur, a % 4, w)
        }
    }

    /// The word SWL (`left`) or SWR writes at the aligned address.
    pub open spec fn partial_store_value(&self, i: Instruction, left: bool) -> u32 {
        let a = self.ea(i);
        let m = self.mem(AccessWidth::Word, aligned(a));
        let v = self.spec_regs()[i.spec_t().0 as int];
        if left {
            swl_merge(m, a % 4, v)
        } else {
            swr_merge(m, a % 4, v)
        }
    }

    /// LB, LH, LW, LBU and LHU. A misaligned address raises
    /// LoadAddressError.
    pub(super) fn op_load(&mut self, instruction: Instruction)
        requires
            old(self).wf(),
            ({
                let f = instruction.0 >> 26;
                f == 0x20 || f == 0x21 || f == 0x23 || f == 0x24 || f == 0x25
            }),
        ensures
            final(self).wf(),
            old(self).load_done(*final(self), instruction),
    {
        let f = instruction.function();
        let width = width_for(f);
        let t = instruction.t();
        let addr = self.reg(instruction.s()).wrapping_add(instruction.imm_se());
        if addr % width.size() == 0 {
            let v = self.load(width, addr);
            let v = if f == 0x20 {
                if v & 0x80 != 0 {
                    v | 0xffff_ff00
                } else {
                    v
                }
            } else if f == 0x21 {
                if v & 0x8000 != 0 {
                    v | 0xffff_0000
                } else {
                    v
                }
            } else {
                v
            };
            self.delayed_load_chain(t, v);
        } else {
            self.delayed_load();
            self.exception(Exception::LoadAddressError);
        }
    }

    /// LWL (`left`) and LWR: merge the aligned word into rt, or into the
    /// value still being loaded into rt.
    pub(super) fn op_load_partial(&mut self, instruction: Instruction, left: bool)
        requires
            old(self).wf(),
        ensures
            final(self).wf(),
            old(self).partial_load_done(*final(self), instruction, left),
    {
        let t = instruction.t();
        let addr = self.reg(instruction.s()).wrapping_add(instruction.imm_se());
        let (pending_reg, pending_value) = self.load;
        let cur = if pending_reg == t {
            pending_value
        } else {
            self.reg(t)
        };
        let k = addr % 4;
        let w = self.load(AccessWidth::Word, addr - k);
        let v = if left {
            if k == 0 {
                (cur & 0x00ff_ffff) | (w << 24)
            } else if k == 1 {
                (cur & 0x0000_ffff) | (w << 16)
            } else if k == 2 {
                (cur & 0x0000_00ff) | (w << 8)
            } else {
                w
            }
        } else {
            if k == 0 {
                w
            } else if k == 1 {
                (cur & 0xff00_0000) | (w >> 8)
            } else if k == 2 {
                (cur & 0xffff_0000) | (w >> 16)
            } else {
                (cur & 0xffff_ff00) | (w >> 24)
            }
        };
        self.delayed_load_chain(t, v);
    }

    /// SB, SH and SW. A misaligned address raises StoreAddressError.
    pub(super) fn op_store(&mut self, instruction: Instruction) -> (r: Result<(), Fatal>)
        requires
            old(self).wf(),
        ensures
            final(self).wf(),
            old(self).store_op_done(*final(self), instruction, r),
    {
        let width = width_for(instruction.function());
        let addr = self.reg(instruction.s()).wrapping_add(instruction.imm_se());
        let v = self.reg(instruction.t());
        self.delayed_load();
        if addr % width.size() == 0 {
            self.store(width, addr, v)
        } else {
            self.exception(Exception::StoreAddressError);
            Ok(())
        }
    }

    /// SWL (`left`) and SWR: merge rt into the aligned word and store it.
    pub(super) fn op_store_partial(&mut self, instruction: Instruction, left: bool) -> (r: Result<(), Fatal>)
        requires
            old(self).wf(),
        ensures
            final(self).wf(),
            old(self).partial_store_done(*final(self), instruction, left, r),
    {
        let addr = self.reg(instruction.s()).wrapping_add(instruction.imm_se());
        let v = self.reg(instruction.t());
        let k = addr % 4;
        let aligned_addr = addr - k;
        let cur_mem = self.load(AccessWidth::Word, aligned_addr);
        let mem = if left {
            if k == 0 {
                (cur_mem & 0xffff_ff00) | (v >> 24)
            } else if k == 1 {
                (cur_mem & 0xffff_0000) | (v >> 16)
            } else if k == 2 {
                (cur_mem & 0xff00_0000) | (v >> 8)
            } else {
                v
            }
        } else {
            if k == 0 {
                v
            } else if k == 1 {
                (cur_mem & 0x0000_00ff) | (v << 8)
            } else if k == 2 {
                (cur_mem & 0x0000_ffff) | (v << 16)
            } else {
                (cur_mem & 0x00ff_ffff) | (v << 24)
            }
        };
        self.delayed_load();
        self.store(AccessWidth::Word, aligned_addr, mem)
    }

    /// LWC2: load a word into GTE data register rt. A misaligned address
    /// raises LoadAddressError.
    pub(super) fn op_lwc2(&mut self, instruction: Instruction)
        requires
            old(self).wf(),
        ensures
            final(self).wf(),
            old(self).lwc2_done(*final(self), instruction),
    {
        let cop_r = instruction.t().0;
        let addr = self.reg(instruction.s()).wrapping_add(instruction.imm_se());
        self.delayed_load();
        if addr % 4 == 0 {
            let v = self.load(AccessWidth::Word, addr);
            self.gte.set_data(cop_r, v);
        } else {
            self.exception(Exception::LoadAddressError);
        }
    }

    /// SWC2: store GTE data register rt. A misaligned address raises
    /// LoadAddressError.
    pub(super) fn op_swc2(&mut self, instruction: Instruction) -> (r: Result<(), Fatal>)
        requires
            old(self).wf(),
        ensures
            final(self).wf(),
            old(self).swc2_done(*final(self), instruction, r),
    {
        let cop_r = instruction.t().0;
        let addr = self.reg(instruction.s()).wrapping_add(instruction.imm_se());
        let v = self.gte.data(cop_r);
        self.delayed_load();
        if addr % 4 == 0 {
            self.store(AccessWidth::Word, addr, v)
        } else {
            self.exception(Exception::LoadAddressError);
            Ok(())
        }
    }
}


proof fn lemma_merge_bytes(
    cur: u32,
    b0: u32,
    b1: u32,
    b2: u32,
    b3: u32,
    b4: u32,
    b5: u32,
    b6: u32,
    b7: u32,
)
    by (bit_vector)
    requires
        b0 < 256 && b1 < 256 && b2 < 256 && b3 < 256 && b4 < 256 && b5 < 256 && b6 < 256 && b7
            < 256,
    ensures
        lwr_merge(
            lwl_merge(cur, 3, b0 | (b1 << 8) | (b2 << 16) | (b3 << 24)),
            0,
            b0 | (b1 << 8) | (b2 << 16) | (b3 << 24),
        ) == b0 | (b1 << 8) | (b2 << 16) | (b3 << 24),
        lwr_merge(
            lwl_merge(cur, 0, b4 | (b5 << 8) | (b6 << 16) | (b7 << 24)),
            1,
            b0 | (b1 << 8) | (b2 << 16) | (b3 << 24),
        ) == b1 | (b2 << 8) | (b3 << 16) | (b4 << 24),
        lwr_merge(
            lwl_merge(cur, 1, b4 | (b5 << 8) | (b6 << 16) | (b7 << 24)),
            2,
            b0 | (b1 << 8) | (b2 << 16) | (b3 << 24),
        ) == b2 | (b3 << 8) | (b4 << 16) | (b5 << 24),
        lwr_merge(
            lwl_merge(cur, 2, b4 | (b5 << 8) | (b6 << 16) | (b7 << 24)),
            3,
            b0 | (b1 << 8) | (b2 << 16) | (b3 << 24),
        ) == b3 | (b4 << 8) | (b5 << 16) | (b6 << 24),
{
}

/// LWL at `x + 3` followed by LWR at `x`, the second merging into the
/// value the first queued, leave in the register the little-endian word
/// of the four bytes at `x`, whatever the register held and whatever the
/// alignment of `x`.
pub proof fn lemma_unaligned_word(bus: Interconnect, x: u32, cur: u32)
    requires
        bus.wf(),
        in_ram(physical(x), 4),
    ensures
        ({
            let a = (x + 3) as u32;
            let after_lwl = lwl_merge(cur, a % 4, bus.load_spec(AccessWidth::Word, aligned(a)));
            let after_lwr = lwr_merge(after_lwl, x % 4, bus.load_spec(AccessWidth::Word, aligned(x)));
            after_lwr == bus.load_spec(AccessWidth::Byte, x) | (bus.load_spec(
                AccessWidth::Byte,
                (x + 1) as u32,
            ) << 8) | (bus.load_spec(AccessWidth::Byte, (x + 2) as u32) << 16) | (bus.load_spec(
                AccessWidth::Byte,
                (x + 3) as u32,
            ) << 24)
        }),
{
    let p = physical(x);
    let k = x % 4;
    let base = (x - k) as u32;
    let m = bus.ram();
    assert(physical(base) == p - k);
    assert(physical((base + 4) as u32) == p - k + 4);
    assert(physical((x + 1) as u32) == p + 1);
    assert(physical((x + 2) as u32) == p + 2);
    assert(physical((x + 3) as u32) == p + 3);
    assert((p - k) % 4 == 0);
    let q = (p - k) as int;
    assert(q + 8 <= crate::memory::RAM_SIZE || k == 0);
    let b0 = m[q] as u32;
    let b1 = m[q + 1] as u32;
    let b2 = m[q + 2] as u32;
    let b3 = m[q + 3] as u32;
    if k == 0 {
        lemma_merge_bytes(cur, b0, b1, b2, b3, 0, 0, 0, 0);
        assert(aligned((x + 3) as u32) == x);
    } else {
        assert(aligned((x + 3) as u32) == base + 4);
        let b4 = m[q + 4] as u32;
        let b5 = m[q + 5] as u32;
        let b6 = m[q + 6] as u32;
        let b7 = m[q + 7] as u32;
        lemma_merge_bytes(cur, b0, b1, b2, b3, b4, b5, b6, b7);
        assert(bus.load_spec(AccessWidth::Word, (base + 4) as u32) == b4 | (b5 << 8) | (b6 << 16) | (b7 << 24));
    }
}


/// The same with the LWR address written `a ^ 3`, `a` the LWL address:
/// the two agree when `a` is the last byte of its word, the one case in
/// which the pair reads the word that starts at `a ^ 3`.
pub proof fn lemma_unaligned_word_xor(bus: Interconnect, a: u32, cur: u32)
    requires
        bus.wf(),
        a % 4 == 3,
        in_ram(physical((a - 3) as u32), 4),
    ensures
        ({
            let x = a ^ 3;
            let after_lwl = lwl_merge(cur, a % 4, bus.load_spec(AccessWidth::Word, aligned(a)));
            let after_lwr = lwr_merge(after_lwl, x % 4, bus.load_spec(AccessWidth::Word, aligned(x)));
            after_lwr == bus.load_spec(AccessWidth::Byte, x) | (bus.load_spec(
                AccessWidth::Byte,
                (x + 1) as u32,
            ) << 8) | (bus.load_spec(AccessWidth::Byte, (x + 2) as u32) << 16) | (bus.load_spec(
                AccessWidth::Byte,
                (x + 3) as u32,
            ) << 24)
        }),
{
    assert(a ^ 3 == a - 3) by (bit_vector)
        requires
            a % 4 == 3,
    ;
    lemma_unaligned_word(bus, (a - 3) as u32, cur);
}

} // verus!
