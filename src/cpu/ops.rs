use vstd::prelude::*;

use super::{Cpu, reg_write, no_load};
use crate::cop0::Exception;
use crate::instruction::{Instruction, RegisterIndex};

verus! {

/// `v` as a 32-bit two's complement integer.
pub open spec fn signed(v: u32) -> int {
    if v < 0x8000_0000 {
        v as int
    } else {
        v - 0x1_0000_0000
    }
}

/// Arithmetic right shift.
pub open spec fn sra(v: u32, sh: u32) -> u32 {
    ((v as i32) >> sh) as u32
}

/// `a + b` overflows as a signed 32-bit addition.
pub open spec fn add_overflows(a: u32, b: u32) -> bool {
    signed(a) + signed(b) > i32::MAX || signed(a) + signed(b) < i32::MIN
}

/// `a - b` overflows as a signed 32-bit subtraction.
pub open spec fn sub_overflows(a: u32, b: u32) -> bool {
    signed(a) - signed(b) > i32::MAX || signed(a) - signed(b) < i32::MIN
}

proof fn lemma_signed_cast(a: u32)
    ensures
        (a as i32) as int == signed(a),
{
    assert((a as i32) as int == signed(a)) by (bit_vector);
}

impl Cpu {
    /// Result of the SPECIAL register-to-register operations that only
    /// compute a value for rd, from the registers before write-back.
    pub open spec fn special_value(&self, i: Instruction) -> u32 {
        let s = self.spec_regs()[i.spec_s().0 as int];
        let t = self.spec_regs()[i.spec_t().0 as int];
        let sh = (i.0 >> 6) & 0x1f;
        let f = i.0 & 0x3f;
        if f == 0x00 {
            t << sh
        } else if f == 0x02 {
            t >> sh
        } else if f == 0x03 {
            sra(t, sh)
        } else if f == 0x04 {
            t << (s & 0x1f)
        } else if f == 0x06 {
            t >> (s & 0x1f)
        } else if f == 0x07 {
            sra(t, s & 0x1f)
        } else if f == 0x21 {
            s.wrapping_add(t)
        } else if f == 0x23 {
            s.wrapping_sub(t)
        } else if f == 0x24 {
            s & t
        } else if f == 0x25 {
            s | t
        } else if f == 0x26 {
            s ^ t
        } else if f == 0x27 {
            !(s | t)
        } else if f == 0x2a {
            if signed(s) < signed(t) {
                1
            } else {
                0
            }
        } else {
            if s < t {
                1
            } else {
                0
            }
        }
    }

    /// Result of the immediate operations ADDIU, SLTI, SLTIU, ANDI, ORI,
    /// XORI and LUI, for rt.
    pub open spec fn imm_value(&self, i: Instruction) -> u32 {
        let s = self.spec_regs()[i.spec_s().0 as int];
        let se = i.spec_imm_se();
        let imm = i.0 & 0xffff;
        let f = i.0 >> 26;
        if f == 0x09 {
            s.wrapping_add(se)
        } else if f == 0x0a {
            if signed(s) < signed(se) {
                1
            } else {
                0
            }
        } else if f == 0x0b {
            if s < se {
                1
            } else {
                0
            }
        } else if f == 0x0c {
            s & imm
        } else if f == 0x0d {
            s | imm
        } else if f == 0x0e {
            s ^ imm
        } else {
            imm << 16
        }
    }

    /// SLL, SRL, SRA, SLLV, SRLV, SRAV, ADDU, SUBU, AND, OR, XOR, NOR,
    /// SLT and SLTU: rd takes the computed value.
    pub(super) fn op_special_alu(&mut self, instruction: Instruction)
        requires
            old(self).wf(),
        ensures
            final(self).wf(),
            old(self).alu(*final(self), instruction.spec_d(), old(self).special_value(instruction)),
    {
        let s = self.reg(instruction.s());
        let t = self.reg(instruction.t());
        let sh = instruction.shift();
        let d = instruction.d();
        let f = instruction.subfunction();
        let amt = s & 0x1f;
        assert(amt < 32) by (bit_vector)
            requires
                amt == s & 0x1f,
        ;
        let v = if f == 0x00 {
            t << sh
        } else if f == 0x02 {
            t >> sh
        } else if f == 0x03 {
            #[verifier::truncate] (((t as i32) >> sh) as u32)
        } else if f == 0x04 {
            t << amt
        } else if f == 0x06 {
            t >> amt
        } else if f == 0x07 {
            #[verifier::truncate] (((t as i32) >> amt) as u32)
        } else if f == 0x21 {
            s.wrapping_add(t)
        } else if f == 0x23 {
            s.wrapping_sub(t)
        } else if f == 0x24 {
            s & t
        } else if f == 0x25 {
            s | t
        } else if f == 0x26 {
            s ^ t
        } else if f == 0x27 {
            !(s | t)
        } else if f == 0x2a {
            proof {
                lemma_signed_cast(s);
                lemma_signed_cast(t);
            }
            if (s as i32) < (t as i32) {
                1
            } else {
                0
            }
        } else {
            if s < t {
                1
            } else {
                0
            }
        };
        self.delayed_load();
        self.set_reg(d, v);
    }

    /// ADDIU, SLTI, SLTIU, ANDI, ORI, XORI and LUI: rt takes the computed
    /// value.
    pub(super) fn op_imm_alu(&mut self, instruction: Instruction)
        requires
            old(self).wf(),
        ensures
            final(self).wf(),
            old(self).alu(*final(self), instruction.spec_t(), old(self).imm_value(instruction)),
    {
        let s = self.reg(instruction.s());
        let se = instruction.imm_se();
        let imm = instruction.imm();
        let t = instruction.t();
        let f = instruction.function();
        let v = if f == 0x09 {
            s.wrapping_add(se)
        } else if f == 0x0a {
            proof {
                lemma_signed_cast(s);
                lemma_signed_cast(se);
            }
            if (s as i32) < (se as i32) {
                1
            } else {
                0
            }
        } else if f == 0x0b {
            if s < se {
                1
            } else {
                0
            }
        } else if f == 0x0c {
            s & imm
        } else if f == 0x0d {
            s | imm
        } else if f == 0x0e {
            s ^ imm
        } else {
            imm << 16
        };
        self.delayed_load();
        self.set_reg(t, v);
    }
}


/// Two's complement negation.
pub open spec fn neg(x: u32) -> u32 {
    if x == 0 {
        0
    } else {
        (0x1_0000_0000 - x) as u32
    }
}

/// `x` read as signed is negative.
pub open spec fn is_neg(x: u32) -> bool {
    x >= 0x8000_0000
}

/// Absolute value of `x` read as signed; 0x8000_0000 stays itself.
pub open spec fn magnitude(x: u32) -> u32 {
    if is_neg(x) {
        neg(x)
    } else {
        x
    }
}

/// (HI, LO) after DIV of `n` by `d`: the truncated quotient in LO and
/// the remainder, with the sign of `n`, in HI. Division by zero and the
/// one overflowing case give fixed results.
pub open spec fn div_result(n: u32, d: u32) -> (u32, u32) {
    if d == 0 {
        (n, if is_neg(n) { 1 } else { 0xffff_ffff })
    } else if n == 0x8000_0000 && d == 0xffff_ffff {
        (0, 0x8000_0000)
    } else {
        let q = magnitude(n) / magnitude(d);
        let r = magnitude(n) % magnitude(d);
        (if is_neg(n) { neg(r) } else { r }, if is_neg(n) != is_neg(d) { neg(q) } else { q })
    }
}

/// (HI, LO) after DIVU of `n` by `d`.
pub open spec fn divu_result(n: u32, d: u32) -> (u32, u32) {
    if d == 0 {
        (n, 0xffff_ffff)
    } else {
        ((n % d) as u32, (n / d) as u32)
    }
}

/// The 64-bit product of `a` and `b` read as signed.
pub open spec fn mult_bits(a: u32, b: u32) -> u64 {
    (((a as i32) as i64) * ((b as i32) as i64)) as u64
}

/// (HI, LO) after MULTU.
pub open spec fn multu_result(a: u32, b: u32) -> (u32, u32) {
    (((a * b) / 0x1_0000_0000) as u32, ((a * b) % 0x1_0000_0000) as u32)
}

fn negate(x: u32) -> (r: u32)
    ensures
        r == neg(x),
{
    0u32.wrapping_sub(x)
}

proof fn lemma_u64_halves(v: u64)
    by (bit_vector)
    ensures
        (v >> 32) as u32 == v / 0x1_0000_0000,
        v as u32 == v % 0x1_0000_0000,
{
}

impl Cpu {
    /// HI and LO were set; the pending load was written back.
    pub open spec fn set_hilo(&self, n: Cpu, hi: u32, lo: u32) -> bool {
        &&& self.retired(n)
        &&& self.same_flow(n)
        &&& n.spec_hi() == hi
        &&& n.spec_lo() == lo
        &&& n.spec_icache() == self.spec_icache()
        &&& n.spec_inter() == self.spec_inter()
        &&& n.spec_cop0() == self.spec_cop0()
        &&& n.spec_gte() == self.spec_gte()
        &&& n.spec_debug_on_break() == self.spec_debug_on_break()
    }

    /// MFHI
    pub(super) fn op_mfhi(&mut self, instruction: Instruction)
        requires
            old(self).wf(),
        ensures
            final(self).wf(),
            old(self).alu(*final(self), instruction.spec_d(), old(self).spec_hi()),
    {
        let d = instruction.d();
        let hi = self.hi;
        self.delayed_load();
        self.set_reg(d, hi);
    }

    /// MFLO
    pub(super) fn op_mflo(&mut self, instruction: Instruction)
        requires
            old(self).wf(),
        ensures
            final(self).wf(),
            old(self).alu(*final(self), instruction.spec_d(), old(self).spec_lo()),
    {
        let d = instruction.d();
        let lo = self.lo;
        self.delayed_load();
        self.set_reg(d, lo);
    }

    /// MTHI
    pub(super) fn op_mthi(&mut self, instruction: Instruction)
        requires
            old(self).wf(),
        ensures
            final(self).wf(),
            old(self).set_hilo(
                *final(self),
                old(self).spec_regs()[instruction.spec_s().0 as int],
                old(self).spec_lo(),
            ),
    {
        self.hi = self.reg(instruction.s());
        self.delayed_load();
    }

    /// MTLO
    pub(super) fn op_mtlo(&mut self, instruction: Instruction)
        requires
            old(self).wf(),
        ensures
            final(self).wf(),
            old(self).set_hilo(
                *final(self),
                old(self).spec_hi(),
                old(self).spec_regs()[instruction.spec_s().0 as int],
            ),
    {
        self.lo = self.reg(instruction.s());
        self.delayed_load();
    }

    /// MULT: the signed 64-bit product in HI:LO.
    pub(super) fn op_mult(&mut self, instruction: Instruction)
        requires
            old(self).wf(),
        ensures
            final(self).wf(),
            ({
                let v = mult_bits(
                    old(self).spec_regs()[instruction.spec_s().0 as int],
                    old(self).spec_regs()[instruction.spec_t().0 as int],
                );
                old(self).set_hilo(*final(self), (v >> 32) as u32, v as u32)
            }),
    {
        let s = self.reg(instruction.s());
        let t = self.reg(instruction.t());
        proof {
            lemma_signed_cast(s);
            lemma_signed_cast(t);
        }
        let a = (s as i32) as i64;
        let b = (t as i32) as i64;
        assert(-0x8000_0000 <= a <= 0x7fff_ffff && -0x8000_0000 <= b <= 0x7fff_ffff);
        assert(-0x4000_0000_0000_0000 <= a * b <= 0x4000_0000_0000_0000) by (nonlinear_arith)
            requires
                -0x8000_0000 <= a <= 0x7fff_ffff && -0x8000_0000 <= b <= 0x7fff_ffff,
        ;
        self.delayed_load();
        let v = #[verifier::truncate] ((a * b) as u64);
        self.hi = #[verifier::truncate] ((v >> 32) as u32);
        self.lo = #[verifier::truncate] (v as u32);
    }

    /// MULTU: the unsigned 64-bit product in HI:LO.
    pub(super) fn op_multu(&mut self, instruction: Instruction)
        requires
            old(self).wf(),
        ensures
            final(self).wf(),
            ({
                let r = multu_result(
                    old(self).spec_regs()[instruction.spec_s().0 as int],
                    old(self).spec_regs()[instruction.spec_t().0 as int],
                );
                old(self).set_hilo(*final(self), r.0, r.1)
            }),
    {
        let a = self.reg(instruction.s()) as u64;
        let b = self.reg(instruction.t()) as u64;
        assert(a * b <= 0xffff_fffe_0000_0001) by (nonlinear_arith)
            requires
                a <= 0xffff_ffff && b <= 0xffff_ffff,
        ;
        self.delayed_load();
        let v = a * b;
        proof {
            lemma_u64_halves(v);
        }
        self.hi = (v >> 32) as u32;
        self.lo = #[verifier::truncate] (v as u32);
    }

    /// DIV: signed division; never faults.
    pub(super) fn op_div(&mut self, instruction: Instruction)
        requires
            old(self).wf(),
        ensures
            final(self).wf(),
            ({
                let r = div_result(
                    old(self).spec_regs()[instruction.spec_s().0 as int],
                    old(self).spec_regs()[instruction.spec_t().0 as int],
                );
                old(self).set_hilo(*final(self), r.0, r.1)
            }),
    {
        let n = self.reg(instruction.s());
        let d = self.reg(instruction.t());
        self.delayed_load();
        if d == 0 {
            self.hi = n;
            self.lo = if n < 0x8000_0000 {
                0xffff_ffff
            } else {
                1
            };
        } else if n == 0x8000_0000 && d == 0xffff_ffff {
            self.hi = 0;
            self.lo = 0x8000_0000;
        } else {
            let n_neg = n >= 0x8000_0000;
            let d_neg = d >= 0x8000_0000;
            let nm = if n_neg {
                negate(n)
            } else {
                n
            };
            let dm = if d_neg {
                negate(d)
            } else {
                d
            };
            let q = nm / dm;
            let r = nm % dm;
            self.hi = if n_neg {
                negate(r)
            } else {
                r
            };
            self.lo = if n_neg != d_neg {
                negate(q)
            } else {
                q
            };
        }
    }

    /// DIVU: unsigned division; never faults.
    pub(super) fn op_divu(&mut self, instruction: Instruction)
        requires
            old(self).wf(),
        ensures
            final(self).wf(),
            ({
                let r = divu_result(
                    old(self).spec_regs()[instruction.spec_s().0 as int],
                    old(self).spec_regs()[instruction.spec_t().0 as int],
                );
                old(self).set_hilo(*final(self), r.0, r.1)
            }),
    {
        let n = self.reg(instruction.s());
        let d = self.reg(instruction.t());
        self.delayed_load();
        if d == 0 {
            self.hi = n;
            self.lo = 0xffff_ffff;
        } else {
            self.hi = n % d;
            self.lo = n / d;
        }
    }

    /// ADD: rd takes rs + rt unless the signed addition overflows, which
    /// raises Overflow and leaves rd alone.
    pub(super) fn op_add(&mut self, instruction: Instruction)
        requires
            old(self).wf(),
        ensures
            final(self).wf(),
            ({
                let a = old(self).spec_regs()[instruction.spec_s().0 as int];
                let b = old(self).spec_regs()[instruction.spec_t().0 as int];
                if add_overflows(a, b) {
                    old(self).raised(*final(self), Exception::Overflow)
                } else {
                    old(self).alu(*final(self), instruction.spec_d(), a.wrapping_add(b))
                }
            }),
    {
        let a = self.reg(instruction.s());
        let b = self.reg(instruction.t());
        let d = instruction.d();
        self.delayed_load();
        if overflows_add(a, b) {
            self.exception(Exception::Overflow);
        } else {
            self.set_reg(d, a.wrapping_add(b));
        }
    }

    /// SUB: rd takes rs - rt unless the signed subtraction overflows,
    /// which raises Overflow and leaves rd alone.
    pub(super) fn op_sub(&mut self, instruction: Instruction)
        requires
            old(self).wf(),
        ensures
            final(self).wf(),
            ({
                let a = old(self).spec_regs()[instruction.spec_s().0 as int];
                let b = old(self).spec_regs()[instruction.spec_t().0 as int];
                if sub_overflows(a, b) {
                    old(self).raised(*final(self), Exception::Overflow)
                } else {
                    old(self).alu(*final(self), instruction.spec_d(), a.wrapping_sub(b))
                }
            }),
    {
        let a = self.reg(instruction.s());
        let b = self.reg(instruction.t());
        let d = instruction.d();
        self.delayed_load();
        if overflows_sub(a, b) {
            self.exception(Exception::Overflow);
        } else {
            self.set_reg(d, a.wrapping_sub(b));
        }
    }

    /// ADDI: rt takes rs + the sign-extended immediate unless the signed
    /// addition overflows, which raises Overflow and leaves rt alone.
    pub(super) fn op_addi(&mut self, instruction: Instruction)
        requires
            old(self).wf(),
        ensures
            final(self).wf(),
            ({
                let a = old(self).spec_regs()[instruction.spec_s().0 as int];
                let b = instruction.spec_imm_se();
                if add_overflows(a, b) {
                    old(self).raised(*final(self), Exception::Overflow)
                } else {
                    old(self).alu(*final(self), instruction.spec_t(), a.wrapping_add(b))
                }
            }),
    {
        let a = self.reg(instruction.s());
        let b = instruction.imm_se();
        let t = instruction.t();
        self.delayed_load();
        if overflows_add(a, b) {
            self.exception(Exception::Overflow);
        } else {
            self.set_reg(t, a.wrapping_add(b));
        }
    }
}

/// Signed overflow of `a + b`, decided with a checked addition.
fn overflows_add(a: u32, b: u32) -> (r: bool)
    ensures
        r == add_overflows(a, b),
{
    proof {
        lemma_signed_cast(a);
        lemma_signed_cast(b);
    }
    (a as i32).checked_add(b as i32).is_none()
}

/// Signed overflow of `a - b`, decided with a checked subtraction.
fn overflows_sub(a: u32, b: u32) -> (r: bool)
    ensures
        r == sub_overflows(a, b),
{
    proof {
        lemma_signed_cast(a);
        lemma_signed_cast(b);
    }
    (a as i32).checked_sub(b as i32).is_none()
}


impl Cpu {
    /// A branch or jump: the pending load was written back, the link
    /// register (if any) took the address after the delay slot, and when
    /// `taken` the next PC is `target` and the next instruction is in the
    /// delay slot.
    pub open spec fn flowed(&self, n: Cpu, taken: bool, target: u32, link: Option<RegisterIndex>) -> bool {
        &&& n.spec_regs() == (match link {
            Some(r) => reg_write(self.committed(), r, self.spec_next_pc()),
            None => self.committed(),
        })
        &&& n.spec_load() == no_load()
        &&& n.spec_pc() == self.spec_pc()
        &&& n.spec_next_pc() == (if taken {
            target
        } else {
            self.spec_next_pc()
        })
        &&& n.spec_branch() == (taken || self.spec_branch())
        &&& n.spec_current_pc() == self.spec_current_pc()
        &&& n.spec_delay_slot() == self.spec_delay_slot()
        &&& self.same_units(n)
    }

    /// Target of a taken conditional branch.
    pub open spec fn branch_target(&self, i: Instruction) -> u32 {
        self.spec_pc().wrapping_add(i.spec_imm_se() << 2)
    }

    /// Whether BEQ, BNE, BLEZ or BGTZ is taken.
    pub open spec fn cond_taken(&self, i: Instruction) -> bool {
        let s = self.spec_regs()[i.spec_s().0 as int];
        let t = self.spec_regs()[i.spec_t().0 as int];
        let f = i.0 >> 26;
        if f == 0x04 {
            s == t
        } else if f == 0x05 {
            s != t
        } else if f == 0x06 {
            signed(s) <= 0
        } else {
            signed(s) > 0
        }
    }

    /// Whether BLTZ, BGEZ, BLTZAL or BGEZAL is taken: rs < 0, negated
    /// by bit 16.
    pub open spec fn bxx_taken(&self, i: Instruction) -> bool {
        (signed(self.spec_regs()[i.spec_s().0 as int]) < 0) != ((i.0 >> 16) & 1 == 1)
    }

    /// BLTZAL and BGEZAL link: bits [20:17] are 0b1000.
    pub open spec fn bxx_links(i: Instruction) -> bool {
        (i.0 >> 17) & 0xf == 8
    }

    /// BEQ, BNE, BLEZ and BGTZ.
    pub(super) fn op_branch_cond(&mut self, instruction: Instruction)
        requires
            old(self).wf(),
        ensures
            final(self).wf(),
            old(self).flowed(
                *final(self),
                old(self).cond_taken(instruction),
                old(self).branch_target(instruction),
                None,
            ),
    {
        let i = instruction.imm_se();
        let s = self.reg(instruction.s());
        let t = self.reg(instruction.t());
        let f = instruction.function();
        proof {
            lemma_signed_cast(s);
        }
        let taken = if f == 0x04 {
            s == t
        } else if f == 0x05 {
            s != t
        } else if f == 0x06 {
            (s as i32) <= 0
        } else {
            (s as i32) > 0
        };
        if taken {
            self.branch(i);
        }
        self.delayed_load();
    }

    /// BLTZ, BGEZ, BLTZAL and BGEZAL. Linking happens whether or not the
    /// branch is taken.
    pub(super) fn op_bxx(&mut self, instruction: Instruction)
        requires
            old(self).wf(),
        ensures
            final(self).wf(),
            old(self).flowed(
                *final(self),
                old(self).bxx_taken(instruction),
                old(self).branch_target(instruction),
                if Cpu::bxx_links(instruction) {
                    Some(RegisterIndex(31))
                } else {
                    None
                },
            ),
    {
        let i = instruction.imm_se();
        let s = instruction.s();
        let op = instruction.0;
        let is_bgez = (op >> 16) & 1;
        let is_link = (op >> 17) & 0xf == 0x8;
        let v = self.reg(s);
        proof {
            lemma_signed_cast(v);
        }
        let test = ((v as i32) < 0) != (is_bgez == 1);
        self.delayed_load();
        if is_link {
            let ra = self.next_pc;
            self.set_reg(RegisterIndex(31), ra);
        }
        if test {
            self.branch(i);
        }
    }

    /// Target of J and JAL: the 256 MiB region of the PC.
    pub open spec fn jump_target(&self, i: Instruction) -> u32 {
        (self.spec_pc() & 0xf000_0000) | ((i.0 & 0x3ff_ffff) << 2)
    }

    /// J
    pub(super) fn op_j(&mut self, instruction: Instruction)
        requires
            old(self).wf(),
        ensures
            final(self).wf(),
            old(self).flowed(*final(self), true, old(self).jump_target(instruction), None),
    {
        let i = instruction.imm_jump();
        self.next_pc = (self.pc & 0xf000_0000) | (i << 2);
        self.branch = true;
        self.delayed_load();
    }

    /// JAL: J, with the return address in r31.
    pub(super) fn op_jal(&mut self, instruction: Instruction)
        requires
            old(self).wf(),
        ensures
            final(self).wf(),
            old(self).flowed(
                *final(self),
                true,
                old(self).jump_target(instruction),
                Some(RegisterIndex(31)),
            ),
    {
        let ra = self.next_pc;
        self.op_j(instruction);
        self.set_reg(RegisterIndex(31), ra);
        self.branch = true;
    }

    /// JR
    pub(super) fn op_jr(&mut self, instruction: Instruction)
        requires
            old(self).wf(),
        ensures
            final(self).wf(),
            old(self).flowed(
                *final(self),
                true,
                old(self).spec_regs()[instruction.spec_s().0 as int],
                None,
            ),
    {
        self.next_pc = self.reg(instruction.s());
        self.delayed_load();
        self.branch = true;
    }

    /// JALR: JR, with the return address in rd.
    pub(super) fn op_jalr(&mut self, instruction: Instruction)
        requires
            old(self).wf(),
        ensures
            final(self).wf(),
            old(self).flowed(
                *final(self),
                true,
                old(self).spec_regs()[instruction.spec_s().0 as int],
                Some(instruction.spec_d()),
            ),
    {
        let d = instruction.d();
        let ra = self.next_pc;
        self.next_pc = self.reg(instruction.s());
        self.delayed_load();
        self.set_reg(d, ra);
        self.branch = true;
    }

    /// Write back the pending load, then raise `cause`: SYSCALL, illegal
    /// opcodes and the coprocessors the console lacks.
    pub(super) fn op_raise(&mut self, cause: Exception)
        requires
            old(self).wf(),
        ensures
            final(self).wf(),
            old(self).raised(*final(self), cause),
    {
        self.delayed_load();
        self.exception(cause);
    }

    /// BREAK: to the debugger when `debug_on_break` is set (the result is
    /// then true), else the Break exception.
    pub(super) fn op_break(&mut self) -> (r: bool)
        requires
            old(self).wf(),
        ensures
            final(self).wf(),
            r == old(self).spec_debug_on_break(),
            r ==> old(self).retired(*final(self)) && old(self).same_flow(*final(self))
                && old(self).same_units(*final(self)),
            !r ==> old(self).raised(*final(self), Exception::Break),
    {
        self.delayed_load();
        if self.debug_on_break {
            true
        } else {
            self.exception(Exception::Break);
            false
        }
    }
}

} // verus!
