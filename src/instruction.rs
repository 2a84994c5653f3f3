use vstd::prelude::*;

verus! {

/// Index of a general purpose register, always in `0..32`.
#[derive(Clone, Copy, Debug, PartialEq, Eq, Structural)]
pub struct RegisterIndex(pub u32);

impl RegisterIndex {
    pub open spec fn wf(self) -> bool {
        self.0 < 32
    }

    pub open spec fn spec_index(self) -> int {
        self.0 as int
    }
}

/// A raw 32-bit MIPS opcode with accessors for its fields.
#[derive(Clone, Copy, Debug, PartialEq, Eq, Structural)]
pub struct Instruction(pub u32);

/// Facts about the field extractions that the decoder relies on.
pub proof fn lemma_field_bounds(op: u32)
    by (bit_vector)
    ensures
        op >> 26 < 64,
        op & 0x3f < 64,
        (op >> 21) & 0x1f < 32,
        (op >> 16) & 0x1f < 32,
        (op >> 11) & 0x1f < 32,
        (op >> 6) & 0x1f < 32,
        op & 0xffff < 0x10000,
        op & 0x3ff_ffff < 0x400_0000,
{
}

/// The sign extension of the low 16 bits of `op` to 32 bits.
pub open spec fn sign_extend_16(op: u32) -> u32 {
    if op & 0x8000 == 0 {
        op & 0xffff
    } else {
        (op & 0xffff) | 0xffff_0000
    }
}

impl Instruction {
    /// Bits [31:26]: the primary opcode.
    pub fn function(self) -> (r: u32)
        ensures
            r == self.0 >> 26,
            r < 64,
    {
        proof {
            lemma_field_bounds(self.0);
        }
        self.0 >> 26
    }

    /// Bits [5:0]: the secondary opcode of SPECIAL instructions.
    pub fn subfunction(self) -> (r: u32)
        ensures
            r == self.0 & 0x3f,
            r < 64,
    {
        proof {
            lemma_field_bounds(self.0);
        }
        self.0 & 0x3f
    }

    /// Bits [25:21]: the coprocessor opcode.
    pub fn cop_opcode(self) -> (r: u32)
        ensures
            r == (self.0 >> 21) & 0x1f,
            r < 32,
    {
        proof {
            lemma_field_bounds(self.0);
        }
        (self.0 >> 21) & 0x1f
    }

    pub open spec fn spec_s(self) -> RegisterIndex {
        RegisterIndex((self.0 >> 21) & 0x1f)
    }

    pub open spec fn spec_t(self) -> RegisterIndex {
        RegisterIndex((self.0 >> 16) & 0x1f)
    }

    pub open spec fn spec_d(self) -> RegisterIndex {
        RegisterIndex((self.0 >> 11) & 0x1f)
    }

    pub open spec fn spec_imm_se(self) -> u32 {
        sign_extend_16(self.0)
    }

    /// Register index in bits [25:21].
    pub fn s(self) -> (r: RegisterIndex)
        ensures
            r == self.spec_s(),
            r.wf(),
    {
        proof {
            lemma_field_bounds(self.0);
        }
        RegisterIndex((self.0 >> 21) & 0x1f)
    }

    /// Register index in bits [20:16].
    pub fn t(self) -> (r: RegisterIndex)
        ensures
            r == self.spec_t(),
            r.wf(),
    {
        proof {
            lemma_field_bounds(self.0);
        }
        RegisterIndex((self.0 >> 16) & 0x1f)
    }

    /// Register index in bits [15:11].
    pub fn d(self) -> (r: RegisterIndex)
        ensures
            r == self.spec_d(),
            r.wf(),
    {
        proof {
            lemma_field_bounds(self.0);
        }
        RegisterIndex((self.0 >> 11) & 0x1f)
    }

    /// Immediate value in bits [15:0].
    pub fn imm(self) -> (r: u32)
        ensures
            r == self.0 & 0xffff,
            r < 0x10000,
    {
        proof {
            lemma_field_bounds(self.0);
        }
        self.0 & 0xffff
    }

    /// Immediate value in bits [15:0], sign-extended to 32 bits.
    pub fn imm_se(self) -> (r: u32)
        ensures
            r == self.spec_imm_se(),
    {
        let v = self.0 & 0xffff;
        if self.0 & 0x8000 == 0 {
            v
        } else {
            v | 0xffff_0000
        }
    }

    /// Shift amount in bits [10:6].
    pub fn shift(self) -> (r: u32)
        ensures
            r == (self.0 >> 6) & 0x1f,
            r < 32,
    {
        proof {
            lemma_field_bounds(self.0);
        }
        (self.0 >> 6) & 0x1f
    }

    /// Jump target in bits [25:0].
    pub fn imm_jump(self) -> (r: u32)
        ensures
            r == self.0 & 0x3ff_ffff,
            r < 0x400_0000,
    {
        proof {
            lemma_field_bounds(self.0);
        }
        self.0 & 0x3ff_ffff
    }

    /// True for coprocessor 2 (GTE) opcodes.
    pub fn is_gte_op(self) -> (r: bool)
        ensures
            r == (self.0 >> 26 == 0b010010),
    {
        self.function() == 0b010010
    }

}

} // verus!
