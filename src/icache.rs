use vstd::prelude::*;

use crate::instruction::Instruction;

verus! {

/// Number of lines in the instruction cache.
pub const ICACHE_LINES: usize = 256;

/// One line of the direct-mapped instruction cache: a tag with the index
/// of the first valid word, and four instruction words.
#[derive(Clone, Copy, Debug)]
pub struct ICacheLine {
    /// Bits [30:12]: tag. Bits [4:2]: index of the first valid word.
    pub tag_valid: u32,
    pub line: [Instruction; 4],
}

/// Tag and first-valid-index bookkeeping.
pub proof fn lemma_tag_valid(pc: u32, tv: u32)
    by (bit_vector)
    ensures
        (pc & 0x7fff_f00c) & 0xffff_f000 == pc & 0x7fff_f000,
        ((pc & 0x7fff_f00c) >> 2) & 7 == (pc >> 2) & 3,
        ((tv | 0x10) >> 2) & 7 >= 4,
        (tv | 0x10) & 0xffff_f000 == tv & 0xffff_f000,
        (pc >> 2) & 3 < 4,
        (tv >> 2) & 7 < 8,
{
}

impl ICacheLine {
    /// True when the word at `index` holds a cached instruction.
    pub open spec fn spec_valid(self, index: u32) -> bool {
        (self.tag_valid >> 2) & 7 <= index && index <= 3
    }

    /// An empty line: tag 0, every word valid and zero.
    pub fn new() -> (r: ICacheLine)
        ensures
            r.tag_valid == 0,
            forall|i: int| 0 <= i < 4 ==> r.line[i] == Instruction(0),
    {
        ICacheLine { tag_valid: 0, line: [Instruction(0); 4] }
    }

    /// The line's tag.
    pub fn tag(&self) -> (r: u32)
        ensures
            r == self.tag_valid & 0xffff_f000,
    {
        self.tag_valid & 0xffff_f000
    }

    /// The index of the line's first valid word; 4 and above mean none.
    pub fn valid_index(&self) -> (r: u32)
        ensures
            r == (self.tag_valid >> 2) & 7,
            r < 8,
    {
        proof {
            lemma_tag_valid(0, self.tag_valid);
        }
        (self.tag_valid >> 2) & 7
    }

    /// Set the tag and the first valid word from `pc`, the address of
    /// the first valid word.
    pub fn set_tag_valid(&mut self, pc: u32)
        ensures
            final(self).tag_valid == pc & 0x7fff_f00c,
            final(self).tag_valid & 0xffff_f000 == pc & 0x7fff_f000,
            (final(self).tag_valid >> 2) & 7 == (pc >> 2) & 3,
            final(self).line == old(self).line,
    {
        proof {
            lemma_tag_valid(pc, 0);
        }
        self.tag_valid = pc & 0x7fff_f00c;
    }

    /// Mark every word of the line invalid, leaving tag and words alone.
    pub fn invalidate(&mut self)
        ensures
            final(self).tag_valid == old(self).tag_valid | 0x10,
            (final(self).tag_valid >> 2) & 7 >= 4,
            final(self).tag_valid & 0xffff_f000 == old(self).tag_valid & 0xffff_f000,
            forall|i: u32| !(#[trigger] final(self).spec_valid(i)),
            final(self).line == old(self).line,
    {
        proof {
            lemma_tag_valid(0, self.tag_valid);
        }
        self.tag_valid = self.tag_valid | 0x10;
    }

    /// The word at `index`.
    pub fn instruction(&self, index: u32) -> (r: Instruction)
        requires
            index < 4,
        ensures
            r == self.line[index as int],
    {
        self.line[index as usize]
    }

    /// Overwrite the word at `index`.
    pub fn set_instruction(&mut self, index: u32, instruction: Instruction)
        requires
            index < 4,
        ensures
            final(self).tag_valid == old(self).tag_valid,
            final(self).line@ == old(self).line@.update(index as int, instruction),
    {
        self.line[index as usize] = instruction;
    }
}

impl Default for ICacheLine {
    fn default() -> (r: ICacheLine)
        ensures
            r.tag_valid == 0,
            forall|i: int| 0 <= i < 4 ==> r.line[i] == Instruction(0),
    {
        ICacheLine::new()
    }
}

} // verus!
