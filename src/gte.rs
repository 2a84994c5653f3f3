use vstd::prelude::*;

verus! {

/// Register file of the geometry transform engine (coprocessor 2): 32
/// data and 32 control registers. The engine's commands are run by the
/// caller of the CPU step, which hands them out.
#[derive(Clone, Copy, Debug)]
pub struct Gte {
    pub data: [u32; 32],
    pub control: [u32; 32],
}

impl Gte {
    /// Every register zero.
    pub fn new() -> (r: Gte)
        ensures
            forall|i: int| 0 <= i < 32 ==> r.data[i] == 0 && r.control[i] == 0,
    {
        Gte { data: [0u32; 32], control: [0u32; 32] }
    }

    /// Read data register `reg`.
    pub fn data(&self, reg: u32) -> (r: u32)
        requires
            reg < 32,
        ensures
            r == self.data[reg as int],
    {
        self.data[reg as usize]
    }

    /// Write data register `reg`.
    pub fn set_data(&mut self, reg: u32, v: u32)
        requires
            reg < 32,
        ensures
            final(self).data@ == old(self).data@.update(reg as int, v),
            final(self).control == old(self).control,
    {
        self.data[reg as usize] = v;
    }

    /// Read control register `reg`.
    pub fn control(&self, reg: u32) -> (r: u32)
        requires
            reg < 32,
        ensures
            r == self.control[reg as int],
    {
        self.control[reg as usize]
    }

    /// Write control register `reg`.
    pub fn set_control(&mut self, reg: u32, v: u32)
        requires
            reg < 32,
        ensures
            final(self).control@ == old(self).control@.update(reg as int, v),
            final(self).data == old(self).data,
    {
        self.control[reg as usize] = v;
    }
}

} // verus!
