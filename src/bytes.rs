use vstd::prelude::*;

verus! {

/// Width of a memory access.
#[derive(Clone, Copy, Debug, PartialEq, Eq, Structural)]
pub enum AccessWidth {
    Byte,
    HalfWord,
    Word,
}

impl AccessWidth {
    pub open spec fn spec_size(self) -> nat {
        match self {
            AccessWidth::Byte => 1,
            AccessWidth::HalfWord => 2,
            AccessWidth::Word => 4,
        }
    }

    /// Number of bytes accessed.
    pub fn size(self) -> (r: u32)
        ensures
            r == self.spec_size(),
    {
        match self {
            AccessWidth::Byte => 1,
            AccessWidth::HalfWord => 2,
            AccessWidth::Word => 4,
        }
    }
}

/// The little-endian value of the `n` bytes of `s` at `off`, for `n` in
/// 1, 2 and 4.
pub open spec fn le_value(s: Seq<u8>, off: int, n: nat) -> u32 {
    if n == 1 {
        s[off] as u32
    } else if n == 2 {
        (s[off] as u32) | ((s[off + 1] as u32) << 8)
    } else {
        (s[off] as u32) | ((s[off + 1] as u32) << 8) | ((s[off + 2] as u32) << 16) | ((
        s[off + 3] as u32) << 24)
    }
}

/// `s` with the `n` low bytes of `v` written little-endian at `off`.
pub open spec fn le_store(s: Seq<u8>, off: int, n: nat, v: u32) -> Seq<u8> {
    if n == 1 {
        s.update(off, v as u8)
    } else if n == 2 {
        s.update(off, v as u8).update(off + 1, (v >> 8) as u8)
    } else {
        s.update(off, v as u8).update(off + 1, (v >> 8) as u8).update(off + 2, (v >> 16) as u8).update(
            off + 3,
            (v >> 24) as u8,
        )
    }
}

/// Read `width` bytes of `s` at `off`, little-endian.
pub fn read_le(s: &Vec<u8>, off: usize, width: AccessWidth) -> (r: u32)
    requires
        off + width.spec_size() <= s@.len(),
    ensures
        r == le_value(s@, off as int, width.spec_size()),
{
    let _len = s.len();
    match width {
        AccessWidth::Byte => s[off] as u32,
        AccessWidth::HalfWord => (s[off] as u32) | ((s[off + 1] as u32) << 8),
        AccessWidth::Word => (s[off] as u32) | ((s[off + 1] as u32) << 8) | ((s[off + 2] as u32)
            << 16) | ((s[off + 3] as u32) << 24),
    }
}

/// Write the low `width` bytes of `v` into `s` at `off`, little-endian.
pub fn write_le(s: &mut Vec<u8>, off: usize, width: AccessWidth, v: u32)
    requires
        off + width.spec_size() <= old(s)@.len(),
    ensures
        final(s)@ == le_store(old(s)@, off as int, width.spec_size(), v),
{
    let _len = s.len();
    s.set(off, #[verifier::truncate] (v as u8));
    match width {
        AccessWidth::Byte => {},
        AccessWidth::HalfWord => {
            s.set(off + 1, #[verifier::truncate] ((v >> 8) as u8));
        },
        AccessWidth::Word => {
            s.set(off + 1, #[verifier::truncate] ((v >> 8) as u8));
            s.set(off + 2, #[verifier::truncate] ((v >> 16) as u8));
            s.set(off + 3, #[verifier::truncate] ((v >> 24) as u8));
        },
    }
}

} // verus!
