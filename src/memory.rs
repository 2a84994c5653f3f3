use vstd::prelude::*;

use crate::bios::{Bios, BIOS_SIZE};
use crate::bytes::{AccessWidth, le_value, le_store, read_le, write_le};

verus! {

/// Main RAM is 2 MiB.
pub const RAM_SIZE: usize = 2 * 1024 * 1024;
/// Physical address of the BIOS ROM.
pub const BIOS_BASE: u32 = 0x1fc0_0000;
/// Address of the cache control register, in KSEG2.
pub const CACHE_CONTROL: u32 = 0xfffe_0130;

/// The physical address of `addr`: KSEG0 and KSEG1 mirror the first
/// 512 MiB, KUSEG and KSEG2 map to themselves.
pub open spec fn physical(addr: u32) -> u32 {
    if addr < 0x8000_0000 {
        addr
    } else if addr < 0xa000_0000 {
        (addr - 0x8000_0000) as u32
    } else if addr < 0xc000_0000 {
        (addr - 0xa000_0000) as u32
    } else {
        addr
    }
}

/// Executable form of `physical`.
pub fn physical_address(addr: u32) -> (r: u32)
    ensures
        r == physical(addr),
{
    if addr < 0x8000_0000 {
        addr
    } else if addr < 0xa000_0000 {
        addr - 0x8000_0000
    } else if addr < 0xc000_0000 {
        addr - 0xa000_0000
    } else {
        addr
    }
}

/// The cache control register.
#[derive(Clone, Copy, Debug, PartialEq, Eq, Structural)]
pub struct CacheControl(pub u32);

impl CacheControl {
    pub open spec fn spec_icache_enabled(self) -> bool {
        self.0 & 0x800 != 0
    }

    pub open spec fn spec_tag_test_mode(self) -> bool {
        self.0 & 4 != 0
    }

    /// Bit 11: the instruction cache is enabled.
    pub fn icache_enabled(self) -> (r: bool)
        ensures
            r == self.spec_icache_enabled(),
    {
        self.0 & 0x800 != 0
    }

    /// Bit 2: stores to the isolated cache invalidate whole lines.
    pub fn tag_test_mode(self) -> (r: bool)
        ensures
            r == self.spec_tag_test_mode(),
    {
        self.0 & 4 != 0
    }
}

/// The memory bus as the CPU sees it: main RAM, the BIOS ROM and the
/// cache control register. Reads elsewhere return 0, writes elsewhere
/// (and to the ROM) are dropped.
pub struct Interconnect {
    ram: Vec<u8>,
    bios: Bios,
    cache_control: u32,
}

/// The `n` bytes at physical address `p` lie in RAM.
pub open spec fn in_ram(p: u32, n: nat) -> bool {
    p + n <= RAM_SIZE
}

/// The `n` bytes at physical address `p` lie in the BIOS ROM.
pub open spec fn in_bios(p: u32, n: nat) -> bool {
    BIOS_BASE <= p && p + n <= BIOS_BASE + BIOS_SIZE
}

impl Interconnect {
    pub closed spec fn ram(&self) -> Seq<u8> {
        self.ram@
    }

    pub closed spec fn spec_bios(&self) -> Bios {
        self.bios
    }

    pub closed spec fn spec_cache_control(&self) -> CacheControl {
        CacheControl(self.cache_control)
    }

    pub open spec fn wf(&self) -> bool {
        self.ram().len() == RAM_SIZE && self.spec_bios().wf()
    }

    /// What a load of `width` at `addr` returns.
    pub open spec fn load_spec(&self, width: AccessWidth, addr: u32) -> u32 {
        let p = physical(addr);
        let n = width.spec_size();
        if in_ram(p, n) {
            le_value(self.ram(), p as int, n)
        } else if in_bios(p, n) {
            le_value(self.spec_bios().data(), p - BIOS_BASE, n)
        } else if p == CACHE_CONTROL && width == AccessWidth::Word {
            self.spec_cache_control().0
        } else {
            0
        }
    }

    /// `after` is this bus once `val` is stored with `width` at `addr`.
    pub open spec fn store_spec(&self, after: Interconnect, width: AccessWidth, addr: u32, val: u32) -> bool {
        let p = physical(addr);
        let n = width.spec_size();
        &&& after.wf() == self.wf()
        &&& after.spec_bios() == self.spec_bios()
        &&& after.ram() == (if in_ram(p, n) {
            le_store(self.ram(), p as int, n, val)
        } else {
            self.ram()
        })
        &&& after.spec_cache_control() == (if !in_ram(p, n) && p == CACHE_CONTROL && width
            == AccessWidth::Word {
            CacheControl(val)
        } else {
            self.spec_cache_control()
        })
    }

    /// A bus with zeroed RAM and the given BIOS.
    pub fn new(bios: Bios) -> (r: Interconnect)
        requires
            bios.wf(),
        ensures
            r.wf(),
            r.spec_bios() == bios,
            r.spec_cache_control().0 == 0,
            forall|i: int| 0 <= i < RAM_SIZE ==> #[trigger] r.ram()[i] == 0,
    {
        let ram: Vec<u8> = vec![0u8; RAM_SIZE];
        Interconnect { ram, bios, cache_control: 0 }
    }

    /// The BIOS on the bus.
    pub fn bios(&self) -> (r: &Bios)
        ensures
            *r == self.spec_bios(),
    {
        &self.bios
    }

    /// Current value of the cache control register.
    pub fn cache_control(&self) -> (r: CacheControl)
        ensures
            r == self.spec_cache_control(),
    {
        CacheControl(self.cache_control)
    }

    /// Load `width` bytes at `addr`, little-endian, zero-extended.
    pub fn load(&self, width: AccessWidth, addr: u32) -> (r: u32)
        requires
            self.wf(),
        ensures
            r == self.load_spec(width, addr),
    {
        let p = physical_address(addr);
        let n = width.size();
        if p as usize <= RAM_SIZE - n as usize {
            read_le(&self.ram, p as usize, width)
        } else if p >= BIOS_BASE && p - BIOS_BASE <= (BIOS_SIZE as u32) - n {
            self.bios.load(width, p - BIOS_BASE)
        } else if p == CACHE_CONTROL && width == AccessWidth::Word {
            self.cache_control
        } else {
            0
        }
    }

    /// Fetch the instruction word at `addr`.
    pub fn load_instruction(&self, addr: u32) -> (r: u32)
        requires
            self.wf(),
        ensures
            r == self.load_spec(AccessWidth::Word, addr),
    {
        self.load(AccessWidth::Word, addr)
    }

    /// Store the low `width` bytes of `val` at `addr`.
    pub fn store(&mut self, width: AccessWidth, addr: u32, val: u32)
        requires
            old(self).wf(),
        ensures
            old(self).store_spec(*final(self), width, addr, val),
    {
        let p = physical_address(addr);
        let n = width.size();
        if p as usize <= RAM_SIZE - n as usize {
            write_le(&mut self.ram, p as usize, width, val);
        } else if p == CACHE_CONTROL && width == AccessWidth::Word {
            self.cache_control = val;
        }
    }
}


/// An aligned word load reads the same as the four byte loads of its
/// bytes, little-endian. The cache control register, which only answers
/// word accesses, is left out.
pub proof fn lemma_word_is_bytes(bus: Interconnect, a: u32)
    requires
        bus.wf(),
        a % 4 == 0,
        physical(a) != CACHE_CONTROL,
    ensures
        bus.load_spec(AccessWidth::Word, a) == bus.load_spec(AccessWidth::Byte, a) | (bus.load_spec(
            AccessWidth::Byte,
            (a + 1) as u32,
        ) << 8) | (bus.load_spec(AccessWidth::Byte, (a + 2) as u32) << 16) | (bus.load_spec(
            AccessWidth::Byte,
            (a + 3) as u32,
        ) << 24),
{
    let p = physical(a);
    assert(physical((a + 1) as u32) == p + 1);
    assert(physical((a + 2) as u32) == p + 2);
    assert(physical((a + 3) as u32) == p + 3);
    assert(p % 4 == 0);
    if in_ram(p, 4) {
    } else if in_bios(p, 4) {
        assert(!in_ram((p + 1) as u32, 1) && !in_ram((p + 2) as u32, 1) && !in_ram((p + 3) as u32, 1) && !in_ram(p, 1));
    } else {
        assert(!in_ram((p + 1) as u32, 1) && !in_ram((p + 2) as u32, 1) && !in_ram((p + 3) as u32, 1) && !in_ram(p, 1));
        assert(!in_bios((p + 1) as u32, 1) && !in_bios((p + 2) as u32, 1) && !in_bios((p + 3) as u32, 1) && !in_bios(p, 1));
        assert(0u32 | (0u32 << 8) | (0u32 << 16) | (0u32 << 24) == 0) by (bit_vector);
    }
}

} // verus!
