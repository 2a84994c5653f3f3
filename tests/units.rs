use rustation::bios::{Bios, Metadata, Region, UnknownBiosChecksum, WordPatch, BIOS_SIZE, lookup_sha256};
use rustation::bytes::AccessWidth;
use rustation::cop0::{Cop0, Exception};
use rustation::icache::ICacheLine;
use rustation::instruction::{Instruction, RegisterIndex};
use rustation::memory::{CacheControl, Interconnect, physical_address};
use rustation::shared::{InterruptState, SharedState};
use sha2::Digest;

fn metadata(sha256: [u8; 32], hook: Option<u32>, uart: Option<[WordPatch; 2]>) -> Metadata {
    Metadata {
        sha256,
        version_major: 4,
        version_minor: 1,
        region: Region::Europe,
        known_bad: false,
        animation_jump_hook: hook,
        debug_uart_patch: uart,
    }
}

fn image() -> Vec<u8> {
    (0..BIOS_SIZE).map(|i| (i % 251) as u8).collect()
}

fn digest(data: &[u8]) -> [u8; 32] {
    sha2::Sha256::digest(data).into()
}

#[test]
fn instruction_fields() {
    let i = Instruction(0x8c43_fffe);
    assert_eq!(i.function(), 0x23);
    assert_eq!(i.s(), RegisterIndex(2));
    assert_eq!(i.t(), RegisterIndex(3));
    assert_eq!(i.imm(), 0xfffe);
    assert_eq!(i.imm_se(), 0xffff_fffe);
    assert_eq!(Instruction(0x0000_7fff).imm_se(), 0x7fff);
    let r = Instruction(0x0123_4567);
    assert_eq!(r.subfunction(), 0x27);
    assert_eq!(r.d(), RegisterIndex(8));
    assert_eq!(r.shift(), 0x15);
    assert_eq!(r.cop_opcode(), 0x09);
    assert_eq!(r.imm_jump(), 0x123_4567);
    assert!(Instruction(0x4a00_0001).is_gte_op());
    assert!(!Instruction(0x4400_0001).is_gte_op());
}

#[test]
fn icache_line_validity() {
    let mut line = ICacheLine::new();
    assert_eq!(line.tag(), 0);
    assert_eq!(line.valid_index(), 0);
    line.set_tag_valid(0x8001_2348);
    assert_eq!(line.tag(), 0x0001_2000);
    assert_eq!(line.valid_index(), 2);
    line.set_instruction(3, Instruction(0x1234));
    assert_eq!(line.instruction(3), Instruction(0x1234));
    line.invalidate();
    assert!(line.valid_index() >= 4);
    assert_eq!(line.tag(), 0x0001_2000);
    assert_eq!(line.instruction(3), Instruction(0x1234));
}

#[test]
fn exception_entry_and_rfe() {
    let mut c = Cop0::new();
    c.set_sr(0x0000_0005);
    let vector = c.enter_exception(Exception::SysCall, 0x8000_1234, false);
    assert_eq!(vector, 0x8000_0080);
    assert_eq!(c.sr(), 0x0000_0014);
    assert_eq!((c.cause(InterruptState::new()) >> 2) & 0x1f, 8);
    assert_eq!(c.epc(), 0x8000_1234);
    c.return_from_exception();
    assert_eq!(c.sr() & 0xf, 0x5);
    let mut c = Cop0::new();
    c.set_sr(1 << 22);
    assert_eq!(c.enter_exception(Exception::Break, 0x100, true), 0xbfc0_0180);
    assert_eq!(c.epc(), 0xfc);
    assert_eq!(c.cause(InterruptState::new()) >> 31, 1);
}

#[test]
fn mode_stack_is_lifo_of_three() {
    // KU/IE pairs: current 1, previous 2, old 3.
    let mut c = Cop0::new();
    c.set_sr(0xff00_0000 | (3 << 4) | (2 << 2) | 1);
    c.enter_exception(Exception::Overflow, 0, false);
    c.enter_exception(Exception::Overflow, 0, false);
    assert_eq!(c.sr() & 0x3f, 1 << 4);
    c.return_from_exception();
    c.return_from_exception();
    assert_eq!(c.sr() & 0x3, 1);
    assert_eq!(c.sr() & 0xff00_0000, 0xff00_0000);
}

#[test]
fn cause_and_interrupts() {
    let mut c = Cop0::new();
    c.set_cause(0xffff_ffff);
    assert_eq!(c.cause(InterruptState::new()), 0x300);
    let irq = InterruptState { status: 1, mask: 1 };
    assert!(irq.active());
    assert_eq!(c.cause(irq), 0x700);
    assert!(!c.irq_active(irq));
    c.set_sr(0x401);
    assert!(c.irq_active(irq));
    c.set_sr(0x400);
    assert!(!c.irq_active(irq));
    assert!(!Cop0 { sr: 1 << 16, cause: 0, epc: 0 }.cache_isolated() == false);
}

#[test]
fn exception_codes() {
    assert_eq!(Exception::Interrupt.code(), 0);
    assert_eq!(Exception::LoadAddressError.code(), 4);
    assert_eq!(Exception::StoreAddressError.code(), 5);
    assert_eq!(Exception::SysCall.code(), 8);
    assert_eq!(Exception::Break.code(), 9);
    assert_eq!(Exception::IllegalInstruction.code(), 10);
    assert_eq!(Exception::CoprocessorError.code(), 11);
    assert_eq!(Exception::Overflow.code(), 12);
}

#[test]
fn dummy_bios_pattern() {
    let bios = Bios::dummy();
    assert_eq!(bios.load(AccessWidth::Word, 0), 0xc410_4105);
    assert_eq!(bios.load(AccessWidth::Word, BIOS_SIZE as u32 - 4), 0xc410_4105);
    assert_eq!(bios.load(AccessWidth::Byte, 1), 0x41);
    assert_eq!(bios.load(AccessWidth::HalfWord, 2), 0xc410);
    let m = bios.metadata();
    assert!(m.known_bad);
    assert_eq!(m.sha256, [0xff; 32]);
    assert_eq!(m.animation_jump_hook, None);
}

#[test]
fn bios_lookup_by_digest() {
    let data = image();
    let sha = digest(&data);
    let db = vec![metadata([0; 32], None, None), metadata(sha, Some(0x18), None)];
    let bios = Bios::new(data.clone(), &db).unwrap();
    assert_eq!(bios.sha256(), sha);
    assert_eq!(bios.metadata().animation_jump_hook, Some(0x18));
    assert_eq!(bios.load(AccessWidth::Word, 4), 0x0706_0504);
    assert!(Bios::new(data.clone(), &db[..1]).is_none());
    assert!(Bios::new(vec![0; 16], &db).is_none());
    assert_eq!(lookup_sha256(&db, &sha).unwrap().version_major, 4);
    assert!(lookup_sha256(&db, &[7; 32]).is_none());
}

#[test]
fn bios_from_digest() {
    let db = vec![metadata([9; 32], Some(0x10), None)];
    let bios = Bios::from_sha256(&[9; 32], &db).unwrap();
    assert_eq!(bios.sha256(), [9; 32]);
    assert_eq!(bios.load(AccessWidth::Word, 0x10), 0xc410_4105);
    assert_eq!(Bios::from_sha256(&[8; 32], &db).err(), Some(UnknownBiosChecksum));
}

#[test]
fn bios_patches() {
    let db = vec![metadata(
        [9; 32],
        Some(0x10),
        Some([WordPatch { offset: 0x20, value: 0x2401_0001 }, WordPatch { offset: 0x24, value: 0xaf81_a9c0 }]),
    )];
    let mut bios = Bios::from_sha256(&[9; 32], &db).unwrap();
    assert_eq!(bios.patch_animation_jump_hook(0x0bad_f00d), Ok(()));
    assert_eq!(bios.load(AccessWidth::Word, 0x10), 0x0bad_f00d);
    assert_eq!(bios.load(AccessWidth::Byte, 0x10), 0x0d);
    assert_eq!(bios.patch_boot_animation(), Ok(()));
    assert_eq!(bios.load(AccessWidth::Word, 0x10), 0);
    assert_eq!(bios.enable_debug_uart(), Ok(()));
    assert_eq!(bios.load(AccessWidth::Word, 0x20), 0x2401_0001);
    assert_eq!(bios.load(AccessWidth::Word, 0x24), 0xaf81_a9c0);
    let mut dummy = Bios::dummy();
    assert_eq!(dummy.patch_boot_animation(), Err(()));
    assert_eq!(dummy.enable_debug_uart(), Err(()));
    assert_eq!(dummy.load(AccessWidth::Word, 0x10), 0xc410_4105);
}

#[test]
fn metadata_validity() {
    assert!(metadata([0; 32], Some(BIOS_SIZE as u32 - 4), None).is_valid());
    assert!(!metadata([0; 32], Some(BIOS_SIZE as u32 - 3), None).is_valid());
    let bad = [WordPatch { offset: 0, value: 0 }, WordPatch { offset: BIOS_SIZE as u32, value: 0 }];
    assert!(!metadata([0; 32], None, Some(bad)).is_valid());
}

#[test]
fn bus_mapping() {
    assert_eq!(physical_address(0x8000_1234), 0x1234);
    assert_eq!(physical_address(0xa000_1234), 0x1234);
    assert_eq!(physical_address(0x0000_1234), 0x1234);
    assert_eq!(physical_address(0xfffe_0130), 0xfffe_0130);
    let mut bus = Interconnect::new(Bios::dummy());
    bus.store(AccessWidth::Word, 0x8000_0100, 0x1122_3344);
    assert_eq!(bus.load(AccessWidth::Word, 0x100), 0x1122_3344);
    assert_eq!(bus.load(AccessWidth::Word, 0xa000_0100), 0x1122_3344);
    assert_eq!(bus.load(AccessWidth::HalfWord, 0x102), 0x1122);
    bus.store(AccessWidth::Byte, 0x101, 0xffff_ffaa);
    assert_eq!(bus.load(AccessWidth::Word, 0x100), 0x1122_aa44);
    assert_eq!(bus.load_instruction(0xbfc0_0000), 0xc410_4105);
    bus.store(AccessWidth::Word, 0xbfc0_0000, 0);
    assert_eq!(bus.load(AccessWidth::Word, 0xbfc0_0000), 0xc410_4105);
    assert_eq!(bus.load(AccessWidth::Word, 0x1f00_0000), 0);
    bus.store(AccessWidth::Word, 0xfffe_0130, 0x804);
    assert_eq!(bus.cache_control(), CacheControl(0x804));
    assert!(bus.cache_control().icache_enabled());
    assert!(bus.cache_control().tag_test_mode());
    // The last word of RAM, and one byte past it.
    bus.store(AccessWidth::Word, 0x001f_fffc, 0xdead_beef);
    assert_eq!(bus.load(AccessWidth::Word, 0x001f_fffc), 0xdead_beef);
    assert_eq!(bus.load(AccessWidth::Byte, 0x0020_0000), 0);
}

#[test]
fn word_is_its_bytes() {
    let mut bus = Interconnect::new(Bios::dummy());
    bus.store(AccessWidth::Word, 0x200, 0xa1b2_c3d4);
    for &a in [0x200u32, 0x8000_0200, 0xbfc0_0100].iter() {
        let w = bus.load(AccessWidth::Word, a);
        let b = |i: u32| bus.load(AccessWidth::Byte, a + i);
        assert_eq!(w, b(0) | (b(1) << 8) | (b(2) << 16) | (b(3) << 24));
    }
}

#[test]
fn tick_wraps() {
    let mut s = SharedState::new();
    s.tick(3);
    assert_eq!(s.now, 3);
    s.now = u64::MAX;
    s.tick(2);
    assert_eq!(s.now, 1);
}
