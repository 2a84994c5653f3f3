use rustation::bios::Bios;
use rustation::bytes::AccessWidth;
use rustation::cpu::{Cpu, StepEvent};
use rustation::memory::Interconnect;
use rustation::shared::SharedState;

fn new_cpu() -> Cpu {
    Cpu::new(Interconnect::new(Bios::dummy()))
}

fn put(cpu: &mut Cpu, addr: u32, word: u32) {
    cpu.interconnect_mut().store(AccessWidth::Word, addr, word);
}

fn step(cpu: &mut Cpu, shared: &mut SharedState) {
    assert_eq!(cpu.run_next_instruction(shared), Ok(StepEvent::Done));
}

fn exception_code(cpu: &Cpu) -> u32 {
    (cpu.cause(SharedState::new().irq_state) >> 2) & 0x1f
}

#[test]
fn reset_and_fetch() {
    let mut cpu = new_cpu();
    let mut shared = SharedState::new();
    assert_eq!(cpu.pc(), 0xbfc0_0000);
    assert_eq!(cpu.next_pc(), 0xbfc0_0004);
    assert_eq!(cpu.regs()[0], 0);
    for i in 1..32 {
        assert_eq!(cpu.regs()[i], 0xdead_beef);
    }
    assert_eq!(cpu.hi(), 0xdead_beef);
    assert_eq!(cpu.lo(), 0xdead_beef);
    for i in 0..256 {
        let line = cpu.icache_line(i);
        assert_eq!(line.tag_valid, 0);
        for w in line.line.iter() {
            assert_eq!(w.0, 0);
        }
    }
    cpu.run_next_instruction(&mut shared).unwrap();
    // Uncached KSEG1 fetch: 4 cycles, then 1 to execute.
    assert_eq!(shared.now, 5);
    assert_eq!(cpu.current_pc(), 0xbfc0_0000);
    // The PC was aligned: no address error. The dummy image's word is a
    // coprocessor 1 load, which the console lacks.
    assert_ne!(exception_code(&cpu), 4);
    assert_eq!(exception_code(&cpu), 11);
    assert_eq!(cpu.epc(), 0xbfc0_0000);
}

#[test]
fn addi_overflow() {
    let mut cpu = new_cpu();
    let mut shared = SharedState::new();
    cpu.set_register(1, 0x7fff_ffff);
    put(&mut cpu, 0x8000_1000, 0x2022_0001);
    cpu.set_pc(0x8000_1000);
    step(&mut cpu, &mut shared);
    assert_eq!(cpu.regs()[2], 0xdead_beef);
    assert_eq!(cpu.pc(), 0x8000_0080);
    assert_eq!(cpu.next_pc(), 0x8000_0084);
    assert_eq!(cpu.epc(), 0x8000_1000);
    assert_eq!(exception_code(&cpu), 12);
}

#[test]
fn branch_delay_slot() {
    let mut cpu = new_cpu();
    let mut shared = SharedState::new();
    put(&mut cpu, 0x8000_1000, 0x1000_0001);
    put(&mut cpu, 0x8000_1004, 0x2401_1234);
    put(&mut cpu, 0x8000_1008, 0x2401_5678);
    cpu.set_pc(0x8000_1000);
    step(&mut cpu, &mut shared);
    assert_eq!(cpu.next_pc(), 0x8000_1008);
    step(&mut cpu, &mut shared);
    // The delay slot ran before the branch target.
    assert_eq!(cpu.regs()[1], 0x1234);
    assert!(cpu.in_delay_slot());
    assert_eq!(cpu.pc(), 0x8000_1008);
    step(&mut cpu, &mut shared);
    assert_eq!(cpu.pc(), 0x8000_100c);
    assert_eq!(cpu.current_pc(), 0x8000_1008);
    assert_eq!(cpu.regs()[1], 0x5678);
}

#[test]
fn load_delay_slot() {
    let mut cpu = new_cpu();
    let mut shared = SharedState::new();
    put(&mut cpu, 0x8000_0100, 0xcafe_babe);
    cpu.set_register(1, 0x8000_0100);
    cpu.set_register(2, 0);
    put(&mut cpu, 0x8000_1000, 0x8c22_0000);
    put(&mut cpu, 0x8000_1004, 0x2443_0000);
    put(&mut cpu, 0x8000_1008, 0x2444_0000);
    cpu.set_pc(0x8000_1000);
    step(&mut cpu, &mut shared);
    assert_eq!(cpu.pending_load(), (2, 0xcafe_babe));
    step(&mut cpu, &mut shared);
    step(&mut cpu, &mut shared);
    assert_eq!(cpu.regs()[3], 0);
    assert_eq!(cpu.regs()[4], 0xcafe_babe);
}

#[test]
fn lw_cancels_previous_load() {
    let mut cpu = new_cpu();
    let mut shared = SharedState::new();
    put(&mut cpu, 0x8000_0100, 0xcafe_babe);
    put(&mut cpu, 0x8000_0200, 0x1234_5678);
    cpu.set_register(1, 0x8000_0100);
    cpu.set_register(2, 0x8000_0200);
    cpu.set_register(3, 0xdead_0000);
    put(&mut cpu, 0x8000_1000, 0x8c23_0000);
    put(&mut cpu, 0x8000_1004, 0x8c43_0000);
    put(&mut cpu, 0x8000_1008, 0x0000_0000);
    cpu.set_pc(0x8000_1000);
    step(&mut cpu, &mut shared);
    step(&mut cpu, &mut shared);
    // The first load never reached the register.
    assert_eq!(cpu.regs()[3], 0xdead_0000);
    step(&mut cpu, &mut shared);
    assert_eq!(cpu.regs()[3], 0x1234_5678);
}

#[test]
fn cache_invalidation_under_isolation() {
    let mut cpu = new_cpu();
    let mut shared = SharedState::new();
    // Instruction cache on.
    put(&mut cpu, 0xfffe_0130, 0x800);
    // A NOP at 0x80001010 (bucket 1) gets cached.
    put(&mut cpu, 0x8000_1010, 0);
    cpu.set_pc(0x8000_1010);
    step(&mut cpu, &mut shared);
    assert_eq!(cpu.icache_line(1).tag_valid, 0x1000);
    // Memory changes behind the cache's back: the cached NOP still runs.
    put(&mut cpu, 0x8000_1010, 0x2405_0077);
    cpu.set_register(5, 0);
    cpu.set_pc(0x8000_1010);
    step(&mut cpu, &mut shared);
    assert_eq!(cpu.regs()[5], 0);
    // Tag test mode, then isolate the cache, store a word of 0 at 0x10,
    // and leave isolation, all from uncached KSEG1 code.
    put(&mut cpu, 0xfffe_0130, 0x804);
    cpu.set_register(1, 0x1_0000);
    put(&mut cpu, 0xa000_2000, 0x4081_6000);
    put(&mut cpu, 0xa000_2004, 0xac00_0010);
    put(&mut cpu, 0xa000_2008, 0x4080_6000);
    cpu.set_pc(0xa000_2000);
    step(&mut cpu, &mut shared);
    assert_eq!(cpu.sr(), 0x1_0000);
    step(&mut cpu, &mut shared);
    step(&mut cpu, &mut shared);
    assert_eq!(cpu.sr(), 0);
    assert!(cpu.icache_line(1).valid_index() >= 4);
    // The store went to the cache, not to memory.
    assert_eq!(cpu.examine(AccessWidth::Word, 0x8000_1010), 0x2405_0077);
    // Running from bucket 1 again must refill from memory.
    cpu.set_pc(0x8000_1010);
    let before = shared.now;
    step(&mut cpu, &mut shared);
    assert_eq!(cpu.regs()[5], 0x77);
    assert_eq!(shared.now - before, 3 + 4 + 1);
}
