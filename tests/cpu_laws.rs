use rustation::bios::Bios;
use rustation::bytes::AccessWidth;
use rustation::cpu::{Cpu, Fatal, FatalError, InvalidState, StepEvent, CPU_FREQ_HZ, PROCESSOR_ID};
use rustation::memory::Interconnect;
use rustation::shared::SharedState;

fn new_cpu() -> Cpu {
    Cpu::new(Interconnect::new(Bios::dummy()))
}

/// Run `code` from 0x80001000, one step per word.
fn run(cpu: &mut Cpu, code: &[u32]) -> SharedState {
    let mut shared = SharedState::new();
    for (i, w) in code.iter().enumerate() {
        cpu.interconnect_mut().store(AccessWidth::Word, 0x8000_1000 + 4 * i as u32, *w);
    }
    cpu.set_pc(0x8000_1000);
    for _ in code {
        assert_eq!(cpu.run_next_instruction(&mut shared), Ok(StepEvent::Done));
    }
    shared
}

fn code_of(cpu: &Cpu) -> u32 {
    (cpu.cause(SharedState::new().irq_state) >> 2) & 0x1f
}

#[test]
fn register_zero_stays_zero() {
    let mut cpu = new_cpu();
    // ADDIU r0, r0, 5 then LW r0, 0(r0) and a NOP.
    run(&mut cpu, &[0x2400_0005, 0x8c00_0000, 0]);
    assert_eq!(cpu.regs()[0], 0);
}

#[test]
fn next_pc_follows_pc() {
    let mut cpu = new_cpu();
    run(&mut cpu, &[0x2401_0001]);
    assert_eq!(cpu.next_pc(), cpu.pc().wrapping_add(4));
    // J 0x80002000 branches: next_pc is the target.
    run(&mut cpu, &[0x0800_0800]);
    assert_eq!(cpu.pc(), 0x8000_1004);
    assert_eq!(cpu.next_pc(), 0x8000_2000);
}

#[test]
fn delay_slot_follows_branch() {
    let mut cpu = new_cpu();
    // JAL, then a NOP in the delay slot.
    run(&mut cpu, &[0x0c00_0800, 0]);
    assert!(cpu.in_delay_slot());
    assert_eq!(cpu.regs()[31], 0x8000_1008);
    assert_eq!(cpu.pc(), 0x8000_2000);
    let mut shared = SharedState::new();
    cpu.interconnect_mut().store(AccessWidth::Word, 0x8000_2000, 0);
    cpu.run_next_instruction(&mut shared).unwrap();
    assert!(!cpu.in_delay_slot());
}

#[test]
fn single_pending_load() {
    let mut cpu = new_cpu();
    cpu.interconnect_mut().store(AccessWidth::Word, 0x8000_0100, 0x55);
    cpu.set_register(1, 0x8000_0100);
    run(&mut cpu, &[0x8c22_0000]);
    assert_eq!(cpu.pending_load(), (2, 0x55));
    run(&mut cpu, &[0]);
    assert_eq!(cpu.pending_load(), (0, 0));
    assert_eq!(cpu.regs()[2], 0x55);
    let before: Vec<u32> = cpu.regs().to_vec();
    run(&mut cpu, &[0]);
    assert_eq!(cpu.regs(), &before[..]);
}

#[test]
fn add_overflow_matches_addu() {
    let mut cpu = new_cpu();
    cpu.set_register(1, 0x7fff_fff0);
    cpu.set_register(2, 0x0f);
    // ADD r3, r1, r2 and ADDU r4, r1, r2.
    run(&mut cpu, &[0x0022_1820, 0x0022_2021]);
    assert_eq!(cpu.regs()[3], 0x7fff_ffff);
    assert_eq!(cpu.regs()[3], cpu.regs()[4]);
    cpu.set_register(2, 0x10);
    cpu.set_register(3, 0x1234);
    run(&mut cpu, &[0x0022_1820]);
    assert_eq!(cpu.regs()[3], 0x1234);
    assert_eq!(code_of(&cpu), 12);
    // SUB r3, r1, r2 with 0x80000000 - 1 overflows.
    let mut cpu = new_cpu();
    cpu.set_register(1, 0x8000_0000);
    cpu.set_register(2, 1);
    cpu.set_register(3, 7);
    run(&mut cpu, &[0x0022_1822]);
    assert_eq!(cpu.regs()[3], 7);
    assert_eq!(code_of(&cpu), 12);
}

#[test]
fn division_by_zero_does_not_fault() {
    let mut cpu = new_cpu();
    cpu.set_register(1, 5);
    cpu.set_register(2, 0);
    // DIV r1, r2
    run(&mut cpu, &[0x0022_001a]);
    assert_eq!((cpu.hi(), cpu.lo()), (5, 0xffff_ffff));
    assert_eq!(cpu.pc(), 0x8000_1004);
    cpu.set_register(1, 0xffff_fffb);
    run(&mut cpu, &[0x0022_001a]);
    assert_eq!((cpu.hi(), cpu.lo()), (0xffff_fffb, 1));
    // DIVU r1, r2
    run(&mut cpu, &[0x0022_001b]);
    assert_eq!((cpu.hi(), cpu.lo()), (0xffff_fffb, 0xffff_ffff));
}

#[test]
fn division_results() {
    let mut cpu = new_cpu();
    // -7 / 2 = -3 remainder -1
    cpu.set_register(1, (-7i32) as u32);
    cpu.set_register(2, 2);
    run(&mut cpu, &[0x0022_001a]);
    assert_eq!((cpu.hi(), cpu.lo()), ((-1i32) as u32, (-3i32) as u32));
    // 7 / -2 = -3 remainder 1
    cpu.set_register(1, 7);
    cpu.set_register(2, (-2i32) as u32);
    run(&mut cpu, &[0x0022_001a]);
    assert_eq!((cpu.hi(), cpu.lo()), (1, (-3i32) as u32));
    // 0x80000000 / -1
    cpu.set_register(1, 0x8000_0000);
    cpu.set_register(2, 0xffff_ffff);
    run(&mut cpu, &[0x0022_001a]);
    assert_eq!((cpu.hi(), cpu.lo()), (0, 0x8000_0000));
    // DIVU 7 / 2
    cpu.set_register(1, 7);
    cpu.set_register(2, 2);
    run(&mut cpu, &[0x0022_001b]);
    assert_eq!((cpu.hi(), cpu.lo()), (1, 3));
}

#[test]
fn multiplication_results() {
    let mut cpu = new_cpu();
    cpu.set_register(1, 0xffff_ffff);
    cpu.set_register(2, 2);
    // MULT r1, r2: -1 * 2
    run(&mut cpu, &[0x0022_0018]);
    assert_eq!((cpu.hi(), cpu.lo()), (0xffff_ffff, 0xffff_fffe));
    // MULTU r1, r2
    run(&mut cpu, &[0x0022_0019]);
    assert_eq!((cpu.hi(), cpu.lo()), (1, 0xffff_fffe));
    // MFHI r3, MFLO r4
    run(&mut cpu, &[0x0000_1810, 0x0000_2012]);
    assert_eq!((cpu.regs()[3], cpu.regs()[4]), (1, 0xffff_fffe));
}

#[test]
fn alu_results() {
    let mut cpu = new_cpu();
    cpu.set_register(1, 0xf0f0_0000);
    cpu.set_register(2, 0x0000_0024);
    run(&mut cpu, &[
        0x0001_1900, // SLL r3, r1, 4
        0x0001_2103, // SRA r4, r1, 4
        0x0041_2804, // SLLV r5, r1, r2 (shift 4)
        0x0022_3027, // NOR r6, r1, r2
        0x0022_382a, // SLT r7, r1, r2
        0x0022_402b, // SLTU r8, r1, r2
        0x3c09_1234, // LUI r9, 0x1234
        0x3529_5678, // ORI r9, r9, 0x5678
        0x284a_ffff, // SLTI r10, r2, -1
        0x2c4b_ffff, // SLTIU r11, r2, -1
    ]);
    assert_eq!(cpu.regs()[3], 0x0f00_0000);
    assert_eq!(cpu.regs()[4], 0xff0f_0000);
    assert_eq!(cpu.regs()[5], 0x0f00_0000);
    assert_eq!(cpu.regs()[6], !(0xf0f0_0024));
    assert_eq!(cpu.regs()[7], 1);
    assert_eq!(cpu.regs()[8], 0);
    assert_eq!(cpu.regs()[9], 0x1234_5678);
    assert_eq!(cpu.regs()[10], 0);
    assert_eq!(cpu.regs()[11], 1);
}

#[test]
fn word_load_is_byte_loads() {
    let mut cpu = new_cpu();
    cpu.interconnect_mut().store(AccessWidth::Word, 0x8000_0100, 0x8192_a3b4);
    cpu.set_register(1, 0x8000_0100);
    run(&mut cpu, &[
        0x8c22_0000, // LW r2, 0(r1)
        0x9023_0000, // LBU r3, 0(r1)
        0x9024_0001, // LBU r4, 1(r1)
        0x9025_0002, // LBU r5, 2(r1)
        0x9026_0003, // LBU r6, 3(r1)
        0x8027_0003, // LB r7, 3(r1)
        0x8428_0002, // LH r8, 2(r1)
        0,
    ]);
    let r = cpu.regs();
    assert_eq!(r[2], r[3] | (r[4] << 8) | (r[5] << 16) | (r[6] << 24));
    assert_eq!(r[7], 0xffff_ff81);
    assert_eq!(r[8], 0xffff_8192);
}

#[test]
fn lwl_lwr_read_unaligned_words() {
    for k in 0..4u32 {
        let mut cpu = new_cpu();
        cpu.interconnect_mut().store(AccessWidth::Word, 0x8000_0100, 0x4433_2211);
        cpu.interconnect_mut().store(AccessWidth::Word, 0x8000_0104, 0x8877_6655);
        cpu.set_register(1, 0x8000_0100 + k);
        cpu.set_register(2, 0xeeee_eeee);
        // LWL r2, 3(r1) then LWR r2, 0(r1), then a NOP.
        run(&mut cpu, &[0x8822_0003, 0x9822_0000, 0]);
        let expected = match k {
            0 => 0x4433_2211,
            1 => 0x5544_3322,
            2 => 0x6655_4433,
            _ => 0x7766_5544,
        };
        assert_eq!(cpu.regs()[2], expected);
    }
}

#[test]
fn swl_swr_write_unaligned_words() {
    let mut cpu = new_cpu();
    cpu.set_register(1, 0x8000_0101);
    cpu.set_register(2, 0xaabb_ccdd);
    // SWL r2, 3(r1) then SWR r2, 0(r1)
    run(&mut cpu, &[0xa822_0003, 0xb822_0000]);
    assert_eq!(cpu.examine(AccessWidth::Word, 0x8000_0100), 0xbbcc_dd00);
    assert_eq!(cpu.examine(AccessWidth::Word, 0x8000_0104), 0x0000_00aa);
}

#[test]
fn cache_fill_from_index() {
    let mut cpu = new_cpu();
    cpu.interconnect_mut().store(AccessWidth::Word, 0xfffe_0130, 0x800);
    for i in 0..4u32 {
        cpu.interconnect_mut().store(AccessWidth::Word, 0x8000_3000 + 4 * i, 0x2400_0000 + i);
    }
    cpu.set_pc(0x8000_3008);
    let mut shared = SharedState::new();
    cpu.run_next_instruction(&mut shared).unwrap();
    // 3 cycles, two words, one to execute.
    assert_eq!(shared.now, 6);
    let line = cpu.icache_line(0);
    assert_eq!(line.tag_valid, 0x3008);
    assert_eq!(line.valid_index(), 2);
    assert_eq!(line.line[2].0, 0x2400_0002);
    assert_eq!(line.line[3].0, 0x2400_0003);
    assert_eq!(line.line[0].0, 0);
    // A hit costs nothing to fetch.
    cpu.run_next_instruction(&mut shared).unwrap();
    assert_eq!(shared.now, 7);
}

#[test]
fn exceptions_and_rfe() {
    let mut cpu = new_cpu();
    cpu.set_register(1, 0x0000_0001);
    // MTC0 r1, SR; SYSCALL
    run(&mut cpu, &[0x4081_6000, 0x0000_000c]);
    assert_eq!(cpu.pc(), 0x8000_0080);
    assert_eq!(cpu.epc(), 0x8000_1004);
    assert_eq!(code_of(&cpu), 8);
    assert_eq!(cpu.sr() & 0x3f, 0x4);
    // RFE from the handler
    let mut shared = SharedState::new();
    cpu.interconnect_mut().store(AccessWidth::Word, 0x8000_0080, 0x4200_0010);
    cpu.run_next_instruction(&mut shared).unwrap();
    assert_eq!(cpu.sr() & 0x3f, 0x1);
    // MFC0 r5, PRID then a NOP
    run(&mut cpu, &[0x4005_7800, 0]);
    assert_eq!(cpu.regs()[5], PROCESSOR_ID);
    assert_eq!(CPU_FREQ_HZ, 33_868_500);
}

#[test]
fn misaligned_pc_raises_address_error() {
    let mut cpu = new_cpu();
    cpu.set_register(1, 0x8000_1002);
    cpu.interconnect_mut().store(AccessWidth::Word, 0x8000_0100, 0x77);
    cpu.set_register(2, 0x8000_0100);
    // LW r3, 0(r2), then JR r1 with a NOP in its delay slot.
    run(&mut cpu, &[0x8c43_0000, 0x0020_0008, 0]);
    let mut shared = SharedState::new();
    cpu.run_next_instruction(&mut shared).unwrap();
    assert_eq!(code_of(&cpu), 4);
    // The step never began: the delay-slot flag of the NOP still stands,
    // so EPC points one word back.
    assert_eq!(cpu.epc(), 0x8000_0ffe);
    assert_eq!(cpu.cause(shared.irq_state) >> 31, 1);
    assert_eq!(shared.now, 0);
    assert_eq!(cpu.regs()[3], 0x77);
}

#[test]
fn misaligned_data_access() {
    let mut cpu = new_cpu();
    cpu.set_register(1, 0x8000_0101);
    run(&mut cpu, &[0x8c22_0000]);
    assert_eq!(code_of(&cpu), 4);
    let mut cpu = new_cpu();
    cpu.set_register(1, 0x8000_0101);
    run(&mut cpu, &[0xac22_0000]);
    assert_eq!(code_of(&cpu), 5);
}

#[test]
fn illegal_and_missing_coprocessors() {
    let mut cpu = new_cpu();
    run(&mut cpu, &[0xfc00_0000]);
    assert_eq!(code_of(&cpu), 10);
    let mut cpu = new_cpu();
    run(&mut cpu, &[0x4400_0000]);
    assert_eq!(code_of(&cpu), 11);
}

#[test]
fn break_goes_to_debugger() {
    let mut cpu = new_cpu();
    cpu.set_debug_on_break(true);
    cpu.interconnect_mut().store(AccessWidth::Word, 0x8000_1000, 0x0000_000d);
    cpu.set_pc(0x8000_1000);
    let mut shared = SharedState::new();
    assert_eq!(cpu.run_next_instruction(&mut shared), Ok(StepEvent::DebugBreak));
    assert_eq!(cpu.pc(), 0x8000_1004);
    cpu.set_debug_on_break(false);
    cpu.interconnect_mut().store(AccessWidth::Word, 0x8000_1004, 0x0000_000d);
    assert_eq!(cpu.run_next_instruction(&mut shared), Ok(StepEvent::Done));
    assert_eq!(code_of(&cpu), 9);
}

#[test]
fn gte_transfers_and_commands() {
    let mut cpu = new_cpu();
    cpu.set_register(1, 0x1234);
    // MTC2 r1, d5; CTC2 r1, c7; MFC2 r2, d5; NOP
    run(&mut cpu, &[0x4881_2800, 0x48c1_3800, 0x4802_2800, 0]);
    assert_eq!(cpu.gte().data[5], 0x1234);
    assert_eq!(cpu.gte().control[7], 0x1234);
    assert_eq!(cpu.regs()[2], 0x1234);
    cpu.interconnect_mut().store(AccessWidth::Word, 0x8000_2000, 0x4a18_0001);
    cpu.set_pc(0x8000_2000);
    let mut shared = SharedState::new();
    assert_eq!(cpu.run_next_instruction(&mut shared), Ok(StepEvent::GteCommand(0x4a18_0001)));
}

#[test]
fn interrupt_before_instruction() {
    let mut cpu = new_cpu();
    cpu.set_register(1, 0x401);
    run(&mut cpu, &[0x4081_6000]);
    cpu.interconnect_mut().store(AccessWidth::Word, 0x8000_1004, 0x2403_0001);
    let mut shared = SharedState::new();
    shared.irq_state.status = 1;
    shared.irq_state.mask = 1;
    shared.sync_pending = true;
    cpu.set_register(3, 0);
    cpu.run_next_instruction(&mut shared).unwrap();
    assert!(!shared.sync_pending);
    assert_eq!(cpu.regs()[3], 0);
    assert_eq!(code_of(&cpu), 0);
    assert_eq!(cpu.epc(), 0x8000_1004);
    assert_eq!(cpu.pc(), 0x8000_0080);
    assert_eq!(shared.now, 4 + 1);
}

#[test]
fn fatal_conditions() {
    let mut cpu = new_cpu();
    cpu.set_register(1, 5);
    cpu.interconnect_mut().store(AccessWidth::Word, 0x8000_1000, 0x4081_1800);
    cpu.set_pc(0x8000_1000);
    let mut shared = SharedState::new();
    assert_eq!(
        cpu.run_next_instruction(&mut shared),
        Err(FatalError { kind: Fatal::Cop0Write(3, 5), instruction: 0x4081_1800, pc: 0x8000_1000 })
    );
    let mut cpu = new_cpu();
    cpu.interconnect_mut().store(AccessWidth::Word, 0x8000_1000, 0x4005_0800);
    cpu.set_pc(0x8000_1000);
    assert_eq!(cpu.run_next_instruction(&mut shared).unwrap_err().kind, Fatal::Cop0Read(1));
    // A byte store with the cache isolated but the cache off.
    let mut cpu = new_cpu();
    cpu.set_register(1, 0x1_0000);
    run(&mut cpu, &[0x4081_6000]);
    cpu.interconnect_mut().store(AccessWidth::Word, 0x8000_1004, 0xa000_0000);
    assert_eq!(cpu.run_next_instruction(&mut shared).unwrap_err().kind, Fatal::IsolatedCacheDisabled);
}

#[test]
fn state_round_trip() {
    let mut cpu = new_cpu();
    cpu.interconnect_mut().store(AccessWidth::Word, 0xfffe_0130, 0x800);
    cpu.interconnect_mut().store(AccessWidth::Word, 0x8000_0100, 0x99);
    cpu.set_register(1, 0x8000_0100);
    run(&mut cpu, &[0x0022_0018, 0x8c22_0000]);
    let words = cpu.save_state();
    let bus = Interconnect::new(Bios::dummy());
    let back = Cpu::from_state(bus, &words).unwrap();
    assert_eq!(back.regs(), cpu.regs());
    assert_eq!((back.pc(), back.next_pc(), back.current_pc()), (cpu.pc(), cpu.next_pc(), cpu.current_pc()));
    assert_eq!((back.hi(), back.lo()), (cpu.hi(), cpu.lo()));
    assert_eq!(back.pending_load(), cpu.pending_load());
    assert_eq!(back.pending_load(), (2, 0x99));
    for i in 0..256 {
        assert_eq!(back.icache_line(i).tag_valid, cpu.icache_line(i).tag_valid);
        assert_eq!(back.icache_line(i).line, cpu.icache_line(i).line);
    }
    assert_eq!(back.save_state(), words);
    assert!(Cpu::from_state(Interconnect::new(Bios::dummy()), &words[1..]).is_err());
}

fn fatal_of(code: &[u32], last: u32) -> Fatal {
    let mut cpu = new_cpu();
    cpu.set_register(1, 0x1_0000);
    run(&mut cpu, code);
    let at = 0x8000_1000 + 4 * code.len() as u32;
    cpu.interconnect_mut().store(AccessWidth::Word, at, last);
    let mut shared = SharedState::new();
    let e = cpu.run_next_instruction(&mut shared).unwrap_err();
    assert_eq!((e.pc, e.instruction), (at, last));
    e.kind
}

#[test]
fn every_fatal_condition() {
    assert_eq!(fatal_of(&[], 0x4020_0000), Fatal::UnhandledCop0Opcode);
    assert_eq!(fatal_of(&[], 0x4820_0000), Fatal::UnhandledGteOpcode);
    assert_eq!(fatal_of(&[], 0x4200_0011), Fatal::InvalidRfe);
    assert_eq!(fatal_of(&[], 0x4001_0800), Fatal::Cop0Read(1));
    assert_eq!(fatal_of(&[], 0x4081_0800), Fatal::Cop0Write(1, 0x1_0000));
    assert_eq!(fatal_of(&[], 0x4081_5800), Fatal::Cop0Write(11, 0x1_0000));
    // Cache on, then isolated: SW of a non-zero word, SB of zero.
    let mut cpu_code = vec![0x4081_6000];
    assert_eq!(fatal_of(&cpu_code, 0xa001_0000), Fatal::IsolatedCacheDisabled);
    cpu_code.insert(0, 0x3402_0800); // ORI r2, r0, 0x800
    cpu_code.insert(1, 0x3c03_fffe); // LUI r3, 0xfffe
    cpu_code.insert(2, 0xac62_0130); // SW r2, 0x130(r3)
    assert_eq!(fatal_of(&cpu_code, 0xac01_0000), Fatal::IsolatedStoreUnsupported(4, 0x1_0000));
    assert_eq!(fatal_of(&cpu_code, 0xa000_0000), Fatal::IsolatedStoreUnsupported(1, 0));
    // Zero writes to breakpoint registers are accepted.
    let mut cpu = new_cpu();
    run(&mut cpu, &[0x4080_3800]);
    assert_eq!(cpu.pc(), 0x8000_1004);
}

#[test]
fn invalid_saved_states() {
    let cpu = new_cpu();
    let words = cpu.save_state();
    let bus = || Interconnect::new(Bios::dummy());
    assert_eq!(Cpu::from_state(bus(), &words[..10]).err(), Some(InvalidState::Length));
    let mut bad = words.clone();
    bad[37] = 32;
    assert_eq!(Cpu::from_state(bus(), &bad).err(), Some(InvalidState::LoadRegister));
    let mut bad = words.clone();
    bad[3] = 1;
    assert_eq!(Cpu::from_state(bus(), &bad).err(), Some(InvalidState::ZeroRegister));
    assert!(Cpu::from_state(bus(), &words).is_ok());
}
