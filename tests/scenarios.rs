use gameboy::alu::Flags;
use gameboy::cpu::{Cpu, CpuFault};
use gameboy::decoder::service_routine;
use gameboy::mmu::Mmu;

/// A memory unit whose ROM holds `program` from `0x0100` on.
fn machine(program: &[u8]) -> (Cpu, Mmu) {
    let mut rom = vec![0u8; 0x8000];
    for (i, b) in program.iter().enumerate() {
        rom[0x100 + i] = *b;
    }
    let mut mmu = Mmu::new();
    mmu.write_rom_to_bank_0(&rom);
    mmu.write_rom_to_bank_1(&rom);
    (Cpu::new(), mmu)
}

/// Runs one whole instruction from idle and returns the T-states it took.
fn step(cpu: &mut Cpu, mmu: &mut Mmu) -> u32 {
    assert!(!cpu.is_processing_instruction());
    cpu.tick(mmu).expect("decodable opcode");
    let mut ticks: u32 = 1;
    while cpu.is_processing_instruction() {
        cpu.tick(mmu).unwrap();
        ticks += 1;
        assert!(ticks < 100);
    }
    ticks
}

fn run(cpu: &mut Cpu, mmu: &mut Mmu, n: usize) {
    for _ in 0..n {
        step(cpu, mmu);
    }
}

#[test]
fn boot_registers_match_table() {
    let cpu = Cpu::new();
    assert_eq!(cpu.a(), 0x01);
    assert_eq!(cpu.f(), 0xB0);
    assert_eq!(cpu.af(), 0x01B0);
    assert_eq!(cpu.bc(), 0x0013);
    assert_eq!(cpu.de(), 0x00D8);
    assert_eq!(cpu.hl(), 0x014D);
    assert_eq!(cpu.sp(), 0xFFFE);
    assert_eq!(cpu.pc(), 0x0100);
    assert!(!cpu.is_processing_instruction());
}

#[test]
fn echo_load_store() {
    // LD A,0x42; LD (0xC000),A; LD A,0; LD A,(0xE000)
    let (mut cpu, mut mmu) = machine(&[0x3E, 0x42, 0xEA, 0x00, 0xC0, 0x3E, 0x00, 0xFA, 0x00, 0xE0]);
    run(&mut cpu, &mut mmu, 3);
    assert_eq!(cpu.a(), 0x00);
    run(&mut cpu, &mut mmu, 1);
    assert_eq!(cpu.a(), 0x42);
}

#[test]
fn tile_row_from_two_stores() {
    // LD HL,0x8000; LD A,0x3C; LD (HL+),A; LD A,0x7E; LD (HL+),A
    let (mut cpu, mut mmu) = machine(&[0x21, 0x00, 0x80, 0x3E, 0x3C, 0x22, 0x3E, 0x7E, 0x22]);
    run(&mut cpu, &mut mmu, 5);
    assert_eq!(cpu.hl(), 0x8002);
    assert_eq!(mmu.read_byte(0x8000), 0x3C);
    assert_eq!(mmu.read_byte(0x8001), 0x7E);
    let row: Vec<u8> = (0..8).map(|x| mmu.tile_pixel(0, 0, x)).collect();
    assert_eq!(row, vec![0, 2, 3, 3, 3, 3, 2, 0]);
}

#[test]
fn smile_pattern_row() {
    let mut mmu = Mmu::new();
    mmu.write_byte(0x8000, 0x5A);
    mmu.write_byte(0x8001, 0x3C);
    let row: Vec<u8> = (0..8).map(|x| mmu.tile_pixel(0, 0, x)).collect();
    assert_eq!(row, vec![0, 1, 2, 3, 3, 2, 1, 0]);
}

#[test]
fn push_pop_round_trip() {
    // LD SP,0xFFFE; LD BC,0x1234; PUSH BC; POP DE
    let (mut cpu, mut mmu) = machine(&[0x31, 0xFE, 0xFF, 0x01, 0x34, 0x12, 0xC5, 0xD1]);
    run(&mut cpu, &mut mmu, 3);
    assert_eq!(cpu.sp(), 0xFFFC);
    assert_eq!(mmu.read_word(cpu.sp()), 0x1234);
    run(&mut cpu, &mut mmu, 1);
    assert_eq!(cpu.de(), 0x1234);
    assert_eq!(cpu.sp(), 0xFFFE);
}

#[test]
fn add_immediate_wraps() {
    // LD A,0xFF; ADD A,0x01
    let (mut cpu, mut mmu) = machine(&[0x3E, 0xFF, 0xC6, 0x01]);
    run(&mut cpu, &mut mmu, 2);
    assert_eq!(cpu.a(), 0x00);
    assert_eq!(cpu.flags(), Flags { z: true, n: false, h: true, c: true });
    assert_eq!(cpu.f(), 0xB0);
}

#[test]
fn sub_immediate_half_borrow() {
    // LD A,0x10; SUB 0x01
    let (mut cpu, mut mmu) = machine(&[0x3E, 0x10, 0xD6, 0x01]);
    run(&mut cpu, &mut mmu, 2);
    assert_eq!(cpu.a(), 0x0F);
    assert_eq!(cpu.flags(), Flags { z: false, n: true, h: true, c: false });
}

#[test]
fn call_and_return() {
    let mut rom = vec![0u8; 0x8000];
    rom[0x150] = 0xCD;
    rom[0x151] = 0x00;
    rom[0x152] = 0x02;
    rom[0x200] = 0xC9;
    let mut mmu = Mmu::new();
    mmu.write_rom_to_bank_0(&rom);
    let mut cpu = Cpu::new();
    cpu.set_pc(0x0150);
    let sp_before = cpu.sp();
    let call_ticks = step(&mut cpu, &mut mmu);
    assert_eq!(call_ticks, 6 * 4);
    assert_eq!(cpu.pc(), 0x0200);
    assert_eq!(cpu.sp(), sp_before - 2);
    assert_eq!(mmu.read_word(cpu.sp()), 0x0153);
    let ret_ticks = step(&mut cpu, &mut mmu);
    assert_eq!(ret_ticks, 4 * 4);
    assert_eq!(cpu.pc(), 0x0153);
    assert_eq!(cpu.sp(), sp_before);
}

#[test]
fn pop_af_clears_low_nibble() {
    // LD BC,0x12FF; PUSH BC; POP AF
    let (mut cpu, mut mmu) = machine(&[0x01, 0xFF, 0x12, 0xC5, 0xF1]);
    run(&mut cpu, &mut mmu, 3);
    assert_eq!(cpu.a(), 0x12);
    assert_eq!(cpu.f(), 0xF0);
    assert_eq!(cpu.af(), 0x12F0);
}

#[test]
fn cycle_counts_of_documented_opcodes() {
    // NOP; LD BC,u16; LD B,u8; LD (HL+),A; SWAP A; JP u16
    let (mut cpu, mut mmu) =
        machine(&[0x00, 0x01, 0x34, 0x12, 0x06, 0x07, 0x22, 0xCB, 0x37, 0xC3, 0x00, 0x02]);
    assert_eq!(step(&mut cpu, &mut mmu), 4);
    assert_eq!(step(&mut cpu, &mut mmu), 12);
    assert_eq!(cpu.bc(), 0x1234);
    assert_eq!(step(&mut cpu, &mut mmu), 8);
    assert_eq!(cpu.bc(), 0x0734);
    assert_eq!(step(&mut cpu, &mut mmu), 8);
    assert_eq!(step(&mut cpu, &mut mmu), 8);
    assert_eq!(step(&mut cpu, &mut mmu), 16);
    assert_eq!(cpu.pc(), 0x0200);
}

#[test]
fn conditional_jump_cycle_counts() {
    // XOR A (Z set); JP NZ,0x0300 (not taken); JP Z,0x0300 (taken)
    let (mut cpu, mut mmu) = machine(&[0xAF, 0xC2, 0x00, 0x03, 0xCA, 0x00, 0x03]);
    assert_eq!(step(&mut cpu, &mut mmu), 4);
    assert_eq!(step(&mut cpu, &mut mmu), 12);
    assert_eq!(cpu.pc(), 0x0104);
    assert_eq!(step(&mut cpu, &mut mmu), 16);
    assert_eq!(cpu.pc(), 0x0300);
}

#[test]
fn relative_jump_backwards() {
    // NOP; JR -3 (back to 0x0100)
    let (mut cpu, mut mmu) = machine(&[0x00, 0x18, 0xFD]);
    run(&mut cpu, &mut mmu, 1);
    assert_eq!(step(&mut cpu, &mut mmu), 12);
    assert_eq!(cpu.pc(), 0x0100);
}

#[test]
fn bit_test_on_memory_operand() {
    // LD HL,0xC000; LD (HL),0x80; BIT 7,(HL); BIT 6,(HL)
    let (mut cpu, mut mmu) = machine(&[0x21, 0x00, 0xC0, 0x36, 0x80, 0xCB, 0x7E, 0xCB, 0x76]);
    run(&mut cpu, &mut mmu, 2);
    assert_eq!(step(&mut cpu, &mut mmu), 12);
    assert!(!cpu.flags().z);
    assert!(cpu.flags().h);
    run(&mut cpu, &mut mmu, 1);
    assert!(cpu.flags().z);
}

#[test]
fn daa_after_bcd_add() {
    // LD A,0x09; ADD A,0x01; DAA
    let (mut cpu, mut mmu) = machine(&[0x3E, 0x09, 0xC6, 0x01, 0x27]);
    run(&mut cpu, &mut mmu, 3);
    assert_eq!(cpu.a(), 0x10);
    assert!(!cpu.flags().c);
}

#[test]
fn decoder_hole_is_reported() {
    let (mut cpu, mut mmu) = machine(&[0xD3]);
    let r = cpu.tick(&mut mmu);
    assert_eq!(r, Err(CpuFault::DecoderHole { opcode: 0xD3, pc: 0x0100 }));
    assert!(!cpu.is_processing_instruction());
}

#[test]
fn interrupt_service_sequence() {
    let (mut cpu, mut mmu) = machine(&[0x00]);
    cpu.set_ime(true);
    cpu.set_interrupt_instruction(service_routine(0x40));
    assert!(cpu.is_processing_instruction());
    let mut ticks = 0;
    while cpu.is_processing_instruction() {
        cpu.tick(&mut mmu).unwrap();
        ticks += 1;
    }
    assert_eq!(ticks, 20);
    assert_eq!(cpu.pc(), 0x0040);
    assert!(!cpu.ime());
    assert_eq!(cpu.sp(), 0xFFFC);
    assert_eq!(mmu.read_word(0xFFFC), 0x0100);
}

#[test]
fn di_and_ei_toggle_ime() {
    let (mut cpu, mut mmu) = machine(&[0xFB, 0xF3]);
    run(&mut cpu, &mut mmu, 1);
    assert!(cpu.ime());
    run(&mut cpu, &mut mmu, 1);
    assert!(!cpu.ime());
}

#[test]
fn push_pc_then_set_pc() {
    let mut mmu = Mmu::new();
    let mut cpu = Cpu::new();
    cpu.push_pc_to_stack(&mut mmu);
    cpu.set_pc(0x0048);
    assert_eq!(cpu.sp(), 0xFFFC);
    assert_eq!(mmu.read_word(0xFFFC), 0x0100);
    assert_eq!(cpu.pc(), 0x0048);
}

#[test]
fn untaken_call_and_return_are_short() {
    // SCF; CALL NC,0x0300 (not taken); RET NC (not taken); CALL C,0x0300 (taken)
    let (mut cpu, mut mmu) = machine(&[0x37, 0xD4, 0x00, 0x03, 0xD0, 0xDC, 0x00, 0x03]);
    assert_eq!(step(&mut cpu, &mut mmu), 4);
    assert_eq!(step(&mut cpu, &mut mmu), 12);
    assert_eq!(cpu.pc(), 0x0104);
    assert_eq!(step(&mut cpu, &mut mmu), 8);
    assert_eq!(cpu.pc(), 0x0105);
    assert_eq!(step(&mut cpu, &mut mmu), 24);
    assert_eq!(cpu.pc(), 0x0300);
    assert_eq!(mmu.read_word(cpu.sp()), 0x0108);
}

#[test]
fn rst_and_reti() {
    // RST 0x38 at 0x0100; RETI at 0x0038
    let mut rom = vec![0u8; 0x8000];
    rom[0x100] = 0xFF;
    rom[0x38] = 0xD9;
    let mut mmu = Mmu::new();
    mmu.write_rom_to_bank_0(&rom);
    let mut cpu = Cpu::new();
    assert_eq!(step(&mut cpu, &mut mmu), 16);
    assert_eq!(cpu.pc(), 0x0038);
    assert_eq!(cpu.sp(), 0xFFFC);
    assert_eq!(mmu.read_word(0xFFFC), 0x0101);
    assert_eq!(step(&mut cpu, &mut mmu), 16);
    assert_eq!(cpu.pc(), 0x0101);
    assert_eq!(cpu.sp(), 0xFFFE);
    assert!(cpu.ime());
}
