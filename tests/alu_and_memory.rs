use gameboy::alu::{add16, add_sp, alu, dec8, inc8, shift, AluOp, AluOut, Flags, ShiftOp};
use gameboy::mmu::Mmu;

const CLEAR: Flags = Flags { z: false, n: false, h: false, c: false };
const CARRY: Flags = Flags { z: false, n: false, h: false, c: true };

#[test]
fn sub_self_is_zero() {
    for a in [0x00u8, 0x01, 0x5A, 0xFF] {
        let r = alu(AluOp::Sub, a, a, CARRY);
        assert_eq!(r, AluOut { result: 0, flags: Flags { z: true, n: true, h: false, c: false } });
    }
}

#[test]
fn xor_self_is_zero() {
    for a in [0x00u8, 0x3C, 0xFF] {
        let r = alu(AluOp::Xor, a, a, CARRY);
        assert_eq!(r, AluOut { result: 0, flags: Flags { z: true, n: false, h: false, c: false } });
    }
}

#[test]
fn inc_wraps_to_zero() {
    let r = inc8(0xFF, CARRY);
    assert_eq!(r.result, 0x00);
    assert_eq!(r.flags, Flags { z: true, n: false, h: true, c: true });
}

#[test]
fn dec_wraps_to_ff() {
    let r = dec8(0x00, CLEAR);
    assert_eq!(r.result, 0xFF);
    assert_eq!(r.flags, Flags { z: false, n: true, h: true, c: false });
}

#[test]
fn add_half_carry_only() {
    let r = alu(AluOp::Add, 0x0F, 0x01, CLEAR);
    assert_eq!(r.result, 0x10);
    assert!(r.flags.h);
    assert!(!r.flags.c);
    assert!(!r.flags.z);
}

#[test]
fn add_full_carry() {
    let r = alu(AluOp::Add, 0xFF, 0x01, CLEAR);
    assert_eq!(r.result, 0x00);
    assert_eq!(r.flags, Flags { z: true, n: false, h: true, c: true });
}

#[test]
fn adc_uses_carry_in() {
    let r = alu(AluOp::Adc, 0x0E, 0x01, CARRY);
    assert_eq!(r.result, 0x10);
    assert_eq!(r.flags, Flags { z: false, n: false, h: true, c: false });
    let r = alu(AluOp::Adc, 0xFF, 0x00, CARRY);
    assert_eq!(r.result, 0x00);
    assert_eq!(r.flags, Flags { z: true, n: false, h: true, c: true });
}

#[test]
fn sbc_borrows_carry_in() {
    let r = alu(AluOp::Sbc, 0x10, 0x0F, CARRY);
    assert_eq!(r.result, 0x00);
    assert_eq!(r.flags, Flags { z: true, n: true, h: true, c: false });
    let r = alu(AluOp::Sbc, 0x00, 0x00, CARRY);
    assert_eq!(r.result, 0xFF);
    assert!(r.flags.c);
}

#[test]
fn cp_keeps_accumulator() {
    let r = alu(AluOp::Cp, 0x20, 0x30, CLEAR);
    assert_eq!(r.result, 0x20);
    assert_eq!(r.flags, Flags { z: false, n: true, h: false, c: true });
}

#[test]
fn and_or_flags() {
    let r = alu(AluOp::And, 0xF0, 0x0F, CARRY);
    assert_eq!(r, AluOut { result: 0, flags: Flags { z: true, n: false, h: true, c: false } });
    let r = alu(AluOp::Or, 0xF0, 0x0F, CARRY);
    assert_eq!(r, AluOut { result: 0xFF, flags: CLEAR });
}

#[test]
fn shifts_and_swap() {
    assert_eq!(shift(ShiftOp::Rlc, 0x85, CLEAR).result, 0x0B);
    assert!(shift(ShiftOp::Rlc, 0x85, CLEAR).flags.c);
    assert_eq!(shift(ShiftOp::Rr, 0x01, CLEAR).result, 0x00);
    assert!(shift(ShiftOp::Rr, 0x01, CLEAR).flags.z);
    assert_eq!(shift(ShiftOp::Sra, 0x81, CLEAR).result, 0xC0);
    assert_eq!(shift(ShiftOp::Swap, 0xA5, CARRY).result, 0x5A);
    assert!(!shift(ShiftOp::Swap, 0xA5, CARRY).flags.c);
    assert_eq!(shift(ShiftOp::Srl, 0x80, CLEAR).result, 0x40);
}

#[test]
fn add16_half_carry_from_bit_eleven() {
    let (r, f) = add16(0x0FFF, 0x0001, Flags { z: true, n: true, h: false, c: false });
    assert_eq!(r, 0x1000);
    assert_eq!(f, Flags { z: true, n: false, h: true, c: false });
    let (r, f) = add16(0xFFFF, 0x0001, CLEAR);
    assert_eq!(r, 0x0000);
    assert!(f.c);
}

#[test]
fn add_sp_signed_offset() {
    let (r, f) = add_sp(0xFFF8, 0x08);
    assert_eq!(r, 0x0000);
    assert_eq!(f, Flags { z: false, n: false, h: true, c: true });
    let (r, _) = add_sp(0x0100, 0xFE);
    assert_eq!(r, 0x00FE);
}

#[test]
fn echo_ram_mirrors_work_ram() {
    let mut mmu = Mmu::new();
    mmu.write_byte(0xC123, 0x77);
    assert_eq!(mmu.read_byte(0xE123), 0x77);
    mmu.write_byte(0xFDFF, 0x99);
    assert_eq!(mmu.read_byte(0xDDFF), 0x99);
    assert_eq!(mmu.read_byte(0xFDFF), 0x99);
}

#[test]
fn word_round_trip_in_ram() {
    let mut mmu = Mmu::new();
    for (a, v) in [(0xC000u16, 0xBEEFu16), (0xA000, 0x1234), (0xFF80, 0xCAFE), (0xDFFF, 0x0102), (0x8800, 0xFFFF)] {
        mmu.write_word(a, v);
        assert_eq!(mmu.read_word(a), v);
    }
    mmu.write_word(0xDFFF, 0xABCD);
    assert_eq!(mmu.read_byte(0xDFFF), 0xCD);
    assert_eq!(mmu.read_byte(0xC000), 0xAB);
}

#[test]
fn rom_writes_are_discarded() {
    let mut rom = vec![0u8; 0x8000];
    rom[0x0005] = 0x11;
    rom[0x4005] = 0x22;
    let mut mmu = Mmu::new();
    mmu.write_rom_to_bank_0(&rom);
    mmu.write_rom_to_bank_1(&rom);
    mmu.write_byte(0x0005, 0xFF);
    mmu.write_byte(0x4005, 0xFF);
    assert_eq!(mmu.read_byte(0x0005), 0x11);
    assert_eq!(mmu.read_byte(0x4005), 0x22);
}

#[test]
fn special_registers() {
    let mut mmu = Mmu::new();
    mmu.set_io_register(0x04, 0x55);
    mmu.write_byte(0xFF04, 0x12);
    assert_eq!(mmu.read_byte(0xFF04), 0x00);
    mmu.set_io_register(0x44, 0x90);
    mmu.write_byte(0xFF44, 0x10);
    assert_eq!(mmu.read_byte(0xFF44), 0x90);
    mmu.write_byte(0xFF0F, 0x05);
    assert_eq!(mmu.read_byte(0xFF0F), 0x05);
    assert_eq!(mmu.interrupt_flags(), 0x05);
    mmu.write_byte(0xFFFF, 0x1F);
    assert_eq!(mmu.read_byte(0xFFFF), 0x1F);
    assert_eq!(mmu.interrupt_enable(), 0x1F);
    mmu.write_byte(0xFF42, 0x33);
    assert_eq!(mmu.read_byte(0xFF42), 0x33);
    mmu.write_byte(0xFF90, 0x44);
    assert_eq!(mmu.read_byte(0xFF90), 0x44);
}

#[test]
fn boot_io_values() {
    let mmu = Mmu::new();
    assert_eq!(mmu.io_register(0x40), 0x91);
    assert_eq!(mmu.io_register(0x10), 0x80);
    assert_eq!(mmu.io_register(0x26), 0xF1);
    assert_eq!(mmu.io_register(0x47), 0xFC);
    assert_eq!(mmu.io_register(0x05), 0x00);
    let pal: Vec<u8> = (0..4).map(|i| mmu.bg_palette(i)).collect();
    assert_eq!(pal, vec![255, 0, 0, 0]);
}

#[test]
fn bgp_write_rebuilds_palette() {
    let mut mmu = Mmu::new();
    mmu.write_byte(0xFF47, 0xE4);
    let pal: Vec<u8> = (0..4).map(|i| mmu.bg_palette(i)).collect();
    assert_eq!(pal, vec![255, 192, 196, 0]);
    assert_eq!(mmu.read_byte(0xFF47), 0xE4);
}

#[test]
fn dma_copies_into_oam() {
    let mut mmu = Mmu::new();
    for i in 0..160u16 {
        mmu.write_byte(0xC000 + i, (i % 251) as u8 + 1);
    }
    mmu.write_byte(0xFF46, 0xC0);
    for i in 0..160u16 {
        assert_eq!(mmu.read_byte(0xFE00 + i), (i % 251) as u8 + 1);
    }
    assert_eq!(mmu.read_byte(0xFEA0), 0);
}

#[test]
fn oam_writes_above_window_ignored() {
    let mut mmu = Mmu::new();
    mmu.write_byte(0xFE10, 0x21);
    mmu.write_byte(0xFEA0, 0x22);
    assert_eq!(mmu.read_byte(0xFE10), 0x21);
    assert_eq!(mmu.read_byte(0xFEA0), 0x00);
}

#[test]
fn joypad_column_select() {
    let mut mmu = Mmu::new();
    mmu.set_joypad(0x0F, 0x0E);
    mmu.write_byte(0xFF00, 0x20);
    assert_eq!(mmu.read_byte(0xFF00), 0xEE);
    mmu.set_joypad(0x07, 0x0F);
    mmu.write_byte(0xFF00, 0x10);
    assert_eq!(mmu.read_byte(0xFF00), 0xD7);
    mmu.write_byte(0xFF00, 0x30);
    assert_eq!(mmu.read_byte(0xFF00), 0xFF);
}

#[test]
fn tile_map_writes_leave_tileset() {
    let mut mmu = Mmu::new();
    mmu.write_byte(0x97FE, 0xFF);
    mmu.write_byte(0x97FF, 0xFF);
    assert_eq!(mmu.tile_pixel(383, 7, 0), 3);
    mmu.write_byte(0x9800, 0xFF);
    assert_eq!(mmu.read_byte(0x9800), 0xFF);
    assert_eq!(mmu.tile_pixel(0, 0, 0), 0);
}
