//! Addressing-mode decoding: bit-group splitting, register naming,
//! effective-address formulas, displacement fetching and determinism.

use emu86::byteutils::Width;
use emu86::cstate::{CpuState, Reg16, Reg8};
use emu86::modrm::{decode, modrm_reg16, modrm_reg8, ModrmByte};
use emu86::operand::Operand;

#[test]
fn modrm_byte_splits_bit_groups() {
    let mb = ModrmByte::read(0b11_010_001);
    assert_eq!(mb.md, 0b11);
    assert_eq!(mb.reg, 0b010);
    assert_eq!(mb.rm, 0b001);

    let mb = ModrmByte::read(0x00);
    assert_eq!((mb.md, mb.reg, mb.rm), (0, 0, 0));

    let mb = ModrmByte::read(0xFF);
    assert_eq!((mb.md, mb.reg, mb.rm), (3, 7, 7));
}

#[test]
fn register_numbering_matches_architecture() {
    assert_eq!(modrm_reg8(0), Reg8::AL);
    assert_eq!(modrm_reg8(1), Reg8::CL);
    assert_eq!(modrm_reg8(2), Reg8::DL);
    assert_eq!(modrm_reg8(3), Reg8::BL);
    assert_eq!(modrm_reg8(4), Reg8::AH);
    assert_eq!(modrm_reg8(5), Reg8::CH);
    assert_eq!(modrm_reg8(6), Reg8::DH);
    assert_eq!(modrm_reg8(7), Reg8::BH);

    assert_eq!(modrm_reg16(0), Reg16::AX);
    assert_eq!(modrm_reg16(1), Reg16::CX);
    assert_eq!(modrm_reg16(2), Reg16::DX);
    assert_eq!(modrm_reg16(3), Reg16::BX);
    assert_eq!(modrm_reg16(4), Reg16::SP);
    assert_eq!(modrm_reg16(5), Reg16::BP);
    assert_eq!(modrm_reg16(6), Reg16::SI);
    assert_eq!(modrm_reg16(7), Reg16::DI);
}

#[test]
fn register_direct_mode_yields_register_operands() {
    let mut cs = CpuState::new();
    // mod=11, reg=000 (AL), rm=001 (CL)
    let (effective, register) = decode(&mut cs, 0b11_000_001, Width::Byte);
    assert_eq!(effective, Operand::Reg8(Reg8::CL));
    assert_eq!(register, Operand::Reg8(Reg8::AL));
    assert_eq!(cs.ip, 0);

    let (effective, register) = decode(&mut cs, 0b11_011_100, Width::Word);
    assert_eq!(effective, Operand::Reg16(Reg16::SP));
    assert_eq!(register, Operand::Reg16(Reg16::BX));
}

#[test]
fn memory_mode_without_displacement_uses_base_formula() {
    let mut cs = CpuState::new();
    cs.setreg_w(Reg16::BX, 0x1000);
    cs.setreg_w(Reg16::SI, 0x0234);
    // mod=00, reg=000, rm=000: [BX+SI]
    let (effective, _) = decode(&mut cs, 0b00_000_000, Width::Byte);
    assert_eq!(effective, Operand::MemoryAddress(0x1234));
    assert_eq!(cs.ip, 0);
}

#[test]
fn memory_mode_with_byte_displacement() {
    let mut cs = CpuState::new();
    cs.setreg_w(Reg16::BP, 0x2000);
    cs.setreg_w(Reg16::DI, 0x0100);
    cs.setmem(0x0000, 0x10);
    cs.ip = 0;
    // mod=01, reg=000, rm=011: [BP+DI+disp8]
    let (effective, _) = decode(&mut cs, 0b01_000_011, Width::Byte);
    assert_eq!(effective, Operand::MemoryAddress(0x2110));
    assert_eq!(cs.ip, 1);
}

#[test]
fn byte_displacement_is_sign_extended() {
    let mut cs = CpuState::new();
    cs.setreg_w(Reg16::SI, 0x1000);
    cs.setmem(0x0000, 0xFF); // -1
    cs.ip = 0;
    // mod=01, reg=000, rm=100: [SI+disp8]
    let (effective, _) = decode(&mut cs, 0b01_000_100, Width::Byte);
    assert_eq!(effective, Operand::MemoryAddress(0x0FFF));
    assert_eq!(cs.ip, 1);
}

#[test]
fn memory_mode_with_word_displacement() {
    let mut cs = CpuState::new();
    cs.setreg_w(Reg16::BX, 0x4000);
    cs.setmem(0x0000, 0x34);
    cs.setmem(0x0001, 0x12);
    cs.ip = 0;
    // mod=10, reg=000, rm=111: [BX+disp16]
    let (effective, _) = decode(&mut cs, 0b10_000_111, Width::Byte);
    assert_eq!(effective, Operand::MemoryAddress(0x5234));
    assert_eq!(cs.ip, 2);
}

#[test]
fn direct_address_mode_reads_address_word() {
    let mut cs = CpuState::new();
    cs.setreg_w(Reg16::BP, 0x9999); // must not take part
    cs.setmem(0x0000, 0xEF);
    cs.setmem(0x0001, 0xBE);
    cs.ip = 0;
    // mod=00, reg=000, rm=110: direct [disp16]
    let (effective, _) = decode(&mut cs, 0b00_000_110, Width::Byte);
    assert_eq!(effective, Operand::MemoryAddress(0xBEEF));
    assert_eq!(cs.ip, 2);
}

#[test]
fn effective_address_wraps_into_address_space() {
    let mut cs = CpuState::new();
    cs.setreg_w(Reg16::BX, 0xFFFF);
    cs.setreg_w(Reg16::SI, 0x0002);
    let (effective, _) = decode(&mut cs, 0b00_000_000, Width::Byte);
    assert_eq!(effective, Operand::MemoryAddress(0x0001));
}

#[test]
fn decoding_twice_from_identical_state_is_identical() {
    let encodings = [0b00_000_000u8, 0b01_010_011, 0b10_101_111, 0b11_110_001, 0b00_011_110];
    for encoding in encodings {
        let mut first = CpuState::new();
        first.setreg_w(Reg16::BX, 0x1111);
        first.setreg_w(Reg16::BP, 0x2222);
        first.setreg_w(Reg16::SI, 0x0300);
        first.setreg_w(Reg16::DI, 0x0400);
        first.setmem(0x0010, 0x7F);
        first.setmem(0x0011, 0x01);
        first.ip = 0x0010;
        let mut second = CpuState::new();
        second.setreg_w(Reg16::BX, 0x1111);
        second.setreg_w(Reg16::BP, 0x2222);
        second.setreg_w(Reg16::SI, 0x0300);
        second.setreg_w(Reg16::DI, 0x0400);
        second.setmem(0x0010, 0x7F);
        second.setmem(0x0011, 0x01);
        second.ip = 0x0010;

        let a = decode(&mut first, encoding, Width::Word);
        let b = decode(&mut second, encoding, Width::Word);
        assert_eq!(a, b);
        assert_eq!(first.ip, second.ip);
    }
}
