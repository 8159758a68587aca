//! Machine-state behaviour: register aliasing, the stack discipline,
//! cursor reads and memory access.

use emu86::cstate::{CpuState, Flag, Reg16, Reg8};
use emu86::oplib;

#[test]
fn new_state_is_zeroed() {
    let cs = CpuState::new();
    assert_eq!(cs.getreg_w(Reg16::AX), 0);
    assert_eq!(cs.getreg_w(Reg16::SP), 0);
    assert_eq!(cs.ip, 0);
    assert!(!cs.get_flag(Flag::Carry));
    assert!(!cs.get_flag(Flag::Overflow));
    assert!(!cs.get_flag(Flag::Sign));
    assert!(!cs.get_flag(Flag::Zero));
    assert_eq!(cs.getmem(0), 0);
    assert_eq!(cs.getmem(0xFFFF), 0);
}

#[test]
fn writing_high_half_keeps_low_half() {
    let mut cs = CpuState::new();
    cs.setreg_w(Reg16::AX, 0x1234);
    cs.setreg_b(Reg8::AH, 0xAB);
    assert_eq!(cs.getreg_w(Reg16::AX), 0xAB34);
    assert_eq!(cs.getreg_b(Reg8::AL), 0x34);
    assert_eq!(cs.getreg_b(Reg8::AH), 0xAB);
}

#[test]
fn writing_low_half_keeps_high_half() {
    let mut cs = CpuState::new();
    cs.setreg_w(Reg16::BX, 0x1234);
    cs.setreg_b(Reg8::BL, 0xCD);
    assert_eq!(cs.getreg_w(Reg16::BX), 0x12CD);
    assert_eq!(cs.getreg_b(Reg8::BH), 0x12);
    assert_eq!(cs.getreg_b(Reg8::BL), 0xCD);
}

#[test]
fn aliasing_holds_for_every_register_pair() {
    let pairs = [
        (Reg16::AX, Reg8::AL, Reg8::AH),
        (Reg16::BX, Reg8::BL, Reg8::BH),
        (Reg16::CX, Reg8::CL, Reg8::CH),
        (Reg16::DX, Reg8::DL, Reg8::DH),
    ];
    for (word, low, high) in pairs {
        let mut cs = CpuState::new();
        cs.setreg_w(word, 0x55AA);
        cs.setreg_b(high, 0x11);
        assert_eq!(cs.getreg_w(word), 0x11AA);
        cs.setreg_b(low, 0x22);
        assert_eq!(cs.getreg_w(word), 0x1122);
    }
}

#[test]
fn read_b_advances_cursor() {
    let mut cs = CpuState::new();
    cs.setmem(0x0100, 0x42);
    cs.ip = 0x0100;
    assert_eq!(cs.read_b(), 0x42);
    assert_eq!(cs.ip, 0x0101);
}

#[test]
fn read_w_is_little_endian() {
    let mut cs = CpuState::new();
    cs.setmem(0x0200, 0xEF);
    cs.setmem(0x0201, 0xBE);
    cs.ip = 0x0200;
    assert_eq!(cs.read_w(), 0xBEEF);
    assert_eq!(cs.ip, 0x0202);
}

#[test]
fn cursor_wraps_at_address_space_end() {
    let mut cs = CpuState::new();
    cs.setmem(0xFFFF, 0x99);
    cs.ip = 0xFFFF;
    assert_eq!(cs.read_b(), 0x99);
    assert_eq!(cs.ip, 0x0000);
}

#[test]
fn memory_word_access_is_little_endian() {
    let mut cs = CpuState::new();
    cs.setmem_w(0x0300, 0xBEEF);
    assert_eq!(cs.getmem(0x0300), 0xEF);
    assert_eq!(cs.getmem(0x0301), 0xBE);
    assert_eq!(cs.getmem_w(0x0300), 0xBEEF);
}

#[test]
fn set_flags_replaces_all_four() {
    let mut cs = CpuState::new();
    cs.set_flags(true, false, true, false);
    assert!(cs.get_flag(Flag::Carry));
    assert!(!cs.get_flag(Flag::Overflow));
    assert!(cs.get_flag(Flag::Sign));
    assert!(!cs.get_flag(Flag::Zero));
}

#[test]
fn set_carry_keeps_other_flags() {
    let mut cs = CpuState::new();
    cs.set_flags(false, true, false, true);
    cs.set_carry();
    assert!(cs.get_flag(Flag::Carry));
    assert!(cs.get_flag(Flag::Overflow));
    assert!(!cs.get_flag(Flag::Sign));
    assert!(cs.get_flag(Flag::Zero));
}

#[test]
fn push_then_pop_returns_value_and_cursor() {
    let mut cs = CpuState::new();
    cs.setreg_w(Reg16::SP, 0x8000);
    oplib::push(&mut cs, 0xBEEF);
    assert_eq!(cs.getreg_w(Reg16::SP), 0x7FFE);
    assert_eq!(cs.getmem(0x7FFE), 0xEF);
    assert_eq!(cs.getmem(0x7FFF), 0xBE);
    let popped = oplib::pop(&mut cs);
    assert_eq!(popped, 0xBEEF);
    assert_eq!(cs.getreg_w(Reg16::SP), 0x8000);
}

#[test]
fn push_pop_roundtrips_at_stack_wrap() {
    let mut cs = CpuState::new();
    cs.setreg_w(Reg16::SP, 0x0001);
    oplib::push(&mut cs, 0x1234);
    assert_eq!(cs.getreg_w(Reg16::SP), 0xFFFF);
    let popped = oplib::pop(&mut cs);
    assert_eq!(popped, 0x1234);
    assert_eq!(cs.getreg_w(Reg16::SP), 0x0001);
}

#[test]
fn jump_b_adds_signed_displacement() {
    let mut cs = CpuState::new();
    cs.ip = 0x0100;
    oplib::jump_b(&mut cs, 0x10);
    assert_eq!(cs.ip, 0x0110);
    oplib::jump_b(&mut cs, 0xF0); // -16
    assert_eq!(cs.ip, 0x0100);
    cs.ip = 0x0005;
    oplib::jump_b(&mut cs, 0xF0); // -16 wraps below zero
    assert_eq!(cs.ip, 0xFFF5);
}

#[test]
fn jump_w_adds_signed_displacement() {
    let mut cs = CpuState::new();
    cs.ip = 0x1000;
    oplib::jump_w(&mut cs, 0x0234);
    assert_eq!(cs.ip, 0x1234);
    oplib::jump_w(&mut cs, 0xFFFF); // -1
    assert_eq!(cs.ip, 0x1233);
}

#[test]
fn call_pushes_return_address_then_jumps() {
    let mut cs = CpuState::new();
    cs.setreg_w(Reg16::SP, 0x8000);
    cs.ip = 0x0105;
    oplib::call(&mut cs, 0x0020);
    assert_eq!(cs.ip, 0x0125);
    assert_eq!(cs.getreg_w(Reg16::SP), 0x7FFE);
    assert_eq!(cs.getmem_w(0x7FFE), 0x0105);
}

#[test]
fn ret_pops_cursor() {
    let mut cs = CpuState::new();
    cs.setreg_w(Reg16::SP, 0x7FFE);
    cs.setmem_w(0x7FFE, 0x0105);
    oplib::ret(&mut cs);
    assert_eq!(cs.ip, 0x0105);
    assert_eq!(cs.getreg_w(Reg16::SP), 0x8000);
}

#[test]
fn flag_arithmetic_commits_flags() {
    let mut cs = CpuState::new();
    let result = oplib::b_add(&mut cs, 0xFF, 0x01);
    assert_eq!(result, 0x00);
    assert!(cs.get_flag(Flag::Carry));
    assert!(cs.get_flag(Flag::Zero));
    assert!(!cs.get_flag(Flag::Sign));
    assert!(!cs.get_flag(Flag::Overflow));
}

#[test]
fn logical_ops_clear_carry_and_overflow() {
    let mut cs = CpuState::new();
    cs.set_flags(true, true, false, false);
    let result = oplib::w_or(&mut cs, 0x8000, 0x0001);
    assert_eq!(result, 0x8001);
    assert!(!cs.get_flag(Flag::Carry));
    assert!(!cs.get_flag(Flag::Overflow));
    assert!(cs.get_flag(Flag::Sign));
    assert!(!cs.get_flag(Flag::Zero));

    let result = oplib::w_xor(&mut cs, 0x00FF, 0x00FF);
    assert_eq!(result, 0x0000);
    assert!(cs.get_flag(Flag::Zero));
    assert!(!cs.get_flag(Flag::Sign));
}
