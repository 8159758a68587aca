//! The opcode dispatcher: classifies a fetched opcode byte into an
//! operand-shape category, fetches exactly the trailing bytes that shape
//! requires, and routes to the matching operation.  `spec_step` is the
//! complete mathematical model of one dispatch; `do_opcode` is proved to
//! implement it exactly.

use vstd::prelude::*;
use crate::datatypes::Byte;
use crate::byteutils::Width;
use crate::cstate::{CpuState, Flag, MachineView, Reg8, Reg16, wrap_add16};
use crate::fault::Fault;
use crate::modrm;
use crate::modrm::{ModrmByte, spec_effective_operand, spec_reg_operand, spec_disp_len};
use crate::operand::Operand;
use crate::operations;
use crate::operations::{
    spec_inc, spec_b_add, spec_w_add, spec_b_cmp_ri, spec_w_cmp_ri, spec_b_jmp_flag, spec_mov_e,
    spec_b_mov_ge, spec_w_mov_ge, spec_b_mov_eg, spec_w_mov_eg, spec_b_cmp_eg, spec_b_cmp_ei,
};
use crate::oplib::{spec_push, spec_pop_value, spec_pop_state, spec_jump_b, spec_jump_w, spec_call, spec_ret};

verus! {

/// The operand-shape categories an opcode byte can fall in.  Exactly one
/// claims each implemented opcode; each fetches exactly the trailing
/// bytes its shape requires.
#[derive(Clone, Copy, PartialEq, Eq, Structural, Debug)]
pub enum Category {
    /// One trailing immediate byte.
    ImmByte,
    /// One trailing immediate word.
    ImmWord,
    /// A trailing ModR/M byte; the operation works on bytes.
    ModrmByte,
    /// A trailing ModR/M byte; the operation works on words.
    ModrmWord,
    /// No trailing bytes; any argument is encoded in the opcode itself.
    NoArgs,
    /// Group-extended: a ModR/M byte whose `reg` field sub-selects the
    /// operation.
    Group,
    /// Special control opcodes (halt/breakpoint, no-operation).
    Special,
}

/// The category table: the unique category of an opcode byte, or `None`
/// for a byte no category claims.
pub open spec fn spec_classify(opcode: Byte) -> Option<Category> {
    if opcode == 0x04 || (0xB0 <= opcode && opcode <= 0xB7) || opcode == 0x3C || opcode == 0xEB
        || opcode == 0x74 {
        Some(Category::ImmByte)
    } else if opcode == 0x05 || (0xB8 <= opcode && opcode <= 0xBF) || opcode == 0x3D || opcode
        == 0xE8 || opcode == 0xE9 {
        Some(Category::ImmWord)
    } else if opcode == 0x88 || opcode == 0x8A || opcode == 0x38 {
        Some(Category::ModrmByte)
    } else if opcode == 0x89 || opcode == 0x8B || opcode == 0xC6 {
        Some(Category::ModrmWord)
    } else if (0x40 <= opcode && opcode <= 0x47) || (0x50 <= opcode && opcode <= 0x5F) || opcode
        == 0xC3 {
        Some(Category::NoArgs)
    } else if opcode == 0x80 {
        Some(Category::Group)
    } else if opcode == 0xF4 || opcode == 0x90 {
        Some(Category::Special)
    } else {
        None
    }
}

/// Look an opcode byte up in the category table.
pub fn classify(opcode: Byte) -> (r: Option<Category>)
    ensures
        r == spec_classify(opcode),
{
    if opcode == 0x04 || (0xB0 <= opcode && opcode <= 0xB7) || opcode == 0x3C || opcode == 0xEB
        || opcode == 0x74 {
        Some(Category::ImmByte)
    } else if opcode == 0x05 || (0xB8 <= opcode && opcode <= 0xBF) || opcode == 0x3D || opcode
        == 0xE8 || opcode == 0xE9 {
        Some(Category::ImmWord)
    } else if opcode == 0x88 || opcode == 0x8A || opcode == 0x38 {
        Some(Category::ModrmByte)
    } else if opcode == 0x89 || opcode == 0x8B || opcode == 0xC6 {
        Some(Category::ModrmWord)
    } else if (0x40 <= opcode && opcode <= 0x47) || (0x50 <= opcode && opcode <= 0x5F) || opcode
        == 0xC3 {
        Some(Category::NoArgs)
    } else if opcode == 0x80 {
        Some(Category::Group)
    } else if opcode == 0xF4 || opcode == 0x90 {
        Some(Category::Special)
    } else {
        None
    }
}

/// One dispatch of an immediate-byte opcode: the immediate is consumed
/// first, so even the miscategorized arm leaves the cursor advanced.
pub open spec fn spec_step_ib(s: MachineView, opcode: Byte) -> (MachineView, Result<(), Fault>) {
    let immediate = s.mem_at(s.ip);
    let s1 = s.with_ip(wrap_add16(s.ip, 1));
    if opcode == 0x04 {
        (spec_b_add(s1, Reg8::AL, immediate), Ok(()))
    } else if opcode == 0x74 {
        (spec_b_jmp_flag(s1, Flag::Zero, false, immediate), Ok(()))
    } else if opcode == 0x3C {
        (spec_b_cmp_ri(s1, Reg8::AL, immediate), Ok(()))
    } else if opcode == 0xB0 {
        (s1.setreg_b(Reg8::AL, immediate), Ok(()))
    } else if opcode == 0xB1 {
        (s1.setreg_b(Reg8::CL, immediate), Ok(()))
    } else if opcode == 0xB2 {
        (s1.setreg_b(Reg8::DL, immediate), Ok(()))
    } else if opcode == 0xB3 {
        (s1.setreg_b(Reg8::BL, immediate), Ok(()))
    } else if opcode == 0xB4 {
        (s1.setreg_b(Reg8::AH, immediate), Ok(()))
    } else if opcode == 0xB5 {
        (s1.setreg_b(Reg8::CH, immediate), Ok(()))
    } else if opcode == 0xB6 {
        (s1.setreg_b(Reg8::DH, immediate), Ok(()))
    } else if opcode == 0xB7 {
        (s1.setreg_b(Reg8::BH, immediate), Ok(()))
    } else if opcode == 0xEB {
        (spec_jump_b(s1, immediate), Ok(()))
    } else {
        (s1, Err(Fault::UnhandledOpcode(opcode)))
    }
}

/// One dispatch of an immediate-word opcode: the immediate is consumed
/// first, so even the miscategorized arm leaves the cursor advanced.
pub open spec fn spec_step_iw(s: MachineView, opcode: Byte) -> (MachineView, Result<(), Fault>) {
    let immediate = s.mem_w_at(s.ip);
    let s1 = s.with_ip(wrap_add16(s.ip, 2));
    if opcode == 0x05 {
        (spec_w_add(s1, Reg16::AX, immediate), Ok(()))
    } else if opcode == 0x3D {
        (spec_w_cmp_ri(s1, Reg16::AX, immediate), Ok(()))
    } else if opcode == 0xB8 {
        (s1.setreg_w(Reg16::AX, immediate), Ok(()))
    } else if opcode == 0xB9 {
        (s1.setreg_w(Reg16::CX, immediate), Ok(()))
    } else if opcode == 0xBA {
        (s1.setreg_w(Reg16::DX, immediate), Ok(()))
    } else if opcode == 0xBB {
        (s1.setreg_w(Reg16::BX, immediate), Ok(()))
    } else if opcode == 0xBC {
        (s1.setreg_w(Reg16::SP, immediate), Ok(()))
    } else if opcode == 0xBE {
        (s1.setreg_w(Reg16::SI, immediate), Ok(()))
    } else if opcode == 0xBF {
        (s1.setreg_w(Reg16::DI, immediate), Ok(()))
    } else if opcode == 0xE8 {
        (spec_call(s1, immediate), Ok(()))
    } else if opcode == 0xE9 {
        (spec_jump_w(s1, immediate), Ok(()))
    } else {
        (s1, Err(Fault::UnhandledOpcode(opcode)))
    }
}

/// The state after consuming and decoding a ModR/M byte at a width:
/// the encoding byte, then any displacement bytes.
pub open spec fn spec_after_modrm(s: MachineView, width: Width) -> (MachineView, Operand, Operand) {
    let mb = ModrmByte::spec_read(s.mem_at(s.ip));
    let s1 = s.with_ip(wrap_add16(s.ip, 1));
    let effective = spec_effective_operand(s1, mb.md, mb.rm, width);
    let register = spec_reg_operand(width, mb.reg);
    let s2 = s1.with_ip(wrap_add16(s1.ip, spec_disp_len(mb.md, mb.rm)));
    (s2, effective, register)
}

/// One dispatch of a byte-width ModR/M opcode.
pub open spec fn spec_step_mb(s: MachineView, opcode: Byte) -> (MachineView, Result<(), Fault>) {
    let (s2, effective, register) = spec_after_modrm(s, Width::Byte);
    if opcode == 0x88 {
        spec_b_mov_eg(s2, effective, register)
    } else if opcode == 0x8A {
        spec_b_mov_ge(s2, effective, register)
    } else if opcode == 0x38 {
        spec_b_cmp_eg(s2, effective, register)
    } else {
        (s2, Err(Fault::UnhandledOpcode(opcode)))
    }
}

/// One dispatch of a word-width ModR/M opcode.  The move-immediate form
/// consumes one further immediate byte after the decode.
pub open spec fn spec_step_mw(s: MachineView, opcode: Byte) -> (MachineView, Result<(), Fault>) {
    let (s2, effective, register) = spec_after_modrm(s, Width::Word);
    if opcode == 0x89 {
        spec_w_mov_eg(s2, effective, register)
    } else if opcode == 0x8B {
        spec_w_mov_ge(s2, effective, register)
    } else if opcode == 0xC6 {
        let src = s2.mem_at(s2.ip);
        let s3 = s2.with_ip(wrap_add16(s2.ip, 1));
        spec_mov_e(s3, effective, src)
    } else {
        (s2, Err(Fault::UnhandledOpcode(opcode)))
    }
}

/// One dispatch of a no-trailing-bytes opcode.
pub open spec fn spec_step_none(s: MachineView, opcode: Byte) -> (MachineView, Result<(), Fault>) {
    if opcode == 0x40 {
        (spec_inc(s, Reg16::AX), Ok(()))
    } else if opcode == 0x41 {
        (spec_inc(s, Reg16::CX), Ok(()))
    } else if opcode == 0x42 {
        (spec_inc(s, Reg16::DX), Ok(()))
    } else if opcode == 0x43 {
        (spec_inc(s, Reg16::BX), Ok(()))
    } else if opcode == 0x47 {
        (spec_inc(s, Reg16::DI), Ok(()))
    } else if opcode == 0x50 {
        (spec_push(s, s.ax), Ok(()))
    } else if opcode == 0x51 {
        (spec_push(s, s.cx), Ok(()))
    } else if opcode == 0x52 {
        (spec_push(s, s.dx), Ok(()))
    } else if opcode == 0x53 {
        (spec_push(s, s.bx), Ok(()))
    } else if opcode == 0x54 {
        (spec_push(s, s.sp), Ok(()))
    } else if opcode == 0x56 {
        (spec_push(s, s.si), Ok(()))
    } else if opcode == 0x57 {
        (spec_push(s, s.di), Ok(()))
    } else if opcode == 0x58 {
        (spec_pop_state(s).setreg_w(Reg16::AX, spec_pop_value(s)), Ok(()))
    } else if opcode == 0x59 {
        (spec_pop_state(s).setreg_w(Reg16::CX, spec_pop_value(s)), Ok(()))
    } else if opcode == 0x5A {
        (spec_pop_state(s).setreg_w(Reg16::DX, spec_pop_value(s)), Ok(()))
    } else if opcode == 0x5B {
        (spec_pop_state(s).setreg_w(Reg16::BX, spec_pop_value(s)), Ok(()))
    } else if opcode == 0x5C {
        (spec_pop_state(s).setreg_w(Reg16::SP, spec_pop_value(s)), Ok(()))
    } else if opcode == 0x5E {
        (spec_pop_state(s).setreg_w(Reg16::SI, spec_pop_value(s)), Ok(()))
    } else if opcode == 0x5F {
        (spec_pop_state(s).setreg_w(Reg16::DI, spec_pop_value(s)), Ok(()))
    } else if opcode == 0xC3 {
        (spec_ret(s), Ok(()))
    } else {
        (s, Err(Fault::UnhandledOpcode(opcode)))
    }
}

/// One dispatch of a group-extended opcode: the `reg` field of the
/// consumed ModR/M byte sub-selects the operation; an unimplemented
/// sub-selector is a decode fault citing that field.  The compare form
/// consumes its immediate byte only after the decode, so the faulting
/// arm leaves the cursor past the ModR/M encoding alone.
pub open spec fn spec_step_group(s: MachineView, opcode: Byte) -> (MachineView, Result<(), Fault>) {
    if opcode == 0x80 {
        let mb = ModrmByte::spec_read(s.mem_at(s.ip));
        let (s2, effective, register) = spec_after_modrm(s, Width::Byte);
        if mb.reg == 7 {
            let immediate = s2.mem_at(s2.ip);
            let s3 = s2.with_ip(wrap_add16(s2.ip, 1));
            spec_b_cmp_ei(s3, effective, immediate)
        } else {
            (s2, Err(Fault::UnknownGroupOp(mb.reg)))
        }
    } else {
        (s, Err(Fault::UnhandledOpcode(opcode)))
    }
}

/// One dispatch of a special opcode: the halt/breakpoint opcode is an
/// intentional stop; no-operation changes nothing.
pub open spec fn spec_step_special(s: MachineView, opcode: Byte) -> (MachineView, Result<(), Fault>) {
    if opcode == 0xF4 {
        (s, Err(Fault::Breakpoint))
    } else if opcode == 0x90 {
        (s, Ok(()))
    } else {
        (s, Err(Fault::UnhandledOpcode(opcode)))
    }
}

/// One full dispatch of an opcode byte: the category table routes the
/// byte; a byte no category claims is a decode fault citing that byte,
/// with the state untouched.
pub open spec fn spec_step(s: MachineView, opcode: Byte) -> (MachineView, Result<(), Fault>) {
    match spec_classify(opcode) {
        None => (s, Err(Fault::UnknownOpcode(opcode))),
        Some(Category::ImmByte) => spec_step_ib(s, opcode),
        Some(Category::ImmWord) => spec_step_iw(s, opcode),
        Some(Category::ModrmByte) => spec_step_mb(s, opcode),
        Some(Category::ModrmWord) => spec_step_mw(s, opcode),
        Some(Category::NoArgs) => spec_step_none(s, opcode),
        Some(Category::Group) => spec_step_group(s, opcode),
        Some(Category::Special) => spec_step_special(s, opcode),
    }
}

/// Handle opcodes with an immediate byte argument.
fn do_opcode_ib(cs: &mut CpuState, opcode: Byte) -> (r: Result<(), Fault>)
    requires
        old(cs)@.wf(),
    ensures
        final(cs)@.wf(),
        final(cs)@ == spec_step_ib(old(cs)@, opcode).0,
        r == spec_step_ib(old(cs)@, opcode).1,
{
    let immediate = cs.read_b();
    if opcode == 0x04 {
        operations::b_add(cs, Reg8::AL, immediate);
        Ok(())
    } else if opcode == 0x74 {
        operations::jz(cs, immediate);
        Ok(())
    } else if opcode == 0x3C {
        operations::b_cmp_ri(cs, Reg8::AL, immediate);
        Ok(())
    } else if opcode == 0xB0 {
        operations::b_mov_ir(cs, Reg8::AL, immediate);
        Ok(())
    } else if opcode == 0xB1 {
        operations::b_mov_ir(cs, Reg8::CL, immediate);
        Ok(())
    } else if opcode == 0xB2 {
        operations::b_mov_ir(cs, Reg8::DL, immediate);
        Ok(())
    } else if opcode == 0xB3 {
        operations::b_mov_ir(cs, Reg8::BL, immediate);
        Ok(())
    } else if opcode == 0xB4 {
        operations::b_mov_ir(cs, Reg8::AH, immediate);
        Ok(())
    } else if opcode == 0xB5 {
        operations::b_mov_ir(cs, Reg8::CH, immediate);
        Ok(())
    } else if opcode == 0xB6 {
        operations::b_mov_ir(cs, Reg8::DH, immediate);
        Ok(())
    } else if opcode == 0xB7 {
        operations::b_mov_ir(cs, Reg8::BH, immediate);
        Ok(())
    } else if opcode == 0xEB {
        operations::b_jmp(cs, immediate);
        Ok(())
    } else {
        Err(Fault::UnhandledOpcode(opcode))
    }
}

/// Handle opcodes with an immediate word argument.
fn do_opcode_iw(cs: &mut CpuState, opcode: Byte) -> (r: Result<(), Fault>)
    requires
        old(cs)@.wf(),
    ensures
        final(cs)@.wf(),
        final(cs)@ == spec_step_iw(old(cs)@, opcode).0,
        r == spec_step_iw(old(cs)@, opcode).1,
{
    let immediate = cs.read_w();
    if opcode == 0x05 {
        operations::w_add(cs, Reg16::AX, immediate);
        Ok(())
    } else if opcode == 0x3D {
        operations::w_cmp_ri(cs, Reg16::AX, immediate);
        Ok(())
    } else if opcode == 0xB8 {
        operations::w_mov_ir(cs, Reg16::AX, immediate);
        Ok(())
    } else if opcode == 0xB9 {
        operations::w_mov_ir(cs, Reg16::CX, immediate);
        Ok(())
    } else if opcode == 0xBA {
        operations::w_mov_ir(cs, Reg16::DX, immediate);
        Ok(())
    } else if opcode == 0xBB {
        operations::w_mov_ir(cs, Reg16::BX, immediate);
        Ok(())
    } else if opcode == 0xBC {
        operations::w_mov_ir(cs, Reg16::SP, immediate);
        Ok(())
    } else if opcode == 0xBE {
        operations::w_mov_ir(cs, Reg16::SI, immediate);
        Ok(())
    } else if opcode == 0xBF {
        operations::w_mov_ir(cs, Reg16::DI, immediate);
        Ok(())
    } else if opcode == 0xE8 {
        operations::call(cs, immediate);
        Ok(())
    } else if opcode == 0xE9 {
        operations::w_jmp(cs, immediate);
        Ok(())
    } else {
        Err(Fault::UnhandledOpcode(opcode))
    }
}

/// Handle opcodes with a ModR/M argument operating on bytes.
fn do_opcode_mb(cs: &mut CpuState, opcode: Byte) -> (r: Result<(), Fault>)
    requires
        old(cs)@.wf(),
    ensures
        final(cs)@.wf(),
        final(cs)@ == spec_step_mb(old(cs)@, opcode).0,
        r == spec_step_mb(old(cs)@, opcode).1,
{
    let mbyte = cs.read_b();
    let (effective, register) = modrm::decode(cs, mbyte, Width::Byte);
    if opcode == 0x88 {
        operations::b_mov_eg(cs, effective, register)
    } else if opcode == 0x8A {
        operations::b_mov_ge(cs, effective, register)
    } else if opcode == 0x38 {
        operations::b_cmp_eg(cs, effective, register)
    } else {
        Err(Fault::UnhandledOpcode(opcode))
    }
}

/// Handle opcodes with a ModR/M argument operating on words.
fn do_opcode_mw(cs: &mut CpuState, opcode: Byte) -> (r: Result<(), Fault>)
    requires
        old(cs)@.wf(),
    ensures
        final(cs)@.wf(),
        final(cs)@ == spec_step_mw(old(cs)@, opcode).0,
        r == spec_step_mw(old(cs)@, opcode).1,
{
    let mbyte = cs.read_b();
    let (effective, register) = modrm::decode(cs, mbyte, Width::Word);
    if opcode == 0x89 {
        operations::w_mov_eg(cs, effective, register)
    } else if opcode == 0x8B {
        operations::w_mov_ge(cs, effective, register)
    } else if opcode == 0xC6 {
        let src = cs.read_b();
        operations::mov_e(cs, effective, src)
    } else {
        Err(Fault::UnhandledOpcode(opcode))
    }
}

/// Handle opcodes that take no trailing bytes; any argument is encoded
/// in the opcode itself.
fn do_opcode_none(cs: &mut CpuState, opcode: Byte) -> (r: Result<(), Fault>)
    requires
        old(cs)@.wf(),
    ensures
        final(cs)@.wf(),
        final(cs)@ == spec_step_none(old(cs)@, opcode).0,
        r == spec_step_none(old(cs)@, opcode).1,
{
    if opcode == 0x40 {
        operations::inc(cs, Reg16::AX);
        Ok(())
    } else if opcode == 0x41 {
        operations::inc(cs, Reg16::CX);
        Ok(())
    } else if opcode == 0x42 {
        operations::inc(cs, Reg16::DX);
        Ok(())
    } else if opcode == 0x43 {
        operations::inc(cs, Reg16::BX);
        Ok(())
    } else if opcode == 0x47 {
        operations::inc(cs, Reg16::DI);
        Ok(())
    } else if opcode == 0x50 {
        operations::push(cs, Reg16::AX);
        Ok(())
    } else if opcode == 0x51 {
        operations::push(cs, Reg16::CX);
        Ok(())
    } else if opcode == 0x52 {
        operations::push(cs, Reg16::DX);
        Ok(())
    } else if opcode == 0x53 {
        operations::push(cs, Reg16::BX);
        Ok(())
    } else if opcode == 0x54 {
        operations::push(cs, Reg16::SP);
        Ok(())
    } else if opcode == 0x56 {
        operations::push(cs, Reg16::SI);
        Ok(())
    } else if opcode == 0x57 {
        operations::push(cs, Reg16::DI);
        Ok(())
    } else if opcode == 0x58 {
        operations::pop(cs, Reg16::AX);
        Ok(())
    } else if opcode == 0x59 {
        operations::pop(cs, Reg16::CX);
        Ok(())
    } else if opcode == 0x5A {
        operations::pop(cs, Reg16::DX);
        Ok(())
    } else if opcode == 0x5B {
        operations::pop(cs, Reg16::BX);
        Ok(())
    } else if opcode == 0x5C {
        operations::pop(cs, Reg16::SP);
        Ok(())
    } else if opcode == 0x5E {
        operations::pop(cs, Reg16::SI);
        Ok(())
    } else if opcode == 0x5F {
        operations::pop(cs, Reg16::DI);
        Ok(())
    } else if opcode == 0xC3 {
        operations::ret(cs);
        Ok(())
    } else {
        Err(Fault::UnhandledOpcode(opcode))
    }
}

/// Handle group-extended opcodes: the `reg` field of the ModR/M byte
/// sub-selects the operation.
fn do_group(cs: &mut CpuState, opcode: Byte) -> (r: Result<(), Fault>)
    requires
        old(cs)@.wf(),
    ensures
        final(cs)@.wf(),
        final(cs)@ == spec_step_group(old(cs)@, opcode).0,
        r == spec_step_group(old(cs)@, opcode).1,
{
    if opcode != 0x80 {
        return Err(Fault::UnhandledOpcode(opcode));
    }
    let mbyte = cs.read_b();
    let mb = ModrmByte::read(mbyte);
    let (effective, _register) = modrm::decode(cs, mbyte, Width::Byte);
    if mb.reg == 7 {
        let immediate = cs.read_b();
        operations::b_cmp_ei(cs, effective, immediate)
    } else {
        Err(Fault::UnknownGroupOp(mb.reg))
    }
}

/// Handle special opcodes: the halt/breakpoint stop and no-operation.
fn do_special(cs: &mut CpuState, opcode: Byte) -> (r: Result<(), Fault>)
    requires
        old(cs)@.wf(),
    ensures
        final(cs)@.wf(),
        final(cs)@ == spec_step_special(old(cs)@, opcode).0,
        r == spec_step_special(old(cs)@, opcode).1,
{
    if opcode == 0xF4 {
        Err(Fault::Breakpoint)
    } else if opcode == 0x90 {
        Ok(())
    } else {
        Err(Fault::UnhandledOpcode(opcode))
    }
}

/// Dispatch one opcode byte: classify it, fetch exactly the trailing
/// bytes its category requires, and execute the selected operation.
/// The state and result are exactly `spec_step` of the starting state.
pub fn do_opcode(cs: &mut CpuState, opcode: Byte) -> (r: Result<(), Fault>)
    requires
        old(cs)@.wf(),
    ensures
        final(cs)@.wf(),
        final(cs)@ == spec_step(old(cs)@, opcode).0,
        r == spec_step(old(cs)@, opcode).1,
{
    let category = classify(opcode);
    match category {
        None => Err(Fault::UnknownOpcode(opcode)),
        Some(Category::ImmByte) => do_opcode_ib(cs, opcode),
        Some(Category::ImmWord) => do_opcode_iw(cs, opcode),
        Some(Category::ModrmByte) => do_opcode_mb(cs, opcode),
        Some(Category::ModrmWord) => do_opcode_mw(cs, opcode),
        Some(Category::NoArgs) => do_opcode_none(cs, opcode),
        Some(Category::Group) => do_group(cs, opcode),
        Some(Category::Special) => do_special(cs, opcode),
    }
}

/// An opcode byte absent from the category table is a decode fault
/// citing exactly that byte, with the machine state untouched; and that
/// diagnostic arises for no claimed byte, so the table and the handlers
/// make no overlapping claims at the top level.
pub proof fn lemma_unknown_opcode(s: MachineView, opcode: Byte)
    ensures
        spec_classify(opcode) is None ==> spec_step(s, opcode) == (
            s,
            Err::<(), Fault>(Fault::UnknownOpcode(opcode)),
        ),
        spec_step(s, opcode).1 == Err::<(), Fault>(Fault::UnknownOpcode(opcode))
            ==> spec_classify(opcode) is None,
{
}

/// The decode/dispatch tables are internally consistent: no dispatch,
/// from any state, ever faults with a contract violation.  Those
/// variants could only arise from a descriptor handed to the operand
/// resolver in the wrong shape, and the decoder always hands each
/// handler descriptors of the width that handler accesses them at.
pub proof fn lemma_no_contract_violation(s: MachineView, opcode: Byte)
    ensures
        spec_step(s, opcode).1 matches Err(f) ==> !f.spec_is_contract_violation(),
{
}

} // verus!
