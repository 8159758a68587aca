//! The instruction operations layer: one function per semantic
//! instruction, each composing operand resolution, the arithmetic engine
//! and the machine-state contract.  Every operation's contract pins the
//! exact state it produces; the ones that resolve operand descriptors
//! also pin exactly when they fault.

use vstd::prelude::*;
use crate::datatypes::{Byte, Word};
use crate::byteutils::{AluOp, Width, spec_alu_result};
use crate::cstate::{CpuState, Flag, MachineView, Reg8, Reg16};
use crate::fault::Fault;
use crate::operand::{Operand, spec_b_value, spec_b_set, spec_w_value, spec_w_set};
use crate::oplib;
use crate::oplib::{
    spec_arith_flags, spec_logic_flags, spec_push, spec_pop_value, spec_pop_state, spec_jump_b,
    spec_jump_w, spec_call, spec_ret,
};

verus! {

/// The state after incrementing a 16-bit register: the wrapped sum of
/// the register and one, with all four flags recomputed.
pub open spec fn spec_inc(s: MachineView, reg: Reg16) -> MachineView {
    let cur = s.getreg_w(reg) as int;
    spec_arith_flags(AluOp::Add, Width::Word, s, cur, 1).setreg_w(
        reg,
        spec_alu_result(AluOp::Add, Width::Word, cur, 1) as u16,
    )
}

/// The state after decrementing a 16-bit register: the wrapped
/// difference of the register and one, with all four flags recomputed.
pub open spec fn spec_dec(s: MachineView, reg: Reg16) -> MachineView {
    let cur = s.getreg_w(reg) as int;
    spec_arith_flags(AluOp::Sub, Width::Word, s, cur, 1).setreg_w(
        reg,
        spec_alu_result(AluOp::Sub, Width::Word, cur, 1) as u16,
    )
}

/// The state after an add-immediate to an 8-bit register.
pub open spec fn spec_b_add(s: MachineView, reg: Reg8, immediate: Byte) -> MachineView {
    let cur = s.getreg_b(reg) as int;
    spec_arith_flags(AluOp::Add, Width::Byte, s, cur, immediate as int).setreg_b(
        reg,
        spec_alu_result(AluOp::Add, Width::Byte, cur, immediate as int) as u8,
    )
}

/// The state after an add-immediate to a 16-bit register.
pub open spec fn spec_w_add(s: MachineView, reg: Reg16, immediate: Word) -> MachineView {
    let cur = s.getreg_w(reg) as int;
    spec_arith_flags(AluOp::Add, Width::Word, s, cur, immediate as int).setreg_w(
        reg,
        spec_alu_result(AluOp::Add, Width::Word, cur, immediate as int) as u16,
    )
}

/// The state after comparing an 8-bit register with an immediate: only
/// the flags of the subtraction are kept.
pub open spec fn spec_b_cmp_ri(s: MachineView, reg: Reg8, immediate: Byte) -> MachineView {
    spec_arith_flags(AluOp::Sub, Width::Byte, s, s.getreg_b(reg) as int, immediate as int)
}

/// The state after comparing a 16-bit register with an immediate: only
/// the flags of the subtraction are kept.
pub open spec fn spec_w_cmp_ri(s: MachineView, reg: Reg16, immediate: Word) -> MachineView {
    spec_arith_flags(AluOp::Sub, Width::Word, s, s.getreg_w(reg) as int, immediate as int)
}

/// The state after a conditional byte jump on one flag: the jump is
/// taken iff the (possibly inverted) flag holds.
pub open spec fn spec_b_jmp_flag(s: MachineView, flag: Flag, invert: bool, immediate: Byte) -> MachineView {
    if s.get_flag(flag) != invert {
        spec_jump_b(s, immediate)
    } else {
        s
    }
}

/// The state after a conditional byte jump on the or of two flags: the
/// jump is taken iff the (possibly inverted) disjunction holds.
pub open spec fn spec_b_jmp_flags(s: MachineView, flag0: Flag, flag1: Flag, invert: bool, immediate: Byte) -> MachineView {
    if (s.get_flag(flag0) || s.get_flag(flag1)) != invert {
        spec_jump_b(s, immediate)
    } else {
        s
    }
}

/// The state after a move of a byte value into an effective operand, or
/// the fault the write would be, with the state unchanged.
pub open spec fn spec_mov_e(s: MachineView, effective: Operand, src: Byte) -> (MachineView, Result<(), Fault>) {
    match spec_b_set(s, effective, src) {
        Ok(s2) => (s2, Ok(())),
        Err(f) => (s, Err(f)),
    }
}

/// The state after a byte move from an effective operand into the
/// register operand, or the first fault on the way: the register operand
/// must be an 8-bit register and the source byte-readable.
pub open spec fn spec_b_mov_ge(s: MachineView, src: Operand, dest: Operand) -> (MachineView, Result<(), Fault>) {
    match dest {
        Operand::Reg8(reg) => match spec_b_value(s, src) {
            Ok(v) => (s.setreg_b(reg, v), Ok(())),
            Err(f) => (s, Err(f)),
        },
        _ => (s, Err(Fault::NotARegister)),
    }
}

/// The state after a word move from an effective operand into the
/// register operand, or the first fault on the way.
pub open spec fn spec_w_mov_ge(s: MachineView, src: Operand, dest: Operand) -> (MachineView, Result<(), Fault>) {
    match dest {
        Operand::Reg16(reg) => match spec_w_value(s, src) {
            Ok(v) => (s.setreg_w(reg, v), Ok(())),
            Err(f) => (s, Err(f)),
        },
        _ => (s, Err(Fault::NotARegister)),
    }
}

/// The state after a byte move from one operand into another, or the
/// first fault on the way.
pub open spec fn spec_b_mov_eg(s: MachineView, dest: Operand, src: Operand) -> (MachineView, Result<(), Fault>) {
    match spec_b_value(s, src) {
        Ok(v) => match spec_b_set(s, dest, v) {
            Ok(s2) => (s2, Ok(())),
            Err(f) => (s, Err(f)),
        },
        Err(f) => (s, Err(f)),
    }
}

/// The state after a word move from one operand into another, or the
/// first fault on the way.
pub open spec fn spec_w_mov_eg(s: MachineView, dest: Operand, src: Operand) -> (MachineView, Result<(), Fault>) {
    match spec_w_value(s, src) {
        Ok(v) => match spec_w_set(s, dest, v) {
            Ok(s2) => (s2, Ok(())),
            Err(f) => (s, Err(f)),
        },
        Err(f) => (s, Err(f)),
    }
}

/// The state after a word-width or of two operands, committed to the
/// left one with the logical flags, or the first fault on the way.  A
/// write fault leaves the already-committed flags in place.
pub open spec fn spec_w_or_eg(s: MachineView, left: Operand, right: Operand) -> (MachineView, Result<(), Fault>) {
    match (spec_w_value(s, left), spec_w_value(s, right)) {
        (Ok(lv), Ok(rv)) => {
            let flagged = spec_logic_flags(s, lv | rv);
            match spec_w_set(flagged, left, lv | rv) {
                Ok(s2) => (s2, Ok(())),
                Err(f) => (flagged, Err(f)),
            }
        },
        (Err(f), _) => (s, Err(f)),
        (_, Err(f)) => (s, Err(f)),
    }
}

/// The state after a word-width exclusive or of two operands, committed
/// to the left one with the logical flags, or the first fault on the
/// way.  A write fault leaves the already-committed flags in place.
pub open spec fn spec_w_xor_eg(s: MachineView, left: Operand, right: Operand) -> (MachineView, Result<(), Fault>) {
    match (spec_w_value(s, left), spec_w_value(s, right)) {
        (Ok(lv), Ok(rv)) => {
            let flagged = spec_logic_flags(s, lv ^ rv);
            match spec_w_set(flagged, left, lv ^ rv) {
                Ok(s2) => (s2, Ok(())),
                Err(f) => (flagged, Err(f)),
            }
        },
        (Err(f), _) => (s, Err(f)),
        (_, Err(f)) => (s, Err(f)),
    }
}

/// The state after a word-width add of two operands, committed to the
/// left one with all four flags, or the first fault on the way.  A write
/// fault leaves the already-committed flags in place.
pub open spec fn spec_w_add_eg(s: MachineView, left: Operand, right: Operand) -> (MachineView, Result<(), Fault>) {
    match (spec_w_value(s, left), spec_w_value(s, right)) {
        (Ok(lv), Ok(rv)) => {
            let flagged = spec_arith_flags(AluOp::Add, Width::Word, s, lv as int, rv as int);
            let result = spec_alu_result(AluOp::Add, Width::Word, lv as int, rv as int) as u16;
            match spec_w_set(flagged, left, result) {
                Ok(s2) => (s2, Ok(())),
                Err(f) => (flagged, Err(f)),
            }
        },
        (Err(f), _) => (s, Err(f)),
        (_, Err(f)) => (s, Err(f)),
    }
}

/// The state after a byte compare of two operands: only the flags of the
/// subtraction are kept; or the first fault on the way.
pub open spec fn spec_b_cmp_eg(s: MachineView, left: Operand, right: Operand) -> (MachineView, Result<(), Fault>) {
    match (spec_b_value(s, left), spec_b_value(s, right)) {
        (Ok(lv), Ok(rv)) => (
            spec_arith_flags(AluOp::Sub, Width::Byte, s, lv as int, rv as int),
            Ok(()),
        ),
        (Err(f), _) => (s, Err(f)),
        (_, Err(f)) => (s, Err(f)),
    }
}

/// The state after a word compare of two operands: only the flags of the
/// subtraction are kept; or the first fault on the way.
pub open spec fn spec_w_cmp_eg(s: MachineView, left: Operand, right: Operand) -> (MachineView, Result<(), Fault>) {
    match (spec_w_value(s, left), spec_w_value(s, right)) {
        (Ok(lv), Ok(rv)) => (
            spec_arith_flags(AluOp::Sub, Width::Word, s, lv as int, rv as int),
            Ok(()),
        ),
        (Err(f), _) => (s, Err(f)),
        (_, Err(f)) => (s, Err(f)),
    }
}

/// The state after a byte compare of an effective operand with an
/// immediate, or the fault reading the operand would be.
pub open spec fn spec_b_cmp_ei(s: MachineView, effective: Operand, immediate: Byte) -> (MachineView, Result<(), Fault>) {
    match spec_b_value(s, effective) {
        Ok(v) => (
            spec_arith_flags(AluOp::Sub, Width::Byte, s, v as int, immediate as int),
            Ok(()),
        ),
        Err(f) => (s, Err(f)),
    }
}

/// The state after a word compare of an effective operand with an
/// immediate, or the fault reading the operand would be.
pub open spec fn spec_w_cmp_ei(s: MachineView, effective: Operand, immediate: Word) -> (MachineView, Result<(), Fault>) {
    match spec_w_value(s, effective) {
        Ok(v) => (
            spec_arith_flags(AluOp::Sub, Width::Word, s, v as int, immediate as int),
            Ok(()),
        ),
        Err(f) => (s, Err(f)),
    }
}

/// The state after exchanging two byte operands: both reads happen
/// before either write; or the first fault on the way.  A fault on the
/// second write leaves the first write in place.
pub open spec fn spec_b_xchg_eg(s: MachineView, left: Operand, right: Operand) -> (MachineView, Result<(), Fault>) {
    match (spec_b_value(s, left), spec_b_value(s, right)) {
        (Ok(lv), Ok(rv)) => match spec_b_set(s, left, rv) {
            Ok(s2) => match spec_b_set(s2, right, lv) {
                Ok(s3) => (s3, Ok(())),
                Err(f) => (s2, Err(f)),
            },
            Err(f) => (s, Err(f)),
        },
        (Err(f), _) => (s, Err(f)),
        (_, Err(f)) => (s, Err(f)),
    }
}

/// Return: pop the code cursor off the stack.
pub fn ret(cs: &mut CpuState)
    requires
        old(cs)@.wf(),
    ensures
        final(cs)@.wf(),
        final(cs)@ == spec_ret(old(cs)@),
{
    oplib::ret(cs);
}

/// Increment a 16-bit register, recomputing all four flags.
pub fn inc(cs: &mut CpuState, reg: Reg16)
    ensures
        final(cs)@ == spec_inc(old(cs)@, reg),
{
    let cur_val = cs.getreg_w(reg);
    let new_val = oplib::w_add(cs, cur_val, 1);
    cs.setreg_w(reg, new_val);
}

/// Decrement a 16-bit register, recomputing all four flags.
pub fn dec(cs: &mut CpuState, reg: Reg16)
    ensures
        final(cs)@ == spec_dec(old(cs)@, reg),
{
    let cur_val = cs.getreg_w(reg);
    let new_val = oplib::w_sub(cs, cur_val, 1);
    cs.setreg_w(reg, new_val);
}

/// Set the carry flag; nothing else changes.
pub fn stc(cs: &mut CpuState)
    ensures
        final(cs)@ == old(cs)@.with_flags(true, old(cs)@.overflow, old(cs)@.sign, old(cs)@.zero),
{
    cs.set_carry();
}

/// Push a 16-bit register onto the stack.
pub fn push(cs: &mut CpuState, reg: Reg16)
    requires
        old(cs)@.wf(),
    ensures
        final(cs)@.wf(),
        final(cs)@ == spec_push(old(cs)@, old(cs)@.getreg_w(reg)),
{
    let cur_val = cs.getreg_w(reg);
    oplib::push(cs, cur_val);
}

/// Pop the word at the stack cursor into a 16-bit register.
pub fn pop(cs: &mut CpuState, reg: Reg16)
    requires
        old(cs)@.wf(),
    ensures
        final(cs)@.wf(),
        final(cs)@ == spec_pop_state(old(cs)@).setreg_w(reg, spec_pop_value(old(cs)@)),
{
    let popped_val = oplib::pop(cs);
    cs.setreg_w(reg, popped_val);
}

/// Exchange two 16-bit registers: both reads happen before either write.
pub fn xchg(cs: &mut CpuState, left: Reg16, right: Reg16)
    ensures
        final(cs)@ == old(cs)@.setreg_w(left, old(cs)@.getreg_w(right)).setreg_w(
            right,
            old(cs)@.getreg_w(left),
        ),
{
    let left_value = cs.getreg_w(left);
    let right_value = cs.getreg_w(right);
    cs.setreg_w(left, right_value);
    cs.setreg_w(right, left_value);
}

/// Unconditional jump by a signed 8-bit displacement.
pub fn b_jmp(cs: &mut CpuState, immediate: Byte)
    ensures
        final(cs)@ == spec_jump_b(old(cs)@, immediate),
{
    oplib::jump_b(cs, immediate);
}

/// Unconditional jump by a signed 16-bit displacement.
pub fn w_jmp(cs: &mut CpuState, immediate: Word)
    ensures
        final(cs)@ == spec_jump_w(old(cs)@, immediate),
{
    oplib::jump_w(cs, immediate);
}

/// Jump by a signed 8-bit displacement iff the zero flag is set; with
/// the zero flag clear the state does not change (the displacement was
/// already consumed by the dispatcher).
pub fn jz(cs: &mut CpuState, immediate: Byte)
    ensures
        final(cs)@ == spec_b_jmp_flag(old(cs)@, Flag::Zero, false, immediate),
{
    b_jmp_flag(cs, Flag::Zero, false, immediate);
}

/// Conditional jump on one flag, optionally inverted: the jump is taken
/// iff `flag != invert`; otherwise the state does not change.
pub fn b_jmp_flag(cs: &mut CpuState, flag: Flag, invert: bool, immediate: Byte)
    ensures
        final(cs)@ == spec_b_jmp_flag(old(cs)@, flag, invert, immediate),
{
    let flag_value = cs.get_flag(flag);
    if !(flag_value ^ invert) {
        return ;
    }
    oplib::jump_b(cs, immediate);
}

/// Conditional jump on the or of two flags, optionally inverted: the
/// jump is taken iff `(flag0 || flag1) != invert`.
pub fn b_jmp_flags(cs: &mut CpuState, flag0: Flag, flag1: Flag, invert: bool, immediate: Byte)
    ensures
        final(cs)@ == spec_b_jmp_flags(old(cs)@, flag0, flag1, invert, immediate),
{
    let flag0_value = cs.get_flag(flag0);
    let flag1_value = cs.get_flag(flag1);
    let flags_value = flag0_value || flag1_value;
    if !(flags_value ^ invert) {
        return ;
    }
    oplib::jump_b(cs, immediate);
}

/// Conditional jump taken iff neither flag is set.
pub fn b_jmp_inv_flags(cs: &mut CpuState, flag0: Flag, flag1: Flag, immediate: Byte)
    ensures
        final(cs)@ == spec_b_jmp_flags(old(cs)@, flag0, flag1, true, immediate),
{
    let flag0_value = cs.get_flag(flag0);
    let flag1_value = cs.get_flag(flag1);
    if flag0_value || flag1_value {
        return ;
    }
    oplib::jump_b(cs, immediate);
}

/// Call: push the return address, then jump by the signed 16-bit
/// displacement.
pub fn call(cs: &mut CpuState, immediate: Word)
    requires
        old(cs)@.wf(),
    ensures
        final(cs)@.wf(),
        final(cs)@ == spec_call(old(cs)@, immediate),
{
    oplib::call(cs, immediate);
}

/// Add an immediate byte to an 8-bit register, committing all four
/// flags.
pub fn b_add(cs: &mut CpuState, reg: Reg8, immediate: Byte)
    ensures
        final(cs)@ == spec_b_add(old(cs)@, reg, immediate),
{
    let cur_val = cs.getreg_b(reg);
    let new_val = oplib::b_add(cs, cur_val, immediate);
    cs.setreg_b(reg, new_val);
}

/// Add an immediate word to a 16-bit register, committing all four
/// flags.
pub fn w_add(cs: &mut CpuState, reg: Reg16, immediate: Word)
    ensures
        final(cs)@ == spec_w_add(old(cs)@, reg, immediate),
{
    let cur_val = cs.getreg_w(reg);
    let new_val = oplib::w_add(cs, cur_val, immediate);
    cs.setreg_w(reg, new_val);
}

/// Compare an 8-bit register with an immediate: flags only.
pub fn b_cmp_ri(cs: &mut CpuState, reg: Reg8, immediate: Byte)
    ensures
        final(cs)@ == spec_b_cmp_ri(old(cs)@, reg, immediate),
{
    let reg_val = cs.getreg_b(reg);
    oplib::b_sub(cs, reg_val, immediate);
}

/// Compare a 16-bit register with an immediate: flags only.
pub fn w_cmp_ri(cs: &mut CpuState, reg: Reg16, immediate: Word)
    ensures
        final(cs)@ == spec_w_cmp_ri(old(cs)@, reg, immediate),
{
    let reg_val = cs.getreg_w(reg);
    oplib::w_sub(cs, reg_val, immediate);
}

/// Move an immediate byte into an 8-bit register; no flag changes.
pub fn b_mov_ir(cs: &mut CpuState, reg: Reg8, immediate: Byte)
    ensures
        final(cs)@ == old(cs)@.setreg_b(reg, immediate),
{
    cs.setreg_b(reg, immediate);
}

/// Move an immediate word into a 16-bit register; no flag changes.
pub fn w_mov_ir(cs: &mut CpuState, reg: Reg16, immediate: Word)
    ensures
        final(cs)@ == old(cs)@.setreg_w(reg, immediate),
{
    cs.setreg_w(reg, immediate);
}

/// Move an immediate byte into an effective operand; no flag changes.
pub fn mov_e(cs: &mut CpuState, effective: Operand, src: Byte) -> (r: Result<(), Fault>)
    requires
        old(cs)@.wf(),
    ensures
        final(cs)@.wf(),
        final(cs)@ == spec_mov_e(old(cs)@, effective, src).0,
        r == spec_mov_e(old(cs)@, effective, src).1,
{
    crate::operand::b_operand_set(cs, &effective, src)
}

/// Move the byte an effective operand designates into the register
/// operand, which must be an 8-bit register.
pub fn b_mov_ge(cs: &mut CpuState, src: Operand, dest: Operand) -> (r: Result<(), Fault>)
    requires
        old(cs)@.wf(),
    ensures
        final(cs)@.wf(),
        final(cs)@ == spec_b_mov_ge(old(cs)@, src, dest).0,
        r == spec_b_mov_ge(old(cs)@, src, dest).1,
{
    let reg = match dest {
        Operand::Reg8(reg) => reg,
        _ => {
            return Err(Fault::NotARegister);
        },
    };
    let src_value = crate::operand::b_operand_value(cs, &src)?;
    cs.setreg_b(reg, src_value);
    Ok(())
}

/// Move the word an effective operand designates into the register
/// operand, which must be a 16-bit register.
pub fn w_mov_ge(cs: &mut CpuState, src: Operand, dest: Operand) -> (r: Result<(), Fault>)
    requires
        old(cs)@.wf(),
    ensures
        final(cs)@.wf(),
        final(cs)@ == spec_w_mov_ge(old(cs)@, src, dest).0,
        r == spec_w_mov_ge(old(cs)@, src, dest).1,
{
    let reg = match dest {
        Operand::Reg16(reg) => reg,
        _ => {
            return Err(Fault::NotARegister);
        },
    };
    let src_value = crate::operand::w_operand_value(cs, &src)?;
    cs.setreg_w(reg, src_value);
    Ok(())
}

/// Copy a byte from the source operand into the destination operand; no
/// flag changes.
pub fn b_mov_eg(cs: &mut CpuState, dest: Operand, src: Operand) -> (r: Result<(), Fault>)
    requires
        old(cs)@.wf(),
    ensures
        final(cs)@.wf(),
        final(cs)@ == spec_b_mov_eg(old(cs)@, dest, src).0,
        r == spec_b_mov_eg(old(cs)@, dest, src).1,
{
    let src_value = crate::operand::b_operand_value(cs, &src)?;
    crate::operand::b_operand_set(cs, &dest, src_value)
}

/// Copy a word from the source operand into the destination operand; no
/// flag changes.
pub fn w_mov_eg(cs: &mut CpuState, dest: Operand, src: Operand) -> (r: Result<(), Fault>)
    requires
        old(cs)@.wf(),
    ensures
        final(cs)@.wf(),
        final(cs)@ == spec_w_mov_eg(old(cs)@, dest, src).0,
        r == spec_w_mov_eg(old(cs)@, dest, src).1,
{
    let src_value = crate::operand::w_operand_value(cs, &src)?;
    crate::operand::w_operand_set(cs, &dest, src_value)
}

/// Word-width or of two operands, committed to the left one with the
/// logical flags.
pub fn w_or_eg(cs: &mut CpuState, left: Operand, right: Operand) -> (r: Result<(), Fault>)
    requires
        old(cs)@.wf(),
    ensures
        final(cs)@.wf(),
        final(cs)@ == spec_w_or_eg(old(cs)@, left, right).0,
        r == spec_w_or_eg(old(cs)@, left, right).1,
{
    let left_value = crate::operand::w_operand_value(cs, &left)?;
    let right_value = crate::operand::w_operand_value(cs, &right)?;
    let result = oplib::w_or(cs, left_value, right_value);
    crate::operand::w_operand_set(cs, &left, result)
}

/// Word-width exclusive or of two operands, committed to the left one
/// with the logical flags.
pub fn w_xor_eg(cs: &mut CpuState, left: Operand, right: Operand) -> (r: Result<(), Fault>)
    requires
        old(cs)@.wf(),
    ensures
        final(cs)@.wf(),
        final(cs)@ == spec_w_xor_eg(old(cs)@, left, right).0,
        r == spec_w_xor_eg(old(cs)@, left, right).1,
{
    let left_value = crate::operand::w_operand_value(cs, &left)?;
    let right_value = crate::operand::w_operand_value(cs, &right)?;
    let result = oplib::w_xor(cs, left_value, right_value);
    crate::operand::w_operand_set(cs, &left, result)
}

/// Word-width add of two operands, committed to the left one with all
/// four flags.
pub fn w_add_eg(cs: &mut CpuState, left: Operand, right: Operand) -> (r: Result<(), Fault>)
    requires
        old(cs)@.wf(),
    ensures
        final(cs)@.wf(),
        final(cs)@ == spec_w_add_eg(old(cs)@, left, right).0,
        r == spec_w_add_eg(old(cs)@, left, right).1,
{
    let left_value = crate::operand::w_operand_value(cs, &left)?;
    let right_value = crate::operand::w_operand_value(cs, &right)?;
    let result = oplib::w_add(cs, left_value, right_value);
    crate::operand::w_operand_set(cs, &left, result)
}

/// Byte compare of two operands: flags only.
pub fn b_cmp_eg(cs: &mut CpuState, left: Operand, right: Operand) -> (r: Result<(), Fault>)
    requires
        old(cs)@.wf(),
    ensures
        final(cs)@.wf(),
        final(cs)@ == spec_b_cmp_eg(old(cs)@, left, right).0,
        r == spec_b_cmp_eg(old(cs)@, left, right).1,
{
    let left_value = crate::operand::b_operand_value(cs, &left)?;
    let right_value = crate::operand::b_operand_value(cs, &right)?;
    oplib::b_sub(cs, left_value, right_value);
    Ok(())
}

/// Word compare of two operands: flags only.
pub fn w_cmp_eg(cs: &mut CpuState, left: Operand, right: Operand) -> (r: Result<(), Fault>)
    requires
        old(cs)@.wf(),
    ensures
        final(cs)@.wf(),
        final(cs)@ == spec_w_cmp_eg(old(cs)@, left, right).0,
        r == spec_w_cmp_eg(old(cs)@, left, right).1,
{
    let left_value = crate::operand::w_operand_value(cs, &left)?;
    let right_value = crate::operand::w_operand_value(cs, &right)?;
    oplib::w_sub(cs, left_value, right_value);
    Ok(())
}

/// Byte compare of an effective operand with an immediate: flags only.
pub fn b_cmp_ei(cs: &mut CpuState, effective: Operand, immediate: Byte) -> (r: Result<(), Fault>)
    requires
        old(cs)@.wf(),
    ensures
        final(cs)@.wf(),
        final(cs)@ == spec_b_cmp_ei(old(cs)@, effective, immediate).0,
        r == spec_b_cmp_ei(old(cs)@, effective, immediate).1,
{
    let effective_value = crate::operand::b_operand_value(cs, &effective)?;
    oplib::b_sub(cs, effective_value, immediate);
    Ok(())
}

/// Word compare of an effective operand with an immediate: flags only.
pub fn w_cmp_ei(cs: &mut CpuState, effective: Operand, immediate: Word) -> (r: Result<(), Fault>)
    requires
        old(cs)@.wf(),
    ensures
        final(cs)@.wf(),
        final(cs)@ == spec_w_cmp_ei(old(cs)@, effective, immediate).0,
        r == spec_w_cmp_ei(old(cs)@, effective, immediate).1,
{
    let effective_value = crate::operand::w_operand_value(cs, &effective)?;
    oplib::w_sub(cs, effective_value, immediate);
    Ok(())
}

/// Exchange two byte operands: both reads happen before either write.
pub fn b_xchg_eg(cs: &mut CpuState, left: Operand, right: Operand) -> (r: Result<(), Fault>)
    requires
        old(cs)@.wf(),
    ensures
        final(cs)@.wf(),
        final(cs)@ == spec_b_xchg_eg(old(cs)@, left, right).0,
        r == spec_b_xchg_eg(old(cs)@, left, right).1,
{
    let left_value = crate::operand::b_operand_value(cs, &left)?;
    let right_value = crate::operand::b_operand_value(cs, &right)?;
    crate::operand::b_operand_set(cs, &left, right_value)?;
    crate::operand::b_operand_set(cs, &right, left_value)
}

} // verus!
