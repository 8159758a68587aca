//! Primitive state transformations shared by the instruction operations:
//! flag-committing arithmetic, the stack discipline, and cursor jumps.

use vstd::prelude::*;
use vstd::arithmetic::div_mod::{lemma_small_mod, lemma_mod_add_multiples_vanish};
use crate::datatypes::{Byte, Word};
use crate::byteutils;
use crate::byteutils::{AluOp, Width, spec_alu_result, spec_alu_carry, spec_alu_overflow, spec_sign_of};
use crate::cstate::{CpuState, MachineView, Reg16, wrap_add16};

verus! {

/// The value of a byte read as a signed 8-bit displacement.
pub open spec fn spec_signed8(b: Byte) -> int {
    if b >= 128 {
        b - 256
    } else {
        b as int
    }
}

/// The value of a word read as a signed 16-bit displacement.
pub open spec fn spec_signed16(w: Word) -> int {
    if w >= 32768 {
        w - 65536
    } else {
        w as int
    }
}

/// The state after an arithmetic operation commits its flags: carry,
/// overflow, sign and zero are recomputed from the operands, everything
/// else stays.
pub open spec fn spec_arith_flags(op: AluOp, w: Width, s: MachineView, left: int, right: int) -> MachineView {
    let result = spec_alu_result(op, w, left, right);
    s.with_flags(
        spec_alu_carry(op, w, left, right),
        spec_alu_overflow(op, w, left, right),
        spec_sign_of(w, result),
        result == 0,
    )
}

/// The state after a word-width logical operation commits its flags:
/// carry and overflow clear, sign and zero from the result.
pub open spec fn spec_logic_flags(s: MachineView, result: Word) -> MachineView {
    s.with_flags(false, false, result >= 32768, result == 0)
}

/// The state after pushing a word: the stack cursor moves down by two,
/// then the word is written at the new cursor.
pub open spec fn spec_push(s: MachineView, val: Word) -> MachineView {
    let new_sp = wrap_add16(s.sp, -2);
    s.setreg_w(Reg16::SP, new_sp).with_mem_w(new_sp, val)
}

/// The word a pop returns: the one at the current stack cursor.
pub open spec fn spec_pop_value(s: MachineView) -> Word {
    s.mem_w_at(s.sp)
}

/// The state after a pop: the stack cursor moves up by two.
pub open spec fn spec_pop_state(s: MachineView) -> MachineView {
    s.setreg_w(Reg16::SP, wrap_add16(s.sp, 2))
}

/// The state after a relative byte jump: the signed 8-bit displacement
/// is added to the code cursor.
pub open spec fn spec_jump_b(s: MachineView, disp: Byte) -> MachineView {
    s.with_ip(wrap_add16(s.ip, spec_signed8(disp)))
}

/// The state after a relative word jump: the signed 16-bit displacement
/// is added to the code cursor.
pub open spec fn spec_jump_w(s: MachineView, disp: Word) -> MachineView {
    s.with_ip(wrap_add16(s.ip, spec_signed16(disp)))
}

/// The state after a call: the return address (the cursor as it stands,
/// past the consumed displacement) is pushed, then the jump is taken.
pub open spec fn spec_call(s: MachineView, disp: Word) -> MachineView {
    spec_push(s, s.ip).with_ip(wrap_add16(s.ip, spec_signed16(disp)))
}

/// The state after a return: the cursor is popped off the stack.
pub open spec fn spec_ret(s: MachineView) -> MachineView {
    spec_pop_state(s).with_ip(spec_pop_value(s))
}

/// Byte addition: returns the wrapped sum and commits all four flags.
pub fn b_add(cs: &mut CpuState, left: Byte, right: Byte) -> (r: Byte)
    ensures
        r == spec_alu_result(AluOp::Add, Width::Byte, left as int, right as int),
        final(cs)@ == spec_arith_flags(AluOp::Add, Width::Byte, old(cs)@, left as int, right as int),
{
    let (result, carry, overflow, sign, zero) = byteutils::b_add(left, right);
    cs.set_flags(carry, overflow, sign, zero);
    result
}

/// Byte subtraction: returns the wrapped difference and commits all four
/// flags.
pub fn b_sub(cs: &mut CpuState, left: Byte, right: Byte) -> (r: Byte)
    ensures
        r == spec_alu_result(AluOp::Sub, Width::Byte, left as int, right as int),
        final(cs)@ == spec_arith_flags(AluOp::Sub, Width::Byte, old(cs)@, left as int, right as int),
{
    let (result, carry, overflow, sign, zero) = byteutils::b_sub(left, right);
    cs.set_flags(carry, overflow, sign, zero);
    result
}

/// Word addition: returns the wrapped sum and commits all four flags.
pub fn w_add(cs: &mut CpuState, left: Word, right: Word) -> (r: Word)
    ensures
        r == spec_alu_result(AluOp::Add, Width::Word, left as int, right as int),
        final(cs)@ == spec_arith_flags(AluOp::Add, Width::Word, old(cs)@, left as int, right as int),
{
    let (result, carry, overflow, sign, zero) = byteutils::w_add(left, right);
    cs.set_flags(carry, overflow, sign, zero);
    result
}

/// Word subtraction: returns the wrapped difference and commits all four
/// flags.
pub fn w_sub(cs: &mut CpuState, left: Word, right: Word) -> (r: Word)
    ensures
        r == spec_alu_result(AluOp::Sub, Width::Word, left as int, right as int),
        final(cs)@ == spec_arith_flags(AluOp::Sub, Width::Word, old(cs)@, left as int, right as int),
{
    let (result, carry, overflow, sign, zero) = byteutils::w_sub(left, right);
    cs.set_flags(carry, overflow, sign, zero);
    result
}

/// Word bitwise or: returns the result and commits the logical flags.
pub fn w_or(cs: &mut CpuState, left: Word, right: Word) -> (r: Word)
    ensures
        r == (left | right),
        final(cs)@ == spec_logic_flags(old(cs)@, left | right),
{
    let result = left | right;
    cs.set_flags(false, false, result >= 32768, result == 0);
    result
}

/// Word bitwise exclusive or: returns the result and commits the logical
/// flags.
pub fn w_xor(cs: &mut CpuState, left: Word, right: Word) -> (r: Word)
    ensures
        r == (left ^ right),
        final(cs)@ == spec_logic_flags(old(cs)@, left ^ right),
{
    let result = left ^ right;
    cs.set_flags(false, false, result >= 32768, result == 0);
    result
}

/// Push a word onto the stack: the stack cursor moves down by two, then
/// the word is written at the new cursor.
pub fn push(cs: &mut CpuState, val: Word)
    requires
        old(cs)@.wf(),
    ensures
        final(cs)@.wf(),
        final(cs)@ == spec_push(old(cs)@, val),
{
    let new_sp: Word = if cs.sp >= 2 {
        proof {
            lemma_mod_add_multiples_vanish(cs.sp - 2, 65536);
            lemma_small_mod((cs.sp - 2) as nat, 65536);
        }
        cs.sp - 2
    } else {
        proof {
            lemma_mod_add_multiples_vanish(cs.sp - 2, 65536);
            lemma_small_mod((cs.sp + 65534) as nat, 65536);
        }
        cs.sp + 65534
    };
    cs.setreg_w(Reg16::SP, new_sp);
    cs.setmem_w(new_sp, val);
}

/// Pop a word off the stack: the word at the current cursor is read,
/// then the cursor moves up by two.
pub fn pop(cs: &mut CpuState) -> (r: Word)
    requires
        old(cs)@.wf(),
    ensures
        final(cs)@.wf(),
        r == spec_pop_value(old(cs)@),
        final(cs)@ == spec_pop_state(old(cs)@),
{
    let val = cs.getmem_w(cs.sp);
    let new_sp: Word = if cs.sp <= 65533 {
        proof {
            lemma_small_mod((cs.sp + 2) as nat, 65536);
        }
        cs.sp + 2
    } else {
        proof {
            lemma_mod_add_multiples_vanish(cs.sp - 65534, 65536);
            lemma_small_mod((cs.sp - 65534) as nat, 65536);
        }
        cs.sp - 65534
    };
    cs.setreg_w(Reg16::SP, new_sp);
    val
}

/// Jump by a signed 8-bit displacement.
pub fn jump_b(cs: &mut CpuState, disp: Byte)
    ensures
        final(cs)@ == spec_jump_b(old(cs)@, disp),
{
    let ext: Word = if disp >= 128 {
        disp as u16 + 0xFF00
    } else {
        disp as u16
    };
    proof {
        if disp >= 128 {
            lemma_mod_add_multiples_vanish(cs.ip + spec_signed8(disp), 65536);
        }
    }
    let new_ip: Word = ((cs.ip as u32 + ext as u32) % 65536) as u16;
    cs.ip = new_ip;
}

/// Jump by a signed 16-bit displacement.
pub fn jump_w(cs: &mut CpuState, disp: Word)
    ensures
        final(cs)@ == spec_jump_w(old(cs)@, disp),
{
    proof {
        if disp >= 32768 {
            lemma_mod_add_multiples_vanish(cs.ip + spec_signed16(disp), 65536);
        }
    }
    let new_ip: Word = ((cs.ip as u32 + disp as u32) % 65536) as u16;
    cs.ip = new_ip;
}

/// Call: push the return address (the cursor as it stands), then jump by
/// the signed 16-bit displacement.
pub fn call(cs: &mut CpuState, disp: Word)
    requires
        old(cs)@.wf(),
    ensures
        final(cs)@.wf(),
        final(cs)@ == spec_call(old(cs)@, disp),
{
    let ret_addr = cs.ip;
    push(cs, ret_addr);
    jump_w(cs, disp);
}

/// Return: pop the code cursor off the stack.
pub fn ret(cs: &mut CpuState)
    requires
        old(cs)@.wf(),
    ensures
        final(cs)@.wf(),
        final(cs)@ == spec_ret(old(cs)@),
{
    let target = pop(cs);
    cs.ip = target;
}

/// Push then pop with nothing in between: the value that comes back is
/// exactly the value pushed, and the stack cursor is back at its
/// original position.
pub proof fn lemma_push_pop(s: MachineView, val: Word)
    requires
        s.wf(),
    ensures
        spec_pop_value(spec_push(s, val)) == val,
        spec_pop_state(spec_push(s, val)).sp == s.sp,
{
    let new_sp = wrap_add16(s.sp, -2);
    let pushed = spec_push(s, val);
    let lo_addr = new_sp;
    let hi_addr = wrap_add16(new_sp, 1);
    assert(lo_addr != hi_addr);
    assert(pushed.mem[lo_addr as int] == crate::byteutils::spec_low8(val));
    assert(pushed.mem[hi_addr as int] == crate::byteutils::spec_high8(val));
    crate::byteutils::lemma_join_split(val);
    crate::byteutils::lemma_split_join(crate::byteutils::spec_low8(val), crate::byteutils::spec_high8(val));
    assert(wrap_add16(new_sp, 2) == s.sp) by {
        lemma_mod_add_multiples_vanish(s.sp - 2, 65536);
        crate::cstate::lemma_wrap_add_again(s.sp, 65534, 2);
        lemma_mod_add_multiples_vanish(s.sp as int, 65536);
        lemma_small_mod(s.sp as nat, 65536);
    }
}

} // verus!
