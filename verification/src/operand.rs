//! Operand descriptors and the operand resolver: reading or writing the
//! location a resolved descriptor designates, at a given width.

use vstd::prelude::*;
use crate::datatypes::{Byte, Word};
use crate::cstate::{CpuState, MachineView, Reg8, Reg16};
use crate::fault::Fault;

verus! {

/// A resolved operand descriptor: a register reference, a resolved
/// memory address, or a raw immediate.  Produced once per decode and
/// never mutated afterwards.
#[derive(Clone, Copy, PartialEq, Eq, Structural, Debug)]
pub enum Operand {
    RawByte(Byte),
    RawWord(Word),
    Reg8(Reg8),
    Reg16(Reg16),
    MemoryAddress(Word),
}

/// The four status flags an arithmetic operation produces.
#[derive(Clone, Copy, PartialEq, Eq, Structural, Debug)]
pub struct Flags {
    pub carry: bool,
    pub overflow: bool,
    pub sign: bool,
    pub zero: bool,
}

/// The byte an operand designates, or the contract violation that reading
/// it at byte width would be.
pub open spec fn spec_b_value(s: MachineView, o: Operand) -> Result<Byte, Fault> {
    match o {
        Operand::RawByte(v) => Ok(v),
        Operand::RawWord(_) => Err(Fault::WidthMismatch),
        Operand::Reg8(reg) => Ok(s.getreg_b(reg)),
        Operand::Reg16(_) => Err(Fault::WidthMismatch),
        Operand::MemoryAddress(addr) => Ok(s.mem_at(addr)),
    }
}

/// The state after writing a byte through an operand, or the contract
/// violation that the write would be.  A byte written through a 16-bit
/// register descriptor stores the zero-extended value in the whole
/// register.
pub open spec fn spec_b_set(s: MachineView, o: Operand, val: Byte) -> Result<MachineView, Fault> {
    match o {
        Operand::RawByte(_) => Err(Fault::WriteToImmediate),
        Operand::RawWord(_) => Err(Fault::WriteToImmediate),
        Operand::Reg8(reg) => Ok(s.setreg_b(reg, val)),
        Operand::Reg16(reg) => Ok(s.setreg_w(reg, val as u16)),
        Operand::MemoryAddress(addr) => Ok(s.with_mem(addr, val)),
    }
}

/// The word an operand designates, or the contract violation that reading
/// it at word width would be.
pub open spec fn spec_w_value(s: MachineView, o: Operand) -> Result<Word, Fault> {
    match o {
        Operand::RawByte(_) => Err(Fault::WidthMismatch),
        Operand::RawWord(v) => Ok(v),
        Operand::Reg8(_) => Err(Fault::WidthMismatch),
        Operand::Reg16(reg) => Ok(s.getreg_w(reg)),
        Operand::MemoryAddress(addr) => Ok(s.mem_w_at(addr)),
    }
}

/// The state after writing a word through an operand, or the contract
/// violation that the write would be.
pub open spec fn spec_w_set(s: MachineView, o: Operand, val: Word) -> Result<MachineView, Fault> {
    match o {
        Operand::RawByte(_) => Err(Fault::WriteToImmediate),
        Operand::RawWord(_) => Err(Fault::WriteToImmediate),
        Operand::Reg8(_) => Err(Fault::WidthMismatch),
        Operand::Reg16(reg) => Ok(s.setreg_w(reg, val)),
        Operand::MemoryAddress(addr) => Ok(s.with_mem_w(addr, val)),
    }
}

/// Read the byte an operand designates.
pub fn b_operand_value(cs: &CpuState, o: &Operand) -> (r: Result<Byte, Fault>)
    requires
        cs@.wf(),
    ensures
        r == spec_b_value(cs@, *o),
{
    match o {
        Operand::RawByte(v) => Ok(*v),
        Operand::RawWord(_) => Err(Fault::WidthMismatch),
        Operand::Reg8(reg) => Ok(cs.getreg_b(*reg)),
        Operand::Reg16(_) => Err(Fault::WidthMismatch),
        Operand::MemoryAddress(addr) => Ok(cs.getmem(*addr)),
    }
}

/// Write a byte through an operand; through a 16-bit register
/// descriptor the value is zero-extended into the whole register.
pub fn b_operand_set(cs: &mut CpuState, o: &Operand, result: Byte) -> (r: Result<(), Fault>)
    requires
        old(cs)@.wf(),
    ensures
        final(cs)@.wf(),
        match spec_b_set(old(cs)@, *o, result) {
            Ok(s) => r == Ok::<(), Fault>(()) && final(cs)@ == s,
            Err(f) => r == Err::<(), Fault>(f) && final(cs)@ == old(cs)@,
        },
{
    match o {
        Operand::RawByte(_) => Err(Fault::WriteToImmediate),
        Operand::RawWord(_) => Err(Fault::WriteToImmediate),
        Operand::Reg8(reg) => {
            cs.setreg_b(*reg, result);
            Ok(())
        },
        Operand::Reg16(reg) => {
            cs.setreg_w(*reg, result as u16);
            Ok(())
        },
        Operand::MemoryAddress(addr) => {
            cs.setmem(*addr, result);
            Ok(())
        },
    }
}

/// Read the word an operand designates; a memory word spans two
/// consecutive bytes, low byte at the lower address.
pub fn w_operand_value(cs: &CpuState, o: &Operand) -> (r: Result<Word, Fault>)
    requires
        cs@.wf(),
    ensures
        r == spec_w_value(cs@, *o),
{
    match o {
        Operand::RawByte(_) => Err(Fault::WidthMismatch),
        Operand::RawWord(v) => Ok(*v),
        Operand::Reg8(_) => Err(Fault::WidthMismatch),
        Operand::Reg16(reg) => Ok(cs.getreg_w(*reg)),
        Operand::MemoryAddress(addr) => Ok(cs.getmem_w(*addr)),
    }
}

/// Write a word through an operand; a memory word spans two consecutive
/// bytes, low byte at the lower address.
pub fn w_operand_set(cs: &mut CpuState, o: &Operand, result: Word) -> (r: Result<(), Fault>)
    requires
        old(cs)@.wf(),
    ensures
        final(cs)@.wf(),
        match spec_w_set(old(cs)@, *o, result) {
            Ok(s) => r == Ok::<(), Fault>(()) && final(cs)@ == s,
            Err(f) => r == Err::<(), Fault>(f) && final(cs)@ == old(cs)@,
        },
{
    match o {
        Operand::RawByte(_) => Err(Fault::WriteToImmediate),
        Operand::RawWord(_) => Err(Fault::WriteToImmediate),
        Operand::Reg8(_) => Err(Fault::WidthMismatch),
        Operand::Reg16(reg) => {
            cs.setreg_w(*reg, result);
            Ok(())
        },
        Operand::MemoryAddress(addr) => {
            cs.setmem_w(*addr, result);
            Ok(())
        },
    }
}

} // verus!
