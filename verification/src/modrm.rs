//! The ModR/M-style addressing-mode decoder: one encoding byte, whose bit
//! groups are `{mod: 2, reg: 3, rm: 3}` high-to-low, resolves to a pair
//! of operand descriptors.  Memory operands fetch their trailing
//! displacement bytes from the code stream during decode, so the decoder
//! advances the code cursor and touches nothing else in the state.

use vstd::prelude::*;
use vstd::arithmetic::div_mod::lemma_mod_add_multiples_vanish;
use crate::datatypes::{Byte, Word};
use crate::byteutils::Width;
use crate::cstate::{CpuState, MachineView, Reg8, Reg16, wrap_add16};
use crate::oplib::spec_signed8;
use crate::operand::Operand;

verus! {

/// The three bit groups of an encoding byte.
#[derive(Clone, Copy, PartialEq, Eq, Structural, Debug)]
pub struct ModrmByte {
    pub md: u8,
    pub reg: u8,
    pub rm: u8,
}

impl ModrmByte {
    /// The bit groups of `b`: `md` its top two bits, `reg` the next
    /// three, `rm` the low three.
    pub open spec fn spec_read(b: Byte) -> ModrmByte {
        ModrmByte { md: b / 64, reg: (b / 8) % 8, rm: b % 8 }
    }

    /// Split an encoding byte into its bit groups.
    pub fn read(b: Byte) -> (r: ModrmByte)
        ensures
            r == ModrmByte::spec_read(b),
            r.md < 4,
            r.reg < 8,
            r.rm < 8,
    {
        ModrmByte { md: b / 64, reg: (b / 8) % 8, rm: b % 8 }
    }
}

/// The byte-register naming of a 3-bit register number.
pub open spec fn spec_reg8(n: u8) -> Reg8 {
    if n == 0 {
        Reg8::AL
    } else if n == 1 {
        Reg8::CL
    } else if n == 2 {
        Reg8::DL
    } else if n == 3 {
        Reg8::BL
    } else if n == 4 {
        Reg8::AH
    } else if n == 5 {
        Reg8::CH
    } else if n == 6 {
        Reg8::DH
    } else {
        Reg8::BH
    }
}

/// The word-register naming of a 3-bit register number.
pub open spec fn spec_reg16(n: u8) -> Reg16 {
    if n == 0 {
        Reg16::AX
    } else if n == 1 {
        Reg16::CX
    } else if n == 2 {
        Reg16::DX
    } else if n == 3 {
        Reg16::BX
    } else if n == 4 {
        Reg16::SP
    } else if n == 5 {
        Reg16::BP
    } else if n == 6 {
        Reg16::SI
    } else {
        Reg16::DI
    }
}

/// Map a 3-bit register number to its byte-register name.
pub fn modrm_reg8(n: u8) -> (r: Reg8)
    requires
        n < 8,
    ensures
        r == spec_reg8(n),
{
    if n == 0 {
        Reg8::AL
    } else if n == 1 {
        Reg8::CL
    } else if n == 2 {
        Reg8::DL
    } else if n == 3 {
        Reg8::BL
    } else if n == 4 {
        Reg8::AH
    } else if n == 5 {
        Reg8::CH
    } else if n == 6 {
        Reg8::DH
    } else {
        Reg8::BH
    }
}

/// Map a 3-bit register number to its word-register name.
pub fn modrm_reg16(n: u8) -> (r: Reg16)
    requires
        n < 8,
    ensures
        r == spec_reg16(n),
{
    if n == 0 {
        Reg16::AX
    } else if n == 1 {
        Reg16::CX
    } else if n == 2 {
        Reg16::DX
    } else if n == 3 {
        Reg16::BX
    } else if n == 4 {
        Reg16::SP
    } else if n == 5 {
        Reg16::BP
    } else if n == 6 {
        Reg16::SI
    } else {
        Reg16::DI
    }
}

/// The register descriptor of a 3-bit register number, named at the
/// operating width.
pub open spec fn spec_reg_operand(width: Width, n: u8) -> Operand {
    match width {
        Width::Byte => Operand::Reg8(spec_reg8(n)),
        Width::Word => Operand::Reg16(spec_reg16(n)),
    }
}

/// Build the register descriptor of a 3-bit register number at a width.
pub fn reg_operand(width: Width, n: u8) -> (r: Operand)
    requires
        n < 8,
    ensures
        r == spec_reg_operand(width, n),
{
    match width {
        Width::Byte => Operand::Reg8(modrm_reg8(n)),
        Width::Word => Operand::Reg16(modrm_reg16(n)),
    }
}

/// The architecture's fixed base-address formula of an `rm` field, as an
/// unreduced register sum.  (For `mod == 00`, `rm == 110` the base is
/// not used: the address is a direct displacement word.)
pub open spec fn spec_base_sum(s: MachineView, rm: u8) -> int {
    if rm == 0 {
        s.bx + s.si
    } else if rm == 1 {
        s.bx + s.di
    } else if rm == 2 {
        s.bp + s.si
    } else if rm == 3 {
        s.bp + s.di
    } else if rm == 4 {
        s.si as int
    } else if rm == 5 {
        s.di as int
    } else if rm == 6 {
        s.bp as int
    } else {
        s.bx as int
    }
}

/// How many displacement bytes a `mod`/`rm` combination fetches from the
/// code stream.
pub open spec fn spec_disp_len(md: u8, rm: u8) -> int {
    if md == 1 {
        1
    } else if md == 2 {
        2
    } else if md == 0 && rm == 6 {
        2
    } else {
        0
    }
}

/// The resolved memory address of a `mod != 11` combination: the base
/// register sum plus the displacement fetched at the code cursor (none
/// for `mod == 00`; a signed byte for `mod == 01`; a word for
/// `mod == 10`), reduced into the address space.  `mod == 00` with
/// `rm == 110` is the direct case: the fetched word is the address.
pub open spec fn spec_effective_addr(s: MachineView, md: u8, rm: u8) -> Word {
    if md == 0 && rm == 6 {
        s.mem_w_at(s.ip)
    } else {
        let disp: int = if md == 1 {
            spec_signed8(s.mem_at(s.ip))
        } else if md == 2 {
            s.mem_w_at(s.ip) as int
        } else {
            0
        };
        wrap_add16(0, spec_base_sum(s, rm) + disp)
    }
}

/// The effective-operand descriptor of a `mod`/`rm` combination at a
/// width: a register for `mod == 11`, a resolved memory address
/// otherwise.
pub open spec fn spec_effective_operand(s: MachineView, md: u8, rm: u8, width: Width) -> Operand {
    if md == 3 {
        spec_reg_operand(width, rm)
    } else {
        Operand::MemoryAddress(spec_effective_addr(s, md, rm))
    }
}

/// Decode an encoding byte into the descriptor pair
/// `(effective operand, register operand)`, fetching any trailing
/// displacement bytes from the code stream.  Beyond the cursor advance
/// those fetches cause, the machine state does not change.
pub fn decode(cs: &mut CpuState, modrm: Byte, width: Width) -> (r: (Operand, Operand))
    requires
        old(cs)@.wf(),
    ensures
        final(cs)@.wf(),
        ({
            let mb = ModrmByte::spec_read(modrm);
            &&& r.0 == spec_effective_operand(old(cs)@, mb.md, mb.rm, width)
            &&& r.1 == spec_reg_operand(width, mb.reg)
            &&& final(cs)@ == old(cs)@.with_ip(wrap_add16(old(cs)@.ip, spec_disp_len(mb.md, mb.rm)))
        }),
{
    let mb = ModrmByte::read(modrm);
    let register = reg_operand(width, mb.reg);
    let effective: Operand = if mb.md == 3 {
        reg_operand(width, mb.rm)
    } else if mb.md == 0 && mb.rm == 6 {
        let addr = cs.read_w();
        Operand::MemoryAddress(addr)
    } else {
        let base = base_sum(cs, mb.rm);
        let addr: Word = if mb.md == 1 {
            let d = cs.read_b();
            let ext: Word = if d >= 128 {
                d as u16 + 0xFF00
            } else {
                d as u16
            };
            proof {
                if d >= 128 {
                    lemma_mod_add_multiples_vanish(
                        spec_base_sum(old(cs)@, mb.rm) + spec_signed8(d),
                        65536,
                    );
                }
            }
            ((base + ext as u32) % 65536) as u16
        } else if mb.md == 2 {
            let d = cs.read_w();
            ((base + d as u32) % 65536) as u16
        } else {
            ((base % 65536) as u16)
        };
        Operand::MemoryAddress(addr)
    };
    (effective, register)
}

/// The base register sum of an `rm` field, unreduced.
fn base_sum(cs: &CpuState, rm: u8) -> (r: u32)
    requires
        rm < 8,
    ensures
        r == spec_base_sum(cs@, rm),
{
    if rm == 0 {
        cs.bx as u32 + cs.si as u32
    } else if rm == 1 {
        cs.bx as u32 + cs.di as u32
    } else if rm == 2 {
        cs.bp as u32 + cs.si as u32
    } else if rm == 3 {
        cs.bp as u32 + cs.di as u32
    } else if rm == 4 {
        cs.si as u32
    } else if rm == 5 {
        cs.di as u32
    } else if rm == 6 {
        cs.bp as u32
    } else {
        cs.bx as u32
    }
}

/// Decoding is deterministic: two machine states that agree on the
/// registers the address formulas read, the code cursor and memory
/// resolve the same encoding byte to the same descriptor pair, whatever
/// their other fields; and the cursor advancement,
/// `spec_disp_len(md, rm)`, depends on the encoding byte alone.
pub proof fn lemma_decode_deterministic(s1: MachineView, s2: MachineView, modrm: Byte, width: Width)
    requires
        s1.bx == s2.bx,
        s1.bp == s2.bp,
        s1.si == s2.si,
        s1.di == s2.di,
        s1.ip == s2.ip,
        s1.mem == s2.mem,
    ensures
        ({
            let mb = ModrmByte::spec_read(modrm);
            spec_effective_operand(s1, mb.md, mb.rm, width) == spec_effective_operand(
                s2,
                mb.md,
                mb.rm,
                width,
            )
        }),
{
}

} // verus!
