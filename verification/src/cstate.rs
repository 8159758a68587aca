//! The machine state: register file, flags, memory and the code cursor,
//! together with its mathematical view and the read/write contract that
//! the decoder and the operations work against.

use vstd::prelude::*;
use vstd::arithmetic::div_mod::{lemma_small_mod, lemma_add_mod_noop};
use crate::datatypes::{Byte, Word};
use crate::byteutils::{spec_low8, spec_high8, spec_join8, low8, high8, join_low8, join_high8};

verus! {

/// Number of addressable memory bytes: one per 16-bit address.
pub const MEM_SIZE: usize = 65536;

/// The named 16-bit registers.
#[derive(Clone, Copy, PartialEq, Eq, Structural, Debug)]
pub enum Reg16 {
    AX,
    BX,
    CX,
    DX,
    SP,
    BP,
    SI,
    DI,
}

/// The named 8-bit registers, each an aliased half of a 16-bit register.
#[derive(Clone, Copy, PartialEq, Eq, Structural, Debug)]
pub enum Reg8 {
    AL,
    AH,
    BL,
    BH,
    CL,
    CH,
    DL,
    DH,
}

/// The four status flags.
#[derive(Clone, Copy, PartialEq, Eq, Structural, Debug)]
pub enum Flag {
    Carry,
    Overflow,
    Sign,
    Zero,
}

/// The 16-bit register whose storage an 8-bit register aliases into.
pub open spec fn parent_of(reg: Reg8) -> Reg16 {
    match reg {
        Reg8::AL | Reg8::AH => Reg16::AX,
        Reg8::BL | Reg8::BH => Reg16::BX,
        Reg8::CL | Reg8::CH => Reg16::CX,
        Reg8::DL | Reg8::DH => Reg16::DX,
    }
}

/// Whether an 8-bit register is the high-order half of its parent.
pub open spec fn is_high_half(reg: Reg8) -> bool {
    match reg {
        Reg8::AH | Reg8::BH | Reg8::CH | Reg8::DH => true,
        Reg8::AL | Reg8::BL | Reg8::CL | Reg8::DL => false,
    }
}

/// `base + offset` reduced into the 16-bit address/word space.
pub open spec fn wrap_add16(base: Word, offset: int) -> Word {
    ((base + offset) % 65536) as u16
}

/// The mathematical view of a machine state.
pub struct MachineView {
    pub ax: Word,
    pub bx: Word,
    pub cx: Word,
    pub dx: Word,
    pub sp: Word,
    pub bp: Word,
    pub si: Word,
    pub di: Word,
    pub ip: Word,
    pub carry: bool,
    pub overflow: bool,
    pub sign: bool,
    pub zero: bool,
    pub mem: Seq<Byte>,
}

impl MachineView {
    /// Well-formedness: every 16-bit address is backed by a memory byte.
    pub open spec fn wf(self) -> bool {
        self.mem.len() == MEM_SIZE
    }

    /// The value of a 16-bit register.
    pub open spec fn getreg_w(self, reg: Reg16) -> Word {
        match reg {
            Reg16::AX => self.ax,
            Reg16::BX => self.bx,
            Reg16::CX => self.cx,
            Reg16::DX => self.dx,
            Reg16::SP => self.sp,
            Reg16::BP => self.bp,
            Reg16::SI => self.si,
            Reg16::DI => self.di,
        }
    }

    /// The state after writing a 16-bit register.
    pub open spec fn setreg_w(self, reg: Reg16, val: Word) -> MachineView {
        match reg {
            Reg16::AX => MachineView { ax: val, ..self },
            Reg16::BX => MachineView { bx: val, ..self },
            Reg16::CX => MachineView { cx: val, ..self },
            Reg16::DX => MachineView { dx: val, ..self },
            Reg16::SP => MachineView { sp: val, ..self },
            Reg16::BP => MachineView { bp: val, ..self },
            Reg16::SI => MachineView { si: val, ..self },
            Reg16::DI => MachineView { di: val, ..self },
        }
    }

    /// The value of an 8-bit register: the aliased half of its parent.
    pub open spec fn getreg_b(self, reg: Reg8) -> Byte {
        if is_high_half(reg) {
            spec_high8(self.getreg_w(parent_of(reg)))
        } else {
            spec_low8(self.getreg_w(parent_of(reg)))
        }
    }

    /// The state after writing an 8-bit register: only the aliased half
    /// of the parent register changes.
    pub open spec fn setreg_b(self, reg: Reg8, val: Byte) -> MachineView {
        let cur = self.getreg_w(parent_of(reg));
        let joined = if is_high_half(reg) {
            spec_join8(spec_low8(cur), val)
        } else {
            spec_join8(val, spec_high8(cur))
        };
        self.setreg_w(parent_of(reg), joined)
    }

    /// The value of one status flag.
    pub open spec fn get_flag(self, flag: Flag) -> bool {
        match flag {
            Flag::Carry => self.carry,
            Flag::Overflow => self.overflow,
            Flag::Sign => self.sign,
            Flag::Zero => self.zero,
        }
    }

    /// The state with all four flags replaced.
    pub open spec fn with_flags(self, carry: bool, overflow: bool, sign: bool, zero: bool) -> MachineView {
        MachineView { carry, overflow, sign, zero, ..self }
    }

    /// The state with the code cursor replaced.
    pub open spec fn with_ip(self, ip: Word) -> MachineView {
        MachineView { ip, ..self }
    }

    /// The state with one memory byte replaced.
    pub open spec fn with_mem(self, addr: Word, val: Byte) -> MachineView {
        MachineView { mem: self.mem.update(addr as int, val), ..self }
    }

    /// The memory byte at an address.
    pub open spec fn mem_at(self, addr: Word) -> Byte {
        self.mem[addr as int]
    }

    /// The memory word at an address: the low byte at the lower address,
    /// the high byte at the (wrapping) next address.
    pub open spec fn mem_w_at(self, addr: Word) -> Word {
        spec_join8(self.mem_at(addr), self.mem_at(wrap_add16(addr, 1)))
    }

    /// The state with a memory word replaced: the low byte at the lower
    /// address, the high byte at the (wrapping) next address.
    pub open spec fn with_mem_w(self, addr: Word, val: Word) -> MachineView {
        self.with_mem(addr, spec_low8(val)).with_mem(wrap_add16(addr, 1), spec_high8(val))
    }
}

/// The machine state at emulator start: every register, flag, cursor and
/// memory byte is zero.
pub open spec fn spec_init() -> MachineView {
    MachineView {
        ax: 0,
        bx: 0,
        cx: 0,
        dx: 0,
        sp: 0,
        bp: 0,
        si: 0,
        di: 0,
        ip: 0,
        carry: false,
        overflow: false,
        sign: false,
        zero: false,
        mem: Seq::new(MEM_SIZE as nat, |i: int| 0u8),
    }
}

/// The machine state: registers, flags, memory and the code cursor.
pub struct CpuState {
    pub ax: Word,
    pub bx: Word,
    pub cx: Word,
    pub dx: Word,
    pub sp: Word,
    pub bp: Word,
    pub si: Word,
    pub di: Word,
    pub ip: Word,
    pub carry: bool,
    pub overflow: bool,
    pub sign: bool,
    pub zero: bool,
    pub memory: Vec<Byte>,
}

impl View for CpuState {
    type V = MachineView;

    open spec fn view(&self) -> MachineView {
        MachineView {
            ax: self.ax,
            bx: self.bx,
            cx: self.cx,
            dx: self.dx,
            sp: self.sp,
            bp: self.bp,
            si: self.si,
            di: self.di,
            ip: self.ip,
            carry: self.carry,
            overflow: self.overflow,
            sign: self.sign,
            zero: self.zero,
            mem: self.memory@,
        }
    }
}

impl CpuState {
    /// A fresh machine state with zeroed registers, flags and memory.
    pub fn new() -> (r: CpuState)
        ensures
            r@ == spec_init(),
            r@.wf(),
    {
        let mut memory: Vec<Byte> = Vec::new();
        while memory.len() < MEM_SIZE
            invariant
                memory@.len() <= MEM_SIZE,
                forall|i: int| 0 <= i < memory@.len() ==> memory@[i] == 0u8,
            decreases MEM_SIZE - memory.len(),
        {
            memory.push(0);
        }
        let r = CpuState {
            ax: 0,
            bx: 0,
            cx: 0,
            dx: 0,
            sp: 0,
            bp: 0,
            si: 0,
            di: 0,
            ip: 0,
            carry: false,
            overflow: false,
            sign: false,
            zero: false,
            memory,
        };
        proof {
            assert(r@.mem =~= spec_init().mem);
        }
        r
    }

    /// Read the byte at the code cursor and advance the cursor by one.
    pub fn read_b(&mut self) -> (r: Byte)
        requires
            old(self)@.wf(),
        ensures
            final(self)@.wf(),
            r == old(self)@.mem_at(old(self)@.ip),
            final(self)@ == old(self)@.with_ip(wrap_add16(old(self)@.ip, 1)),
    {
        let b = self.memory[self.ip as usize];
        self.ip = if self.ip == 0xFFFF {
            0
        } else {
            self.ip + 1
        };
        b
    }

    /// Read the word at the code cursor, low byte first, and advance the
    /// cursor by two.
    pub fn read_w(&mut self) -> (r: Word)
        requires
            old(self)@.wf(),
        ensures
            final(self)@.wf(),
            r == old(self)@.mem_w_at(old(self)@.ip),
            final(self)@ == old(self)@.with_ip(wrap_add16(old(self)@.ip, 2)),
    {
        let low = self.read_b();
        let high = self.read_b();
        proof {
            lemma_wrap_add_again(old(self)@.ip, 1, 1);
        }
        crate::byteutils::join8(low, high)
    }

    /// The value of a 16-bit register.
    pub fn getreg_w(&self, reg: Reg16) -> (r: Word)
        ensures
            r == self@.getreg_w(reg),
    {
        match reg {
            Reg16::AX => self.ax,
            Reg16::BX => self.bx,
            Reg16::CX => self.cx,
            Reg16::DX => self.dx,
            Reg16::SP => self.sp,
            Reg16::BP => self.bp,
            Reg16::SI => self.si,
            Reg16::DI => self.di,
        }
    }

    /// Write a 16-bit register.
    pub fn setreg_w(&mut self, reg: Reg16, val: Word)
        ensures
            final(self)@ == old(self)@.setreg_w(reg, val),
    {
        match reg {
            Reg16::AX => self.ax = val,
            Reg16::BX => self.bx = val,
            Reg16::CX => self.cx = val,
            Reg16::DX => self.dx = val,
            Reg16::SP => self.sp = val,
            Reg16::BP => self.bp = val,
            Reg16::SI => self.si = val,
            Reg16::DI => self.di = val,
        }
    }

    /// The value of an 8-bit register: the aliased half of its parent.
    pub fn getreg_b(&self, reg: Reg8) -> (r: Byte)
        ensures
            r == self@.getreg_b(reg),
    {
        let parent = match reg {
            Reg8::AL | Reg8::AH => Reg16::AX,
            Reg8::BL | Reg8::BH => Reg16::BX,
            Reg8::CL | Reg8::CH => Reg16::CX,
            Reg8::DL | Reg8::DH => Reg16::DX,
        };
        let word = self.getreg_w(parent);
        match reg {
            Reg8::AH | Reg8::BH | Reg8::CH | Reg8::DH => high8(word),
            Reg8::AL | Reg8::BL | Reg8::CL | Reg8::DL => low8(word),
        }
    }

    /// Write an 8-bit register: only the aliased half of the parent
    /// 16-bit register changes.
    pub fn setreg_b(&mut self, reg: Reg8, val: Byte)
        ensures
            final(self)@ == old(self)@.setreg_b(reg, val),
    {
        let parent = match reg {
            Reg8::AL | Reg8::AH => Reg16::AX,
            Reg8::BL | Reg8::BH => Reg16::BX,
            Reg8::CL | Reg8::CH => Reg16::CX,
            Reg8::DL | Reg8::DH => Reg16::DX,
        };
        let cur = self.getreg_w(parent);
        let joined = match reg {
            Reg8::AH | Reg8::BH | Reg8::CH | Reg8::DH => join_high8(cur, val),
            Reg8::AL | Reg8::BL | Reg8::CL | Reg8::DL => join_low8(cur, val),
        };
        self.setreg_w(parent, joined);
    }

    /// The memory byte at an address.
    pub fn getmem(&self, addr: Word) -> (r: Byte)
        requires
            self@.wf(),
        ensures
            r == self@.mem_at(addr),
    {
        self.memory[addr as usize]
    }

    /// Write one memory byte.
    pub fn setmem(&mut self, addr: Word, val: Byte)
        requires
            old(self)@.wf(),
        ensures
            final(self)@.wf(),
            final(self)@ == old(self)@.with_mem(addr, val),
    {
        self.memory.set(addr as usize, val);
    }

    /// The memory word at an address: the low byte at the lower address,
    /// the high byte at the (wrapping) next address.
    pub fn getmem_w(&self, addr: Word) -> (r: Word)
        requires
            self@.wf(),
        ensures
            r == self@.mem_w_at(addr),
    {
        let low = self.getmem(addr);
        let high = self.getmem(next_addr(addr));
        crate::byteutils::join8(low, high)
    }

    /// Write a memory word: the low byte at the lower address, the high
    /// byte at the (wrapping) next address.
    pub fn setmem_w(&mut self, addr: Word, val: Word)
        requires
            old(self)@.wf(),
        ensures
            final(self)@.wf(),
            final(self)@ == old(self)@.with_mem_w(addr, val),
    {
        self.setmem(addr, low8(val));
        self.setmem(next_addr(addr), high8(val));
    }

    /// The value of one status flag.
    pub fn get_flag(&self, flag: Flag) -> (r: bool)
        ensures
            r == self@.get_flag(flag),
    {
        match flag {
            Flag::Carry => self.carry,
            Flag::Overflow => self.overflow,
            Flag::Sign => self.sign,
            Flag::Zero => self.zero,
        }
    }

    /// Replace all four flags.
    pub fn set_flags(&mut self, carry: bool, overflow: bool, sign: bool, zero: bool)
        ensures
            final(self)@ == old(self)@.with_flags(carry, overflow, sign, zero),
    {
        self.carry = carry;
        self.overflow = overflow;
        self.sign = sign;
        self.zero = zero;
    }

    /// Set the carry flag, leaving every other flag untouched.
    pub fn set_carry(&mut self)
        ensures
            final(self)@ == old(self)@.with_flags(true, old(self)@.overflow, old(self)@.sign, old(self)@.zero),
    {
        self.carry = true;
    }
}

/// The wrapping successor of an address.
pub fn next_addr(addr: Word) -> (r: Word)
    ensures
        r == wrap_add16(addr, 1),
{
    if addr == 0xFFFF {
        0
    } else {
        addr + 1
    }
}

/// Composing two cursor advances: advancing by `x` and then by `y` is
/// advancing by `x + y`.
pub proof fn lemma_wrap_add_again(base: Word, x: int, y: int)
    requires
        0 <= x,
        0 <= y < 65536,
    ensures
        wrap_add16(wrap_add16(base, x), y) == wrap_add16(base, x + y),
{
    lemma_add_mod_noop(base + x, y, 65536);
    lemma_small_mod(y as nat, 65536);
}

/// Register aliasing: writing the high half of an 8-bit register pair
/// replaces exactly the high byte of the parent 16-bit register and keeps
/// the low byte; writing the low half does the symmetric thing.  Every
/// other register, flag, the cursor and memory stay as they were.
pub proof fn lemma_reg_aliasing(s: MachineView, reg: Reg8, val: Byte)
    ensures
        is_high_half(reg) ==> {
            let after = s.setreg_b(reg, val);
            &&& spec_high8(after.getreg_w(parent_of(reg))) == val
            &&& spec_low8(after.getreg_w(parent_of(reg))) == spec_low8(s.getreg_w(parent_of(reg)))
        },
        !is_high_half(reg) ==> {
            let after = s.setreg_b(reg, val);
            &&& spec_low8(after.getreg_w(parent_of(reg))) == val
            &&& spec_high8(after.getreg_w(parent_of(reg))) == spec_high8(s.getreg_w(parent_of(reg)))
        },
        forall|other: Reg16| other != parent_of(reg)
            ==> #[trigger] s.setreg_b(reg, val).getreg_w(other) == s.getreg_w(other),
        s.setreg_b(reg, val).ip == s.ip,
        s.setreg_b(reg, val).mem == s.mem,
        s.setreg_b(reg, val).carry == s.carry,
        s.setreg_b(reg, val).overflow == s.overflow,
        s.setreg_b(reg, val).sign == s.sign,
        s.setreg_b(reg, val).zero == s.zero,
{
    let cur = s.getreg_w(parent_of(reg));
    if is_high_half(reg) {
        crate::byteutils::lemma_split_join(spec_low8(cur), val);
    } else {
        crate::byteutils::lemma_split_join(val, spec_high8(cur));
    }
}

} // verus!
