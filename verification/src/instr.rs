//! The operand and instruction model the encoder consumes.

use vstd::prelude::*;

verus! {

/// A general-purpose register as the encoder sees it: its encoding number
/// (0 to 15), its operand width in bits, and whether it is one of the four
/// byte registers that exist only under the 64-bit register-extension scheme
/// (they occupy the encoding numbers of the legacy high-byte registers
/// AH/CH/DH/BH and therefore force an explicit REX prefix to disambiguate).
#[derive(Clone, Copy, Debug, PartialEq, Eq, Structural)]
pub struct Reg {
    /// Encoding number, 0 to 15; numbers 8 to 15 need a REX extension bit.
    pub num: u8,
    /// Operand width in bits: 8, 16, 32 or 64.
    pub size: u16,
    /// True for the four new-style 8-bit registers (SPL/BPL/SIL/DIL).
    pub new8: bool,
}

impl Reg {
    /// A register is valid when its encoding number is one of the sixteen
    /// register numbers, its width is one of the four operand widths, and the
    /// new-style flag is set only on an 8-bit register whose number overlaps
    /// a legacy high-byte register (4 to 7).
    pub open spec fn wf(self) -> bool {
        &&& self.num < 16
        &&& (self.size == 8 || self.size == 16 || self.size == 32 || self.size == 64)
        &&& (self.new8 ==> self.size == 8 && 4 <= self.num < 8)
    }

    /// The register's low three bits: the value that goes into an opcode or
    /// a ModRM/SIB field.
    pub open spec fn spec_opcode(self) -> u8 {
        (self.num % 8) as u8
    }

    /// True when the register needs a REX extension bit (numbers 8 to 15).
    pub open spec fn spec_is_extended(self) -> bool {
        self.num >= 8
    }

    /// The register's low three bits: the value that goes into an opcode or
    /// a ModRM/SIB field.
    pub fn opcode(&self) -> (r: u8)
        ensures
            r == self.spec_opcode(),
    {
        self.num % 8
    }

    /// True when the register needs a REX extension bit (numbers 8 to 15).
    pub fn is_extended(&self) -> (r: bool)
        ensures
            r == self.spec_is_extended(),
    {
        self.num >= 8
    }
}

/// The address shape of a memory operand.
#[derive(Clone, Copy, Debug, PartialEq, Eq, Structural)]
pub enum MemAddrType {
    /// Plain register-indirect addressing, no displacement bytes.
    Address,
    /// Base register plus a signed displacement.
    Disp,
    /// Indexed addressing (base + index * scale + displacement); needs a SIB
    /// byte.
    Sib,
}

/// A memory operand.
#[derive(Clone, Copy, Debug, PartialEq, Eq)]
pub struct MemAddr {
    /// The base register.
    pub register: Reg,
    /// The index register; present exactly on indexed (SIB) shapes.
    pub s_register: Option<Reg>,
    /// Scale factor for the index register: 1, 2, 4 or 8.
    pub scale: u8,
    /// Signed displacement.
    pub disp: i32,
    /// Declared operand size in bytes; 0 when no size was declared.
    pub size: u16,
    /// The address shape.
    pub addr_type: MemAddrType,
}

impl MemAddr {
    /// A memory operand is valid when its registers are valid, its scale and
    /// declared size are among the allowed values, an indexed shape carries
    /// its index register, and the base register's low three bits are not one
    /// of the reserved ModRM escape codes that the shape cannot express:
    /// 0b100 (the SIB escape) is barred outside indexed shapes, and 0b101
    /// (the absolute-displacement escape) additionally on the
    /// no-displacement shape. An operand that breaks one of these rules is a
    /// collaborator bug, not an input the encoder accepts.
    pub open spec fn wf(self) -> bool {
        &&& self.register.wf()
        &&& match self.s_register {
            Some(s) => s.wf(),
            None => true,
        }
        &&& (self.scale == 1 || self.scale == 2 || self.scale == 4 || self.scale == 8)
        &&& (self.size == 0 || self.size == 1 || self.size == 2 || self.size == 4 || self.size
            == 8)
        &&& (self.addr_type == MemAddrType::Sib ==> self.s_register is Some)
        &&& (self.addr_type == MemAddrType::Address ==> self.register.num % 8 != 4
            && self.register.num % 8 != 5)
        &&& (self.addr_type == MemAddrType::Disp ==> self.register.num % 8 != 4)
    }
}

/// One operand.
#[derive(Clone, Copy, Debug, PartialEq, Eq)]
pub enum Opr {
    /// A register operand.
    Reg(Reg),
    /// A memory operand.
    Mem(MemAddr),
    /// An 8-bit immediate carrying a signed value.
    Imm8(i64),
    /// A 32-bit immediate carrying a signed value.
    Imm32(i64),
    /// A 64-bit immediate carrying a signed value.
    Imm64(i64),
    /// A relative offset; part of the operand model but never handed to the
    /// encoder.
    Rel(i32),
    /// A segment-register operand; part of the operand model but never handed
    /// to the encoder.
    Fs(u8),
}

impl Opr {
    /// An operand the encoder accepts: registers and memory operands must be
    /// valid, immediates always are, and the relative-offset and
    /// segment-register variants never reach the encoder at all (upstream
    /// construction guarantees it, so meeting one is a collaborator bug).
    pub open spec fn wf(self) -> bool {
        match self {
            Opr::Reg(r) => r.wf(),
            Opr::Mem(m) => m.wf(),
            Opr::Imm8(_) => true,
            Opr::Imm32(_) => true,
            Opr::Imm64(_) => true,
            Opr::Rel(_) => false,
            Opr::Fs(_) => false,
        }
    }
}

/// The operand list: none, exactly one, or exactly two operands.
#[derive(Clone, Copy, Debug, PartialEq, Eq)]
pub enum Oprs {
    /// No operands.
    Zero,
    /// Exactly one operand.
    One(Opr),
    /// Exactly two operands; the first is the destination.
    Two(Opr, Opr),
}

impl Oprs {
    /// Every operand in the list is one the encoder accepts.
    pub open spec fn wf(self) -> bool {
        match self {
            Oprs::Zero => true,
            Oprs::One(o) => o.wf(),
            Oprs::Two(a, b) => a.wf() && b.wf(),
        }
    }

    /// The operand shapes for which an "opcode+reg" classification is
    /// defined: the register whose number is added into the opcode is the
    /// lone operand or the first of two.
    pub open spec fn add_shape(self) -> bool {
        match self {
            Oprs::One(Opr::Reg(_)) => true,
            Oprs::Two(Opr::Reg(_), _) => true,
            _ => false,
        }
    }

    /// The operand shapes for which a caller-register ModRM byte is defined.
    pub open spec fn modrm_shape(self) -> bool {
        match self {
            Oprs::Two(Opr::Reg(_), Opr::Reg(_)) => true,
            Oprs::Two(Opr::Reg(_), Opr::Mem(_)) => true,
            Oprs::Two(Opr::Mem(_), _) => true,
            Oprs::One(Opr::Mem(_)) => true,
            _ => false,
        }
    }

    /// The operand shapes for which an extension-constant ModRM byte is
    /// defined: the rm field comes from a leading register or memory operand.
    pub open spec fn ext_shape(self) -> bool {
        match self {
            Oprs::One(Opr::Reg(_)) => true,
            Oprs::Two(Opr::Reg(_), _) => true,
            Oprs::One(Opr::Mem(_)) => true,
            Oprs::Two(Opr::Mem(_), _) => true,
            _ => false,
        }
    }
}

/// The instruction mnemonics the opcode table knows.
#[derive(Clone, Copy, Debug, PartialEq, Eq, Structural)]
pub enum Mnemonic {
    Mov,
    Add,
    Sub,
    Cmp,
    Push,
    Pop,
    Ret,
    Syscall,
}

/// True for the destination-precision family: mnemonics whose immediate is
/// encoded at the destination's width rather than at the immediate's own
/// declared width.
pub open spec fn spec_needs_precision_imm(m: Mnemonic) -> bool {
    m == Mnemonic::Add || m == Mnemonic::Sub || m == Mnemonic::Cmp
}

impl Mnemonic {
    /// True for the destination-precision family: mnemonics whose immediate
    /// is encoded at the destination's width rather than at the immediate's
    /// own declared width.
    pub fn needs_precision_imm(&self) -> (r: bool)
        ensures
            r == spec_needs_precision_imm(*self),
    {
        match self {
            Mnemonic::Add => true,
            Mnemonic::Sub => true,
            Mnemonic::Cmp => true,
            _ => false,
        }
    }
}

/// One instruction: a mnemonic plus its operand list. The encoder never
/// mutates it; normalization returns a fresh value.
#[derive(Clone, Copy, Debug, PartialEq, Eq)]
pub struct Instr {
    /// The mnemonic.
    pub mnem: Mnemonic,
    /// The operands.
    pub oprs: Oprs,
}

impl Instr {
    /// Every operand of the instruction is one the encoder accepts.
    pub open spec fn wf(self) -> bool {
        self.oprs.wf()
    }
}

/// The addressing-mode classification the opcode table returns for an
/// instruction.
#[derive(Clone, Copy, Debug, PartialEq, Eq, Structural)]
pub enum ModrmType {
    /// No ModRM byte at all.
    NoModrm,
    /// A ModRM byte whose reg field comes from the instruction's own
    /// register operand (or is zero when there is none).
    Modrm,
    /// A ModRM byte whose reg field is this table-supplied extension
    /// constant.
    Ext(u8),
    /// No ModRM byte; the register's 3-bit number is added into the opcode
    /// byte instead ("opcode+reg" form).
    Add,
}

} // verus!
