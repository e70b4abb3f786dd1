//! The encoder: from one instruction to the exact byte sequence the CPU
//! decodes for it.
//!
//! The pipeline has four stages, applied in order per instruction: operand
//! size validation, operand normalization, prefix and opcode computation,
//! and ModRM/SIB and immediate emission. Each stage has a specification
//! function stating the bytes (or the verdict) it produces, and the
//! executable function is proved to match it.

use crate::instr::{Instr, MemAddr, MemAddrType, Mnemonic, ModrmType, Opr, Oprs, Reg};
use crate::opcodes::{lemma_opcode_facts, opcode, spec_opcode};
use vstd::prelude::*;

verus! {

/// A validation failure the caller can act on. Each variant carries the
/// offending instruction so the caller can report it.
#[derive(Clone, Copy, Debug, PartialEq, Eq)]
pub enum EncodeError {
    /// The first operand of a two-operand instruction was an immediate,
    /// which no encoding allows.
    FirstOprImm(Instr),
    /// Neither operand pins down the width the instruction operates at.
    UnknownOprSize(Instr),
    /// Both operands carry a width of their own and the two disagree, so no
    /// single shared width exists.
    MismatchedOprSize(Instr),
}

/// The `n` low bytes of `v`, least significant first.
pub open spec fn le_bytes(v: u64, n: nat) -> Seq<u8>
    decreases n,
{
    if n == 0 {
        Seq::empty()
    } else {
        seq![(v % 256) as u8] + le_bytes(v / 256, (n - 1) as nat)
    }
}

/// The two's-complement bit pattern of a signed 64-bit value, read as
/// unsigned.
pub open spec fn spec_i64_bits(v: i64) -> u64 {
    if v >= 0 {
        v as u64
    } else {
        (v + 0x1_0000_0000_0000_0000) as u64
    }
}

/// The two's-complement bit pattern of a signed 32-bit value, read as
/// unsigned.
pub open spec fn spec_i32_bits(v: i32) -> u32 {
    if v >= 0 {
        v as u32
    } else {
        (v + 0x1_0000_0000) as u32
    }
}

/// Appends the `n` low bytes of `v`, least significant first.
fn push_le_bytes(bytes: &mut Vec<u8>, v: u64, n: usize)
    ensures
        final(bytes)@ == old(bytes)@ + le_bytes(v, n as nat),
{
    let mut x: u64 = v;
    let mut k: usize = 0;
    while k < n
        invariant
            k <= n,
            bytes@ + le_bytes(x, (n - k) as nat) == old(bytes)@ + le_bytes(v, n as nat),
        decreases n - k,
    {
        let ghost prev_bytes = bytes@;
        let ghost prev_x = x;
        let ghost prev_left = (n - k) as nat;
        bytes.push((x % 256) as u8);
        x = x / 256;
        k = k + 1;
        proof {
            assert(le_bytes(prev_x, prev_left) == seq![(prev_x % 256) as u8] + le_bytes(
                prev_x / 256,
                (prev_left - 1) as nat,
            ));
            assert(bytes@ + le_bytes(x, (n - k) as nat) =~= prev_bytes + le_bytes(
                prev_x,
                prev_left,
            ));
        }
    }
    proof {
        assert(bytes@ + le_bytes(x, 0) =~= bytes@);
    }
}

/// The bit pattern of a signed 64-bit value, for little-endian emission.
fn i64_bits(v: i64) -> (r: u64)
    ensures
        r == spec_i64_bits(v),
{
    if v >= 0 {
        v as u64
    } else {
        0xFFFF_FFFF_FFFF_FFFFu64 - ((-(v + 1)) as u64)
    }
}

/// The bit pattern of a signed 32-bit value, for little-endian emission.
fn i32_bits(v: i32) -> (r: u32)
    ensures
        r == spec_i32_bits(v),
{
    if v >= 0 {
        v as u32
    } else {
        0xFFFF_FFFFu32 - ((-(v + 1)) as u32)
    }
}

/// True for the immediate variants.
pub open spec fn is_imm(o: Opr) -> bool {
    match o {
        Opr::Imm8(_) | Opr::Imm32(_) | Opr::Imm64(_) => true,
        _ => false,
    }
}

/// The intrinsic width, in bits, an operand contributes before inheritance:
/// a register's tagged width, a memory operand's declared size times eight
/// (0 when none was declared), nothing for an immediate.
pub open spec fn spec_intrinsic_size(o: Opr) -> u16 {
    match o {
        Opr::Reg(r) => r.size,
        Opr::Mem(m) => (m.size * 8) as u16,
        _ => 0,
    }
}

/// The verdict of operand size resolution. For a two-operand instruction the
/// result is the single width both operands share: a sizeless memory or
/// immediate operand inherits the other side's width, on whichever side it
/// stands; a first operand that is an immediate is rejected outright; a
/// width still unknown after inheritance, or two intrinsic widths that
/// disagree, is an error naming the instruction. Instructions with fewer
/// than two operands skip the stage (width 0).
pub open spec fn spec_validate(i: Instr) -> Result<u16, EncodeError> {
    match i.oprs {
        Oprs::Two(op1, op2) => if is_imm(op1) {
            Err(EncodeError::FirstOprImm(i))
        } else {
            let lhs0 = spec_intrinsic_size(op1);
            match op2 {
                Opr::Reg(r) => {
                    let lhs = if lhs0 == 0 {
                        r.size
                    } else {
                        lhs0
                    };
                    if r.size == 0 || lhs == 0 {
                        Err(EncodeError::UnknownOprSize(i))
                    } else if lhs != r.size {
                        Err(EncodeError::MismatchedOprSize(i))
                    } else {
                        Ok(lhs)
                    }
                },
                Opr::Mem(m) => {
                    let rhs = if m.size != 0 {
                        (m.size * 8) as u16
                    } else {
                        lhs0
                    };
                    let lhs = if lhs0 == 0 {
                        rhs
                    } else {
                        lhs0
                    };
                    if rhs == 0 || lhs == 0 {
                        Err(EncodeError::UnknownOprSize(i))
                    } else if lhs != rhs {
                        Err(EncodeError::MismatchedOprSize(i))
                    } else {
                        Ok(lhs)
                    }
                },
                Opr::Imm8(_) | Opr::Imm32(_) | Opr::Imm64(_) => if lhs0 != 0 {
                    Ok(lhs0)
                } else {
                    Err(EncodeError::UnknownOprSize(i))
                },
                _ => Err(EncodeError::UnknownOprSize(i)),
            }
        },
        _ => Ok(0),
    }
}

/// Operand size resolution: checks that a two-operand instruction has one
/// width both operands agree to operate at, and reports it.
pub fn validate_opr_sizes(instr: &Instr) -> (r: Result<u16, EncodeError>)
    requires
        instr.wf(),
    ensures
        r == spec_validate(*instr),
{
    match instr.oprs {
        Oprs::Two(op1, op2) => {
            let lhs0: u16 = match op1 {
                Opr::Reg(r) => r.size,
                Opr::Mem(m) => m.size * 8,
                Opr::Imm8(_) | Opr::Imm32(_) | Opr::Imm64(_) => {
                    return Err(EncodeError::FirstOprImm(*instr));
                },
                Opr::Rel(_) | Opr::Fs(_) => vstd::pervasive::unreached(),
            };
            let (lhs, rhs): (u16, u16) = match op2 {
                Opr::Reg(r) => (
                    if lhs0 == 0 {
                        r.size
                    } else {
                        lhs0
                    },
                    r.size,
                ),
                Opr::Mem(m) => {
                    let rhs: u16 = if m.size != 0 {
                        m.size * 8
                    } else {
                        lhs0
                    };
                    (
                        if lhs0 == 0 {
                            rhs
                        } else {
                            lhs0
                        },
                        rhs,
                    )
                },
                Opr::Imm8(_) | Opr::Imm32(_) | Opr::Imm64(_) => {
                    if lhs0 != 0 {
                        (lhs0, lhs0)
                    } else {
                        return Err(EncodeError::UnknownOprSize(*instr));
                    }
                },
                Opr::Rel(_) | Opr::Fs(_) => vstd::pervasive::unreached(),
            };
            if rhs == 0 || lhs == 0 {
                Err(EncodeError::UnknownOprSize(*instr))
            } else if lhs != rhs {
                Err(EncodeError::MismatchedOprSize(*instr))
            } else {
                Ok(lhs)
            }
        },
        _ => Ok(0),
    }
}

/// The normalized form of an instruction. One rewrite exists: a move of an
/// 8-bit or 32-bit immediate into a 64-bit register becomes the same move
/// into the corresponding 32-bit register with a 32-bit immediate, since
/// writing a 32-bit register zero-extends to the full register and the
/// 32-bit form is shorter. Everything else passes through unchanged.
pub open spec fn spec_normalize(i: Instr) -> Instr {
    match i.oprs {
        Oprs::Two(Opr::Reg(r), Opr::Imm32(v)) => if i.mnem == Mnemonic::Mov && r.size == 64 {
            Instr {
                mnem: Mnemonic::Mov,
                oprs: Oprs::Two(
                    Opr::Reg(Reg { num: r.num, size: 32, new8: false }),
                    Opr::Imm32(v),
                ),
            }
        } else {
            i
        },
        Oprs::Two(Opr::Reg(r), Opr::Imm8(v)) => if i.mnem == Mnemonic::Mov && r.size == 64 {
            Instr {
                mnem: Mnemonic::Mov,
                oprs: Oprs::Two(
                    Opr::Reg(Reg { num: r.num, size: 32, new8: false }),
                    Opr::Imm32(v),
                ),
            }
        } else {
            i
        },
        _ => i,
    }
}

/// Normalization keeps every operand valid.
pub proof fn lemma_normalize_wf(i: Instr)
    requires
        i.wf(),
    ensures
        spec_normalize(i).wf(),
{
}

/// Operand normalization: returns a fresh, possibly rewritten copy of the
/// instruction; the caller's value is never mutated.
pub fn align_imm_oprs_to_reg(instr: &Instr) -> (r: Instr)
    ensures
        r == spec_normalize(*instr),
{
    match (instr.mnem, instr.oprs) {
        (Mnemonic::Mov, Oprs::Two(Opr::Reg(r), Opr::Imm32(v) | Opr::Imm8(v))) => {
            if r.size == 64 {
                Instr {
                    mnem: Mnemonic::Mov,
                    oprs: Oprs::Two(
                        Opr::Reg(Reg { num: r.num, size: 32, new8: false }),
                        Opr::Imm32(v),
                    ),
                }
            } else {
                *instr
            }
        },
        _ => *instr,
    }
}

/// One REX byte value: the fixed base 0x40 plus the W bit (64-bit operand
/// width), the R bit (reg-field register extension), the X bit (memory index
/// register extension) and the B bit (rm-field register or memory base
/// register extension).
pub open spec fn spec_rex_bits(w: bool, r: bool, x: bool, b: bool) -> u8 {
    (0x40 + (if w {
        8int
    } else {
        0int
    }) + (if r {
        4int
    } else {
        0int
    }) + (if x {
        2int
    } else {
        0int
    }) + (if b {
        1int
    } else {
        0int
    })) as u8
}

/// True when a memory operand carries an index register that needs the REX X
/// bit.
pub open spec fn spec_index_ext(m: MemAddr) -> bool {
    match m.s_register {
        Some(s) => s.num >= 8,
        None => false,
    }
}

/// The REX byte the instruction carries, if any. The byte is emitted when it
/// differs from the default 0x40, or when a new-style 8-bit register needs
/// it purely to select the right physical register. Width and field sources
/// go by operand shape: between two registers the first supplies width and
/// reg field; between a register and a memory operand the register supplies
/// width and reg field and the memory base (plus index) the rm side; a
/// leading memory operand supplies width from its declared size; a lone
/// register supplies width unless the mnemonic is `Push` or `Pop`, which
/// operate at a fixed width.
pub open spec fn spec_rex_opt(i: Instr) -> Option<u8> {
    match i.oprs {
        Oprs::Two(Opr::Reg(r1), Opr::Reg(r2)) => {
            let rex = spec_rex_bits(r1.size == 64, r1.num >= 8, false, r2.num >= 8);
            if rex != 0x40 || r1.new8 || r2.new8 {
                Some(rex)
            } else {
                None
            }
        },
        Oprs::Two(Opr::Reg(r), Opr::Mem(m)) | Oprs::Two(Opr::Mem(m), Opr::Reg(r)) => {
            let rex = spec_rex_bits(
                r.size == 64,
                r.num >= 8,
                spec_index_ext(m),
                m.register.num >= 8,
            );
            if rex != 0x40 || r.new8 {
                Some(rex)
            } else {
                None
            }
        },
        Oprs::Two(Opr::Reg(r), _) => {
            let rex = spec_rex_bits(r.size == 64, r.num >= 8, false, false);
            if rex != 0x40 || r.new8 {
                Some(rex)
            } else {
                None
            }
        },
        Oprs::Two(Opr::Mem(m), _) | Oprs::One(Opr::Mem(m)) => {
            let rex = spec_rex_bits(
                m.size == 8,
                false,
                spec_index_ext(m),
                m.register.num >= 8,
            );
            if rex != 0x40 {
                Some(rex)
            } else {
                None
            }
        },
        Oprs::One(Opr::Reg(r)) => {
            let rex = spec_rex_bits(
                r.size == 64 && i.mnem != Mnemonic::Push && i.mnem != Mnemonic::Pop,
                r.num >= 8,
                false,
                false,
            );
            if rex != 0x40 || r.new8 {
                Some(rex)
            } else {
                None
            }
        },
        _ => None,
    }
}

/// True when the instruction carries the 16-bit operand-size override byte:
/// the operand that supplies the width for the shape is 16 bits wide.
pub open spec fn spec_has_66(i: Instr) -> bool {
    match i.oprs {
        Oprs::Two(Opr::Reg(r1), Opr::Reg(_)) => r1.size == 16,
        Oprs::Two(Opr::Reg(r), Opr::Mem(_)) | Oprs::Two(Opr::Mem(_), Opr::Reg(r)) => r.size
            == 16,
        Oprs::Two(Opr::Reg(r), _) => r.size == 16,
        Oprs::Two(Opr::Mem(m), _) | Oprs::One(Opr::Mem(m)) => m.size == 2,
        _ => false,
    }
}

/// The instruction's prefix bytes, in order: the 16-bit operand-size
/// override byte, if any, then the REX byte, if any.
pub open spec fn spec_prefix(i: Instr) -> Seq<u8> {
    (if spec_has_66(i) {
        seq![0x66u8]
    } else {
        Seq::empty()
    }) + (match spec_rex_opt(i) {
        Some(b) => seq![b],
        None => Seq::empty(),
    })
}

/// Prefix computation: the 16-bit operand-size override byte (when the
/// resolved width is 16 bits) followed by the REX byte (when one is needed).
pub fn rex(instr: &Instr) -> (bytes: Vec<u8>)
    ensures
        bytes@ == spec_prefix(*instr),
{
    let mut bytes: Vec<u8> = Vec::new();
    match instr.oprs {
        Oprs::Two(Opr::Reg(r1), Opr::Reg(r2)) => {
            let mut rex: u8 = 0x40;
            if r1.size == 64 {
                rex = rex + 8;
            }
            if r1.is_extended() {
                rex = rex + 4;
            }
            if r2.is_extended() {
                rex = rex + 1;
            }
            if r1.size == 16 {
                bytes.push(0x66);
            }
            if rex != 0x40 || r1.new8 || r2.new8 {
                bytes.push(rex);
            }
        },
        Oprs::Two(Opr::Reg(r), Opr::Mem(m)) | Oprs::Two(Opr::Mem(m), Opr::Reg(r)) => {
            let mut rex: u8 = 0x40;
            if r.size == 64 {
                rex = rex + 8;
            }
            if r.is_extended() {
                rex = rex + 4;
            }
            if let Some(s_reg) = m.s_register {
                if s_reg.is_extended() {
                    rex = rex + 2;
                }
            }
            if m.register.is_extended() {
                rex = rex + 1;
            }
            if r.size == 16 {
                bytes.push(0x66);
            }
            if rex != 0x40 || r.new8 {
                bytes.push(rex);
            }
        },
        Oprs::Two(Opr::Reg(r), _) => {
            let mut rex: u8 = 0x40;
            if r.size == 64 {
                rex = rex + 8;
            }
            if r.is_extended() {
                rex = rex + 4;
            }
            if r.size == 16 {
                bytes.push(0x66);
            }
            if rex != 0x40 || r.new8 {
                bytes.push(rex);
            }
        },
        Oprs::Two(Opr::Mem(m), _) | Oprs::One(Opr::Mem(m)) => {
            let mut rex: u8 = 0x40;
            if m.size == 8 {
                rex = rex + 8;
            }
            if let Some(s_reg) = m.s_register {
                if s_reg.is_extended() {
                    rex = rex + 2;
                }
            }
            if m.register.is_extended() {
                rex = rex + 1;
            }
            if m.size == 2 {
                bytes.push(0x66);
            }
            if rex != 0x40 {
                bytes.push(rex);
            }
        },
        Oprs::One(Opr::Reg(r)) => {
            let mut rex: u8 = 0x40;
            let fixed_width = match instr.mnem {
                Mnemonic::Push => true,
                Mnemonic::Pop => true,
                _ => false,
            };
            if r.size == 64 && !fixed_width {
                rex = rex + 8;
            }
            if r.is_extended() {
                rex = rex + 4;
            }
            if rex != 0x40 || r.new8 {
                bytes.push(rex);
            }
        },
        _ => {},
    }
    bytes
}

/// A packed ModRM byte: the mod field in the top two bits, the
/// reg-or-extension field in the middle three, the rm field in the low
/// three.
pub open spec fn spec_modrm_byte(md: u8, reg: u8, rm: u8) -> u8 {
    ((md % 4) * 64 + (reg % 8) * 8 + (rm % 8)) as u8
}

/// Packs one ModRM byte from the mod field, the rm-field register number
/// `r1` and the reg-field value `r2` (the argument order the memory helpers
/// use).
pub fn _modrm(modr: u8, r1: u8, r2: u8) -> (r: u8)
    ensures
        r == spec_modrm_byte(modr, r2, r1),
{
    (modr % 4) * 64 + (r2 % 8) * 8 + (r1 % 8)
}

/// The scale field of a SIB byte: the base-two logarithm of the scale
/// factor.
pub open spec fn spec_scale_bits(scale: u8) -> u8 {
    if scale == 1 {
        0
    } else if scale == 2 {
        1
    } else if scale == 4 {
        2
    } else {
        3
    }
}

/// The packed SIB byte of an indexed memory operand: scale in the top two
/// bits, index register number in the middle three, base register number in
/// the low three.
pub open spec fn spec_sib(m: MemAddr) -> u8 {
    let idx = match m.s_register {
        Some(s) => s.spec_opcode(),
        None => 0u8,
    };
    (spec_scale_bits(m.scale) * 64 + (idx % 8) * 8 + (m.register.num % 8)) as u8
}

/// Builds the SIB byte of an indexed memory operand.
pub fn sib(mem: &MemAddr) -> (r: u8)
    requires
        mem.s_register is Some,
    ensures
        r == spec_sib(*mem),
{
    let scale_bits: u8 = if mem.scale == 1 {
        0
    } else if mem.scale == 2 {
        1
    } else if mem.scale == 4 {
        2
    } else {
        3
    };
    match mem.s_register {
        Some(s_reg) => scale_bits * 64 + (s_reg.opcode() % 8) * 8 + (mem.register.num % 8),
        None => vstd::pervasive::unreached(),
    }
}

/// The ModRM byte, optional SIB byte and optional displacement of a memory
/// operand, with `r` in the reg field. The mod field selects the
/// displacement form: 0b00 for the no-displacement shape (and for an indexed
/// shape with zero displacement), 0b01 with one trailing signed byte for a
/// displacement in 8-bit range, 0b10 with four trailing little-endian bytes
/// otherwise. An indexed shape fixes rm to the SIB escape code 0b100 and
/// puts its SIB byte right after the ModRM byte; the other shapes put the
/// base register number in rm.
pub open spec fn spec_mem_modrm(r: u8, m: MemAddr) -> Seq<u8> {
    match m.addr_type {
        MemAddrType::Address => seq![spec_modrm_byte(0, r, m.register.num)],
        MemAddrType::Disp => if -128 <= m.disp && m.disp <= 127 {
            seq![spec_modrm_byte(1, r, m.register.num)] + le_bytes(
                spec_i32_bits(m.disp) as u64,
                1,
            )
        } else {
            seq![spec_modrm_byte(2, r, m.register.num)] + le_bytes(
                spec_i32_bits(m.disp) as u64,
                4,
            )
        },
        MemAddrType::Sib => if m.disp == 0 {
            seq![spec_modrm_byte(0, r, 4), spec_sib(m)]
        } else if -128 <= m.disp && m.disp <= 127 {
            seq![spec_modrm_byte(1, r, 4), spec_sib(m)] + le_bytes(
                spec_i32_bits(m.disp) as u64,
                1,
            )
        } else {
            seq![spec_modrm_byte(2, r, 4), spec_sib(m)] + le_bytes(
                spec_i32_bits(m.disp) as u64,
                4,
            )
        },
    }
}

/// Builds the addressing bytes of a memory operand: ModRM, then SIB on
/// indexed shapes, then the displacement.
pub fn _mem_modrm(r: u8, mem: &MemAddr) -> (bytes: Vec<u8>)
    requires
        mem.wf(),
    ensures
        bytes@ == spec_mem_modrm(r, *mem),
{
    let mut bytes: Vec<u8> = Vec::new();
    match mem.addr_type {
        MemAddrType::Address => {
            bytes.push(_modrm(0, mem.register.opcode(), r));
        },
        MemAddrType::Disp => {
            if -128 <= mem.disp && mem.disp <= 127 {
                bytes.push(_modrm(1, mem.register.opcode(), r));
                push_le_bytes(&mut bytes, i32_bits(mem.disp) as u64, 1);
            } else {
                bytes.push(_modrm(2, mem.register.opcode(), r));
                push_le_bytes(&mut bytes, i32_bits(mem.disp) as u64, 4);
            }
        },
        MemAddrType::Sib => {
            if mem.disp == 0 {
                bytes.push(_modrm(0, 4, r));
                bytes.push(sib(mem));
            } else if -128 <= mem.disp && mem.disp <= 127 {
                bytes.push(_modrm(1, 4, r));
                bytes.push(sib(mem));
                push_le_bytes(&mut bytes, i32_bits(mem.disp) as u64, 1);
            } else {
                bytes.push(_modrm(2, 4, r));
                bytes.push(sib(mem));
                push_le_bytes(&mut bytes, i32_bits(mem.disp) as u64, 4);
            }
        },
    }
    proof {
        assert(bytes@ =~= spec_mem_modrm(r, *mem));
    }
    bytes
}

/// The ModRM bytes of a caller-register classification: register-direct form
/// between two registers (mod 0b11, reg from the second register, rm from
/// the first), otherwise the memory form with the register operand (or zero,
/// when there is none) in the reg field.
pub open spec fn spec_modrm(oprs: Oprs) -> Seq<u8> {
    match oprs {
        Oprs::Two(Opr::Reg(r1), Opr::Reg(r2)) => seq![
            spec_modrm_byte(3, r2.spec_opcode(), r1.spec_opcode()),
        ],
        Oprs::Two(Opr::Reg(r), Opr::Mem(m)) | Oprs::Two(Opr::Mem(m), Opr::Reg(r)) => spec_mem_modrm(
            r.spec_opcode(),
            m,
        ),
        Oprs::Two(Opr::Mem(m), _) | Oprs::One(Opr::Mem(m)) => spec_mem_modrm(0, m),
        _ => Seq::empty(),
    }
}

/// Builds the ModRM bytes for a caller-register classification.
pub fn modrm(oprs: &Oprs) -> (bytes: Vec<u8>)
    requires
        oprs.wf(),
        oprs.modrm_shape(),
    ensures
        bytes@ == spec_modrm(*oprs),
{
    match oprs {
        Oprs::Two(Opr::Reg(r1), Opr::Reg(r2)) => {
            let mut bytes: Vec<u8> = Vec::new();
            bytes.push(_modrm(3, r1.opcode(), r2.opcode()));
            proof {
                assert(bytes@ =~= spec_modrm(*oprs));
            }
            bytes
        },
        Oprs::Two(Opr::Reg(r), Opr::Mem(m)) | Oprs::Two(Opr::Mem(m), Opr::Reg(r)) => _mem_modrm(
            r.opcode(),
            m,
        ),
        Oprs::Two(Opr::Mem(m), _) | Oprs::One(Opr::Mem(m)) => _mem_modrm(0, m),
        _ => vstd::pervasive::unreached(),
    }
}

/// The ModRM bytes of an extension-constant classification: the table's
/// constant sits in the reg field; a leading register operand takes the
/// register-direct form, a leading memory operand the memory form.
pub open spec fn spec_modrm_ex(ex: u8, oprs: Oprs) -> Seq<u8> {
    match oprs {
        Oprs::Two(Opr::Reg(r), _) | Oprs::One(Opr::Reg(r)) => seq![
            spec_modrm_byte(3, ex, r.spec_opcode()),
        ],
        Oprs::Two(Opr::Mem(m), _) | Oprs::One(Opr::Mem(m)) => spec_mem_modrm(ex, m),
        _ => Seq::empty(),
    }
}

/// Builds the ModRM bytes for an extension-constant classification.
pub fn modrm_ex(ex: u8, oprs: &Oprs) -> (bytes: Vec<u8>)
    requires
        oprs.wf(),
        oprs.ext_shape(),
    ensures
        bytes@ == spec_modrm_ex(ex, *oprs),
{
    match oprs {
        Oprs::Two(Opr::Reg(r), _) | Oprs::One(Opr::Reg(r)) => {
            let mut bytes: Vec<u8> = Vec::new();
            bytes.push(_modrm(3, r.opcode(), ex));
            proof {
                assert(bytes@ =~= spec_modrm_ex(ex, *oprs));
            }
            bytes
        },
        Oprs::Two(Opr::Mem(m), _) | Oprs::One(Opr::Mem(m)) => _mem_modrm(ex, m),
        _ => vstd::pervasive::unreached(),
    }
}

/// The trailing immediate bytes of an instruction, little-endian. A
/// destination-precision mnemonic encodes the immediate at the destination's
/// width: one byte for an 8-bit memory destination, four bytes for any wider
/// memory destination (a 16-bit destination still takes four, by
/// architecture convention for sign extension), and a register destination's
/// width in bytes. Every other mnemonic encodes the immediate at the
/// immediate's own declared width, wherever it stands. Instructions without
/// an immediate operand add nothing.
pub open spec fn spec_imm_bytes(i: Instr) -> Seq<u8> {
    if crate::instr::spec_needs_precision_imm(i.mnem) {
        match i.oprs {
            Oprs::Two(Opr::Mem(m), Opr::Imm8(v) | Opr::Imm32(v) | Opr::Imm64(v)) => if m.size
                == 1 {
                le_bytes(spec_i64_bits(v), 1)
            } else {
                le_bytes(spec_i64_bits(v), 4)
            },
            Oprs::Two(Opr::Reg(r), Opr::Imm8(v) | Opr::Imm32(v) | Opr::Imm64(v)) => le_bytes(
                spec_i64_bits(v),
                (r.size / 8) as nat,
            ),
            _ => Seq::empty(),
        }
    } else {
        match i.oprs {
            Oprs::Two(_, Opr::Imm8(v)) | Oprs::One(Opr::Imm8(v)) => le_bytes(
                spec_i64_bits(v),
                1,
            ),
            Oprs::Two(_, Opr::Imm32(v)) | Oprs::One(Opr::Imm32(v)) => le_bytes(
                spec_i64_bits(v),
                4,
            ),
            Oprs::Two(_, Opr::Imm64(v)) | Oprs::One(Opr::Imm64(v)) => le_bytes(
                spec_i64_bits(v),
                8,
            ),
            _ => Seq::empty(),
        }
    }
}

/// Immediate emission: appends the instruction's immediate bytes, if any.
pub fn include_imm_values(bytes: &mut Vec<u8>, instr: &Instr)
    ensures
        final(bytes)@ == old(bytes)@ + spec_imm_bytes(*instr),
{
    if instr.mnem.needs_precision_imm() {
        match instr.oprs {
            Oprs::Two(Opr::Mem(m), Opr::Imm8(v) | Opr::Imm32(v) | Opr::Imm64(v)) => {
                if m.size == 1 {
                    push_le_bytes(bytes, i64_bits(v), 1);
                } else {
                    push_le_bytes(bytes, i64_bits(v), 4);
                }
            },
            Oprs::Two(Opr::Reg(r), Opr::Imm8(v) | Opr::Imm32(v) | Opr::Imm64(v)) => {
                push_le_bytes(bytes, i64_bits(v), (r.size / 8) as usize);
            },
            _ => {
                proof {
                    assert(bytes@ =~= bytes@ + Seq::<u8>::empty());
                }
            },
        }
    } else {
        match instr.oprs {
            Oprs::Two(_, Opr::Imm8(v)) | Oprs::One(Opr::Imm8(v)) => {
                push_le_bytes(bytes, i64_bits(v), 1);
            },
            Oprs::Two(_, Opr::Imm32(v)) | Oprs::One(Opr::Imm32(v)) => {
                push_le_bytes(bytes, i64_bits(v), 4);
            },
            Oprs::Two(_, Opr::Imm64(v)) | Oprs::One(Opr::Imm64(v)) => {
                push_le_bytes(bytes, i64_bits(v), 8);
            },
            _ => {
                proof {
                    assert(bytes@ =~= bytes@ + Seq::<u8>::empty());
                }
            },
        }
    }
}

/// The register number an "opcode+reg" classification adds into the opcode:
/// the lone or first register operand's low three bits.
pub open spec fn spec_add_reg(oprs: Oprs) -> u16 {
    match oprs {
        Oprs::One(Opr::Reg(r)) => r.spec_opcode() as u16,
        Oprs::Two(Opr::Reg(r), _) => r.spec_opcode() as u16,
        _ => 0,
    }
}

/// The opcode bytes: the table's base value, plus the register number on
/// "opcode+reg" encodings; emitted as one byte when the value fits eight
/// bits, else as two bytes most-significant first (the table-escape form).
pub open spec fn spec_opcode_bytes(i: Instr) -> Seq<u8> {
    match spec_opcode(i) {
        Some((base, mt)) => {
            let op: u16 = if mt == ModrmType::Add {
                (base + spec_add_reg(i.oprs)) as u16
            } else {
                base
            };
            if op <= 0xFF {
                seq![op as u8]
            } else {
                seq![(op / 256) as u8, (op % 256) as u8]
            }
        },
        None => Seq::empty(),
    }
}

/// The addressing bytes selected by the table's classification.
pub open spec fn spec_modrm_bytes(i: Instr) -> Seq<u8> {
    match spec_opcode(i) {
        Some((_, ModrmType::Modrm)) => spec_modrm(i.oprs),
        Some((_, ModrmType::Ext(ex))) => spec_modrm_ex(ex, i.oprs),
        _ => Seq::empty(),
    }
}

/// The encoder's full verdict on an instruction: the validation error where
/// operand size resolution fails, else the byte sequence of the normalized
/// instruction — prefixes, then opcode, then ModRM/SIB/displacement, then
/// the immediate.
pub open spec fn spec_assemble_instr(i: Instr) -> Result<Seq<u8>, EncodeError> {
    match spec_validate(i) {
        Err(e) => Err(e),
        Ok(_) => {
            let n = spec_normalize(i);
            Ok(spec_prefix(n) + spec_opcode_bytes(n) + spec_modrm_bytes(n) + spec_imm_bytes(n))
        },
    }
}

/// Encodes one instruction to the exact byte sequence the CPU decodes for
/// it, or reports the validation error. The caller hands the encoder an
/// instruction whose operands are well formed and whose (normalized)
/// mnemonic and operand shape the opcode table has an encoding for; the
/// instruction itself is never mutated.
pub fn assemble_instr(instr: &Instr) -> (r: Result<Vec<u8>, EncodeError>)
    requires
        instr.wf(),
        spec_validate(*instr) is Ok ==> spec_opcode(spec_normalize(*instr)) is Some,
    ensures
        match r {
            Ok(bytes) => spec_assemble_instr(*instr) == Ok::<Seq<u8>, EncodeError>(bytes@),
            Err(e) => spec_assemble_instr(*instr) == Err::<Seq<u8>, EncodeError>(e),
        },
{
    match validate_opr_sizes(instr) {
        Ok(_) => {},
        Err(e) => {
            return Err(e);
        },
    }
    let ni = align_imm_oprs_to_reg(instr);
    proof {
        lemma_normalize_wf(*instr);
        lemma_opcode_facts(ni);
    }
    let mut bytes = rex(&ni);
    let (base, modrmtype) = opcode(&ni);
    let mut opcode_val: u16 = base;
    let mut modrm_val: Vec<u8> = Vec::new();
    match modrmtype {
        ModrmType::Add => match ni.oprs {
            Oprs::One(Opr::Reg(r)) | Oprs::Two(Opr::Reg(r), _) => {
                opcode_val = opcode_val + (r.opcode() as u16);
            },
            _ => {
                vstd::pervasive::unreached::<()>();
            },
        },
        ModrmType::Modrm => {
            modrm_val = modrm(&ni.oprs);
        },
        ModrmType::Ext(ex) => {
            modrm_val = modrm_ex(ex, &ni.oprs);
        },
        ModrmType::NoModrm => {},
    }
    if opcode_val <= 0xFF {
        bytes.push(opcode_val as u8);
    } else {
        bytes.push((opcode_val / 256) as u8);
        bytes.push((opcode_val % 256) as u8);
    }
    bytes.append(&mut modrm_val);
    include_imm_values(&mut bytes, &ni);
    proof {
        assert(bytes@ =~= spec_prefix(ni) + spec_opcode_bytes(ni) + spec_modrm_bytes(ni)
            + spec_imm_bytes(ni));
    }
    Ok(bytes)
}

} // verus!
