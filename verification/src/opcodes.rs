//! The opcode table: a pure function from a mnemonic and an operand shape to
//! a base opcode value and an addressing-mode classification.

use crate::instr::{Instr, Mnemonic, ModrmType, Opr, Oprs};
use vstd::prelude::*;

verus! {

/// Table entries shared by the arithmetic family (`Add`, `Sub`, `Cmp`):
/// `rm_r8`/`rm_r` encode "memory-or-register destination, register source"
/// at 8-bit and wider widths, `r_rm8`/`r_rm` the mirrored direction, and an
/// immediate source selects the group opcode 0x80/0x81 with the family's
/// extension constant `ext` in the ModRM reg field.
pub open spec fn spec_arith_opcode(
    oprs: Oprs,
    rm_r8: u16,
    rm_r: u16,
    r_rm8: u16,
    r_rm: u16,
    ext: u8,
) -> Option<(u16, ModrmType)> {
    match oprs {
        Oprs::Two(Opr::Reg(r1), Opr::Reg(_)) => Some(
            (if r1.size == 8 { rm_r8 } else { rm_r }, ModrmType::Modrm),
        ),
        Oprs::Two(Opr::Mem(_), Opr::Reg(r)) => Some(
            (if r.size == 8 { rm_r8 } else { rm_r }, ModrmType::Modrm),
        ),
        Oprs::Two(Opr::Reg(r), Opr::Mem(_)) => Some(
            (if r.size == 8 { r_rm8 } else { r_rm }, ModrmType::Modrm),
        ),
        Oprs::Two(Opr::Reg(r), Opr::Imm8(_)) => Some(
            (if r.size == 8 { 0x80 } else { 0x81 }, ModrmType::Ext(ext)),
        ),
        Oprs::Two(Opr::Reg(r), Opr::Imm32(_)) => Some(
            (if r.size == 8 { 0x80 } else { 0x81 }, ModrmType::Ext(ext)),
        ),
        Oprs::Two(Opr::Reg(r), Opr::Imm64(_)) => Some(
            (if r.size == 8 { 0x80 } else { 0x81 }, ModrmType::Ext(ext)),
        ),
        Oprs::Two(Opr::Mem(m), Opr::Imm8(_)) => Some(
            (if m.size == 1 { 0x80 } else { 0x81 }, ModrmType::Ext(ext)),
        ),
        Oprs::Two(Opr::Mem(m), Opr::Imm32(_)) => Some(
            (if m.size == 1 { 0x80 } else { 0x81 }, ModrmType::Ext(ext)),
        ),
        Oprs::Two(Opr::Mem(m), Opr::Imm64(_)) => Some(
            (if m.size == 1 { 0x80 } else { 0x81 }, ModrmType::Ext(ext)),
        ),
        _ => None,
    }
}

/// What the opcode table returns for an instruction: the base opcode value
/// (one byte, or two bytes for table-escape encodings) and the
/// addressing-mode classification, or `None` where the table defines no
/// encoding for the mnemonic and operand shape.
pub open spec fn spec_opcode(i: Instr) -> Option<(u16, ModrmType)> {
    match i.mnem {
        Mnemonic::Mov => match i.oprs {
            Oprs::Two(Opr::Reg(r1), Opr::Reg(_)) => Some(
                (if r1.size == 8 { 0x88 } else { 0x89 }, ModrmType::Modrm),
            ),
            Oprs::Two(Opr::Mem(_), Opr::Reg(r)) => Some(
                (if r.size == 8 { 0x88 } else { 0x89 }, ModrmType::Modrm),
            ),
            Oprs::Two(Opr::Reg(r), Opr::Mem(_)) => Some(
                (if r.size == 8 { 0x8A } else { 0x8B }, ModrmType::Modrm),
            ),
            Oprs::Two(Opr::Reg(r), Opr::Imm8(_)) => Some(
                (if r.size == 8 { 0xB0 } else { 0xB8 }, ModrmType::Add),
            ),
            Oprs::Two(Opr::Reg(r), Opr::Imm32(_)) => Some(
                (if r.size == 8 { 0xB0 } else { 0xB8 }, ModrmType::Add),
            ),
            Oprs::Two(Opr::Reg(r), Opr::Imm64(_)) => Some(
                (if r.size == 8 { 0xB0 } else { 0xB8 }, ModrmType::Add),
            ),
            Oprs::Two(Opr::Mem(m), Opr::Imm8(_)) => Some(
                (if m.size == 1 { 0xC6 } else { 0xC7 }, ModrmType::Ext(0)),
            ),
            Oprs::Two(Opr::Mem(m), Opr::Imm32(_)) => Some(
                (if m.size == 1 { 0xC6 } else { 0xC7 }, ModrmType::Ext(0)),
            ),
            _ => None,
        },
        Mnemonic::Add => spec_arith_opcode(i.oprs, 0x00, 0x01, 0x02, 0x03, 0),
        Mnemonic::Sub => spec_arith_opcode(i.oprs, 0x28, 0x29, 0x2A, 0x2B, 5),
        Mnemonic::Cmp => spec_arith_opcode(i.oprs, 0x38, 0x39, 0x3A, 0x3B, 7),
        Mnemonic::Push => match i.oprs {
            Oprs::One(Opr::Reg(_)) => Some((0x50, ModrmType::Add)),
            Oprs::One(Opr::Mem(_)) => Some((0xFF, ModrmType::Ext(6))),
            Oprs::One(Opr::Imm8(_)) => Some((0x6A, ModrmType::NoModrm)),
            Oprs::One(Opr::Imm32(_)) => Some((0x68, ModrmType::NoModrm)),
            _ => None,
        },
        Mnemonic::Pop => match i.oprs {
            Oprs::One(Opr::Reg(_)) => Some((0x58, ModrmType::Add)),
            Oprs::One(Opr::Mem(_)) => Some((0x8F, ModrmType::Ext(0))),
            _ => None,
        },
        Mnemonic::Ret => match i.oprs {
            Oprs::Zero => Some((0xC3, ModrmType::NoModrm)),
            _ => None,
        },
        Mnemonic::Syscall => match i.oprs {
            Oprs::Zero => Some((0x0F05, ModrmType::NoModrm)),
            _ => None,
        },
    }
}

/// Every entry of the table respects the shapes the encoder is built for: an
/// "opcode+reg" entry stands on a leading register operand and leaves room
/// for the added register number in one byte, a ModRM entry stands on a
/// shape that has an rm operand, and every opcode value fits in two bytes.
pub proof fn lemma_opcode_facts(i: Instr)
    ensures
        match spec_opcode(i) {
            Some((op, mt)) => {
                &&& op <= 0x0F05
                &&& (mt == ModrmType::Add ==> op <= 0xB8 && i.oprs.add_shape())
                &&& (mt == ModrmType::Modrm ==> i.oprs.modrm_shape())
                &&& (mt matches ModrmType::Ext(_) ==> i.oprs.ext_shape())
            },
            None => true,
        },
{
}

/// Looks an instruction up in the opcode table. The caller only hands the
/// encoder instructions the table has an encoding for.
pub fn opcode(instr: &Instr) -> (r: (u16, ModrmType))
    requires
        spec_opcode(*instr) is Some,
    ensures
        Some(r) == spec_opcode(*instr),
{
    match (instr.mnem, instr.oprs) {
        (Mnemonic::Mov, Oprs::Two(Opr::Reg(r1), Opr::Reg(_))) => (
            if r1.size == 8 { 0x88 } else { 0x89 },
            ModrmType::Modrm,
        ),
        (Mnemonic::Mov, Oprs::Two(Opr::Mem(_), Opr::Reg(r))) => (
            if r.size == 8 { 0x88 } else { 0x89 },
            ModrmType::Modrm,
        ),
        (Mnemonic::Mov, Oprs::Two(Opr::Reg(r), Opr::Mem(_))) => (
            if r.size == 8 { 0x8A } else { 0x8B },
            ModrmType::Modrm,
        ),
        (
            Mnemonic::Mov,
            Oprs::Two(Opr::Reg(r), Opr::Imm8(_) | Opr::Imm32(_) | Opr::Imm64(_)),
        ) => (if r.size == 8 { 0xB0 } else { 0xB8 }, ModrmType::Add),
        (Mnemonic::Mov, Oprs::Two(Opr::Mem(m), Opr::Imm8(_) | Opr::Imm32(_))) => (
            if m.size == 1 { 0xC6 } else { 0xC7 },
            ModrmType::Ext(0),
        ),
        (Mnemonic::Add, _) => arith_opcode(&instr.oprs, 0x00, 0x01, 0x02, 0x03, 0),
        (Mnemonic::Sub, _) => arith_opcode(&instr.oprs, 0x28, 0x29, 0x2A, 0x2B, 5),
        (Mnemonic::Cmp, _) => arith_opcode(&instr.oprs, 0x38, 0x39, 0x3A, 0x3B, 7),
        (Mnemonic::Push, Oprs::One(Opr::Reg(_))) => (0x50, ModrmType::Add),
        (Mnemonic::Push, Oprs::One(Opr::Mem(_))) => (0xFF, ModrmType::Ext(6)),
        (Mnemonic::Push, Oprs::One(Opr::Imm8(_))) => (0x6A, ModrmType::NoModrm),
        (Mnemonic::Push, Oprs::One(Opr::Imm32(_))) => (0x68, ModrmType::NoModrm),
        (Mnemonic::Pop, Oprs::One(Opr::Reg(_))) => (0x58, ModrmType::Add),
        (Mnemonic::Pop, Oprs::One(Opr::Mem(_))) => (0x8F, ModrmType::Ext(0)),
        (Mnemonic::Ret, Oprs::Zero) => (0xC3, ModrmType::NoModrm),
        (Mnemonic::Syscall, Oprs::Zero) => (0x0F05, ModrmType::NoModrm),
        _ => vstd::pervasive::unreached(),
    }
}

/// The arithmetic-family rows of the table; see `spec_arith_opcode`.
fn arith_opcode(oprs: &Oprs, rm_r8: u16, rm_r: u16, r_rm8: u16, r_rm: u16, ext: u8) -> (r: (
    u16,
    ModrmType,
))
    requires
        spec_arith_opcode(*oprs, rm_r8, rm_r, r_rm8, r_rm, ext) is Some,
    ensures
        Some(r) == spec_arith_opcode(*oprs, rm_r8, rm_r, r_rm8, r_rm, ext),
{
    match oprs {
        Oprs::Two(Opr::Reg(r1), Opr::Reg(_)) => (
            if r1.size == 8 { rm_r8 } else { rm_r },
            ModrmType::Modrm,
        ),
        Oprs::Two(Opr::Mem(_), Opr::Reg(r)) => (
            if r.size == 8 { rm_r8 } else { rm_r },
            ModrmType::Modrm,
        ),
        Oprs::Two(Opr::Reg(r), Opr::Mem(_)) => (
            if r.size == 8 { r_rm8 } else { r_rm },
            ModrmType::Modrm,
        ),
        Oprs::Two(Opr::Reg(r), Opr::Imm8(_) | Opr::Imm32(_) | Opr::Imm64(_)) => (
            if r.size == 8 { 0x80 } else { 0x81 },
            ModrmType::Ext(ext),
        ),
        Oprs::Two(Opr::Mem(m), Opr::Imm8(_) | Opr::Imm32(_) | Opr::Imm64(_)) => (
            if m.size == 1 { 0x80 } else { 0x81 },
            ModrmType::Ext(ext),
        ),
        _ => vstd::pervasive::unreached(),
    }
}

} // verus!
