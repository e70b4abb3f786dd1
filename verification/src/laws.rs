//! Proofs of the properties the encoder guarantees, stated over the
//! specification functions that the encoder's contracts use.

use crate::assemble::{
    is_imm, le_bytes, spec_assemble_instr, spec_i64_bits, spec_imm_bytes, spec_index_ext,
    spec_intrinsic_size, spec_mem_modrm, spec_normalize, spec_prefix, spec_rex_bits, spec_rex_opt,
    spec_sib, spec_validate, EncodeError,
};
use crate::instr::{spec_needs_precision_imm, Instr, MemAddr, MemAddrType, Mnemonic, Opr, Oprs,
    Reg};
use crate::opcodes::spec_opcode;
use vstd::prelude::*;

verus! {

/// Round-trip determinism: the encoder is a pure function of the instruction
/// value, so encoding the same value twice yields identical byte sequences.
pub proof fn lemma_assemble_deterministic(a: Instr, b: Instr)
    requires
        a == b,
    ensures
        spec_assemble_instr(a) == spec_assemble_instr(b),
{
}

/// True of operands that carry no width of their own: immediates, and memory
/// operands without a declared size.
pub open spec fn widthless(o: Opr) -> bool {
    match o {
        Opr::Imm8(_) | Opr::Imm32(_) | Opr::Imm64(_) => true,
        Opr::Mem(m) => m.size == 0,
        _ => false,
    }
}

/// Width inheritance: when one operand of a two-operand instruction has an
/// intrinsic width and the other none, size resolution succeeds with the
/// intrinsic width, regardless of which side carries it. (The one widthless
/// operand a first position admits is a sizeless memory operand: a leading
/// immediate is rejected outright.)
pub proof fn lemma_width_inheritance(i: Instr, a: Opr, b: Opr)
    requires
        i.wf(),
        (i.oprs == Oprs::Two(a, b) && !widthless(a) && widthless(b)) || (i.oprs == Oprs::Two(
            b,
            a,
        ) && (b matches Opr::Mem(_)) && widthless(b) && !widthless(a)),
    ensures
        spec_validate(i) == Ok::<u16, EncodeError>(spec_intrinsic_size(a)),
{
}

/// The conditions under which the prefix stage owes a REX byte, in the
/// property's own vocabulary: an extended register (encoding number 8 to 15)
/// anywhere in the shape, a 64-bit width on the width-giving operand, or a
/// new-style 8-bit register anywhere a register operand can stand, which
/// needs the byte purely to select the right physical register. `Push` and
/// `Pop` of a single register inherently operate at a fixed width and never
/// owe the width bit.
pub open spec fn rex_expected(i: Instr) -> bool {
    match i.oprs {
        Oprs::Two(Opr::Reg(r1), Opr::Reg(r2)) => r1.num >= 8 || r2.num >= 8 || r1.size == 64
            || r1.new8 || r2.new8,
        Oprs::Two(Opr::Reg(r), Opr::Mem(m)) | Oprs::Two(Opr::Mem(m), Opr::Reg(r)) => r.num >= 8
            || m.register.num >= 8 || spec_index_ext(m) || r.size == 64 || r.new8,
        Oprs::Two(Opr::Reg(r), _) => r.num >= 8 || r.size == 64 || r.new8,
        Oprs::Two(Opr::Mem(m), _) | Oprs::One(Opr::Mem(m)) => m.register.num >= 8
            || spec_index_ext(m) || m.size == 8,
        Oprs::One(Opr::Reg(r)) => r.num >= 8 || (r.size == 64 && i.mnem != Mnemonic::Push
            && i.mnem != Mnemonic::Pop) || r.new8,
        _ => false,
    }
}

/// REX necessity: the prefix bytes hold a REX byte (a value in the range
/// 0x40 to 0x4F) if and only if the shape calls for one; in particular a
/// plain 8/16/32-bit instruction over legacy registers never gets one.
pub proof fn lemma_rex_necessity(i: Instr)
    ensures
        (exists|k: int|
            0 <= k < spec_prefix(i).len() && 0x40 <= #[trigger] spec_prefix(i)[k] < 0x50)
            <==> rex_expected(i),
{
    assert(forall|w: bool, r: bool, x: bool, bb: bool|
        0x40 <= #[trigger] spec_rex_bits(w, r, x, bb) < 0x50);
    assert((spec_rex_opt(i) is Some) <==> rex_expected(i));
    match spec_rex_opt(i) {
        Some(b) => {
            let p = spec_prefix(i);
            assert(p[p.len() - 1] == b);
            assert(0x40 <= b < 0x50);
        },
        None => {
            assert(forall|k: int|
                0 <= k < spec_prefix(i).len() ==> #[trigger] spec_prefix(i)[k] == 0x66);
        },
    }
}

/// The operand width the prefix stage resolves for a two-operand shape: the
/// width-giving register's size, or the leading memory operand's declared
/// size in bits where no register gives it.
pub open spec fn spec_prefix_width(i: Instr) -> u16 {
    match i.oprs {
        Oprs::Two(Opr::Reg(r1), Opr::Reg(_)) => r1.size,
        Oprs::Two(Opr::Reg(r), Opr::Mem(_)) | Oprs::Two(Opr::Mem(_), Opr::Reg(r)) => r.size,
        Oprs::Two(Opr::Reg(r), _) => r.size,
        Oprs::Two(Opr::Mem(m), _) => (m.size * 8) as u16,
        _ => 0,
    }
}

/// 16-bit override: for a two-operand instruction the prefix holds the 0x66
/// operand-size override byte if and only if the resolved operand width is
/// 16 bits.
pub proof fn lemma_override_iff(i: Instr)
    requires
        i.wf(),
        i.oprs matches Oprs::Two(_, _),
    ensures
        spec_prefix(i).contains(0x66) <==> spec_prefix_width(i) == 16,
{
    assert(forall|w: bool, r: bool, x: bool, bb: bool|
        0x40 <= #[trigger] spec_rex_bits(w, r, x, bb) < 0x50);
    if spec_prefix_width(i) == 16 {
        assert(spec_prefix(i)[0] == 0x66);
    } else {
        assert(forall|k: int|
            0 <= k < spec_prefix(i).len() ==> #[trigger] spec_prefix(i)[k] != 0x66);
    }
}

/// On every successfully validated two-operand shape the opcode table
/// defines (it defines no two-memory shape), the width the prefix stage uses
/// is exactly the resolved operand width: size validation now rejects the
/// mismatches that could drive the two apart.
pub proof fn lemma_prefix_width_is_resolved(i: Instr)
    requires
        i.wf(),
        i.oprs matches Oprs::Two(_, _),
        spec_validate(i) is Ok,
        spec_opcode(i) is Some,
    ensures
        spec_validate(i) == Ok::<u16, EncodeError>(spec_prefix_width(i)),
{
}

/// 16-bit override against the resolved width: a validated two-operand
/// instruction the opcode table defines holds the 0x66 byte if and only if
/// size resolution produced 16 bits.
pub proof fn lemma_override_iff_resolved(i: Instr)
    requires
        i.wf(),
        i.oprs matches Oprs::Two(_, _),
        spec_validate(i) is Ok,
        spec_opcode(i) is Some,
    ensures
        spec_prefix(i).contains(0x66) <==> spec_validate(i) == Ok::<u16, EncodeError>(16),
{
    lemma_override_iff(i);
    lemma_prefix_width_is_resolved(i);
}

/// ModRM mod-field selection: for a memory operand with displacement `d`,
/// the mod field (the top two bits of the first addressing byte) is 0b00
/// exactly on the no-displacement shape and on an indexed shape with
/// `d == 0`; 0b01 exactly when `d` fits a signed byte (always for the
/// non-indexed displacement shape in 8-bit range, excluding `d == 0` on
/// indexed shapes); and 0b10 otherwise.
pub proof fn lemma_mod_field(r: u8, m: MemAddr)
    ensures
        spec_mem_modrm(r, m)[0] / 64 == (if m.addr_type == MemAddrType::Address || (m.addr_type
            == MemAddrType::Sib && m.disp == 0) {
            0int
        } else if -128 <= m.disp && m.disp <= 127 {
            1int
        } else {
            2int
        }),
{
}

/// SIB escape: an indexed memory operand always encodes rm = 0b100 (the SIB
/// escape code) in its ModRM byte, and its SIB byte follows immediately.
pub proof fn lemma_sib_escape(r: u8, m: MemAddr)
    requires
        m.addr_type == MemAddrType::Sib,
    ensures
        spec_mem_modrm(r, m).len() >= 2,
        spec_mem_modrm(r, m)[0] % 8 == 4,
        spec_mem_modrm(r, m)[1] == spec_sib(m),
{
}

/// The other half of the SIB escape rule: a memory operand the encoding
/// cannot express is not a valid operand at all — it is rejected as a
/// collaborator bug rather than silently miscoded. That covers a non-indexed
/// operand whose base register's 3-bit number is the SIB escape code 0b100
/// (extended bases such as numbers 12 and 13 included, since only the low
/// three bits reach the rm field), a no-displacement operand whose base
/// number is the absolute-displacement escape code 0b101, and an indexed
/// operand missing its index register.
pub proof fn lemma_sib_escape_needs_index(m: MemAddr)
    requires
        ((m.addr_type == MemAddrType::Disp || m.addr_type == MemAddrType::Address)
            && m.register.num % 8 == 4) || (m.addr_type == MemAddrType::Address
            && m.register.num % 8 == 5) || (m.addr_type == MemAddrType::Sib
            && m.s_register is None),
    ensures
        !m.wf(),
{
}

/// An instruction carrying such an inexpressible memory operand anywhere in
/// its operand list is outside the encoder's precondition: no byte sequence
/// is ever produced for it.
pub proof fn lemma_escape_instr_rejected(i: Instr, m: MemAddr)
    requires
        ((m.addr_type == MemAddrType::Disp || m.addr_type == MemAddrType::Address)
            && m.register.num % 8 == 4) || (m.addr_type == MemAddrType::Address
            && m.register.num % 8 == 5) || (m.addr_type == MemAddrType::Sib
            && m.s_register is None),
        match i.oprs {
            Oprs::Zero => false,
            Oprs::One(o) => o == Opr::Mem(m),
            Oprs::Two(x, y) => x == Opr::Mem(m) || y == Opr::Mem(m),
        },
    ensures
        !i.wf(),
{
    lemma_sib_escape_needs_index(m);
}

/// The little-endian helper emits exactly the requested number of bytes.
pub proof fn lemma_le_bytes_len(v: u64, n: nat)
    ensures
        le_bytes(v, n).len() == n,
    decreases n,
{
    if n > 0 {
        lemma_le_bytes_len(v / 256, (n - 1) as nat);
    }
}

/// Immediate truncation, memory destinations: a destination-precision
/// mnemonic appends exactly one immediate byte for an 8-bit memory
/// destination and exactly four for any wider one, whatever the immediate's
/// stored width.
pub proof fn lemma_imm_truncation_mem(i: Instr, m: MemAddr, imm: Opr)
    requires
        spec_needs_precision_imm(i.mnem),
        i.oprs == Oprs::Two(Opr::Mem(m), imm),
        is_imm(imm),
    ensures
        spec_imm_bytes(i).len() == (if m.size == 1 {
            1int
        } else {
            4int
        }),
{
    match imm {
        Opr::Imm8(v) | Opr::Imm32(v) | Opr::Imm64(v) => {
            lemma_le_bytes_len(
                spec_i64_bits(v),
                if m.size == 1 {
                    1nat
                } else {
                    4nat
                },
            );
        },
        _ => {},
    }
}

/// Immediate truncation, register destinations: a destination-precision
/// mnemonic appends exactly the destination register's width in bytes,
/// whatever the immediate's stored width.
pub proof fn lemma_imm_truncation_reg(i: Instr, r: Reg, imm: Opr)
    requires
        spec_needs_precision_imm(i.mnem),
        i.oprs == Oprs::Two(Opr::Reg(r), imm),
        is_imm(imm),
    ensures
        spec_imm_bytes(i).len() == r.size / 8,
{
    match imm {
        Opr::Imm8(v) | Opr::Imm32(v) | Opr::Imm64(v) => {
            lemma_le_bytes_len(spec_i64_bits(v), (r.size / 8) as nat);
        },
        _ => {},
    }
}

/// Normalization transparency: a move of a 32-bit or 8-bit immediate into a
/// 64-bit register encodes byte for byte as the manually constructed move of
/// the 32-bit immediate into the corresponding 32-bit register.
pub proof fn lemma_normalization_transparency(r: Reg, v: i64)
    requires
        r.wf(),
        r.size == 64,
    ensures
        ({
            let wide = (Instr { mnem: Mnemonic::Mov, oprs: Oprs::Two(Opr::Reg(r), Opr::Imm32(v)) });
            let narrow = (Instr {
                mnem: Mnemonic::Mov,
                oprs: Oprs::Two(
                    Opr::Reg(Reg { num: r.num, size: 32, new8: false }),
                    Opr::Imm32(v),
                ),
            });
            spec_assemble_instr(wide) == spec_assemble_instr(narrow)
        }),
        ({
            let wide8 = (Instr { mnem: Mnemonic::Mov, oprs: Oprs::Two(Opr::Reg(r), Opr::Imm8(v)) });
            let narrow = (Instr {
                mnem: Mnemonic::Mov,
                oprs: Oprs::Two(
                    Opr::Reg(Reg { num: r.num, size: 32, new8: false }),
                    Opr::Imm32(v),
                ),
            });
            spec_assemble_instr(wide8) == spec_assemble_instr(narrow)
        }),
{
    let narrow = (Instr {
        mnem: Mnemonic::Mov,
        oprs: Oprs::Two(Opr::Reg(Reg { num: r.num, size: 32, new8: false }), Opr::Imm32(v)),
    });
    assert(spec_normalize(Instr { mnem: Mnemonic::Mov, oprs: Oprs::Two(Opr::Reg(r), Opr::Imm32(v)) })
        == narrow);
    assert(spec_normalize(Instr { mnem: Mnemonic::Mov, oprs: Oprs::Two(Opr::Reg(r), Opr::Imm8(v)) })
        == narrow);
    assert(spec_normalize(narrow) == narrow);
}

} // verus!
