use x64enc::assemble::{
    align_imm_oprs_to_reg, assemble_instr, include_imm_values, rex, sib, validate_opr_sizes,
    EncodeError, _modrm,
};
use x64enc::instr::{Instr, MemAddr, MemAddrType, Mnemonic, Opr, Oprs, Reg};

fn reg(num: u8, size: u16) -> Reg {
    Reg { num, size, new8: false }
}

fn mem(base: Reg, index: Option<Reg>, scale: u8, disp: i32, size: u16, at: MemAddrType) -> MemAddr {
    MemAddr { register: base, s_register: index, scale, disp, size, addr_type: at }
}

fn two(mnem: Mnemonic, a: Opr, b: Opr) -> Instr {
    Instr { mnem, oprs: Oprs::Two(a, b) }
}

fn one(mnem: Mnemonic, a: Opr) -> Instr {
    Instr { mnem, oprs: Oprs::One(a) }
}

fn enc(i: &Instr) -> Vec<u8> {
    assemble_instr(i).unwrap()
}

#[test]
fn encode_is_deterministic() {
    let i = two(Mnemonic::Mov, Opr::Reg(reg(0, 64)), Opr::Reg(reg(3, 64)));
    assert_eq!(enc(&i), enc(&i));
}

#[test]
fn mov_reg_reg_64_legacy() {
    // REX with only W set, one opcode byte, one ModRM byte with mod = 0b11.
    let i = two(Mnemonic::Mov, Opr::Reg(reg(0, 64)), Opr::Reg(reg(3, 64)));
    let b = enc(&i);
    assert_eq!(b, vec![0x48, 0x89, 0xD8]);
    assert_eq!(b[0], 0x48);
    assert_eq!(b[2] >> 6, 0b11);
}

#[test]
fn mov_mem_disp32_extended_base() {
    // Base register r13, no index, displacement 300: REX.B, mod = 0b10,
    // rm = 13 & 7 = 0b101, four little-endian displacement bytes, no SIB.
    let m = mem(reg(13, 64), None, 1, 300, 0, MemAddrType::Disp);
    let i = two(Mnemonic::Mov, Opr::Mem(m), Opr::Reg(reg(1, 32)));
    let b = enc(&i);
    assert_eq!(b, vec![0x41, 0x89, 0x8D, 0x2C, 0x01, 0x00, 0x00]);
    assert_eq!(b[0] & 1, 1);
    assert_eq!(b[2] >> 6, 0b10);
    assert_eq!(b[2] & 7, 0b101);
    assert_eq!(b.len(), 7);
}

#[test]
fn cmp_mem16_imm8_takes_four_imm_bytes() {
    // A 2-byte memory destination still takes four immediate bytes.
    let m = mem(reg(3, 64), None, 1, 8, 2, MemAddrType::Disp);
    let i = two(Mnemonic::Cmp, Opr::Mem(m), Opr::Imm8(5));
    let b = enc(&i);
    assert_eq!(b, vec![0x66, 0x81, 0x7B, 0x08, 0x05, 0x00, 0x00, 0x00]);
}

#[test]
fn cmp_mem8_imm_takes_one_imm_byte() {
    let m = mem(reg(3, 64), None, 1, 0, 1, MemAddrType::Address);
    let i = two(Mnemonic::Cmp, Opr::Mem(m), Opr::Imm8(5));
    assert_eq!(enc(&i), vec![0x80, 0x3B, 0x05]);
}

#[test]
fn cmp_reg32_imm_takes_four_imm_bytes() {
    let i = two(Mnemonic::Cmp, Opr::Reg(reg(1, 32)), Opr::Imm32(5000));
    assert_eq!(enc(&i), vec![0x81, 0xF9, 0x88, 0x13, 0x00, 0x00]);
}

#[test]
fn cmp_reg8_imm_takes_one_imm_byte() {
    let i = two(Mnemonic::Cmp, Opr::Reg(reg(1, 8)), Opr::Imm8(5));
    assert_eq!(enc(&i), vec![0x80, 0xF9, 0x05]);
}

#[test]
fn mov_r64_imm32_normalizes_to_r32_form() {
    let wide = two(Mnemonic::Mov, Opr::Reg(reg(0, 64)), Opr::Imm32(5));
    let narrow = two(Mnemonic::Mov, Opr::Reg(reg(0, 32)), Opr::Imm32(5));
    assert_eq!(enc(&wide), enc(&narrow));
    assert_eq!(enc(&wide), vec![0xB8, 0x05, 0x00, 0x00, 0x00]);
}

#[test]
fn mov_r64_imm8_normalizes_to_r32_form() {
    let wide = two(Mnemonic::Mov, Opr::Reg(reg(0, 64)), Opr::Imm8(5));
    assert_eq!(enc(&wide), vec![0xB8, 0x05, 0x00, 0x00, 0x00]);
}

#[test]
fn mov_r64_imm64_keeps_full_immediate() {
    let i = two(Mnemonic::Mov, Opr::Reg(reg(0, 64)), Opr::Imm64(0x0102030405060708));
    assert_eq!(
        enc(&i),
        vec![0x48, 0xB8, 0x08, 0x07, 0x06, 0x05, 0x04, 0x03, 0x02, 0x01],
    );
}

#[test]
fn mov_reg_reg_16_gets_override() {
    let i = two(Mnemonic::Mov, Opr::Reg(reg(1, 16)), Opr::Reg(reg(2, 16)));
    assert_eq!(enc(&i), vec![0x66, 0x89, 0xD1]);
}

#[test]
fn mov_reg_reg_32_legacy_has_no_prefix() {
    let i = two(Mnemonic::Mov, Opr::Reg(reg(0, 32)), Opr::Reg(reg(1, 32)));
    assert_eq!(enc(&i), vec![0x89, 0xC8]);
}

#[test]
fn new8_register_forces_rex() {
    let sil = Reg { num: 6, size: 8, new8: true };
    let i = two(Mnemonic::Mov, Opr::Reg(sil), Opr::Reg(reg(0, 8)));
    assert_eq!(enc(&i), vec![0x40, 0x88, 0xC6]);
}

#[test]
fn new8_register_beside_memory_forces_rex() {
    let sil = Reg { num: 6, size: 8, new8: true };
    let m = mem(reg(3, 64), None, 1, 0, 0, MemAddrType::Address);
    let store = two(Mnemonic::Mov, Opr::Mem(m), Opr::Reg(sil));
    assert_eq!(enc(&store), vec![0x40, 0x88, 0x33]);
    let load = two(Mnemonic::Mov, Opr::Reg(sil), Opr::Mem(m));
    assert_eq!(enc(&load), vec![0x40, 0x8A, 0x33]);
}

#[test]
fn legacy8_register_needs_no_rex() {
    let i = two(Mnemonic::Mov, Opr::Reg(reg(6, 8)), Opr::Reg(reg(0, 8)));
    assert_eq!(enc(&i), vec![0x88, 0xC6]);
}

#[test]
fn push_pop_reg() {
    assert_eq!(enc(&one(Mnemonic::Push, Opr::Reg(reg(0, 64)))), vec![0x50]);
    assert_eq!(enc(&one(Mnemonic::Pop, Opr::Reg(reg(1, 64)))), vec![0x59]);
}

#[test]
fn push_reg16_skips_size_resolution() {
    // Single-operand instructions skip size resolution, so no override byte.
    assert_eq!(enc(&one(Mnemonic::Push, Opr::Reg(reg(0, 16)))), vec![0x50]);
}

#[test]
fn push_extended_reg_gets_rex() {
    // A lone register operand is the reg-field source, so its extension sets
    // the reg-field extension bit of the REX byte.
    assert_eq!(enc(&one(Mnemonic::Push, Opr::Reg(reg(9, 64)))), vec![0x44, 0x51]);
}

#[test]
fn push_imm() {
    assert_eq!(enc(&one(Mnemonic::Push, Opr::Imm8(5))), vec![0x6A, 0x05]);
    assert_eq!(
        enc(&one(Mnemonic::Push, Opr::Imm32(1000))),
        vec![0x68, 0xE8, 0x03, 0x00, 0x00],
    );
}

#[test]
fn push_imm8_negative() {
    assert_eq!(enc(&one(Mnemonic::Push, Opr::Imm8(-1))), vec![0x6A, 0xFF]);
}

#[test]
fn push_mem() {
    let m = mem(reg(0, 64), None, 1, 0, 0, MemAddrType::Address);
    assert_eq!(enc(&one(Mnemonic::Push, Opr::Mem(m))), vec![0xFF, 0x30]);
}

#[test]
fn ret_and_two_byte_opcode() {
    assert_eq!(enc(&Instr { mnem: Mnemonic::Ret, oprs: Oprs::Zero }), vec![0xC3]);
    assert_eq!(enc(&Instr { mnem: Mnemonic::Syscall, oprs: Oprs::Zero }), vec![0x0F, 0x05]);
}

#[test]
fn sib_with_zero_disp() {
    let m = mem(reg(0, 64), Some(reg(1, 64)), 4, 0, 0, MemAddrType::Sib);
    let i = two(Mnemonic::Mov, Opr::Mem(m), Opr::Reg(reg(2, 64)));
    let b = enc(&i);
    assert_eq!(b, vec![0x48, 0x89, 0x14, 0x88]);
    assert_eq!(b[2] & 7, 0b100);
}

#[test]
fn sib_with_disp8() {
    let m = mem(reg(0, 64), Some(reg(1, 64)), 4, 8, 0, MemAddrType::Sib);
    let i = two(Mnemonic::Mov, Opr::Mem(m), Opr::Reg(reg(2, 64)));
    assert_eq!(enc(&i), vec![0x48, 0x89, 0x54, 0x88, 0x08]);
}

#[test]
fn sib_with_disp32() {
    let m = mem(reg(0, 64), Some(reg(1, 64)), 4, 300, 0, MemAddrType::Sib);
    let i = two(Mnemonic::Mov, Opr::Mem(m), Opr::Reg(reg(2, 64)));
    assert_eq!(enc(&i), vec![0x48, 0x89, 0x94, 0x88, 0x2C, 0x01, 0x00, 0x00]);
}

#[test]
fn sib_with_extended_index_sets_x_bit() {
    let m = mem(reg(0, 64), Some(reg(9, 64)), 1, 0, 0, MemAddrType::Sib);
    let i = two(Mnemonic::Mov, Opr::Mem(m), Opr::Reg(reg(2, 64)));
    assert_eq!(enc(&i), vec![0x4A, 0x89, 0x14, 0x08]);
}

#[test]
fn sizeless_mem_inherits_register_width() {
    let m = mem(reg(3, 64), None, 1, 0, 0, MemAddrType::Address);
    let i = two(Mnemonic::Mov, Opr::Mem(m), Opr::Reg(reg(0, 64)));
    assert_eq!(validate_opr_sizes(&i), Ok(64));
    assert_eq!(enc(&i), vec![0x48, 0x89, 0x03]);
    let j = two(Mnemonic::Mov, Opr::Reg(reg(0, 64)), Opr::Mem(m));
    assert_eq!(validate_opr_sizes(&j), Ok(64));
    assert_eq!(enc(&j), vec![0x48, 0x8B, 0x03]);
}

#[test]
fn sized_mem_gives_imm_its_width() {
    let m = mem(reg(3, 64), None, 1, 0, 4, MemAddrType::Address);
    let i = two(Mnemonic::Mov, Opr::Mem(m), Opr::Imm32(7));
    assert_eq!(validate_opr_sizes(&i), Ok(32));
    assert_eq!(enc(&i), vec![0xC7, 0x03, 0x07, 0x00, 0x00, 0x00]);
}

#[test]
fn mov_mem8_imm() {
    let m = mem(reg(3, 64), None, 1, 0, 1, MemAddrType::Address);
    let i = two(Mnemonic::Mov, Opr::Mem(m), Opr::Imm8(5));
    assert_eq!(enc(&i), vec![0xC6, 0x03, 0x05]);
}

#[test]
fn mov_mem_imm_extended_base_sets_b_bit() {
    let m = mem(reg(9, 64), None, 1, 0, 4, MemAddrType::Address);
    let i = two(Mnemonic::Mov, Opr::Mem(m), Opr::Imm32(7));
    assert_eq!(enc(&i), vec![0x41, 0xC7, 0x01, 0x07, 0x00, 0x00, 0x00]);
}

#[test]
fn negative_disp8() {
    let m = mem(reg(3, 64), None, 1, -4, 0, MemAddrType::Disp);
    let i = two(Mnemonic::Mov, Opr::Mem(m), Opr::Reg(reg(0, 32)));
    assert_eq!(enc(&i), vec![0x89, 0x43, 0xFC]);
}

#[test]
fn disp8_boundaries() {
    let at = MemAddrType::Disp;
    let i = |d: i32| two(Mnemonic::Mov, Opr::Mem(mem(reg(3, 64), None, 1, d, 0, at)), Opr::Reg(reg(0, 32)));
    assert_eq!(enc(&i(127)), vec![0x89, 0x43, 0x7F]);
    assert_eq!(enc(&i(128)), vec![0x89, 0x83, 0x80, 0x00, 0x00, 0x00]);
    assert_eq!(enc(&i(-128)), vec![0x89, 0x43, 0x80]);
    assert_eq!(enc(&i(-129)), vec![0x89, 0x83, 0x7F, 0xFF, 0xFF, 0xFF]);
}

#[test]
fn mem_size_8_bytes_sets_w_bit() {
    let m = mem(reg(3, 64), None, 1, 0, 8, MemAddrType::Address);
    let i = two(Mnemonic::Mov, Opr::Mem(m), Opr::Imm32(7));
    assert_eq!(enc(&i), vec![0x48, 0xC7, 0x03, 0x07, 0x00, 0x00, 0x00]);
}

#[test]
fn add_and_sub_reg_reg() {
    let a = two(Mnemonic::Add, Opr::Reg(reg(0, 64)), Opr::Reg(reg(3, 64)));
    assert_eq!(enc(&a), vec![0x48, 0x01, 0xD8]);
    let s = two(Mnemonic::Sub, Opr::Reg(reg(0, 64)), Opr::Reg(reg(3, 64)));
    assert_eq!(enc(&s), vec![0x48, 0x29, 0xD8]);
    let ai = two(Mnemonic::Add, Opr::Reg(reg(0, 32)), Opr::Imm32(1));
    assert_eq!(enc(&ai), vec![0x81, 0xC0, 0x01, 0x00, 0x00, 0x00]);
}

#[test]
fn ambiguous_size_is_reported() {
    let m = mem(reg(3, 64), None, 1, 0, 0, MemAddrType::Address);
    let i = two(Mnemonic::Mov, Opr::Mem(m), Opr::Imm32(5));
    assert_eq!(assemble_instr(&i), Err(EncodeError::UnknownOprSize(i)));
}

#[test]
fn mismatched_widths_are_reported() {
    let i = two(Mnemonic::Mov, Opr::Reg(reg(0, 32)), Opr::Reg(reg(3, 64)));
    assert_eq!(assemble_instr(&i), Err(EncodeError::MismatchedOprSize(i)));
    let m = mem(reg(3, 64), None, 1, 0, 2, MemAddrType::Address);
    let j = two(Mnemonic::Mov, Opr::Mem(m), Opr::Reg(reg(0, 32)));
    assert_eq!(assemble_instr(&j), Err(EncodeError::MismatchedOprSize(j)));
}

#[test]
fn sizeless_mem_inherits_from_sized_mem() {
    let lhs = mem(reg(0, 64), None, 1, 0, 0, MemAddrType::Address);
    let rhs = mem(reg(3, 64), None, 1, 0, 4, MemAddrType::Address);
    let i = two(Mnemonic::Mov, Opr::Mem(lhs), Opr::Mem(rhs));
    assert_eq!(validate_opr_sizes(&i), Ok(32));
}

#[test]
fn first_operand_immediate_is_reported() {
    let i = two(Mnemonic::Mov, Opr::Imm32(5), Opr::Reg(reg(0, 32)));
    assert_eq!(assemble_instr(&i), Err(EncodeError::FirstOprImm(i)));
}

#[test]
fn normalization_returns_fresh_value() {
    let wide = two(Mnemonic::Mov, Opr::Reg(reg(0, 64)), Opr::Imm32(5));
    let narrow = two(Mnemonic::Mov, Opr::Reg(reg(0, 32)), Opr::Imm32(5));
    assert_eq!(align_imm_oprs_to_reg(&wide), narrow);
    assert_eq!(wide, two(Mnemonic::Mov, Opr::Reg(reg(0, 64)), Opr::Imm32(5)));
    let other = two(Mnemonic::Add, Opr::Reg(reg(0, 64)), Opr::Imm32(5));
    assert_eq!(align_imm_oprs_to_reg(&other), other);
}

#[test]
fn modrm_packing() {
    assert_eq!(_modrm(3, 0, 3), 0xD8);
    assert_eq!(_modrm(0, 3, 7), 0x3B);
}

#[test]
fn sib_packing() {
    let m = mem(reg(0, 64), Some(reg(1, 64)), 4, 0, 0, MemAddrType::Sib);
    assert_eq!(sib(&m), 0x88);
}

#[test]
fn rex_bytes_for_two_registers() {
    let i = two(Mnemonic::Mov, Opr::Reg(reg(8, 64)), Opr::Reg(reg(9, 64)));
    assert_eq!(rex(&i), vec![0x4D]);
    let j = two(Mnemonic::Mov, Opr::Reg(reg(1, 16)), Opr::Reg(reg(2, 16)));
    assert_eq!(rex(&j), vec![0x66]);
}

#[test]
fn imm_emission_appends_in_place() {
    let mut bytes = vec![0xAA];
    let i = two(Mnemonic::Mov, Opr::Reg(reg(0, 32)), Opr::Imm32(0x01020304));
    include_imm_values(&mut bytes, &i);
    assert_eq!(bytes, vec![0xAA, 0x04, 0x03, 0x02, 0x01]);
}
