//! A bit-exact encoder for single x86-64 instructions.
//!
//! Given one instruction (a mnemonic together with zero, one or two already
//! validated operands), the encoder produces the byte sequence the CPU would
//! decode for it: an optional 16-bit operand-size override byte, an optional
//! REX prefix, the opcode (one or two bytes), an optional ModRM byte with an
//! optional SIB byte and displacement, and a trailing immediate.
//!
//! `instr` holds the operand and instruction model, `opcodes` the table that
//! maps a mnemonic and operand shape to a base opcode and an addressing-mode
//! classification, `assemble` the encoder itself, and `laws` proofs of the
//! properties the encoder guarantees.

pub mod assemble;
pub mod instr;
pub mod laws;
pub mod opcodes;
