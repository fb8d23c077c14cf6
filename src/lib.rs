//! A small x86-64 machine-code emitter.
//!
//! `Code` is an append-only byte buffer with one method per supported
//! instruction form. Every method states, over the spec functions of
//! `encoding`, exactly which bytes it appends; `program` describes a
//! sequence of instructions and what emitting it appends.
mod code;
mod encoding;
mod program;

pub use code::{Code, JumpType, RAX, RBP, RBX, RCX, RDI, RDX, REX_W, RSI, RSP};
pub use encoding::{
    add_r_bytes, byte8, call_rel32_bytes, cjmp_bytes, cmp_imm32_bytes, cmp_r_bytes, hex_digit,
    hex_text, imm_bits, is_narrow, jmp_bytes, le32, le32_signed, lemma_le32_round_trip, mod_rm,
    mod_rm_value, mov_imm32_bytes, ret_bytes, short_displacement_fits, twos32,
};
pub use program::{
    lemma_fresh_encodings_agree, lemma_program_bytes_append, program_bytes, Instr,
};
