use vstd::prelude::*;

verus! {

/// Whether a signed value takes the short form, with a one-byte immediate.
/// The bound is strict on both sides: `127` is narrow, `-128` is not.
pub open spec fn is_narrow(v: int) -> bool {
    -0x80 < v && v < 0x80
}

/// The low byte of the two's-complement representation of `v`.
pub open spec fn byte8(v: int) -> u8 {
    (v % 256) as u8
}

/// The 32-bit two's-complement representation of `v`, as an unsigned value.
pub open spec fn twos32(v: int) -> nat {
    (v % 0x1_0000_0000) as nat
}

/// The four little-endian bytes of the 32-bit two's-complement representation of `v`.
pub open spec fn le32(v: int) -> Seq<u8> {
    let t = twos32(v) as int;
    seq![byte8(t), byte8(t / 0x100), byte8(t / 0x1_0000), byte8(t / 0x100_0000)]
}

/// The ModRM byte: the addressing mode in the top two bits, then two
/// three-bit operand fields.
pub open spec fn mod_rm_value(mode: int, field2: int, field1: int) -> int {
    mode * 64 + field2 * 8 + field1
}

/// `mov r32, imm32`: the opcode `0xB8` plus the register code, then the
/// immediate in four bytes.
pub open spec fn mov_imm32_bytes(reg: int, val: int) -> Seq<u8> {
    seq![(0xB8 + reg) as u8] + le32(val)
}

/// A narrow branch offset whose corrected displacement `target - 2` still
/// fits in a signed byte: every narrow offset but `-127`.
pub open spec fn short_displacement_fits(target: int) -> bool {
    is_narrow(target) ==> target - 2 >= -0x80
}

/// Unconditional jump by `target` bytes counted from the jump's first byte.
/// The displacement stored is relative to the next instruction, so the
/// length of the jump itself (2 short, 5 near) is taken off.
pub open spec fn jmp_bytes(target: int) -> Seq<u8> {
    if is_narrow(target) {
        seq![0xEBu8, byte8(target - 2)]
    } else {
        seq![0xE9u8] + le32(target - 5)
    }
}

/// Relative call by `target` bytes counted from the call's first byte.
pub open spec fn call_rel32_bytes(target: int) -> Seq<u8> {
    seq![0xE8u8] + le32(target - 5)
}

/// `ret`.
pub open spec fn ret_bytes() -> Seq<u8> {
    seq![0xC3u8]
}

/// Conditional jump with short opcode `op` by `target` bytes counted from the
/// jump's first byte: two bytes in the short form, six in the near form,
/// whose opcode is `0x0F` then `op + 0x10`.
pub open spec fn cjmp_bytes(op: int, target: int) -> Seq<u8> {
    if is_narrow(target) {
        seq![op as u8, byte8(target - 2)]
    } else {
        seq![0x0Fu8, (op + 0x10) as u8] + le32(target - 6)
    }
}

/// `add r_dst, r_src` on 64-bit operands: the source in the ModRM reg
/// field, the destination in the rm field.
pub open spec fn add_r_bytes(r_dst: int, r_src: int) -> Seq<u8> {
    seq![0x48u8, 0x01u8, mod_rm_value(3, r_src, r_dst) as u8]
}

/// `cmp r2, r1` on 64-bit operands, with the fields assigned as for `add`:
/// `r1` in the ModRM reg field, `r2` in the rm field.
pub open spec fn cmp_r_bytes(r2: int, r1: int) -> Seq<u8> {
    seq![0x48u8, 0x39u8, mod_rm_value(3, r1, r2) as u8]
}

/// `cmp r, imm` on 64-bit operands, with the opcode extension 7 in the
/// ModRM byte: a one-byte immediate when narrow, else four bytes.
pub open spec fn cmp_imm32_bytes(r: int, imm: int) -> Seq<u8> {
    if is_narrow(imm) {
        seq![0x48u8, 0x83u8, mod_rm_value(3, 7, r) as u8, byte8(imm)]
    } else {
        seq![0x48u8, 0x81u8, mod_rm_value(3, 7, r) as u8] + le32(imm)
    }
}

/// The lowercase ASCII hex digit of `d`, for `d` below 16.
pub open spec fn hex_digit(d: int) -> u8 {
    if d < 10 {
        (0x30 + d) as u8
    } else {
        (0x61 + d - 10) as u8
    }
}

/// The text of the bytes `s`: two lowercase hex digits and a space for each.
pub open spec fn hex_text(s: Seq<u8>) -> Seq<u8>
    decreases s.len(),
{
    if s.len() == 0 {
        Seq::empty()
    } else {
        hex_text(s.drop_last()) + seq![hex_digit(s.last() as int / 16), hex_digit(s.last() as int % 16), 0x20u8]
    }
}

/// Width in bits of the immediate that encodes `val`: 8 when it is narrow, else 32.
pub fn imm_bits(val: i32) -> (r: i32)
    ensures
        r == (if is_narrow(val as int) { 8int } else { 32int }),
{
    if -0x80 < val && val < 0x80 {
        8
    } else {
        32
    }
}

/// Builds a ModRM byte from a two-bit mode and two three-bit fields.
pub fn mod_rm(mod_b: u8, r2: u8, r1: u8) -> (r: u8)
    requires
        mod_b < 4,
        r2 < 8,
        r1 < 8,
    ensures
        r as int == mod_rm_value(mod_b as int, r2 as int, r1 as int),
{
    mod_b * 64 + r2 * 8 + r1
}

/// The signed 32-bit value that four little-endian bytes hold in two's complement.
pub open spec fn le32_signed(s: Seq<u8>) -> int {
    let u = s[0] as int + 0x100 * s[1] as int + 0x1_0000 * s[2] as int + 0x100_0000 * s[3] as int;
    if s[3] >= 0x80 {
        u - 0x1_0000_0000
    } else {
        u
    }
}

/// The four bytes of a 32-bit immediate read back, in two's complement, as
/// the value that was encoded: the encoding loses nothing.
pub proof fn lemma_le32_round_trip(v: i32)
    ensures
        le32(v as int).len() == 4,
        le32_signed(le32(v as int)) == v as int,
{
    let t = twos32(v as int) as int;
    let b = le32(v as int);
    assert(0 <= t < 0x1_0000_0000);
    assert(t == b[0] as int + 0x100 * b[1] as int + 0x1_0000 * b[2] as int + 0x100_0000 * b[3] as int)
        by (nonlinear_arith)
        requires
            0 <= t < 0x1_0000_0000,
            b[0] as int == t % 0x100,
            b[1] as int == (t / 0x100) % 0x100,
            b[2] as int == (t / 0x1_0000) % 0x100,
            b[3] as int == (t / 0x100_0000) % 0x100,
    ;
    assert(b[3] >= 0x80 <==> t >= 0x8000_0000)
        by (nonlinear_arith)
        requires
            0 <= t < 0x1_0000_0000,
            b[3] as int == (t / 0x100_0000) % 0x100,
    ;
}

} // verus!
