use vstd::prelude::*;

use crate::encoding::{
    add_r_bytes, byte8, call_rel32_bytes, cjmp_bytes, cmp_imm32_bytes, cmp_r_bytes, hex_digit,
    hex_text, imm_bits, jmp_bytes, short_displacement_fits, le32, mod_rm, mov_imm32_bytes, ret_bytes, twos32,
};

verus! {

/// The 64-bit operand-size prefix.
pub const REX_W: u8 = 0x48;

// The general-purpose registers, by their three-bit hardware codes.
pub const RAX: u8 = 0;
pub const RCX: u8 = 1;
pub const RDX: u8 = 2;
pub const RBX: u8 = 3;
pub const RSP: u8 = 4;
pub const RBP: u8 = 5;
pub const RSI: u8 = 6;
pub const RDI: u8 = 7;

/// The sixteen conditions of a conditional jump. Each is named by its
/// short-form opcode, see `spec_opcode`.
#[derive(Clone, Copy, Debug, PartialEq, Eq)]
pub enum JumpType {
    /// OF=1
    Jo,
    /// OF=0
    Jno,
    /// CF=1 (jnae, jc)
    Jb,
    /// CF=0 (jae, jnc)
    Jnb,
    /// ZF=1 (jz)
    Je,
    /// ZF=0 (jnz)
    Jne,
    /// CF=1 or ZF=1 (jbe)
    Jna,
    /// CF=0 and ZF=0 (jnbe)
    Ja,
    /// SF=1
    Js,
    /// SF=0
    Jns,
    /// PF=1 (jpe)
    Jp,
    /// PF=0 (jpo)
    Jnp,
    /// SF!=OF (jnge)
    Jl,
    /// SF==OF (jge)
    Jnl,
    /// ZF=1 or SF!=OF (jle)
    Jng,
    /// ZF=0 and SF==OF (jnle)
    Jg,
}

impl JumpType {
    /// The short-form opcode of the condition, from `0x70` to `0x7F`.
    pub open spec fn spec_opcode(self) -> u8 {
        match self {
            JumpType::Jo => 0x70,
            JumpType::Jno => 0x71,
            JumpType::Jb => 0x72,
            JumpType::Jnb => 0x73,
            JumpType::Je => 0x74,
            JumpType::Jne => 0x75,
            JumpType::Jna => 0x76,
            JumpType::Ja => 0x77,
            JumpType::Js => 0x78,
            JumpType::Jns => 0x79,
            JumpType::Jp => 0x7A,
            JumpType::Jnp => 0x7B,
            JumpType::Jl => 0x7C,
            JumpType::Jnl => 0x7D,
            JumpType::Jng => 0x7E,
            JumpType::Jg => 0x7F,
        }
    }

    pub fn opcode(&self) -> (r: u8)
        ensures
            r == self.spec_opcode(),
            0x70 <= r <= 0x7F,
    {
        match self {
            JumpType::Jo => 0x70,
            JumpType::Jno => 0x71,
            JumpType::Jb => 0x72,
            JumpType::Jnb => 0x73,
            JumpType::Je => 0x74,
            JumpType::Jne => 0x75,
            JumpType::Jna => 0x76,
            JumpType::Ja => 0x77,
            JumpType::Js => 0x78,
            JumpType::Jns => 0x79,
            JumpType::Jp => 0x7A,
            JumpType::Jnp => 0x7B,
            JumpType::Jl => 0x7C,
            JumpType::Jnl => 0x7D,
            JumpType::Jng => 0x7E,
            JumpType::Jg => 0x7F,
        }
    }
}

/// The low byte of `v` in two's complement.
fn low_byte(v: i32) -> (r: u8)
    requires
        -0x100 < v < 0x100,
    ensures
        r == byte8(v as int),
{
    if v < 0 {
        (v + 0x100) as u8
    } else {
        v as u8
    }
}

/// The lowercase ASCII hex digit of `d`.
fn hex_digit_of(d: u8) -> (r: u8)
    requires
        d < 16,
    ensures
        r == hex_digit(d as int),
{
    if d < 10 {
        0x30 + d
    } else {
        0x61 + d - 10
    }
}

/// An append-only buffer of x86-64 machine code.
#[derive(Debug)]
pub struct Code {
    pub buf: Vec<u8>,
}

impl Code {
    /// An empty buffer.
    pub fn new() -> (r: Code)
        ensures
            r.buf@ == Seq::<u8>::empty(),
    {
        Code { buf: Vec::new() }
    }

    /// Appends `data` verbatim.
    pub fn emit(&mut self, data: &[u8])
        ensures
            final(self).buf@ == old(self).buf@ + data@,
    {
        let mut i: usize = 0;
        while i < data.len()
            invariant
                i <= data@.len(),
                self.buf@ == old(self).buf@ + data@.subrange(0, i as int),
            decreases data@.len() - i,
        {
            self.buf.push(data[i]);
            i = i + 1;
            assert(data@.subrange(0, i as int) == data@.subrange(0, i - 1) + seq![data@[i - 1]]);
        }
        assert(data@.subrange(0, data@.len() as int) == data@);
    }

    /// Appends the four little-endian bytes of `val` in two's complement.
    pub fn emit_i32(&mut self, val: i32)
        ensures
            final(self).buf@ == old(self).buf@ + le32(val as int),
    {
        let w: i64 = val as i64;
        let t: u64 = if w < 0 {
            (w + 0x1_0000_0000) as u64
        } else {
            w as u64
        };
        assert(t as int == twos32(val as int));
        self.buf.push((t % 0x100) as u8);
        self.buf.push(((t / 0x100) % 0x100) as u8);
        self.buf.push(((t / 0x1_0000) % 0x100) as u8);
        self.buf.push(((t / 0x100_0000) % 0x100) as u8);
        assert(self.buf@ == old(self).buf@ + le32(val as int));
    }

    /// `mov reg, val` with a 32-bit immediate.
    pub fn mov_imm32(&mut self, reg: u8, val: i32)
        requires
            reg < 8,
        ensures
            final(self).buf@ == old(self).buf@ + mov_imm32_bytes(reg as int, val as int),
    {
        self.emit(&[0xB8 + reg]);
        self.emit_i32(val);
    }

    /// Unconditional jump to `target` bytes from the start of this instruction:
    /// `EB` and one byte when `target` is narrow, else `E9` and four bytes.
    pub fn jmp(&mut self, target: i32)
        requires
            target >= i32::MIN + 5,
            short_displacement_fits(target as int),
        ensures
            final(self).buf@ == old(self).buf@ + jmp_bytes(target as int),
    {
        if imm_bits(target) == 8 {
            self.emit(&[0xEB, low_byte(target - 2)]);
        } else {
            self.emit(&[0xE9]);
            self.emit_i32(target - 5);
        }
    }

    /// Relative call to `target` bytes from the start of this instruction.
    pub fn call_rel32(&mut self, target: i32)
        requires
            target >= i32::MIN + 5,
        ensures
            final(self).buf@ == old(self).buf@ + call_rel32_bytes(target as int),
    {
        self.emit(&[0xE8]);
        self.emit_i32(target - 5);
    }

    pub fn ret(&mut self)
        ensures
            final(self).buf@ == old(self).buf@ + ret_bytes(),
    {
        self.emit(&[0xC3]);
    }

    /// Conditional jump on `t` to `target` bytes from the start of this
    /// instruction: the short opcode and one byte when `target` is narrow,
    /// else `0F`, the near opcode and four bytes.
    pub fn cjmp(&mut self, t: JumpType, target: i32)
        requires
            target >= i32::MIN + 6,
            short_displacement_fits(target as int),
        ensures
            final(self).buf@ == old(self).buf@ + cjmp_bytes(t.spec_opcode() as int, target as int),
    {
        let op = t.opcode();
        if imm_bits(target) == 8 {
            self.emit(&[op, low_byte(target - 2)]);
        } else {
            self.emit(&[0x0F, op + 0x10]);
            self.emit_i32(target - 6);
        }
    }

    /// `add r_dst, r_src` on 64-bit registers: adds `r_src` into `r_dst`.
    pub fn add_r(&mut self, r_dst: u8, r_src: u8)
        requires
            r_dst < 8,
            r_src < 8,
        ensures
            final(self).buf@ == old(self).buf@ + add_r_bytes(r_dst as int, r_src as int),
    {
        self.emit(&[REX_W, 0x01, mod_rm(3, r_src, r_dst)]);
    }

    /// `cmp r2, r1` on 64-bit registers: sets the flags of `r2 - r1`.
    pub fn cmp_r(&mut self, r2: u8, r1: u8)
        requires
            r2 < 8,
            r1 < 8,
        ensures
            final(self).buf@ == old(self).buf@ + cmp_r_bytes(r2 as int, r1 as int),
    {
        self.emit(&[REX_W, 0x39, mod_rm(3, r1, r2)]);
    }

    /// `cmp r, imm` on a 64-bit register, with a one-byte immediate when
    /// `imm` is narrow and a four-byte one otherwise.
    pub fn cmp_imm32(&mut self, r: u8, imm: i32)
        requires
            r < 8,
        ensures
            final(self).buf@ == old(self).buf@ + cmp_imm32_bytes(r as int, imm as int),
    {
        if imm_bits(imm) == 8 {
            self.emit(&[REX_W, 0x83, mod_rm(3, 7, r), low_byte(imm)]);
        } else {
            self.emit(&[REX_W, 0x81, mod_rm(3, 7, r)]);
            self.emit_i32(imm);
        }
    }

    /// A hex dump of the buffer as ASCII text: each byte as two lowercase
    /// hex digits followed by a space, then a newline.
    pub fn hex_dump(&self) -> (r: Vec<u8>)
        ensures
            r@ == hex_text(self.buf@) + seq![0x0Au8],
    {
        let mut out: Vec<u8> = Vec::new();
        let mut i: usize = 0;
        while i < self.buf.len()
            invariant
                i <= self.buf@.len(),
                out@ == hex_text(self.buf@.subrange(0, i as int)),
            decreases self.buf@.len() - i,
        {
            let b = self.buf[i];
            out.push(hex_digit_of(b / 16));
            out.push(hex_digit_of(b % 16));
            out.push(0x20);
            i = i + 1;
            assert(self.buf@.subrange(0, i as int).drop_last() == self.buf@.subrange(0, i - 1));
        }
        assert(self.buf@.subrange(0, i as int) == self.buf@);
        out.push(0x0A);
        out
    }

    /// The current position, the length of the buffer, for use as a label.
    pub fn here(&self) -> (r: isize)
        requires
            self.buf@.len() <= isize::MAX,
        ensures
            r as int == self.buf@.len(),
    {
        self.buf.len() as isize
    }
}

} // verus!
