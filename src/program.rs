use vstd::prelude::*;

use crate::code::{Code, JumpType};
use crate::encoding::{
    add_r_bytes, call_rel32_bytes, cjmp_bytes, cmp_imm32_bytes, cmp_r_bytes, jmp_bytes,
    mov_imm32_bytes, ret_bytes, short_displacement_fits,
};

verus! {

/// One instruction, with its operands, as the methods of `Code` emit it.
#[derive(Clone, Copy, Debug, PartialEq, Eq)]
pub enum Instr {
    MovImm32 { reg: u8, val: i32 },
    Jmp { target: i32 },
    CallRel32 { target: i32 },
    Ret,
    Cjmp { cond: JumpType, target: i32 },
    AddR { r_dst: u8, r_src: u8 },
    CmpR { r2: u8, r1: u8 },
    CmpImm32 { reg: u8, imm: i32 },
}

impl Instr {
    /// Registers are three-bit codes, and a branch offset leaves room for
    /// taking off the instruction's length, in a signed byte for the short
    /// forms.
    pub open spec fn valid(self) -> bool {
        match self {
            Instr::MovImm32 { reg, .. } => reg < 8,
            Instr::Jmp { target } => target >= i32::MIN + 5 && short_displacement_fits(target as int),
            Instr::CallRel32 { target } => target >= i32::MIN + 5,
            Instr::Ret => true,
            Instr::Cjmp { target, .. } => target >= i32::MIN + 6 && short_displacement_fits(
                target as int,
            ),
            Instr::AddR { r_dst, r_src } => r_dst < 8 && r_src < 8,
            Instr::CmpR { r2, r1 } => r2 < 8 && r1 < 8,
            Instr::CmpImm32 { reg, .. } => reg < 8,
        }
    }

    /// The bytes that encode the instruction.
    pub open spec fn spec_bytes(self) -> Seq<u8> {
        match self {
            Instr::MovImm32 { reg, val } => mov_imm32_bytes(reg as int, val as int),
            Instr::Jmp { target } => jmp_bytes(target as int),
            Instr::CallRel32 { target } => call_rel32_bytes(target as int),
            Instr::Ret => ret_bytes(),
            Instr::Cjmp { cond, target } => cjmp_bytes(cond.spec_opcode() as int, target as int),
            Instr::AddR { r_dst, r_src } => add_r_bytes(r_dst as int, r_src as int),
            Instr::CmpR { r2, r1 } => cmp_r_bytes(r2 as int, r1 as int),
            Instr::CmpImm32 { reg, imm } => cmp_imm32_bytes(reg as int, imm as int),
        }
    }
}

/// The bytes of a sequence of instructions: their encodings one after another.
pub open spec fn program_bytes(p: Seq<Instr>) -> Seq<u8>
    decreases p.len(),
{
    if p.len() == 0 {
        Seq::empty()
    } else {
        program_bytes(p.drop_last()) + p.last().spec_bytes()
    }
}

/// The encoding of two sequences in turn is the encoding of the one after the
/// other: what a sequence appends depends on that sequence alone, not on
/// what the buffer held before.
pub proof fn lemma_program_bytes_append(p: Seq<Instr>, q: Seq<Instr>)
    ensures
        program_bytes(p + q) == program_bytes(p) + program_bytes(q),
    decreases q.len(),
{
    if q.len() == 0 {
        assert(p + q == p);
    } else {
        assert((p + q).drop_last() == p + q.drop_last());
        lemma_program_bytes_append(p, q.drop_last());
    }
}

/// Two fresh buffers that are given the same instructions end up with the
/// same bytes: the output holds nothing but the encoding of what was emitted.
pub proof fn lemma_fresh_encodings_agree(a: Code, b: Code, p: Seq<Instr>)
    requires
        a.buf@.len() == 0,
        b.buf@.len() == 0,
    ensures
        a.buf@ + program_bytes(p) == b.buf@ + program_bytes(p),
        a.buf@ + program_bytes(p) == program_bytes(p),
{
    assert(a.buf@ == b.buf@);
    assert(a.buf@ + program_bytes(p) == program_bytes(p));
}

impl Code {
    /// Appends the encoding of `i`.
    pub fn emit_instr(&mut self, i: &Instr)
        requires
            i.valid(),
        ensures
            final(self).buf@ == old(self).buf@ + i.spec_bytes(),
    {
        match *i {
            Instr::MovImm32 { reg, val } => self.mov_imm32(reg, val),
            Instr::Jmp { target } => self.jmp(target),
            Instr::CallRel32 { target } => self.call_rel32(target),
            Instr::Ret => self.ret(),
            Instr::Cjmp { cond, target } => self.cjmp(cond, target),
            Instr::AddR { r_dst, r_src } => self.add_r(r_dst, r_src),
            Instr::CmpR { r2, r1 } => self.cmp_r(r2, r1),
            Instr::CmpImm32 { reg, imm } => self.cmp_imm32(reg, imm),
        }
    }

    /// Appends the encodings of the instructions of `p`, in order.
    pub fn emit_program(&mut self, p: &[Instr])
        requires
            forall|k: int| 0 <= k < p@.len() ==> (#[trigger] p@[k]).valid(),
        ensures
            final(self).buf@ == old(self).buf@ + program_bytes(p@),
    {
        let mut i: usize = 0;
        while i < p.len()
            invariant
                i <= p@.len(),
                forall|k: int| 0 <= k < p@.len() ==> (#[trigger] p@[k]).valid(),
                self.buf@ == old(self).buf@ + program_bytes(p@.subrange(0, i as int)),
            decreases p@.len() - i,
        {
            self.emit_instr(&p[i]);
            i = i + 1;
            assert(p@.subrange(0, i as int).drop_last() == p@.subrange(0, i - 1));
        }
        assert(p@.subrange(0, p@.len() as int) == p@);
    }
}

} // verus!
