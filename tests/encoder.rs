use x86_emit::JumpType::{Ja, Jb, Je, Jg, Jl, Jna, Jnb, Jne, Jng, Jnl, Jno, Jnp, Jns, Jo, Jp, Js};
use x86_emit::{imm_bits, mod_rm, Code, Instr, RAX, RBX, RCX, RDI, RSP};

#[test]
fn test_basic_emit_code() {
    let mut c = Code::new();
    c.emit(&[0x01]);
    c.emit_i32(1);

    assert!(c.buf == vec![1, 1, 0, 0, 0]);
}

#[test]
fn test_emit_mov_imm32_1() {
    let mut c = Code::new();
    c.mov_imm32(RAX, 1);

    assert!(c.buf == vec![0xB8, 1, 0, 0, 0]);
}

#[test]
fn test_emit_mov_imm32_minus_1() {
    let mut c = Code::new();
    c.mov_imm32(RDI, -1);

    assert!(c.buf == vec![0xBF, 255, 255, 255, 255]);
}

#[test]
fn test_jmp_short_forward() {
    let mut c = Code::new();
    c.jmp(10);

    assert!(c.buf == vec![0xEB, 8]);
}

#[test]
fn test_jmp_short_backward() {
    let mut c = Code::new();
    c.jmp(-10);

    assert!(c.buf == vec![0xEB, 0xF4]);
}

#[test]
fn test_jmp_long_forward() {
    let mut c = Code::new();
    c.jmp(0x110);

    println!("{}", String::from_utf8(c.hex_dump()).unwrap());
    assert!(c.buf == vec![0xE9, 0x0B, 0x01, 0x00, 0x00]);
}

#[test]
fn test_jmp_long_backward() {
    let mut c = Code::new();
    c.jmp(-1000);

    println!("{}", String::from_utf8(c.hex_dump()).unwrap());
    assert!(c.buf == vec![0xE9, 0x13, 0xFC, 0xFF, 0xFF]);
}

#[test]
fn test_call_rel32() {
    let mut c = Code::new();
    c.call_rel32(0x110);

    println!("{}", String::from_utf8(c.hex_dump()).unwrap());
    assert!(c.buf == vec![0xE8, 0x0B, 0x01, 0x00, 0x00]);
}

#[test]
fn test_ret() {
    let mut c = Code::new();
    c.ret();

    println!("{}", String::from_utf8(c.hex_dump()).unwrap());
    assert!(c.buf == vec![0xC3]);
}

#[test]
fn test_cjmp_short() {
    let mut c = Code::new();
    c.cjmp(Jo, 10);

    println!("{}", String::from_utf8(c.hex_dump()).unwrap());
    assert!(c.buf == vec![0x70, 8]);
}

#[test]
fn test_cjmp_long() {
    let mut c = Code::new();
    c.cjmp(Jo, 0x110);

    println!("{}", String::from_utf8(c.hex_dump()).unwrap());
    assert!(c.buf == vec![0x0F, 0x80, 0x0A, 0x01, 0x00, 0x00]);
}

#[test]
fn test_add_r() {
    let mut c = Code::new();
    c.add_r(RAX, RAX);

    println!("{}", String::from_utf8(c.hex_dump()).unwrap());
    assert!(c.buf == vec![0x48, 0x01, 0xC0]);
}

#[test]
fn test_cmp_r() {
    let mut c = Code::new();
    c.cmp_r(RAX, RAX);

    println!("{}", String::from_utf8(c.hex_dump()).unwrap());
    assert!(c.buf == vec![0x48, 0x39, 0xC0]);
}

#[test]
fn test_cmp_imm32() {
    let mut c = Code::new();
    c.cmp_imm32(RAX, 0x1000);

    println!("{}", String::from_utf8(c.hex_dump()).unwrap());
    assert!(c.buf == vec![0x48, 0x81, 0xF8, 0x00, 0x10, 0x00, 0x00]);
}

#[test]
fn test_cmp_imm32_short() {
    let mut c = Code::new();
    c.cmp_imm32(RAX, 0x01);

    println!("{}", String::from_utf8(c.hex_dump()).unwrap());
    assert!(c.buf == vec![0x48, 0x83, 0xF8, 0x01]);
}

#[test]
fn test_emit_fib() {
    let mut c = Code::new();

    let wanted_code = vec![
        0xb8, 0x01, 0x00, 0x00, 0x00, // mov    eax,0x1
        0xbb, 0x01, 0x00, 0x00, 0x00, // mov    ebx,0x1
        0x48, 0x01, 0xc3, // add    rbx,rax
        0x48, 0x01, 0xd8, // add    rax,rbx
        0x48, 0x81, 0xf8, 0xe8, 0x03, 0x00, 0x00, // cmp    rax,0x3e8
        0x7e, 0xf1, // jle    0xa
        0xc3, // ret
    ];

    c.mov_imm32(RAX, 1);
    c.mov_imm32(RBX, 1);

    let label = c.here();

    c.add_r(RBX, RAX);
    c.add_r(RAX, RBX);

    c.cmp_imm32(RAX, 1000);

    let offset = label - c.here();
    c.cjmp(Jng, offset as i32);

    c.ret();

    println!("{}", String::from_utf8(c.hex_dump()).unwrap());

    assert!(c.buf == wanted_code);
}

#[test]
fn narrow_wide_boundary() {
    assert_eq!(imm_bits(127), 8);
    assert_eq!(imm_bits(-127), 8);
    assert_eq!(imm_bits(128), 32);
    assert_eq!(imm_bits(-128), 32);

    let mut c = Code::new();
    c.jmp(127);
    assert_eq!(c.buf, vec![0xEB, 0x7D]);

    let mut s = Code::new();
    s.jmp(-126);
    assert_eq!(s.buf, vec![0xEB, 0x80]);

    let mut d = Code::new();
    d.jmp(-128);
    assert_eq!(d.buf, vec![0xE9, 0x7B, 0xFF, 0xFF, 0xFF]);

    let mut e = Code::new();
    e.cmp_imm32(RAX, -128);
    assert_eq!(e.buf, vec![0x48, 0x81, 0xF8, 0x80, 0xFF, 0xFF, 0xFF]);

    let mut f = Code::new();
    f.cmp_imm32(RAX, 127);
    assert_eq!(f.buf, vec![0x48, 0x83, 0xF8, 0x7F]);
}

#[test]
fn mov_imm32_extremes() {
    let mut c = Code::new();
    c.mov_imm32(RCX, i32::MAX);
    assert_eq!(c.buf, vec![0xB9, 0xFF, 0xFF, 0xFF, 0x7F]);

    let mut d = Code::new();
    d.mov_imm32(RSP, i32::MIN);
    assert_eq!(d.buf, vec![0xBC, 0x00, 0x00, 0x00, 0x80]);

    let mut e = Code::new();
    e.mov_imm32(RAX, 0x12345678);
    assert_eq!(e.buf, vec![0xB8, 0x78, 0x56, 0x34, 0x12]);
}

#[test]
fn emit_i32_negative() {
    let mut c = Code::new();
    c.emit_i32(-2);
    assert_eq!(c.buf, vec![0xFE, 0xFF, 0xFF, 0xFF]);
}

#[test]
fn mod_rm_fields() {
    assert_eq!(mod_rm(3, 7, 0), 0xF8);
    assert_eq!(mod_rm(3, 3, 0), 0xD8);
    assert_eq!(mod_rm(0, 0, 0), 0x00);
    assert_eq!(mod_rm(2, 5, 6), 0xAE);
}

#[test]
fn cjmp_short_backward_and_long_backward() {
    let mut c = Code::new();
    c.cjmp(Jg, -10);
    assert_eq!(c.buf, vec![0x7F, 0xF4]);

    let mut d = Code::new();
    d.cjmp(Jng, -1000);
    assert_eq!(d.buf, vec![0x0F, 0x8E, 0x12, 0xFC, 0xFF, 0xFF]);
}

#[test]
fn appends_keep_earlier_bytes() {
    let mut c = Code::new();
    c.ret();
    c.add_r(RBX, RAX);
    c.cmp_r(RCX, RDI);
    assert_eq!(c.buf, vec![0xC3, 0x48, 0x01, 0xC3, 0x48, 0x39, 0xF9]);
    assert_eq!(c.here(), 7);
}

#[test]
fn hex_dump_text() {
    let mut c = Code::new();
    c.emit(&[0x00, 0x0A, 0xAF, 0xFF]);
    assert_eq!(String::from_utf8(c.hex_dump()).unwrap(), "00 0a af ff \n");
    assert_eq!(Code::new().hex_dump(), vec![b'\n']);
}

#[test]
fn same_program_twice_gives_same_bytes() {
    let program = [
        Instr::MovImm32 { reg: RAX, val: 10 },
        Instr::CmpImm32 { reg: RAX, imm: 1000 },
        Instr::Cjmp { cond: Jng, target: -7 },
        Instr::Jmp { target: 300 },
        Instr::CallRel32 { target: -1 },
        Instr::AddR { r_dst: RBX, r_src: RAX },
        Instr::CmpR { r2: RAX, r1: RBX },
        Instr::Ret,
    ];
    let mut a = Code::new();
    a.emit_program(&program);
    let mut b = Code::new();
    b.emit_program(&program);
    assert_eq!(a.buf, b.buf);

    let mut c = Code::new();
    c.mov_imm32(RAX, 10);
    c.cmp_imm32(RAX, 1000);
    c.cjmp(Jng, -7);
    c.jmp(300);
    c.call_rel32(-1);
    c.add_r(RBX, RAX);
    c.cmp_r(RAX, RBX);
    c.ret();
    assert_eq!(a.buf, c.buf);
}

#[test]
fn move_ten_then_return() {
    let mut c = Code::new();
    c.mov_imm32(RAX, 10);
    c.ret();
    assert_eq!(c.buf, vec![0xB8, 0x0A, 0x00, 0x00, 0x00, 0xC3]);
}

#[test]
fn condition_opcodes() {
    let conds = [Jo, Jno, Jb, Jnb, Je, Jne, Jna, Ja, Js, Jns, Jp, Jnp, Jl, Jnl, Jng, Jg];
    for (k, cond) in conds.iter().enumerate() {
        assert_eq!(cond.opcode(), 0x70 + k as u8);
        let mut c = Code::new();
        c.cjmp(*cond, 0x110);
        assert_eq!(c.buf, vec![0x0F, 0x80 + k as u8, 0x0A, 0x01, 0x00, 0x00]);
    }
}

#[test]
fn register_operands_go_to_their_fields() {
    let mut c = Code::new();
    c.add_r(RAX, RCX);
    assert_eq!(c.buf, vec![0x48, 0x01, 0xC8]);

    let mut d = Code::new();
    d.cmp_r(RDI, RCX);
    assert_eq!(d.buf, vec![0x48, 0x39, 0xCF]);
}
