use vstd::prelude::*;

verus! {

/// The register-type word: opcode, three register fields, shift amount and
/// function code, from the most significant bit down.
pub open spec fn encode_r(op: u8, rs: u8, rt: u8, rd: u8, shamt: u8, func: u8) -> u32 {
    (op * 0x400_0000 + rs * 0x20_0000 + rt * 0x1_0000 + rd * 0x800 + shamt * 0x40 + func) as u32
}

/// The immediate-type word: opcode, two register fields and a 16-bit
/// immediate.
pub open spec fn encode_i(op: u8, rs: u8, rt: u8, imm: u16) -> u32 {
    (op * 0x400_0000 + rs * 0x20_0000 + rt * 0x1_0000 + imm) as u32
}

/// The jump-type word: opcode and a 26-bit word address.
pub open spec fn encode_j(op: u8, addr: u32) -> u32 {
    (op * 0x400_0000 + addr) as u32
}

/// Bits 31..26 of an instruction word.
pub open spec fn field_op(word: u32) -> int {
    word as int / 0x400_0000
}

/// Bits 25..21 of an instruction word.
pub open spec fn field_rs(word: u32) -> int {
    (word as int / 0x20_0000) % 32
}

/// Bits 20..16 of an instruction word.
pub open spec fn field_rt(word: u32) -> int {
    (word as int / 0x1_0000) % 32
}

/// Bits 15..11 of an instruction word.
pub open spec fn field_rd(word: u32) -> int {
    (word as int / 0x800) % 32
}

/// Bits 10..6 of an instruction word.
pub open spec fn field_shamt(word: u32) -> int {
    (word as int / 0x40) % 32
}

/// Bits 5..0 of an instruction word.
pub open spec fn field_func(word: u32) -> int {
    word as int % 0x40
}

/// Bits 15..0 of an instruction word.
pub open spec fn field_imm(word: u32) -> int {
    word as int % 0x1_0000
}

/// Bits 25..0 of an instruction word.
pub open spec fn field_addr(word: u32) -> int {
    word as int % 0x400_0000
}

pub fn gen_machine_code_r(op: u8, rs: u8, rt: u8, rd: u8, shamt: u8, func: u8) -> (code: u32)
    requires
        op < 64,
        rs < 32,
        rt < 32,
        rd < 32,
        shamt < 32,
        func < 64,
    ensures
        code == encode_r(op, rs, rt, rd, shamt, func),
{
    let code = (op as u32) << 26 | (rs as u32) << 21 | (rt as u32) << 16 | (rd as u32) << 11 | (
    shamt as u32) << 6 | func as u32;
    assert(code == op * 0x400_0000 + rs * 0x20_0000 + rt * 0x1_0000 + rd * 0x800 + shamt * 0x40
        + func) by (bit_vector)
        requires
            op < 64,
            rs < 32,
            rt < 32,
            rd < 32,
            shamt < 32,
            func < 64,
            code == (op as u32) << 26 | (rs as u32) << 21 | (rt as u32) << 16 | (rd as u32) << 11
                | (shamt as u32) << 6 | func as u32,
    ;
    code
}

pub fn gen_machine_code_i(op: u8, rs: u8, rt: u8, imm: u16) -> (code: u32)
    requires
        op < 64,
        rs < 32,
        rt < 32,
    ensures
        code == encode_i(op, rs, rt, imm),
{
    let code = (op as u32) << 26 | (rs as u32) << 21 | (rt as u32) << 16 | imm as u32;
    assert(code == op * 0x400_0000 + rs * 0x20_0000 + rt * 0x1_0000 + imm) by (bit_vector)
        requires
            op < 64,
            rs < 32,
            rt < 32,
            code == (op as u32) << 26 | (rs as u32) << 21 | (rt as u32) << 16 | imm as u32,
    ;
    code
}

pub fn gen_machine_code_j(op: u8, addr: u32) -> (code: u32)
    requires
        op < 64,
        addr < 0x400_0000,
    ensures
        code == encode_j(op, addr),
{
    let code = (op as u32) << 26 | addr;
    assert(code == op * 0x400_0000 + addr) by (bit_vector)
        requires
            op < 64,
            addr < 0x400_0000,
            code == (op as u32) << 26 | addr,
    ;
    code
}

/// Every field of a register-type word reads back as it was packed.
pub proof fn lemma_fields_of_encode_r(op: u8, rs: u8, rt: u8, rd: u8, shamt: u8, func: u8)
    requires
        op < 64,
        rs < 32,
        rt < 32,
        rd < 32,
        shamt < 32,
        func < 64,
    ensures
        field_op(encode_r(op, rs, rt, rd, shamt, func)) == op,
        field_rs(encode_r(op, rs, rt, rd, shamt, func)) == rs,
        field_rt(encode_r(op, rs, rt, rd, shamt, func)) == rt,
        field_rd(encode_r(op, rs, rt, rd, shamt, func)) == rd,
        field_shamt(encode_r(op, rs, rt, rd, shamt, func)) == shamt,
        field_func(encode_r(op, rs, rt, rd, shamt, func)) == func,
{
    let word = encode_r(op, rs, rt, rd, shamt, func) as int;
    assert(word / 0x40 == op * 0x10_0000 + rs * 0x8000 + rt * 0x400 + rd * 0x20 + shamt);
    assert(word / 0x800 == op * 0x8000 + rs * 0x400 + rt * 0x20 + rd);
    assert(word / 0x1_0000 == op * 0x400 + rs * 0x20 + rt);
    assert(word / 0x20_0000 == op * 0x20 + rs);
    assert(word / 0x400_0000 == op);
}

/// Every field of an immediate-type word reads back as it was packed.
pub proof fn lemma_fields_of_encode_i(op: u8, rs: u8, rt: u8, imm: u16)
    requires
        op < 64,
        rs < 32,
        rt < 32,
    ensures
        field_op(encode_i(op, rs, rt, imm)) == op,
        field_rs(encode_i(op, rs, rt, imm)) == rs,
        field_rt(encode_i(op, rs, rt, imm)) == rt,
        field_imm(encode_i(op, rs, rt, imm)) == imm,
{
    let word = encode_i(op, rs, rt, imm) as int;
    assert(word / 0x1_0000 == op * 0x400 + rs * 0x20 + rt);
    assert(word / 0x20_0000 == op * 0x20 + rs);
    assert(word / 0x400_0000 == op);
}

/// Both fields of a jump-type word read back as they were packed.
pub proof fn lemma_fields_of_encode_j(op: u8, addr: u32)
    requires
        op < 64,
        addr < 0x400_0000,
    ensures
        field_op(encode_j(op, addr)) == op,
        field_addr(encode_j(op, addr)) == addr,
{
}

} // verus!
