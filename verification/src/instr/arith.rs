use vstd::prelude::*;
use vstd::string::*;
use crate::bits::{
    fits_i32,
    from_signed,
    imm_bits,
    imm_field,
    sign_extend_imm,
    signed,
    to_signed,
    unsigned,
};
use crate::encoding::{encode_i, encode_r, gen_machine_code_i, gen_machine_code_r};
use crate::machine::{BranchResult, GRF_SIZE, Instruction, MachineModel, MipsMachine};
use crate::text::{decimal, push_decimal, push_signed_decimal, signed_decimal};

verus! {

/// `nop`: does nothing.
#[derive(Debug, PartialEq, Eq, Clone, Copy, Structural)]
pub struct NopInstr;

impl Instruction for NopInstr {
    open spec fn wf(&self) -> bool {
        true
    }

    open spec fn is_branch(&self) -> bool {
        false
    }

    open spec fn encoding(&self) -> u32 {
        0
    }

    open spec fn apply(&self, m: MachineModel) -> MachineModel {
        m
    }

    open spec fn outcome(&self, m: MachineModel) -> BranchResult {
        BranchResult::NoBranch
    }

    open spec fn text(&self) -> Seq<char> {
        "nop"@
    }

    fn render_text(&self) -> (s: String) {
        String::from_str("nop")
    }

    fn to_machine_code(&self) -> (code: u32) {
        0
    }

    fn execute_on(&self, machine: &mut MipsMachine) -> (res: BranchResult) {
        BranchResult::NoBranch
    }
}

/// `add`: signed addition; on overflow nothing is written.
#[derive(Debug, PartialEq, Eq, Clone, Copy, Structural)]
pub struct AddInstr {
    pub rs: u8,
    pub rt: u8,
    pub rd: u8,
}

impl Instruction for AddInstr {
    open spec fn wf(&self) -> bool {
        &&& self.rs < GRF_SIZE
        &&& self.rt < GRF_SIZE
        &&& self.rd < GRF_SIZE
    }

    open spec fn is_branch(&self) -> bool {
        false
    }

    open spec fn encoding(&self) -> u32 {
        encode_r(0, self.rs, self.rt, self.rd, 0, 0b100000)
    }

    open spec fn apply(&self, m: MachineModel) -> MachineModel {
        let a = signed(m.grf[self.rs as int]);
        let b = signed(m.grf[self.rt as int]);
        if fits_i32(a + b) {
            m.write_grf(self.rd, unsigned(a + b))
        } else {
            m
        }
    }

    open spec fn outcome(&self, m: MachineModel) -> BranchResult {
        BranchResult::NoBranch
    }

    open spec fn text(&self) -> Seq<char> {
        "add $"@
            + decimal(self.rd as nat)
            + ", $"@
            + decimal(self.rs as nat)
            + ", $"@
            + decimal(self.rt as nat)
    }

    fn render_text(&self) -> (s: String) {
        let mut s = String::from_str("add $");
        push_decimal(&mut s, self.rd as u64);
        s.append(", $");
        push_decimal(&mut s, self.rs as u64);
        s.append(", $");
        push_decimal(&mut s, self.rt as u64);
        s
    }

    fn to_machine_code(&self) -> (code: u32) {
        gen_machine_code_r(0, self.rs, self.rt, self.rd, 0, 0b100000)
    }

    fn execute_on(&self, machine: &mut MipsMachine) -> (res: BranchResult) {
        let a = to_signed(machine.read_grf(self.rs));
        let b = to_signed(machine.read_grf(self.rt));
        if let Some(sum) = a.checked_add(b) {
            machine.write_grf(self.rd, from_signed(sum));
        }
        BranchResult::NoBranch
    }
}

/// `addi`: signed addition of an immediate; on overflow nothing is written.
#[derive(Debug, PartialEq, Eq, Clone, Copy, Structural)]
pub struct AddiInstr {
    pub rs: u8,
    pub rt: u8,
    pub imm: i16,
}

impl Instruction for AddiInstr {
    open spec fn wf(&self) -> bool {
        &&& self.rs < GRF_SIZE
        &&& self.rt < GRF_SIZE
    }

    open spec fn is_branch(&self) -> bool {
        false
    }

    open spec fn encoding(&self) -> u32 {
        encode_i(0b001000, self.rs, self.rt, imm_bits(self.imm))
    }

    open spec fn apply(&self, m: MachineModel) -> MachineModel {
        let a = signed(m.grf[self.rs as int]);
        let b = self.imm as int;
        if fits_i32(a + b) {
            m.write_grf(self.rt, unsigned(a + b))
        } else {
            m
        }
    }

    open spec fn outcome(&self, m: MachineModel) -> BranchResult {
        BranchResult::NoBranch
    }

    open spec fn text(&self) -> Seq<char> {
        "addi $"@
            + decimal(self.rt as nat)
            + ", $"@
            + decimal(self.rs as nat)
            + ", "@
            + signed_decimal(self.imm as int)
    }

    fn render_text(&self) -> (s: String) {
        let mut s = String::from_str("addi $");
        push_decimal(&mut s, self.rt as u64);
        s.append(", $");
        push_decimal(&mut s, self.rs as u64);
        s.append(", ");
        push_signed_decimal(&mut s, self.imm as i32);
        s
    }

    fn to_machine_code(&self) -> (code: u32) {
        gen_machine_code_i(0b001000, self.rs, self.rt, imm_field(self.imm))
    }

    fn execute_on(&self, machine: &mut MipsMachine) -> (res: BranchResult) {
        let a = to_signed(machine.read_grf(self.rs));
        let b = self.imm as i32;
        if let Some(sum) = a.checked_add(b) {
            machine.write_grf(self.rt, from_signed(sum));
        }
        BranchResult::NoBranch
    }
}

/// `addu`: addition modulo 2^32.
#[derive(Debug, PartialEq, Eq, Clone, Copy, Structural)]
pub struct AdduInstr {
    pub rs: u8,
    pub rt: u8,
    pub rd: u8,
}

impl Instruction for AdduInstr {
    open spec fn wf(&self) -> bool {
        &&& self.rs < GRF_SIZE
        &&& self.rt < GRF_SIZE
        &&& self.rd < GRF_SIZE
    }

    open spec fn is_branch(&self) -> bool {
        false
    }

    open spec fn encoding(&self) -> u32 {
        encode_r(0, self.rs, self.rt, self.rd, 0, 0b100001)
    }

    open spec fn apply(&self, m: MachineModel) -> MachineModel {
        let a = m.grf[self.rs as int];
        let b = m.grf[self.rt as int] as int;
        m.write_grf(self.rd, unsigned(a + b))
    }

    open spec fn outcome(&self, m: MachineModel) -> BranchResult {
        BranchResult::NoBranch
    }

    open spec fn text(&self) -> Seq<char> {
        "addu $"@
            + decimal(self.rd as nat)
            + ", $"@
            + decimal(self.rs as nat)
            + ", $"@
            + decimal(self.rt as nat)
    }

    fn render_text(&self) -> (s: String) {
        let mut s = String::from_str("addu $");
        push_decimal(&mut s, self.rd as u64);
        s.append(", $");
        push_decimal(&mut s, self.rs as u64);
        s.append(", $");
        push_decimal(&mut s, self.rt as u64);
        s
    }

    fn to_machine_code(&self) -> (code: u32) {
        gen_machine_code_r(0, self.rs, self.rt, self.rd, 0, 0b100001)
    }

    fn execute_on(&self, machine: &mut MipsMachine) -> (res: BranchResult) {
        let a = machine.read_grf(self.rs);
        let b = machine.read_grf(self.rt);
        machine.write_grf(self.rd, a.wrapping_add(b));
        BranchResult::NoBranch
    }
}

/// `addiu`: addition of a sign-extended immediate modulo 2^32.
#[derive(Debug, PartialEq, Eq, Clone, Copy, Structural)]
pub struct AddiuInstr {
    pub rs: u8,
    pub rt: u8,
    pub imm: i16,
}

impl Instruction for AddiuInstr {
    open spec fn wf(&self) -> bool {
        &&& self.rs < GRF_SIZE
        &&& self.rt < GRF_SIZE
    }

    open spec fn is_branch(&self) -> bool {
        false
    }

    open spec fn encoding(&self) -> u32 {
        encode_i(0b001001, self.rs, self.rt, imm_bits(self.imm))
    }

    open spec fn apply(&self, m: MachineModel) -> MachineModel {
        let a = m.grf[self.rs as int];
        let b = self.imm as int;
        m.write_grf(self.rt, unsigned(a + b))
    }

    open spec fn outcome(&self, m: MachineModel) -> BranchResult {
        BranchResult::NoBranch
    }

    open spec fn text(&self) -> Seq<char> {
        "addiu $"@
            + decimal(self.rt as nat)
            + ", $"@
            + decimal(self.rs as nat)
            + ", "@
            + signed_decimal(self.imm as int)
    }

    fn render_text(&self) -> (s: String) {
        let mut s = String::from_str("addiu $");
        push_decimal(&mut s, self.rt as u64);
        s.append(", $");
        push_decimal(&mut s, self.rs as u64);
        s.append(", ");
        push_signed_decimal(&mut s, self.imm as i32);
        s
    }

    fn to_machine_code(&self) -> (code: u32) {
        gen_machine_code_i(0b001001, self.rs, self.rt, imm_field(self.imm))
    }

    fn execute_on(&self, machine: &mut MipsMachine) -> (res: BranchResult) {
        let a = machine.read_grf(self.rs);
        let b = sign_extend_imm(self.imm);
        machine.write_grf(self.rt, a.wrapping_add(b));
        BranchResult::NoBranch
    }
}

/// `sub`: signed subtraction; on overflow nothing is written.
#[derive(Debug, PartialEq, Eq, Clone, Copy, Structural)]
pub struct SubInstr {
    pub rs: u8,
    pub rt: u8,
    pub rd: u8,
}

impl Instruction for SubInstr {
    open spec fn wf(&self) -> bool {
        &&& self.rs < GRF_SIZE
        &&& self.rt < GRF_SIZE
        &&& self.rd < GRF_SIZE
    }

    open spec fn is_branch(&self) -> bool {
        false
    }

    open spec fn encoding(&self) -> u32 {
        encode_r(0, self.rs, self.rt, self.rd, 0, 0b100010)
    }

    open spec fn apply(&self, m: MachineModel) -> MachineModel {
        let a = signed(m.grf[self.rs as int]);
        let b = signed(m.grf[self.rt as int]);
        if fits_i32(a - b) {
            m.write_grf(self.rd, unsigned(a - b))
        } else {
            m
        }
    }

    open spec fn outcome(&self, m: MachineModel) -> BranchResult {
        BranchResult::NoBranch
    }

    open spec fn text(&self) -> Seq<char> {
        "sub $"@
            + decimal(self.rd as nat)
            + ", $"@
            + decimal(self.rs as nat)
            + ", $"@
            + decimal(self.rt as nat)
    }

    fn render_text(&self) -> (s: String) {
        let mut s = String::from_str("sub $");
        push_decimal(&mut s, self.rd as u64);
        s.append(", $");
        push_decimal(&mut s, self.rs as u64);
        s.append(", $");
        push_decimal(&mut s, self.rt as u64);
        s
    }

    fn to_machine_code(&self) -> (code: u32) {
        gen_machine_code_r(0, self.rs, self.rt, self.rd, 0, 0b100010)
    }

    fn execute_on(&self, machine: &mut MipsMachine) -> (res: BranchResult) {
        let a = to_signed(machine.read_grf(self.rs));
        let b = to_signed(machine.read_grf(self.rt));
        if let Some(difference) = a.checked_sub(b) {
            machine.write_grf(self.rd, from_signed(difference));
        }
        BranchResult::NoBranch
    }
}

/// `subu`: subtraction modulo 2^32.
#[derive(Debug, PartialEq, Eq, Clone, Copy, Structural)]
pub struct SubuInstr {
    pub rs: u8,
    pub rt: u8,
    pub rd: u8,
}

impl Instruction for SubuInstr {
    open spec fn wf(&self) -> bool {
        &&& self.rs < GRF_SIZE
        &&& self.rt < GRF_SIZE
        &&& self.rd < GRF_SIZE
    }

    open spec fn is_branch(&self) -> bool {
        false
    }

    open spec fn encoding(&self) -> u32 {
        encode_r(0, self.rs, self.rt, self.rd, 0, 0b100011)
    }

    open spec fn apply(&self, m: MachineModel) -> MachineModel {
        let a = m.grf[self.rs as int];
        let b = m.grf[self.rt as int] as int;
        m.write_grf(self.rd, unsigned(a - b))
    }

    open spec fn outcome(&self, m: MachineModel) -> BranchResult {
        BranchResult::NoBranch
    }

    open spec fn text(&self) -> Seq<char> {
        "subu $"@
            + decimal(self.rd as nat)
            + ", $"@
            + decimal(self.rs as nat)
            + ", $"@
            + decimal(self.rt as nat)
    }

    fn render_text(&self) -> (s: String) {
        let mut s = String::from_str("subu $");
        push_decimal(&mut s, self.rd as u64);
        s.append(", $");
        push_decimal(&mut s, self.rs as u64);
        s.append(", $");
        push_decimal(&mut s, self.rt as u64);
        s
    }

    fn to_machine_code(&self) -> (code: u32) {
        gen_machine_code_r(0, self.rs, self.rt, self.rd, 0, 0b100011)
    }

    fn execute_on(&self, machine: &mut MipsMachine) -> (res: BranchResult) {
        let a = machine.read_grf(self.rs);
        let b = machine.read_grf(self.rt);
        machine.write_grf(self.rd, a.wrapping_sub(b));
        BranchResult::NoBranch
    }
}

/// `slt`: sets the destination to 1 where `rs` is less than `rt` as signed numbers, else to 0.
#[derive(Debug, PartialEq, Eq, Clone, Copy, Structural)]
pub struct SltInstr {
    pub rs: u8,
    pub rt: u8,
    pub rd: u8,
}

impl Instruction for SltInstr {
    open spec fn wf(&self) -> bool {
        &&& self.rs < GRF_SIZE
        &&& self.rt < GRF_SIZE
        &&& self.rd < GRF_SIZE
    }

    open spec fn is_branch(&self) -> bool {
        false
    }

    open spec fn encoding(&self) -> u32 {
        encode_r(0, self.rs, self.rt, self.rd, 0, 0b101010)
    }

    open spec fn apply(&self, m: MachineModel) -> MachineModel {
        let a = signed(m.grf[self.rs as int]);
        let b = signed(m.grf[self.rt as int]);
        m.write_grf(
            self.rd,
            if a < b {
                1
            } else {
                0
            },
        )
    }

    open spec fn outcome(&self, m: MachineModel) -> BranchResult {
        BranchResult::NoBranch
    }

    open spec fn text(&self) -> Seq<char> {
        "slt $"@
            + decimal(self.rd as nat)
            + ", $"@
            + decimal(self.rs as nat)
            + ", $"@
            + decimal(self.rt as nat)
    }

    fn render_text(&self) -> (s: String) {
        let mut s = String::from_str("slt $");
        push_decimal(&mut s, self.rd as u64);
        s.append(", $");
        push_decimal(&mut s, self.rs as u64);
        s.append(", $");
        push_decimal(&mut s, self.rt as u64);
        s
    }

    fn to_machine_code(&self) -> (code: u32) {
        gen_machine_code_r(0, self.rs, self.rt, self.rd, 0, 0b101010)
    }

    fn execute_on(&self, machine: &mut MipsMachine) -> (res: BranchResult) {
        let a = to_signed(machine.read_grf(self.rs));
        let b = to_signed(machine.read_grf(self.rt));
        let flag: u32 = if a < b {
            1
        } else {
            0
        };
        machine.write_grf(self.rd, flag);
        BranchResult::NoBranch
    }
}

/// `slti`: sets the destination to 1 where `rs` is less than the immediate as signed numbers, else to 0.
#[derive(Debug, PartialEq, Eq, Clone, Copy, Structural)]
pub struct SltiInstr {
    pub rs: u8,
    pub rt: u8,
    pub imm: i16,
}

impl Instruction for SltiInstr {
    open spec fn wf(&self) -> bool {
        &&& self.rs < GRF_SIZE
        &&& self.rt < GRF_SIZE
    }

    open spec fn is_branch(&self) -> bool {
        false
    }

    open spec fn encoding(&self) -> u32 {
        encode_i(0b001010, self.rs, self.rt, imm_bits(self.imm))
    }

    open spec fn apply(&self, m: MachineModel) -> MachineModel {
        let a = signed(m.grf[self.rs as int]);
        let b = self.imm as int;
        m.write_grf(
            self.rt,
            if a < b {
                1
            } else {
                0
            },
        )
    }

    open spec fn outcome(&self, m: MachineModel) -> BranchResult {
        BranchResult::NoBranch
    }

    open spec fn text(&self) -> Seq<char> {
        "slti $"@
            + decimal(self.rt as nat)
            + ", $"@
            + decimal(self.rs as nat)
            + ", "@
            + signed_decimal(self.imm as int)
    }

    fn render_text(&self) -> (s: String) {
        let mut s = String::from_str("slti $");
        push_decimal(&mut s, self.rt as u64);
        s.append(", $");
        push_decimal(&mut s, self.rs as u64);
        s.append(", ");
        push_signed_decimal(&mut s, self.imm as i32);
        s
    }

    fn to_machine_code(&self) -> (code: u32) {
        gen_machine_code_i(0b001010, self.rs, self.rt, imm_field(self.imm))
    }

    fn execute_on(&self, machine: &mut MipsMachine) -> (res: BranchResult) {
        let a = to_signed(machine.read_grf(self.rs));
        let b = self.imm as i32;
        let flag: u32 = if a < b {
            1
        } else {
            0
        };
        machine.write_grf(self.rt, flag);
        BranchResult::NoBranch
    }
}

/// `sltu`: sets the destination to 1 where `rs` is less than `rt` as unsigned numbers, else to 0.
#[derive(Debug, PartialEq, Eq, Clone, Copy, Structural)]
pub struct SltuInstr {
    pub rs: u8,
    pub rt: u8,
    pub rd: u8,
}

impl Instruction for SltuInstr {
    open spec fn wf(&self) -> bool {
        &&& self.rs < GRF_SIZE
        &&& self.rt < GRF_SIZE
        &&& self.rd < GRF_SIZE
    }

    open spec fn is_branch(&self) -> bool {
        false
    }

    open spec fn encoding(&self) -> u32 {
        encode_r(0, self.rs, self.rt, self.rd, 0, 0b101011)
    }

    open spec fn apply(&self, m: MachineModel) -> MachineModel {
        let a = m.grf[self.rs as int];
        let b = m.grf[self.rt as int];
        m.write_grf(
            self.rd,
            if a < b {
                1
            } else {
                0
            },
        )
    }

    open spec fn outcome(&self, m: MachineModel) -> BranchResult {
        BranchResult::NoBranch
    }

    open spec fn text(&self) -> Seq<char> {
        "sltu $"@
            + decimal(self.rd as nat)
            + ", $"@
            + decimal(self.rs as nat)
            + ", $"@
            + decimal(self.rt as nat)
    }

    fn render_text(&self) -> (s: String) {
        let mut s = String::from_str("sltu $");
        push_decimal(&mut s, self.rd as u64);
        s.append(", $");
        push_decimal(&mut s, self.rs as u64);
        s.append(", $");
        push_decimal(&mut s, self.rt as u64);
        s
    }

    fn to_machine_code(&self) -> (code: u32) {
        gen_machine_code_r(0, self.rs, self.rt, self.rd, 0, 0b101011)
    }

    fn execute_on(&self, machine: &mut MipsMachine) -> (res: BranchResult) {
        let a = machine.read_grf(self.rs);
        let b = machine.read_grf(self.rt);
        let flag: u32 = if a < b {
            1
        } else {
            0
        };
        machine.write_grf(self.rd, flag);
        BranchResult::NoBranch
    }
}

/// `sltiu`: sets the destination to 1 where `rs` is less than the sign-extended immediate as unsigned numbers, else to 0.
#[derive(Debug, PartialEq, Eq, Clone, Copy, Structural)]
pub struct SltiuInstr {
    pub rs: u8,
    pub rt: u8,
    pub imm: i16,
}

impl Instruction for SltiuInstr {
    open spec fn wf(&self) -> bool {
        &&& self.rs < GRF_SIZE
        &&& self.rt < GRF_SIZE
    }

    open spec fn is_branch(&self) -> bool {
        false
    }

    open spec fn encoding(&self) -> u32 {
        encode_i(0b001011, self.rs, self.rt, imm_bits(self.imm))
    }

    open spec fn apply(&self, m: MachineModel) -> MachineModel {
        let a = m.grf[self.rs as int];
        let b = unsigned(self.imm as int);
        m.write_grf(
            self.rt,
            if a < b {
                1
            } else {
                0
            },
        )
    }

    open spec fn outcome(&self, m: MachineModel) -> BranchResult {
        BranchResult::NoBranch
    }

    open spec fn text(&self) -> Seq<char> {
        "sltiu $"@
            + decimal(self.rt as nat)
            + ", $"@
            + decimal(self.rs as nat)
            + ", "@
            + signed_decimal(self.imm as int)
    }

    fn render_text(&self) -> (s: String) {
        let mut s = String::from_str("sltiu $");
        push_decimal(&mut s, self.rt as u64);
        s.append(", $");
        push_decimal(&mut s, self.rs as u64);
        s.append(", ");
        push_signed_decimal(&mut s, self.imm as i32);
        s
    }

    fn to_machine_code(&self) -> (code: u32) {
        gen_machine_code_i(0b001011, self.rs, self.rt, imm_field(self.imm))
    }

    fn execute_on(&self, machine: &mut MipsMachine) -> (res: BranchResult) {
        let a = machine.read_grf(self.rs);
        let b = sign_extend_imm(self.imm);
        let flag: u32 = if a < b {
            1
        } else {
            0
        };
        machine.write_grf(self.rt, flag);
        BranchResult::NoBranch
    }
}

/// `lui`: loads the immediate into the upper half of the destination.
#[derive(Debug, PartialEq, Eq, Clone, Copy, Structural)]
pub struct LuiInstr {
    pub rt: u8,
    pub imm: u16,
}

impl Instruction for LuiInstr {
    open spec fn wf(&self) -> bool {
        self.rt < GRF_SIZE
    }

    open spec fn is_branch(&self) -> bool {
        false
    }

    open spec fn encoding(&self) -> u32 {
        encode_i(0b001111, 0, self.rt, self.imm)
    }

    open spec fn apply(&self, m: MachineModel) -> MachineModel {
        m.write_grf(self.rt, (self.imm * 0x1_0000) as u32)
    }

    open spec fn outcome(&self, m: MachineModel) -> BranchResult {
        BranchResult::NoBranch
    }

    open spec fn text(&self) -> Seq<char> {
        "lui $"@ + decimal(self.rt as nat) + ", "@ + decimal(self.imm as nat)
    }

    fn render_text(&self) -> (s: String) {
        let mut s = String::from_str("lui $");
        push_decimal(&mut s, self.rt as u64);
        s.append(", ");
        push_decimal(&mut s, self.imm as u64);
        s
    }

    fn to_machine_code(&self) -> (code: u32) {
        gen_machine_code_i(0b001111, 0, self.rt, self.imm)
    }

    fn execute_on(&self, machine: &mut MipsMachine) -> (res: BranchResult) {
        machine.write_grf(self.rt, (self.imm as u32) * 0x1_0000);
        BranchResult::NoBranch
    }
}

} // verus!
