use vstd::prelude::*;
use vstd::string::*;
use crate::encoding::{encode_i, encode_r, gen_machine_code_i, gen_machine_code_r};
use crate::machine::{BranchResult, GRF_SIZE, Instruction, MachineModel, MipsMachine};
use crate::text::{decimal, push_decimal};

verus! {

/// `and`: bitwise AND of two registers.
#[derive(Debug, PartialEq, Eq, Clone, Copy, Structural)]
pub struct AndInstr {
    pub rs: u8,
    pub rt: u8,
    pub rd: u8,
}

impl Instruction for AndInstr {
    open spec fn wf(&self) -> bool {
        &&& self.rs < GRF_SIZE
        &&& self.rt < GRF_SIZE
        &&& self.rd < GRF_SIZE
    }

    open spec fn is_branch(&self) -> bool {
        false
    }

    open spec fn encoding(&self) -> u32 {
        encode_r(0, self.rs, self.rt, self.rd, 0, 0b100100)
    }

    open spec fn apply(&self, m: MachineModel) -> MachineModel {
        let a = m.grf[self.rs as int];
        let b = m.grf[self.rt as int];
        m.write_grf(self.rd, a & b)
    }

    open spec fn outcome(&self, m: MachineModel) -> BranchResult {
        BranchResult::NoBranch
    }

    open spec fn text(&self) -> Seq<char> {
        "and $"@
            + decimal(self.rd as nat)
            + ", $"@
            + decimal(self.rs as nat)
            + ", $"@
            + decimal(self.rt as nat)
    }

    fn render_text(&self) -> (s: String) {
        let mut s = String::from_str("and $");
        push_decimal(&mut s, self.rd as u64);
        s.append(", $");
        push_decimal(&mut s, self.rs as u64);
        s.append(", $");
        push_decimal(&mut s, self.rt as u64);
        s
    }

    fn to_machine_code(&self) -> (code: u32) {
        gen_machine_code_r(0, self.rs, self.rt, self.rd, 0, 0b100100)
    }

    fn execute_on(&self, machine: &mut MipsMachine) -> (res: BranchResult) {
        let a = machine.read_grf(self.rs);
        let b = machine.read_grf(self.rt);
        machine.write_grf(self.rd, a & b);
        BranchResult::NoBranch
    }
}

/// `or`: bitwise OR of two registers.
#[derive(Debug, PartialEq, Eq, Clone, Copy, Structural)]
pub struct OrInstr {
    pub rs: u8,
    pub rt: u8,
    pub rd: u8,
}

impl Instruction for OrInstr {
    open spec fn wf(&self) -> bool {
        &&& self.rs < GRF_SIZE
        &&& self.rt < GRF_SIZE
        &&& self.rd < GRF_SIZE
    }

    open spec fn is_branch(&self) -> bool {
        false
    }

    open spec fn encoding(&self) -> u32 {
        encode_r(0, self.rs, self.rt, self.rd, 0, 0b100101)
    }

    open spec fn apply(&self, m: MachineModel) -> MachineModel {
        let a = m.grf[self.rs as int];
        let b = m.grf[self.rt as int];
        m.write_grf(self.rd, a | b)
    }

    open spec fn outcome(&self, m: MachineModel) -> BranchResult {
        BranchResult::NoBranch
    }

    open spec fn text(&self) -> Seq<char> {
        "or $"@
            + decimal(self.rd as nat)
            + ", $"@
            + decimal(self.rs as nat)
            + ", $"@
            + decimal(self.rt as nat)
    }

    fn render_text(&self) -> (s: String) {
        let mut s = String::from_str("or $");
        push_decimal(&mut s, self.rd as u64);
        s.append(", $");
        push_decimal(&mut s, self.rs as u64);
        s.append(", $");
        push_decimal(&mut s, self.rt as u64);
        s
    }

    fn to_machine_code(&self) -> (code: u32) {
        gen_machine_code_r(0, self.rs, self.rt, self.rd, 0, 0b100101)
    }

    fn execute_on(&self, machine: &mut MipsMachine) -> (res: BranchResult) {
        let a = machine.read_grf(self.rs);
        let b = machine.read_grf(self.rt);
        machine.write_grf(self.rd, a | b);
        BranchResult::NoBranch
    }
}

/// `xor`: bitwise XOR of two registers.
#[derive(Debug, PartialEq, Eq, Clone, Copy, Structural)]
pub struct XorInstr {
    pub rs: u8,
    pub rt: u8,
    pub rd: u8,
}

impl Instruction for XorInstr {
    open spec fn wf(&self) -> bool {
        &&& self.rs < GRF_SIZE
        &&& self.rt < GRF_SIZE
        &&& self.rd < GRF_SIZE
    }

    open spec fn is_branch(&self) -> bool {
        false
    }

    open spec fn encoding(&self) -> u32 {
        encode_r(0, self.rs, self.rt, self.rd, 0, 0b100110)
    }

    open spec fn apply(&self, m: MachineModel) -> MachineModel {
        let a = m.grf[self.rs as int];
        let b = m.grf[self.rt as int];
        m.write_grf(self.rd, a ^ b)
    }

    open spec fn outcome(&self, m: MachineModel) -> BranchResult {
        BranchResult::NoBranch
    }

    open spec fn text(&self) -> Seq<char> {
        "xor $"@
            + decimal(self.rd as nat)
            + ", $"@
            + decimal(self.rs as nat)
            + ", $"@
            + decimal(self.rt as nat)
    }

    fn render_text(&self) -> (s: String) {
        let mut s = String::from_str("xor $");
        push_decimal(&mut s, self.rd as u64);
        s.append(", $");
        push_decimal(&mut s, self.rs as u64);
        s.append(", $");
        push_decimal(&mut s, self.rt as u64);
        s
    }

    fn to_machine_code(&self) -> (code: u32) {
        gen_machine_code_r(0, self.rs, self.rt, self.rd, 0, 0b100110)
    }

    fn execute_on(&self, machine: &mut MipsMachine) -> (res: BranchResult) {
        let a = machine.read_grf(self.rs);
        let b = machine.read_grf(self.rt);
        machine.write_grf(self.rd, a ^ b);
        BranchResult::NoBranch
    }
}

/// `nor`: bitwise NOR of two registers.
#[derive(Debug, PartialEq, Eq, Clone, Copy, Structural)]
pub struct NorInstr {
    pub rs: u8,
    pub rt: u8,
    pub rd: u8,
}

impl Instruction for NorInstr {
    open spec fn wf(&self) -> bool {
        &&& self.rs < GRF_SIZE
        &&& self.rt < GRF_SIZE
        &&& self.rd < GRF_SIZE
    }

    open spec fn is_branch(&self) -> bool {
        false
    }

    open spec fn encoding(&self) -> u32 {
        encode_r(0, self.rs, self.rt, self.rd, 0, 0b100111)
    }

    open spec fn apply(&self, m: MachineModel) -> MachineModel {
        let a = m.grf[self.rs as int];
        let b = m.grf[self.rt as int];
        m.write_grf(self.rd, !(a | b))
    }

    open spec fn outcome(&self, m: MachineModel) -> BranchResult {
        BranchResult::NoBranch
    }

    open spec fn text(&self) -> Seq<char> {
        "nor $"@
            + decimal(self.rd as nat)
            + ", $"@
            + decimal(self.rs as nat)
            + ", $"@
            + decimal(self.rt as nat)
    }

    fn render_text(&self) -> (s: String) {
        let mut s = String::from_str("nor $");
        push_decimal(&mut s, self.rd as u64);
        s.append(", $");
        push_decimal(&mut s, self.rs as u64);
        s.append(", $");
        push_decimal(&mut s, self.rt as u64);
        s
    }

    fn to_machine_code(&self) -> (code: u32) {
        gen_machine_code_r(0, self.rs, self.rt, self.rd, 0, 0b100111)
    }

    fn execute_on(&self, machine: &mut MipsMachine) -> (res: BranchResult) {
        let a = machine.read_grf(self.rs);
        let b = machine.read_grf(self.rt);
        machine.write_grf(self.rd, !(a | b));
        BranchResult::NoBranch
    }
}

/// `andi`: bitwise AND of a register and a zero-extended immediate.
#[derive(Debug, PartialEq, Eq, Clone, Copy, Structural)]
pub struct AndiInstr {
    pub rs: u8,
    pub rt: u8,
    pub imm: u16,
}

impl Instruction for AndiInstr {
    open spec fn wf(&self) -> bool {
        &&& self.rs < GRF_SIZE
        &&& self.rt < GRF_SIZE
    }

    open spec fn is_branch(&self) -> bool {
        false
    }

    open spec fn encoding(&self) -> u32 {
        encode_i(0b001100, self.rs, self.rt, self.imm)
    }

    open spec fn apply(&self, m: MachineModel) -> MachineModel {
        let a = m.grf[self.rs as int];
        let b = self.imm as u32;
        m.write_grf(self.rt, a & b)
    }

    open spec fn outcome(&self, m: MachineModel) -> BranchResult {
        BranchResult::NoBranch
    }

    open spec fn text(&self) -> Seq<char> {
        "andi $"@
            + decimal(self.rt as nat)
            + ", $"@
            + decimal(self.rs as nat)
            + ", "@
            + decimal(self.imm as nat)
    }

    fn render_text(&self) -> (s: String) {
        let mut s = String::from_str("andi $");
        push_decimal(&mut s, self.rt as u64);
        s.append(", $");
        push_decimal(&mut s, self.rs as u64);
        s.append(", ");
        push_decimal(&mut s, self.imm as u64);
        s
    }

    fn to_machine_code(&self) -> (code: u32) {
        gen_machine_code_i(0b001100, self.rs, self.rt, self.imm)
    }

    fn execute_on(&self, machine: &mut MipsMachine) -> (res: BranchResult) {
        let a = machine.read_grf(self.rs);
        let b = self.imm as u32;
        machine.write_grf(self.rt, a & b);
        BranchResult::NoBranch
    }
}

/// `ori`: bitwise OR of a register and a zero-extended immediate.
#[derive(Debug, PartialEq, Eq, Clone, Copy, Structural)]
pub struct OriInstr {
    pub rs: u8,
    pub rt: u8,
    pub imm: u16,
}

impl Instruction for OriInstr {
    open spec fn wf(&self) -> bool {
        &&& self.rs < GRF_SIZE
        &&& self.rt < GRF_SIZE
    }

    open spec fn is_branch(&self) -> bool {
        false
    }

    open spec fn encoding(&self) -> u32 {
        encode_i(0b001101, self.rs, self.rt, self.imm)
    }

    open spec fn apply(&self, m: MachineModel) -> MachineModel {
        let a = m.grf[self.rs as int];
        let b = self.imm as u32;
        m.write_grf(self.rt, a | b)
    }

    open spec fn outcome(&self, m: MachineModel) -> BranchResult {
        BranchResult::NoBranch
    }

    open spec fn text(&self) -> Seq<char> {
        "ori $"@
            + decimal(self.rt as nat)
            + ", $"@
            + decimal(self.rs as nat)
            + ", "@
            + decimal(self.imm as nat)
    }

    fn render_text(&self) -> (s: String) {
        let mut s = String::from_str("ori $");
        push_decimal(&mut s, self.rt as u64);
        s.append(", $");
        push_decimal(&mut s, self.rs as u64);
        s.append(", ");
        push_decimal(&mut s, self.imm as u64);
        s
    }

    fn to_machine_code(&self) -> (code: u32) {
        gen_machine_code_i(0b001101, self.rs, self.rt, self.imm)
    }

    fn execute_on(&self, machine: &mut MipsMachine) -> (res: BranchResult) {
        let a = machine.read_grf(self.rs);
        let b = self.imm as u32;
        machine.write_grf(self.rt, a | b);
        BranchResult::NoBranch
    }
}

/// `xori`: bitwise XOR of a register and a zero-extended immediate.
#[derive(Debug, PartialEq, Eq, Clone, Copy, Structural)]
pub struct XoriInstr {
    pub rs: u8,
    pub rt: u8,
    pub imm: u16,
}

impl Instruction for XoriInstr {
    open spec fn wf(&self) -> bool {
        &&& self.rs < GRF_SIZE
        &&& self.rt < GRF_SIZE
    }

    open spec fn is_branch(&self) -> bool {
        false
    }

    open spec fn encoding(&self) -> u32 {
        encode_i(0b001110, self.rs, self.rt, self.imm)
    }

    open spec fn apply(&self, m: MachineModel) -> MachineModel {
        let a = m.grf[self.rs as int];
        let b = self.imm as u32;
        m.write_grf(self.rt, a ^ b)
    }

    open spec fn outcome(&self, m: MachineModel) -> BranchResult {
        BranchResult::NoBranch
    }

    open spec fn text(&self) -> Seq<char> {
        "xori $"@
            + decimal(self.rt as nat)
            + ", $"@
            + decimal(self.rs as nat)
            + ", "@
            + decimal(self.imm as nat)
    }

    fn render_text(&self) -> (s: String) {
        let mut s = String::from_str("xori $");
        push_decimal(&mut s, self.rt as u64);
        s.append(", $");
        push_decimal(&mut s, self.rs as u64);
        s.append(", ");
        push_decimal(&mut s, self.imm as u64);
        s
    }

    fn to_machine_code(&self) -> (code: u32) {
        gen_machine_code_i(0b001110, self.rs, self.rt, self.imm)
    }

    fn execute_on(&self, machine: &mut MipsMachine) -> (res: BranchResult) {
        let a = machine.read_grf(self.rs);
        let b = self.imm as u32;
        machine.write_grf(self.rt, a ^ b);
        BranchResult::NoBranch
    }
}

} // verus!
