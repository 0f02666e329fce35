use vstd::prelude::*;
use vstd::string::*;
use crate::bits::{arith_shift_right, shift_distance, shift_right_arith};
use crate::encoding::{encode_r, gen_machine_code_r};
use crate::machine::{BranchResult, GRF_SIZE, Instruction, MachineModel, MipsMachine};
use crate::text::{decimal, push_decimal};

verus! {

/// `sll`: shift left by a constant.
#[derive(Debug, PartialEq, Eq, Clone, Copy, Structural)]
pub struct SllInstr {
    pub rt: u8,
    pub rd: u8,
    pub sa: u8,
}

impl Instruction for SllInstr {
    open spec fn wf(&self) -> bool {
        &&& self.rt < GRF_SIZE
        &&& self.rd < GRF_SIZE
        &&& self.sa < 32
    }

    open spec fn is_branch(&self) -> bool {
        false
    }

    open spec fn encoding(&self) -> u32 {
        encode_r(0, 0, self.rt, self.rd, self.sa, 0b000000)
    }

    open spec fn apply(&self, m: MachineModel) -> MachineModel {
        let x = m.grf[self.rt as int];
        let s = self.sa as u32;
        m.write_grf(self.rd, x << s)
    }

    open spec fn outcome(&self, m: MachineModel) -> BranchResult {
        BranchResult::NoBranch
    }

    open spec fn text(&self) -> Seq<char> {
        "sll $"@
            + decimal(self.rd as nat)
            + ", $"@
            + decimal(self.rt as nat)
            + ", "@
            + decimal(self.sa as nat)
    }

    fn render_text(&self) -> (s: String) {
        let mut s = String::from_str("sll $");
        push_decimal(&mut s, self.rd as u64);
        s.append(", $");
        push_decimal(&mut s, self.rt as u64);
        s.append(", ");
        push_decimal(&mut s, self.sa as u64);
        s
    }

    fn to_machine_code(&self) -> (code: u32) {
        gen_machine_code_r(0, 0, self.rt, self.rd, self.sa, 0b000000)
    }

    fn execute_on(&self, machine: &mut MipsMachine) -> (res: BranchResult) {
        let x = machine.read_grf(self.rt);
        let s = self.sa as u32;
        machine.write_grf(self.rd, x << s);
        BranchResult::NoBranch
    }
}

/// `srl`: logical shift right by a constant.
#[derive(Debug, PartialEq, Eq, Clone, Copy, Structural)]
pub struct SrlInstr {
    pub rt: u8,
    pub rd: u8,
    pub sa: u8,
}

impl Instruction for SrlInstr {
    open spec fn wf(&self) -> bool {
        &&& self.rt < GRF_SIZE
        &&& self.rd < GRF_SIZE
        &&& self.sa < 32
    }

    open spec fn is_branch(&self) -> bool {
        false
    }

    open spec fn encoding(&self) -> u32 {
        encode_r(0, 0, self.rt, self.rd, self.sa, 0b000010)
    }

    open spec fn apply(&self, m: MachineModel) -> MachineModel {
        let x = m.grf[self.rt as int];
        let s = self.sa as u32;
        m.write_grf(self.rd, x >> s)
    }

    open spec fn outcome(&self, m: MachineModel) -> BranchResult {
        BranchResult::NoBranch
    }

    open spec fn text(&self) -> Seq<char> {
        "srl $"@
            + decimal(self.rd as nat)
            + ", $"@
            + decimal(self.rt as nat)
            + ", "@
            + decimal(self.sa as nat)
    }

    fn render_text(&self) -> (s: String) {
        let mut s = String::from_str("srl $");
        push_decimal(&mut s, self.rd as u64);
        s.append(", $");
        push_decimal(&mut s, self.rt as u64);
        s.append(", ");
        push_decimal(&mut s, self.sa as u64);
        s
    }

    fn to_machine_code(&self) -> (code: u32) {
        gen_machine_code_r(0, 0, self.rt, self.rd, self.sa, 0b000010)
    }

    fn execute_on(&self, machine: &mut MipsMachine) -> (res: BranchResult) {
        let x = machine.read_grf(self.rt);
        let s = self.sa as u32;
        machine.write_grf(self.rd, x >> s);
        BranchResult::NoBranch
    }
}

/// `sra`: arithmetic shift right by a constant.
#[derive(Debug, PartialEq, Eq, Clone, Copy, Structural)]
pub struct SraInstr {
    pub rt: u8,
    pub rd: u8,
    pub sa: u8,
}

impl Instruction for SraInstr {
    open spec fn wf(&self) -> bool {
        &&& self.rt < GRF_SIZE
        &&& self.rd < GRF_SIZE
        &&& self.sa < 32
    }

    open spec fn is_branch(&self) -> bool {
        false
    }

    open spec fn encoding(&self) -> u32 {
        encode_r(0, 0, self.rt, self.rd, self.sa, 0b000011)
    }

    open spec fn apply(&self, m: MachineModel) -> MachineModel {
        let x = m.grf[self.rt as int];
        let s = self.sa as u32;
        m.write_grf(self.rd, arith_shift_right(x, s))
    }

    open spec fn outcome(&self, m: MachineModel) -> BranchResult {
        BranchResult::NoBranch
    }

    open spec fn text(&self) -> Seq<char> {
        "sra $"@
            + decimal(self.rd as nat)
            + ", $"@
            + decimal(self.rt as nat)
            + ", "@
            + decimal(self.sa as nat)
    }

    fn render_text(&self) -> (s: String) {
        let mut s = String::from_str("sra $");
        push_decimal(&mut s, self.rd as u64);
        s.append(", $");
        push_decimal(&mut s, self.rt as u64);
        s.append(", ");
        push_decimal(&mut s, self.sa as u64);
        s
    }

    fn to_machine_code(&self) -> (code: u32) {
        gen_machine_code_r(0, 0, self.rt, self.rd, self.sa, 0b000011)
    }

    fn execute_on(&self, machine: &mut MipsMachine) -> (res: BranchResult) {
        let x = machine.read_grf(self.rt);
        let s = self.sa as u32;
        machine.write_grf(self.rd, shift_right_arith(x, s));
        BranchResult::NoBranch
    }
}

/// `sllv`: shift left by the low five bits of a register.
#[derive(Debug, PartialEq, Eq, Clone, Copy, Structural)]
pub struct SllvInstr {
    pub rs: u8,
    pub rt: u8,
    pub rd: u8,
}

impl Instruction for SllvInstr {
    open spec fn wf(&self) -> bool {
        &&& self.rs < GRF_SIZE
        &&& self.rt < GRF_SIZE
        &&& self.rd < GRF_SIZE
    }

    open spec fn is_branch(&self) -> bool {
        false
    }

    open spec fn encoding(&self) -> u32 {
        encode_r(0, self.rs, self.rt, self.rd, 0, 0b000100)
    }

    open spec fn apply(&self, m: MachineModel) -> MachineModel {
        let x = m.grf[self.rt as int];
        let s = m.grf[self.rs as int] % 32;
        m.write_grf(self.rd, x << s)
    }

    open spec fn outcome(&self, m: MachineModel) -> BranchResult {
        BranchResult::NoBranch
    }

    open spec fn text(&self) -> Seq<char> {
        "sllv $"@
            + decimal(self.rd as nat)
            + ", $"@
            + decimal(self.rt as nat)
            + ", $"@
            + decimal(self.rs as nat)
    }

    fn render_text(&self) -> (s: String) {
        let mut s = String::from_str("sllv $");
        push_decimal(&mut s, self.rd as u64);
        s.append(", $");
        push_decimal(&mut s, self.rt as u64);
        s.append(", $");
        push_decimal(&mut s, self.rs as u64);
        s
    }

    fn to_machine_code(&self) -> (code: u32) {
        gen_machine_code_r(0, self.rs, self.rt, self.rd, 0, 0b000100)
    }

    fn execute_on(&self, machine: &mut MipsMachine) -> (res: BranchResult) {
        let x = machine.read_grf(self.rt);
        let s = shift_distance(machine.read_grf(self.rs));
        machine.write_grf(self.rd, x << s);
        BranchResult::NoBranch
    }
}

/// `srlv`: logical shift right by the low five bits of a register.
#[derive(Debug, PartialEq, Eq, Clone, Copy, Structural)]
pub struct SrlvInstr {
    pub rs: u8,
    pub rt: u8,
    pub rd: u8,
}

impl Instruction for SrlvInstr {
    open spec fn wf(&self) -> bool {
        &&& self.rs < GRF_SIZE
        &&& self.rt < GRF_SIZE
        &&& self.rd < GRF_SIZE
    }

    open spec fn is_branch(&self) -> bool {
        false
    }

    open spec fn encoding(&self) -> u32 {
        encode_r(0, self.rs, self.rt, self.rd, 0, 0b000110)
    }

    open spec fn apply(&self, m: MachineModel) -> MachineModel {
        let x = m.grf[self.rt as int];
        let s = m.grf[self.rs as int] % 32;
        m.write_grf(self.rd, x >> s)
    }

    open spec fn outcome(&self, m: MachineModel) -> BranchResult {
        BranchResult::NoBranch
    }

    open spec fn text(&self) -> Seq<char> {
        "srlv $"@
            + decimal(self.rd as nat)
            + ", $"@
            + decimal(self.rt as nat)
            + ", $"@
            + decimal(self.rs as nat)
    }

    fn render_text(&self) -> (s: String) {
        let mut s = String::from_str("srlv $");
        push_decimal(&mut s, self.rd as u64);
        s.append(", $");
        push_decimal(&mut s, self.rt as u64);
        s.append(", $");
        push_decimal(&mut s, self.rs as u64);
        s
    }

    fn to_machine_code(&self) -> (code: u32) {
        gen_machine_code_r(0, self.rs, self.rt, self.rd, 0, 0b000110)
    }

    fn execute_on(&self, machine: &mut MipsMachine) -> (res: BranchResult) {
        let x = machine.read_grf(self.rt);
        let s = shift_distance(machine.read_grf(self.rs));
        machine.write_grf(self.rd, x >> s);
        BranchResult::NoBranch
    }
}

/// `srav`: arithmetic shift right by the low five bits of a register.
#[derive(Debug, PartialEq, Eq, Clone, Copy, Structural)]
pub struct SravInstr {
    pub rs: u8,
    pub rt: u8,
    pub rd: u8,
}

impl Instruction for SravInstr {
    open spec fn wf(&self) -> bool {
        &&& self.rs < GRF_SIZE
        &&& self.rt < GRF_SIZE
        &&& self.rd < GRF_SIZE
    }

    open spec fn is_branch(&self) -> bool {
        false
    }

    open spec fn encoding(&self) -> u32 {
        encode_r(0, self.rs, self.rt, self.rd, 0, 0b000111)
    }

    open spec fn apply(&self, m: MachineModel) -> MachineModel {
        let x = m.grf[self.rt as int];
        let s = m.grf[self.rs as int] % 32;
        m.write_grf(self.rd, arith_shift_right(x, s))
    }

    open spec fn outcome(&self, m: MachineModel) -> BranchResult {
        BranchResult::NoBranch
    }

    open spec fn text(&self) -> Seq<char> {
        "srav $"@
            + decimal(self.rd as nat)
            + ", $"@
            + decimal(self.rt as nat)
            + ", $"@
            + decimal(self.rs as nat)
    }

    fn render_text(&self) -> (s: String) {
        let mut s = String::from_str("srav $");
        push_decimal(&mut s, self.rd as u64);
        s.append(", $");
        push_decimal(&mut s, self.rt as u64);
        s.append(", $");
        push_decimal(&mut s, self.rs as u64);
        s
    }

    fn to_machine_code(&self) -> (code: u32) {
        gen_machine_code_r(0, self.rs, self.rt, self.rd, 0, 0b000111)
    }

    fn execute_on(&self, machine: &mut MipsMachine) -> (res: BranchResult) {
        let x = machine.read_grf(self.rt);
        let s = shift_distance(machine.read_grf(self.rs));
        machine.write_grf(self.rd, shift_right_arith(x, s));
        BranchResult::NoBranch
    }
}

} // verus!
