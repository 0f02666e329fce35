use vstd::prelude::*;
use vstd::string::*;
use crate::bits::{imm_bits, imm_field, signed, to_signed};
use crate::encoding::{
    encode_i,
    encode_j,
    encode_r,
    gen_machine_code_i,
    gen_machine_code_j,
    gen_machine_code_r,
};
use crate::machine::{
    branch_target,
    BranchResult,
    calc_branch_addr,
    calc_jump_addr,
    GRF_SIZE,
    Instruction,
    jump_target,
    link_address,
    MachineModel,
    MipsMachine,
    WORD_SIZE,
};
use crate::text::{decimal, push_decimal, push_signed_decimal, signed_decimal};

verus! {

/// `beq`: branches where two registers are equal.
#[derive(Debug, PartialEq, Eq, Clone, Copy, Structural)]
pub struct BeqInstr {
    pub rs: u8,
    pub rt: u8,
    pub offset: i16,
}

impl Instruction for BeqInstr {
    open spec fn wf(&self) -> bool {
        &&& self.rs < GRF_SIZE
        &&& self.rt < GRF_SIZE
    }

    open spec fn is_branch(&self) -> bool {
        true
    }

    open spec fn encoding(&self) -> u32 {
        encode_i(0b000100, self.rs, self.rt, imm_bits(self.offset))
    }

    open spec fn apply(&self, m: MachineModel) -> MachineModel {
        m
    }

    open spec fn outcome(&self, m: MachineModel) -> BranchResult {
        if m.grf[self.rs as int] == m.grf[self.rt as int] {
            BranchResult::Taken(branch_target(m.pc, self.offset))
        } else {
            BranchResult::NotTaken
        }
    }

    open spec fn text(&self) -> Seq<char> {
        "beq $"@
            + decimal(self.rs as nat)
            + ", $"@
            + decimal(self.rt as nat)
            + ", "@
            + signed_decimal(self.offset as int)
    }

    fn render_text(&self) -> (s: String) {
        let mut s = String::from_str("beq $");
        push_decimal(&mut s, self.rs as u64);
        s.append(", $");
        push_decimal(&mut s, self.rt as u64);
        s.append(", ");
        push_signed_decimal(&mut s, self.offset as i32);
        s
    }

    fn to_machine_code(&self) -> (code: u32) {
        gen_machine_code_i(0b000100, self.rs, self.rt, imm_field(self.offset))
    }

    fn execute_on(&self, machine: &mut MipsMachine) -> (res: BranchResult) {
        if machine.read_grf(self.rs) == machine.read_grf(self.rt) {
            BranchResult::Taken(calc_branch_addr(machine.pc(), self.offset))
        } else {
            BranchResult::NotTaken
        }
    }
}

/// `bne`: branches where two registers differ.
#[derive(Debug, PartialEq, Eq, Clone, Copy, Structural)]
pub struct BneInstr {
    pub rs: u8,
    pub rt: u8,
    pub offset: i16,
}

impl Instruction for BneInstr {
    open spec fn wf(&self) -> bool {
        &&& self.rs < GRF_SIZE
        &&& self.rt < GRF_SIZE
    }

    open spec fn is_branch(&self) -> bool {
        true
    }

    open spec fn encoding(&self) -> u32 {
        encode_i(0b000101, self.rs, self.rt, imm_bits(self.offset))
    }

    open spec fn apply(&self, m: MachineModel) -> MachineModel {
        m
    }

    open spec fn outcome(&self, m: MachineModel) -> BranchResult {
        if m.grf[self.rs as int] != m.grf[self.rt as int] {
            BranchResult::Taken(branch_target(m.pc, self.offset))
        } else {
            BranchResult::NotTaken
        }
    }

    open spec fn text(&self) -> Seq<char> {
        "bne $"@
            + decimal(self.rs as nat)
            + ", $"@
            + decimal(self.rt as nat)
            + ", "@
            + signed_decimal(self.offset as int)
    }

    fn render_text(&self) -> (s: String) {
        let mut s = String::from_str("bne $");
        push_decimal(&mut s, self.rs as u64);
        s.append(", $");
        push_decimal(&mut s, self.rt as u64);
        s.append(", ");
        push_signed_decimal(&mut s, self.offset as i32);
        s
    }

    fn to_machine_code(&self) -> (code: u32) {
        gen_machine_code_i(0b000101, self.rs, self.rt, imm_field(self.offset))
    }

    fn execute_on(&self, machine: &mut MipsMachine) -> (res: BranchResult) {
        if machine.read_grf(self.rs) != machine.read_grf(self.rt) {
            BranchResult::Taken(calc_branch_addr(machine.pc(), self.offset))
        } else {
            BranchResult::NotTaken
        }
    }
}

/// `blez`: branches where a register is zero or negative.
#[derive(Debug, PartialEq, Eq, Clone, Copy, Structural)]
pub struct BlezInstr {
    pub rs: u8,
    pub offset: i16,
}

impl Instruction for BlezInstr {
    open spec fn wf(&self) -> bool {
        self.rs < GRF_SIZE
    }

    open spec fn is_branch(&self) -> bool {
        true
    }

    open spec fn encoding(&self) -> u32 {
        encode_i(0b000110, self.rs, 0, imm_bits(self.offset))
    }

    open spec fn apply(&self, m: MachineModel) -> MachineModel {
        m
    }

    open spec fn outcome(&self, m: MachineModel) -> BranchResult {
        if signed(m.grf[self.rs as int]) <= 0 {
            BranchResult::Taken(branch_target(m.pc, self.offset))
        } else {
            BranchResult::NotTaken
        }
    }

    open spec fn text(&self) -> Seq<char> {
        "blez $"@ + decimal(self.rs as nat) + ", "@ + signed_decimal(self.offset as int)
    }

    fn render_text(&self) -> (s: String) {
        let mut s = String::from_str("blez $");
        push_decimal(&mut s, self.rs as u64);
        s.append(", ");
        push_signed_decimal(&mut s, self.offset as i32);
        s
    }

    fn to_machine_code(&self) -> (code: u32) {
        gen_machine_code_i(0b000110, self.rs, 0, imm_field(self.offset))
    }

    fn execute_on(&self, machine: &mut MipsMachine) -> (res: BranchResult) {
        if to_signed(machine.read_grf(self.rs)) <= 0 {
            BranchResult::Taken(calc_branch_addr(machine.pc(), self.offset))
        } else {
            BranchResult::NotTaken
        }
    }
}

/// `bltz`: branches where a register is negative.
#[derive(Debug, PartialEq, Eq, Clone, Copy, Structural)]
pub struct BltzInstr {
    pub rs: u8,
    pub offset: i16,
}

impl Instruction for BltzInstr {
    open spec fn wf(&self) -> bool {
        self.rs < GRF_SIZE
    }

    open spec fn is_branch(&self) -> bool {
        true
    }

    open spec fn encoding(&self) -> u32 {
        encode_i(0b000001, self.rs, 0, imm_bits(self.offset))
    }

    open spec fn apply(&self, m: MachineModel) -> MachineModel {
        m
    }

    open spec fn outcome(&self, m: MachineModel) -> BranchResult {
        if signed(m.grf[self.rs as int]) < 0 {
            BranchResult::Taken(branch_target(m.pc, self.offset))
        } else {
            BranchResult::NotTaken
        }
    }

    open spec fn text(&self) -> Seq<char> {
        "bltz $"@ + decimal(self.rs as nat) + ", "@ + signed_decimal(self.offset as int)
    }

    fn render_text(&self) -> (s: String) {
        let mut s = String::from_str("bltz $");
        push_decimal(&mut s, self.rs as u64);
        s.append(", ");
        push_signed_decimal(&mut s, self.offset as i32);
        s
    }

    fn to_machine_code(&self) -> (code: u32) {
        gen_machine_code_i(0b000001, self.rs, 0, imm_field(self.offset))
    }

    fn execute_on(&self, machine: &mut MipsMachine) -> (res: BranchResult) {
        if to_signed(machine.read_grf(self.rs)) < 0 {
            BranchResult::Taken(calc_branch_addr(machine.pc(), self.offset))
        } else {
            BranchResult::NotTaken
        }
    }
}

/// `bgez`: branches where a register is zero or positive.
#[derive(Debug, PartialEq, Eq, Clone, Copy, Structural)]
pub struct BgezInstr {
    pub rs: u8,
    pub offset: i16,
}

impl Instruction for BgezInstr {
    open spec fn wf(&self) -> bool {
        self.rs < GRF_SIZE
    }

    open spec fn is_branch(&self) -> bool {
        true
    }

    open spec fn encoding(&self) -> u32 {
        encode_i(0b000001, self.rs, 1, imm_bits(self.offset))
    }

    open spec fn apply(&self, m: MachineModel) -> MachineModel {
        m
    }

    open spec fn outcome(&self, m: MachineModel) -> BranchResult {
        if signed(m.grf[self.rs as int]) >= 0 {
            BranchResult::Taken(branch_target(m.pc, self.offset))
        } else {
            BranchResult::NotTaken
        }
    }

    open spec fn text(&self) -> Seq<char> {
        "bgez $"@ + decimal(self.rs as nat) + ", "@ + signed_decimal(self.offset as int)
    }

    fn render_text(&self) -> (s: String) {
        let mut s = String::from_str("bgez $");
        push_decimal(&mut s, self.rs as u64);
        s.append(", ");
        push_signed_decimal(&mut s, self.offset as i32);
        s
    }

    fn to_machine_code(&self) -> (code: u32) {
        gen_machine_code_i(0b000001, self.rs, 1, imm_field(self.offset))
    }

    fn execute_on(&self, machine: &mut MipsMachine) -> (res: BranchResult) {
        if to_signed(machine.read_grf(self.rs)) >= 0 {
            BranchResult::Taken(calc_branch_addr(machine.pc(), self.offset))
        } else {
            BranchResult::NotTaken
        }
    }
}

/// `bgtz`: branches where a register is positive.
#[derive(Debug, PartialEq, Eq, Clone, Copy, Structural)]
pub struct BgtzInstr {
    pub rs: u8,
    pub offset: i16,
}

impl Instruction for BgtzInstr {
    open spec fn wf(&self) -> bool {
        self.rs < GRF_SIZE
    }

    open spec fn is_branch(&self) -> bool {
        true
    }

    open spec fn encoding(&self) -> u32 {
        encode_i(0b000111, self.rs, 0, imm_bits(self.offset))
    }

    open spec fn apply(&self, m: MachineModel) -> MachineModel {
        m
    }

    open spec fn outcome(&self, m: MachineModel) -> BranchResult {
        if signed(m.grf[self.rs as int]) > 0 {
            BranchResult::Taken(branch_target(m.pc, self.offset))
        } else {
            BranchResult::NotTaken
        }
    }

    open spec fn text(&self) -> Seq<char> {
        "bgtz $"@ + decimal(self.rs as nat) + ", "@ + signed_decimal(self.offset as int)
    }

    fn render_text(&self) -> (s: String) {
        let mut s = String::from_str("bgtz $");
        push_decimal(&mut s, self.rs as u64);
        s.append(", ");
        push_signed_decimal(&mut s, self.offset as i32);
        s
    }

    fn to_machine_code(&self) -> (code: u32) {
        gen_machine_code_i(0b000111, self.rs, 0, imm_field(self.offset))
    }

    fn execute_on(&self, machine: &mut MipsMachine) -> (res: BranchResult) {
        if to_signed(machine.read_grf(self.rs)) > 0 {
            BranchResult::Taken(calc_branch_addr(machine.pc(), self.offset))
        } else {
            BranchResult::NotTaken
        }
    }
}

/// `j`: jumps to a word address within the current 256 MB region.
#[derive(Debug, PartialEq, Eq, Clone, Copy, Structural)]
pub struct JInstr {
    pub addr: u32,
}

impl Instruction for JInstr {
    open spec fn wf(&self) -> bool {
        self.addr < 0x400_0000
    }

    open spec fn is_branch(&self) -> bool {
        true
    }

    open spec fn encoding(&self) -> u32 {
        encode_j(0b000010, self.addr)
    }

    open spec fn apply(&self, m: MachineModel) -> MachineModel {
        m
    }

    open spec fn outcome(&self, m: MachineModel) -> BranchResult {
        BranchResult::Taken(jump_target(m.pc, self.addr))
    }

    open spec fn text(&self) -> Seq<char> {
        "j "@ + decimal(self.addr as nat)
    }

    fn render_text(&self) -> (s: String) {
        let mut s = String::from_str("j ");
        push_decimal(&mut s, self.addr as u64);
        s
    }

    fn to_machine_code(&self) -> (code: u32) {
        gen_machine_code_j(0b000010, self.addr)
    }

    fn execute_on(&self, machine: &mut MipsMachine) -> (res: BranchResult) {
        BranchResult::Taken(calc_jump_addr(machine.pc(), self.addr))
    }
}

/// `jal`: jumps as `j` does and leaves the return address in register 31.
#[derive(Debug, PartialEq, Eq, Clone, Copy, Structural)]
pub struct JalInstr {
    pub addr: u32,
}

impl Instruction for JalInstr {
    open spec fn wf(&self) -> bool {
        self.addr < 0x400_0000
    }

    open spec fn is_branch(&self) -> bool {
        true
    }

    open spec fn encoding(&self) -> u32 {
        encode_j(0b000011, self.addr)
    }

    open spec fn apply(&self, m: MachineModel) -> MachineModel {
        m.write_grf(31, link_address(m.pc))
    }

    open spec fn outcome(&self, m: MachineModel) -> BranchResult {
        BranchResult::Taken(jump_target(m.pc, self.addr))
    }

    open spec fn text(&self) -> Seq<char> {
        "jal "@ + decimal(self.addr as nat)
    }

    fn render_text(&self) -> (s: String) {
        let mut s = String::from_str("jal ");
        push_decimal(&mut s, self.addr as u64);
        s
    }

    fn to_machine_code(&self) -> (code: u32) {
        gen_machine_code_j(0b000011, self.addr)
    }

    fn execute_on(&self, machine: &mut MipsMachine) -> (res: BranchResult) {
        machine.write_grf(31, machine.pc() + 2 * WORD_SIZE as u32);
        BranchResult::Taken(calc_jump_addr(machine.pc(), self.addr))
    }
}

/// `jr`: jumps to the address in a register.
#[derive(Debug, PartialEq, Eq, Clone, Copy, Structural)]
pub struct JrInstr {
    pub rs: u8,
}

impl Instruction for JrInstr {
    open spec fn wf(&self) -> bool {
        self.rs < GRF_SIZE
    }

    open spec fn is_branch(&self) -> bool {
        true
    }

    open spec fn encoding(&self) -> u32 {
        encode_r(0, self.rs, 0, 0, 0, 0b001000)
    }

    open spec fn apply(&self, m: MachineModel) -> MachineModel {
        m
    }

    open spec fn outcome(&self, m: MachineModel) -> BranchResult {
        BranchResult::Taken(m.grf[self.rs as int])
    }

    open spec fn text(&self) -> Seq<char> {
        "jr $"@ + decimal(self.rs as nat)
    }

    fn render_text(&self) -> (s: String) {
        let mut s = String::from_str("jr $");
        push_decimal(&mut s, self.rs as u64);
        s
    }

    fn to_machine_code(&self) -> (code: u32) {
        gen_machine_code_r(0, self.rs, 0, 0, 0, 0b001000)
    }

    fn execute_on(&self, machine: &mut MipsMachine) -> (res: BranchResult) {
        BranchResult::Taken(machine.read_grf(self.rs))
    }
}

/// `jalr`: jumps to the address in `rs` and leaves the return address in `rd`, which must be another register.
#[derive(Debug, PartialEq, Eq, Clone, Copy, Structural)]
pub struct JalrInstr {
    pub rs: u8,
    pub rd: u8,
}

impl Instruction for JalrInstr {
    open spec fn wf(&self) -> bool {
        &&& self.rs < GRF_SIZE
        &&& self.rd < GRF_SIZE
        &&& self.rs != self.rd
    }

    open spec fn is_branch(&self) -> bool {
        true
    }

    open spec fn encoding(&self) -> u32 {
        encode_r(0, self.rs, 0, self.rd, 0, 0b001001)
    }

    open spec fn apply(&self, m: MachineModel) -> MachineModel {
        m.write_grf(self.rd, link_address(m.pc))
    }

    open spec fn outcome(&self, m: MachineModel) -> BranchResult {
        BranchResult::Taken(m.grf[self.rs as int])
    }

    open spec fn text(&self) -> Seq<char> {
        "jalr $"@ + decimal(self.rd as nat) + ", $"@ + decimal(self.rs as nat)
    }

    fn render_text(&self) -> (s: String) {
        let mut s = String::from_str("jalr $");
        push_decimal(&mut s, self.rd as u64);
        s.append(", $");
        push_decimal(&mut s, self.rs as u64);
        s
    }

    fn to_machine_code(&self) -> (code: u32) {
        gen_machine_code_r(0, self.rs, 0, self.rd, 0, 0b001001)
    }

    fn execute_on(&self, machine: &mut MipsMachine) -> (res: BranchResult) {
        let target = machine.read_grf(self.rs);
        machine.write_grf(self.rd, machine.pc() + 2 * WORD_SIZE as u32);
        BranchResult::Taken(target)
    }
}

} // verus!
