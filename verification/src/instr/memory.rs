use vstd::prelude::*;
use vstd::string::*;
use crate::bits::{
    byte_lane,
    extend_byte,
    extend_half,
    get_byte,
    get_half,
    half_lane,
    imm_bits,
    imm_field,
    insert_byte,
    insert_half,
    lane_of,
    put_byte,
    put_half,
    sign_extend_byte,
    sign_extend_half,
    word_base,
};
use crate::encoding::{encode_i, gen_machine_code_i};
use crate::machine::{BranchResult, GRF_SIZE, Instruction, MachineModel, MipsMachine};
use crate::text::{decimal, push_decimal, push_signed_decimal, signed_decimal};

verus! {

/// `lb`: loads a byte and sign-extends it.
#[derive(Debug, PartialEq, Eq, Clone, Copy, Structural)]
pub struct LbInstr {
    pub base: u8,
    pub rt: u8,
    pub offset: i16,
}

impl Instruction for LbInstr {
    open spec fn wf(&self) -> bool {
        &&& self.base < GRF_SIZE
        &&& self.rt < GRF_SIZE
    }

    open spec fn is_branch(&self) -> bool {
        false
    }

    open spec fn encoding(&self) -> u32 {
        encode_i(0b100000, self.base, self.rt, imm_bits(self.offset))
    }

    open spec fn apply(&self, m: MachineModel) -> MachineModel {
        let addr = m.effective_address(self.base, self.offset);
        if m.in_memory(addr) {
            m.write_grf(self.rt, sign_extend_byte(byte_lane(m.read_mem(addr), addr % 4)))
        } else {
            m.fault()
        }
    }

    open spec fn outcome(&self, m: MachineModel) -> BranchResult {
        BranchResult::NoBranch
    }

    open spec fn text(&self) -> Seq<char> {
        "lb $"@
            + decimal(self.rt as nat)
            + ", "@
            + signed_decimal(self.offset as int)
            + "($"@
            + decimal(self.base as nat)
            + ")"@
    }

    fn render_text(&self) -> (s: String) {
        let mut s = String::from_str("lb $");
        push_decimal(&mut s, self.rt as u64);
        s.append(", ");
        push_signed_decimal(&mut s, self.offset as i32);
        s.append("($");
        push_decimal(&mut s, self.base as u64);
        s.append(")");
        s
    }

    fn to_machine_code(&self) -> (code: u32) {
        gen_machine_code_i(0b100000, self.base, self.rt, imm_field(self.offset))
    }

    fn execute_on(&self, machine: &mut MipsMachine) -> (res: BranchResult) {
        let addr = machine.effective_address(self.base, self.offset);
        if machine.in_memory(addr) {
            let data = extend_byte(get_byte(machine.read_mem(addr), lane_of(addr)));
            machine.write_grf(self.rt, data);
        } else {
            machine.fault();
        }
        BranchResult::NoBranch
    }
}

/// `lbu`: loads a byte and zero-extends it.
#[derive(Debug, PartialEq, Eq, Clone, Copy, Structural)]
pub struct LbuInstr {
    pub base: u8,
    pub rt: u8,
    pub offset: i16,
}

impl Instruction for LbuInstr {
    open spec fn wf(&self) -> bool {
        &&& self.base < GRF_SIZE
        &&& self.rt < GRF_SIZE
    }

    open spec fn is_branch(&self) -> bool {
        false
    }

    open spec fn encoding(&self) -> u32 {
        encode_i(0b100100, self.base, self.rt, imm_bits(self.offset))
    }

    open spec fn apply(&self, m: MachineModel) -> MachineModel {
        let addr = m.effective_address(self.base, self.offset);
        if m.in_memory(addr) {
            m.write_grf(self.rt, byte_lane(m.read_mem(addr), addr % 4))
        } else {
            m.fault()
        }
    }

    open spec fn outcome(&self, m: MachineModel) -> BranchResult {
        BranchResult::NoBranch
    }

    open spec fn text(&self) -> Seq<char> {
        "lbu $"@
            + decimal(self.rt as nat)
            + ", "@
            + signed_decimal(self.offset as int)
            + "($"@
            + decimal(self.base as nat)
            + ")"@
    }

    fn render_text(&self) -> (s: String) {
        let mut s = String::from_str("lbu $");
        push_decimal(&mut s, self.rt as u64);
        s.append(", ");
        push_signed_decimal(&mut s, self.offset as i32);
        s.append("($");
        push_decimal(&mut s, self.base as u64);
        s.append(")");
        s
    }

    fn to_machine_code(&self) -> (code: u32) {
        gen_machine_code_i(0b100100, self.base, self.rt, imm_field(self.offset))
    }

    fn execute_on(&self, machine: &mut MipsMachine) -> (res: BranchResult) {
        let addr = machine.effective_address(self.base, self.offset);
        if machine.in_memory(addr) {
            let data = get_byte(machine.read_mem(addr), lane_of(addr));
            machine.write_grf(self.rt, data);
        } else {
            machine.fault();
        }
        BranchResult::NoBranch
    }
}

/// `lh`: loads an aligned half-word and sign-extends it.
#[derive(Debug, PartialEq, Eq, Clone, Copy, Structural)]
pub struct LhInstr {
    pub base: u8,
    pub rt: u8,
    pub offset: i16,
}

impl Instruction for LhInstr {
    open spec fn wf(&self) -> bool {
        &&& self.base < GRF_SIZE
        &&& self.rt < GRF_SIZE
    }

    open spec fn is_branch(&self) -> bool {
        false
    }

    open spec fn encoding(&self) -> u32 {
        encode_i(0b100001, self.base, self.rt, imm_bits(self.offset))
    }

    open spec fn apply(&self, m: MachineModel) -> MachineModel {
        let addr = m.effective_address(self.base, self.offset);
        if addr % 2 == 0 && m.in_memory(addr) {
            m.write_grf(self.rt, sign_extend_half(half_lane(m.read_mem(addr), addr % 4)))
        } else {
            m.fault()
        }
    }

    open spec fn outcome(&self, m: MachineModel) -> BranchResult {
        BranchResult::NoBranch
    }

    open spec fn text(&self) -> Seq<char> {
        "lh $"@
            + decimal(self.rt as nat)
            + ", "@
            + signed_decimal(self.offset as int)
            + "($"@
            + decimal(self.base as nat)
            + ")"@
    }

    fn render_text(&self) -> (s: String) {
        let mut s = String::from_str("lh $");
        push_decimal(&mut s, self.rt as u64);
        s.append(", ");
        push_signed_decimal(&mut s, self.offset as i32);
        s.append("($");
        push_decimal(&mut s, self.base as u64);
        s.append(")");
        s
    }

    fn to_machine_code(&self) -> (code: u32) {
        gen_machine_code_i(0b100001, self.base, self.rt, imm_field(self.offset))
    }

    fn execute_on(&self, machine: &mut MipsMachine) -> (res: BranchResult) {
        let addr = machine.effective_address(self.base, self.offset);
        if addr % 2 == 0 && machine.in_memory(addr) {
            let data = extend_half(get_half(machine.read_mem(addr), lane_of(addr)));
            machine.write_grf(self.rt, data);
        } else {
            machine.fault();
        }
        BranchResult::NoBranch
    }
}

/// `lhu`: loads an aligned half-word and zero-extends it.
#[derive(Debug, PartialEq, Eq, Clone, Copy, Structural)]
pub struct LhuInstr {
    pub base: u8,
    pub rt: u8,
    pub offset: i16,
}

impl Instruction for LhuInstr {
    open spec fn wf(&self) -> bool {
        &&& self.base < GRF_SIZE
        &&& self.rt < GRF_SIZE
    }

    open spec fn is_branch(&self) -> bool {
        false
    }

    open spec fn encoding(&self) -> u32 {
        encode_i(0b100101, self.base, self.rt, imm_bits(self.offset))
    }

    open spec fn apply(&self, m: MachineModel) -> MachineModel {
        let addr = m.effective_address(self.base, self.offset);
        if addr % 2 == 0 && m.in_memory(addr) {
            m.write_grf(self.rt, half_lane(m.read_mem(addr), addr % 4))
        } else {
            m.fault()
        }
    }

    open spec fn outcome(&self, m: MachineModel) -> BranchResult {
        BranchResult::NoBranch
    }

    open spec fn text(&self) -> Seq<char> {
        "lhu $"@
            + decimal(self.rt as nat)
            + ", "@
            + signed_decimal(self.offset as int)
            + "($"@
            + decimal(self.base as nat)
            + ")"@
    }

    fn render_text(&self) -> (s: String) {
        let mut s = String::from_str("lhu $");
        push_decimal(&mut s, self.rt as u64);
        s.append(", ");
        push_signed_decimal(&mut s, self.offset as i32);
        s.append("($");
        push_decimal(&mut s, self.base as u64);
        s.append(")");
        s
    }

    fn to_machine_code(&self) -> (code: u32) {
        gen_machine_code_i(0b100101, self.base, self.rt, imm_field(self.offset))
    }

    fn execute_on(&self, machine: &mut MipsMachine) -> (res: BranchResult) {
        let addr = machine.effective_address(self.base, self.offset);
        if addr % 2 == 0 && machine.in_memory(addr) {
            let data = get_half(machine.read_mem(addr), lane_of(addr));
            machine.write_grf(self.rt, data);
        } else {
            machine.fault();
        }
        BranchResult::NoBranch
    }
}

/// `lw`: loads an aligned word.
#[derive(Debug, PartialEq, Eq, Clone, Copy, Structural)]
pub struct LwInstr {
    pub base: u8,
    pub rt: u8,
    pub offset: i16,
}

impl Instruction for LwInstr {
    open spec fn wf(&self) -> bool {
        &&& self.base < GRF_SIZE
        &&& self.rt < GRF_SIZE
    }

    open spec fn is_branch(&self) -> bool {
        false
    }

    open spec fn encoding(&self) -> u32 {
        encode_i(0b100011, self.base, self.rt, imm_bits(self.offset))
    }

    open spec fn apply(&self, m: MachineModel) -> MachineModel {
        let addr = m.effective_address(self.base, self.offset);
        if addr % 4 == 0 && m.in_memory(addr) {
            m.write_grf(self.rt, m.read_mem(addr))
        } else {
            m.fault()
        }
    }

    open spec fn outcome(&self, m: MachineModel) -> BranchResult {
        BranchResult::NoBranch
    }

    open spec fn text(&self) -> Seq<char> {
        "lw $"@
            + decimal(self.rt as nat)
            + ", "@
            + signed_decimal(self.offset as int)
            + "($"@
            + decimal(self.base as nat)
            + ")"@
    }

    fn render_text(&self) -> (s: String) {
        let mut s = String::from_str("lw $");
        push_decimal(&mut s, self.rt as u64);
        s.append(", ");
        push_signed_decimal(&mut s, self.offset as i32);
        s.append("($");
        push_decimal(&mut s, self.base as u64);
        s.append(")");
        s
    }

    fn to_machine_code(&self) -> (code: u32) {
        gen_machine_code_i(0b100011, self.base, self.rt, imm_field(self.offset))
    }

    fn execute_on(&self, machine: &mut MipsMachine) -> (res: BranchResult) {
        let addr = machine.effective_address(self.base, self.offset);
        if addr % 4 == 0 && machine.in_memory(addr) {
            let data = machine.read_mem(addr);
            machine.write_grf(self.rt, data);
        } else {
            machine.fault();
        }
        BranchResult::NoBranch
    }
}

/// `sb`: stores the low byte of a register.
#[derive(Debug, PartialEq, Eq, Clone, Copy, Structural)]
pub struct SbInstr {
    pub base: u8,
    pub rt: u8,
    pub offset: i16,
}

impl Instruction for SbInstr {
    open spec fn wf(&self) -> bool {
        &&& self.base < GRF_SIZE
        &&& self.rt < GRF_SIZE
    }

    open spec fn is_branch(&self) -> bool {
        false
    }

    open spec fn encoding(&self) -> u32 {
        encode_i(0b101000, self.base, self.rt, imm_bits(self.offset))
    }

    open spec fn apply(&self, m: MachineModel) -> MachineModel {
        let addr = m.effective_address(self.base, self.offset);
        if m.in_memory(addr) {
            m.write_mem(
                (addr - addr % 4) as u32,
                insert_byte(m.read_mem(addr), addr % 4, m.grf[self.rt as int]),
            )
        } else {
            m.fault()
        }
    }

    open spec fn outcome(&self, m: MachineModel) -> BranchResult {
        BranchResult::NoBranch
    }

    open spec fn text(&self) -> Seq<char> {
        "sb $"@
            + decimal(self.rt as nat)
            + ", "@
            + signed_decimal(self.offset as int)
            + "($"@
            + decimal(self.base as nat)
            + ")"@
    }

    fn render_text(&self) -> (s: String) {
        let mut s = String::from_str("sb $");
        push_decimal(&mut s, self.rt as u64);
        s.append(", ");
        push_signed_decimal(&mut s, self.offset as i32);
        s.append("($");
        push_decimal(&mut s, self.base as u64);
        s.append(")");
        s
    }

    fn to_machine_code(&self) -> (code: u32) {
        gen_machine_code_i(0b101000, self.base, self.rt, imm_field(self.offset))
    }

    fn execute_on(&self, machine: &mut MipsMachine) -> (res: BranchResult) {
        let addr = machine.effective_address(self.base, self.offset);
        if machine.in_memory(addr) {
            let word = put_byte(machine.read_mem(addr), lane_of(addr), machine.read_grf(self.rt));
            machine.write_mem(word_base(addr), word);
        } else {
            machine.fault();
        }
        BranchResult::NoBranch
    }
}

/// `sh`: stores the low half of a register at an aligned address.
#[derive(Debug, PartialEq, Eq, Clone, Copy, Structural)]
pub struct ShInstr {
    pub base: u8,
    pub rt: u8,
    pub offset: i16,
}

impl Instruction for ShInstr {
    open spec fn wf(&self) -> bool {
        &&& self.base < GRF_SIZE
        &&& self.rt < GRF_SIZE
    }

    open spec fn is_branch(&self) -> bool {
        false
    }

    open spec fn encoding(&self) -> u32 {
        encode_i(0b101001, self.base, self.rt, imm_bits(self.offset))
    }

    open spec fn apply(&self, m: MachineModel) -> MachineModel {
        let addr = m.effective_address(self.base, self.offset);
        if addr % 2 == 0 && m.in_memory(addr) {
            m.write_mem(
                (addr - addr % 4) as u32,
                insert_half(m.read_mem(addr), addr % 4, m.grf[self.rt as int]),
            )
        } else {
            m.fault()
        }
    }

    open spec fn outcome(&self, m: MachineModel) -> BranchResult {
        BranchResult::NoBranch
    }

    open spec fn text(&self) -> Seq<char> {
        "sh $"@
            + decimal(self.rt as nat)
            + ", "@
            + signed_decimal(self.offset as int)
            + "($"@
            + decimal(self.base as nat)
            + ")"@
    }

    fn render_text(&self) -> (s: String) {
        let mut s = String::from_str("sh $");
        push_decimal(&mut s, self.rt as u64);
        s.append(", ");
        push_signed_decimal(&mut s, self.offset as i32);
        s.append("($");
        push_decimal(&mut s, self.base as u64);
        s.append(")");
        s
    }

    fn to_machine_code(&self) -> (code: u32) {
        gen_machine_code_i(0b101001, self.base, self.rt, imm_field(self.offset))
    }

    fn execute_on(&self, machine: &mut MipsMachine) -> (res: BranchResult) {
        let addr = machine.effective_address(self.base, self.offset);
        if addr % 2 == 0 && machine.in_memory(addr) {
            let word = put_half(machine.read_mem(addr), lane_of(addr), machine.read_grf(self.rt));
            machine.write_mem(word_base(addr), word);
        } else {
            machine.fault();
        }
        BranchResult::NoBranch
    }
}

/// `sw`: stores a register at an aligned address.
#[derive(Debug, PartialEq, Eq, Clone, Copy, Structural)]
pub struct SwInstr {
    pub base: u8,
    pub rt: u8,
    pub offset: i16,
}

impl Instruction for SwInstr {
    open spec fn wf(&self) -> bool {
        &&& self.base < GRF_SIZE
        &&& self.rt < GRF_SIZE
    }

    open spec fn is_branch(&self) -> bool {
        false
    }

    open spec fn encoding(&self) -> u32 {
        encode_i(0b101011, self.base, self.rt, imm_bits(self.offset))
    }

    open spec fn apply(&self, m: MachineModel) -> MachineModel {
        let addr = m.effective_address(self.base, self.offset);
        if addr % 4 == 0 && m.in_memory(addr) {
            m.write_mem(addr, m.grf[self.rt as int])
        } else {
            m.fault()
        }
    }

    open spec fn outcome(&self, m: MachineModel) -> BranchResult {
        BranchResult::NoBranch
    }

    open spec fn text(&self) -> Seq<char> {
        "sw $"@
            + decimal(self.rt as nat)
            + ", "@
            + signed_decimal(self.offset as int)
            + "($"@
            + decimal(self.base as nat)
            + ")"@
    }

    fn render_text(&self) -> (s: String) {
        let mut s = String::from_str("sw $");
        push_decimal(&mut s, self.rt as u64);
        s.append(", ");
        push_signed_decimal(&mut s, self.offset as i32);
        s.append("($");
        push_decimal(&mut s, self.base as u64);
        s.append(")");
        s
    }

    fn to_machine_code(&self) -> (code: u32) {
        gen_machine_code_i(0b101011, self.base, self.rt, imm_field(self.offset))
    }

    fn execute_on(&self, machine: &mut MipsMachine) -> (res: BranchResult) {
        let addr = machine.effective_address(self.base, self.offset);
        if addr % 4 == 0 && machine.in_memory(addr) {
            let data = machine.read_grf(self.rt);
            machine.write_mem(addr, data);
        } else {
            machine.fault();
        }
        BranchResult::NoBranch
    }
}

} // verus!
