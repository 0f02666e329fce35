use vstd::prelude::*;
use vstd::string::*;
use crate::bits::{
    from_signed,
    product_bits,
    signed,
    signed_quotient,
    signed_remainder,
    split_product,
    to_signed,
    trunc_div,
    trunc_rem,
    unsigned,
};
use crate::encoding::{encode_r, gen_machine_code_r};
use crate::machine::{BranchResult, GRF_SIZE, Instruction, MachineModel, MipsMachine};
use crate::text::{decimal, push_decimal};

verus! {

/// `mult`: signed multiplication into HI and LO.
#[derive(Debug, PartialEq, Eq, Clone, Copy, Structural)]
pub struct MultInstr {
    pub rs: u8,
    pub rt: u8,
}

impl Instruction for MultInstr {
    open spec fn wf(&self) -> bool {
        &&& self.rs < GRF_SIZE
        &&& self.rt < GRF_SIZE
    }

    open spec fn is_branch(&self) -> bool {
        false
    }

    open spec fn encoding(&self) -> u32 {
        encode_r(0, self.rs, self.rt, 0, 0, 0b011000)
    }

    open spec fn apply(&self, m: MachineModel) -> MachineModel {
        let product = signed(m.grf[self.rs as int]) * signed(m.grf[self.rt as int]);
        let bits = product % 0x1_0000_0000_0000_0000;
        m.set_hi_lo((bits / 0x1_0000_0000) as u32, (bits % 0x1_0000_0000) as u32)
    }

    open spec fn outcome(&self, m: MachineModel) -> BranchResult {
        BranchResult::NoBranch
    }

    open spec fn text(&self) -> Seq<char> {
        "mult $"@ + decimal(self.rs as nat) + ", $"@ + decimal(self.rt as nat)
    }

    fn render_text(&self) -> (s: String) {
        let mut s = String::from_str("mult $");
        push_decimal(&mut s, self.rs as u64);
        s.append(", $");
        push_decimal(&mut s, self.rt as u64);
        s
    }

    fn to_machine_code(&self) -> (code: u32) {
        gen_machine_code_r(0, self.rs, self.rt, 0, 0, 0b011000)
    }

    fn execute_on(&self, machine: &mut MipsMachine) -> (res: BranchResult) {
        let a = to_signed(machine.read_grf(self.rs)) as i64;
        let b = to_signed(machine.read_grf(self.rt)) as i64;
        assert(-0x4000_0000_0000_0000 <= a * b <= 0x4000_0000_0000_0000) by (nonlinear_arith)
            requires
                -0x8000_0000 <= a < 0x8000_0000,
                -0x8000_0000 <= b < 0x8000_0000,
        ;
        let (hi, lo) = split_product(product_bits(a * b));
        machine.set_hi_lo(hi, lo);
        BranchResult::NoBranch
    }
}

/// `multu`: unsigned multiplication into HI and LO.
#[derive(Debug, PartialEq, Eq, Clone, Copy, Structural)]
pub struct MultuInstr {
    pub rs: u8,
    pub rt: u8,
}

impl Instruction for MultuInstr {
    open spec fn wf(&self) -> bool {
        &&& self.rs < GRF_SIZE
        &&& self.rt < GRF_SIZE
    }

    open spec fn is_branch(&self) -> bool {
        false
    }

    open spec fn encoding(&self) -> u32 {
        encode_r(0, self.rs, self.rt, 0, 0, 0b011001)
    }

    open spec fn apply(&self, m: MachineModel) -> MachineModel {
        let product = m.grf[self.rs as int] * m.grf[self.rt as int];
        m.set_hi_lo((product / 0x1_0000_0000) as u32, (product % 0x1_0000_0000) as u32)
    }

    open spec fn outcome(&self, m: MachineModel) -> BranchResult {
        BranchResult::NoBranch
    }

    open spec fn text(&self) -> Seq<char> {
        "multu $"@ + decimal(self.rs as nat) + ", $"@ + decimal(self.rt as nat)
    }

    fn render_text(&self) -> (s: String) {
        let mut s = String::from_str("multu $");
        push_decimal(&mut s, self.rs as u64);
        s.append(", $");
        push_decimal(&mut s, self.rt as u64);
        s
    }

    fn to_machine_code(&self) -> (code: u32) {
        gen_machine_code_r(0, self.rs, self.rt, 0, 0, 0b011001)
    }

    fn execute_on(&self, machine: &mut MipsMachine) -> (res: BranchResult) {
        let a = machine.read_grf(self.rs) as u64;
        let b = machine.read_grf(self.rt) as u64;
        assert(0 <= a * b <= 0xffff_ffff * 0xffff_ffff) by (nonlinear_arith)
            requires
                0 <= a <= 0xffff_ffff,
                0 <= b <= 0xffff_ffff,
        ;
        let (hi, lo) = split_product(a * b);
        machine.set_hi_lo(hi, lo);
        BranchResult::NoBranch
    }
}

/// `div`: signed division: quotient into LO, remainder into HI, both zero for a zero divisor.
#[derive(Debug, PartialEq, Eq, Clone, Copy, Structural)]
pub struct DivInstr {
    pub rs: u8,
    pub rt: u8,
}

impl Instruction for DivInstr {
    open spec fn wf(&self) -> bool {
        &&& self.rs < GRF_SIZE
        &&& self.rt < GRF_SIZE
    }

    open spec fn is_branch(&self) -> bool {
        false
    }

    open spec fn encoding(&self) -> u32 {
        encode_r(0, self.rs, self.rt, 0, 0, 0b011010)
    }

    open spec fn apply(&self, m: MachineModel) -> MachineModel {
        let a = signed(m.grf[self.rs as int]);
        let b = signed(m.grf[self.rt as int]);
        if b == 0 {
            m.set_hi_lo(0, 0)
        } else {
            m.set_hi_lo(unsigned(trunc_rem(a, b)), unsigned(trunc_div(a, b)))
        }
    }

    open spec fn outcome(&self, m: MachineModel) -> BranchResult {
        BranchResult::NoBranch
    }

    open spec fn text(&self) -> Seq<char> {
        "div $"@ + decimal(self.rs as nat) + ", $"@ + decimal(self.rt as nat)
    }

    fn render_text(&self) -> (s: String) {
        let mut s = String::from_str("div $");
        push_decimal(&mut s, self.rs as u64);
        s.append(", $");
        push_decimal(&mut s, self.rt as u64);
        s
    }

    fn to_machine_code(&self) -> (code: u32) {
        gen_machine_code_r(0, self.rs, self.rt, 0, 0, 0b011010)
    }

    fn execute_on(&self, machine: &mut MipsMachine) -> (res: BranchResult) {
        let a = to_signed(machine.read_grf(self.rs));
        let b = to_signed(machine.read_grf(self.rt));
        if b == 0 {
            machine.set_hi_lo(0, 0);
        } else if a == i32::MIN && b == -1 {
            machine.set_hi_lo(0, 0x8000_0000);
        } else {
            let quotient = signed_quotient(a, b);
            let remainder = signed_remainder(a, b);
            machine.set_hi_lo(from_signed(remainder), from_signed(quotient));
        }
        BranchResult::NoBranch
    }
}

/// `divu`: unsigned division: quotient into LO, remainder into HI, both zero for a zero divisor.
#[derive(Debug, PartialEq, Eq, Clone, Copy, Structural)]
pub struct DivuInstr {
    pub rs: u8,
    pub rt: u8,
}

impl Instruction for DivuInstr {
    open spec fn wf(&self) -> bool {
        &&& self.rs < GRF_SIZE
        &&& self.rt < GRF_SIZE
    }

    open spec fn is_branch(&self) -> bool {
        false
    }

    open spec fn encoding(&self) -> u32 {
        encode_r(0, self.rs, self.rt, 0, 0, 0b011011)
    }

    open spec fn apply(&self, m: MachineModel) -> MachineModel {
        let a = m.grf[self.rs as int];
        let b = m.grf[self.rt as int];
        if b == 0 {
            m.set_hi_lo(0, 0)
        } else {
            m.set_hi_lo(a % b, a / b)
        }
    }

    open spec fn outcome(&self, m: MachineModel) -> BranchResult {
        BranchResult::NoBranch
    }

    open spec fn text(&self) -> Seq<char> {
        "divu $"@ + decimal(self.rs as nat) + ", $"@ + decimal(self.rt as nat)
    }

    fn render_text(&self) -> (s: String) {
        let mut s = String::from_str("divu $");
        push_decimal(&mut s, self.rs as u64);
        s.append(", $");
        push_decimal(&mut s, self.rt as u64);
        s
    }

    fn to_machine_code(&self) -> (code: u32) {
        gen_machine_code_r(0, self.rs, self.rt, 0, 0, 0b011011)
    }

    fn execute_on(&self, machine: &mut MipsMachine) -> (res: BranchResult) {
        let a = machine.read_grf(self.rs);
        let b = machine.read_grf(self.rt);
        if b == 0 {
            machine.set_hi_lo(0, 0);
        } else {
            machine.set_hi_lo(a % b, a / b);
        }
        BranchResult::NoBranch
    }
}

/// `mflo`: copies LO into a register.
#[derive(Debug, PartialEq, Eq, Clone, Copy, Structural)]
pub struct MfloInstr {
    pub rd: u8,
}

impl Instruction for MfloInstr {
    open spec fn wf(&self) -> bool {
        self.rd < GRF_SIZE
    }

    open spec fn is_branch(&self) -> bool {
        false
    }

    open spec fn encoding(&self) -> u32 {
        encode_r(0, 0, 0, self.rd, 0, 0b010010)
    }

    open spec fn apply(&self, m: MachineModel) -> MachineModel {
        m.write_grf(self.rd, m.lo)
    }

    open spec fn outcome(&self, m: MachineModel) -> BranchResult {
        BranchResult::NoBranch
    }

    open spec fn text(&self) -> Seq<char> {
        "mflo $"@ + decimal(self.rd as nat)
    }

    fn render_text(&self) -> (s: String) {
        let mut s = String::from_str("mflo $");
        push_decimal(&mut s, self.rd as u64);
        s
    }

    fn to_machine_code(&self) -> (code: u32) {
        gen_machine_code_r(0, 0, 0, self.rd, 0, 0b010010)
    }

    fn execute_on(&self, machine: &mut MipsMachine) -> (res: BranchResult) {
        machine.write_grf(self.rd, machine.lo());
        BranchResult::NoBranch
    }
}

/// `mfhi`: copies HI into a register.
#[derive(Debug, PartialEq, Eq, Clone, Copy, Structural)]
pub struct MfhiInstr {
    pub rd: u8,
}

impl Instruction for MfhiInstr {
    open spec fn wf(&self) -> bool {
        self.rd < GRF_SIZE
    }

    open spec fn is_branch(&self) -> bool {
        false
    }

    open spec fn encoding(&self) -> u32 {
        encode_r(0, 0, 0, self.rd, 0, 0b010000)
    }

    open spec fn apply(&self, m: MachineModel) -> MachineModel {
        m.write_grf(self.rd, m.hi)
    }

    open spec fn outcome(&self, m: MachineModel) -> BranchResult {
        BranchResult::NoBranch
    }

    open spec fn text(&self) -> Seq<char> {
        "mfhi $"@ + decimal(self.rd as nat)
    }

    fn render_text(&self) -> (s: String) {
        let mut s = String::from_str("mfhi $");
        push_decimal(&mut s, self.rd as u64);
        s
    }

    fn to_machine_code(&self) -> (code: u32) {
        gen_machine_code_r(0, 0, 0, self.rd, 0, 0b010000)
    }

    fn execute_on(&self, machine: &mut MipsMachine) -> (res: BranchResult) {
        machine.write_grf(self.rd, machine.hi());
        BranchResult::NoBranch
    }
}

/// `mtlo`: copies a register into LO.
#[derive(Debug, PartialEq, Eq, Clone, Copy, Structural)]
pub struct MtloInstr {
    pub rs: u8,
}

impl Instruction for MtloInstr {
    open spec fn wf(&self) -> bool {
        self.rs < GRF_SIZE
    }

    open spec fn is_branch(&self) -> bool {
        false
    }

    open spec fn encoding(&self) -> u32 {
        encode_r(0, self.rs, 0, 0, 0, 0b010011)
    }

    open spec fn apply(&self, m: MachineModel) -> MachineModel {
        m.set_hi_lo(m.hi, m.grf[self.rs as int])
    }

    open spec fn outcome(&self, m: MachineModel) -> BranchResult {
        BranchResult::NoBranch
    }

    open spec fn text(&self) -> Seq<char> {
        "mtlo $"@ + decimal(self.rs as nat)
    }

    fn render_text(&self) -> (s: String) {
        let mut s = String::from_str("mtlo $");
        push_decimal(&mut s, self.rs as u64);
        s
    }

    fn to_machine_code(&self) -> (code: u32) {
        gen_machine_code_r(0, self.rs, 0, 0, 0, 0b010011)
    }

    fn execute_on(&self, machine: &mut MipsMachine) -> (res: BranchResult) {
        machine.set_hi_lo(machine.hi(), machine.read_grf(self.rs));
        BranchResult::NoBranch
    }
}

/// `mthi`: copies a register into HI.
#[derive(Debug, PartialEq, Eq, Clone, Copy, Structural)]
pub struct MthiInstr {
    pub rs: u8,
}

impl Instruction for MthiInstr {
    open spec fn wf(&self) -> bool {
        self.rs < GRF_SIZE
    }

    open spec fn is_branch(&self) -> bool {
        false
    }

    open spec fn encoding(&self) -> u32 {
        encode_r(0, self.rs, 0, 0, 0, 0b010001)
    }

    open spec fn apply(&self, m: MachineModel) -> MachineModel {
        m.set_hi_lo(m.grf[self.rs as int], m.lo)
    }

    open spec fn outcome(&self, m: MachineModel) -> BranchResult {
        BranchResult::NoBranch
    }

    open spec fn text(&self) -> Seq<char> {
        "mthi $"@ + decimal(self.rs as nat)
    }

    fn render_text(&self) -> (s: String) {
        let mut s = String::from_str("mthi $");
        push_decimal(&mut s, self.rs as u64);
        s
    }

    fn to_machine_code(&self) -> (code: u32) {
        gen_machine_code_r(0, self.rs, 0, 0, 0, 0b010001)
    }

    fn execute_on(&self, machine: &mut MipsMachine) -> (res: BranchResult) {
        machine.set_hi_lo(machine.read_grf(self.rs), machine.lo());
        BranchResult::NoBranch
    }
}

} // verus!
