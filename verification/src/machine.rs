use vstd::prelude::*;
use crate::bits::{sign_extend_imm, unsigned};
use crate::log::{GrfLogEntry, MemLogEntry};

verus! {

/// Bytes in a machine word.
pub const WORD_SIZE: usize = 4;

/// Number of general-purpose registers.
pub const GRF_SIZE: usize = 32;

/// Address of the first instruction of a program.
pub const TEXT_START_ADDR: u32 = 0x3000;

/// Largest data memory, in words, whose byte addresses all fit in a word.
pub const MAX_MEM_SIZE: usize = 0x3fff_ffff;

/// Where the machine stands with respect to a pending control transfer.
#[derive(Debug, PartialEq, Eq, Clone, Copy, Structural)]
pub enum MachineState {
    /// No transfer is pending.
    Normal,
    /// The next instruction sits in the delay slot of a branch to the address.
    InDelaySlot(u32),
    /// Instructions are being skipped until the address is reached.
    Branching(u32),
}

/// What an instruction asks of the program counter.
#[derive(Debug, PartialEq, Eq, Clone, Copy, Structural)]
pub enum BranchResult {
    /// Not a branch or jump.
    NoBranch,
    /// A conditional branch whose condition failed.
    NotTaken,
    /// A transfer to the address.
    Taken(u32),
}

/// The architectural state of the machine as mathematical values.
pub struct MachineModel {
    pub delayed_branching: bool,
    pub exception_enabled: bool,
    pub pc: u32,
    pub state: MachineState,
    pub grf: Seq<u32>,
    pub lo: u32,
    pub hi: u32,
    pub mem: Seq<u32>,
    pub grf_log: Seq<GrfLogEntry>,
    pub mem_log: Seq<MemLogEntry>,
    pub irq_log: Seq<u32>,
}

impl MachineModel {
    /// Register 0 reads as zero, no logged register write names register 0,
    /// every logged memory write names a word of data memory, and every
    /// byte address of data memory fits in a word.
    pub open spec fn wf(self) -> bool {
        &&& self.grf.len() == GRF_SIZE
        &&& self.grf[0] == 0
        &&& self.mem.len() <= MAX_MEM_SIZE
        &&& forall|i: int|
            0 <= i < self.grf_log.len() ==> 0 < (#[trigger] self.grf_log[i]).addr < GRF_SIZE
        &&& forall|i: int|
            0 <= i < self.mem_log.len() ==> self.in_memory((#[trigger] self.mem_log[i]).addr)
                && self.mem_log[i].addr % 4 == 0
    }

    /// A register write: dropped for register 0, else applied and logged.
    pub open spec fn write_grf(self, addr: u8, data: u32) -> MachineModel {
        if addr == 0 {
            self
        } else {
            MachineModel {
                grf: self.grf.update(addr as int, data),
                grf_log: self.grf_log.push(GrfLogEntry { pc: self.pc, addr, data }),
                ..self
            }
        }
    }

    /// Whether the byte address lies in data memory.
    pub open spec fn in_memory(self, addr: u32) -> bool {
        addr / 4 < self.mem.len()
    }

    /// The memory word that holds the byte address.
    pub open spec fn read_mem(self, addr: u32) -> u32 {
        self.mem[addr as int / 4]
    }

    /// A write of the whole word at a word-aligned byte address, logged.
    pub open spec fn write_mem(self, addr: u32, data: u32) -> MachineModel {
        MachineModel {
            mem: self.mem.update(addr as int / 4, data),
            mem_log: self.mem_log.push(MemLogEntry { pc: self.pc, addr, data }),
            ..self
        }
    }

    /// The byte address that a load or store with this base register and
    /// offset touches.
    pub open spec fn effective_address(self, base: u8, offset: i16) -> u32 {
        unsigned(self.grf[base as int] + offset)
    }

    /// HI and LO replaced; nothing is logged.
    pub open spec fn set_hi_lo(self, hi: u32, lo: u32) -> MachineModel {
        MachineModel { hi, lo, ..self }
    }

    /// An interrupt at the current instruction: its address joins the
    /// interrupt log.
    pub open spec fn interrupt(self) -> MachineModel {
        MachineModel { irq_log: self.irq_log.push(self.pc), ..self }
    }

    /// A memory access that cannot be performed: nothing is written, and
    /// where exceptions are enabled an interrupt is forced.
    pub open spec fn fault(self) -> MachineModel {
        if self.exception_enabled {
            self.interrupt()
        } else {
            self
        }
    }

    /// `next` is the same machine later: as configured, with as much
    /// memory, and with every log entry of `self` where it was.
    pub open spec fn extends_to(self, next: MachineModel) -> bool {
        &&& next.delayed_branching == self.delayed_branching
        &&& next.exception_enabled == self.exception_enabled
        &&& next.mem.len() == self.mem.len()
        &&& self.grf_log.is_prefix_of(next.grf_log)
        &&& self.mem_log.is_prefix_of(next.mem_log)
        &&& self.irq_log.is_prefix_of(next.irq_log)
    }

    /// `next` differs from `self` in registers, HI/LO and memory words at
    /// most, and in log entries added at the end.
    pub open spec fn same_control(self, next: MachineModel) -> bool {
        &&& next.pc == self.pc
        &&& next.state == self.state
        &&& self.extends_to(next)
    }

    /// The machine before its first instruction: all registers and memory
    /// words zero, nothing logged.
    pub open spec fn initial(
        delayed_branching: bool,
        exception_enabled: bool,
        mem_size: nat,
    ) -> MachineModel {
        MachineModel {
            delayed_branching,
            exception_enabled,
            pc: TEXT_START_ADDR,
            state: MachineState::Normal,
            grf: Seq::new(GRF_SIZE as nat, |i: int| 0u32),
            lo: 0,
            hi: 0,
            mem: Seq::new(mem_size, |i: int| 0u32),
            grf_log: Seq::empty(),
            mem_log: Seq::empty(),
            irq_log: Seq::empty(),
        }
    }

    /// A register write keeps the invariant and the control state.
    pub proof fn lemma_write_grf_keeps_wf(self, addr: u8)
        requires
            self.wf(),
            addr < GRF_SIZE,
        ensures
            forall|data: u32| #[trigger]
                self.write_grf(addr, data).wf() && self.same_control(self.write_grf(addr, data)),
    {
    }

    /// A write of a word of data memory keeps the invariant and the control
    /// state.
    pub proof fn lemma_write_mem_keeps_wf(self, addr: u32)
        requires
            self.wf(),
            self.in_memory(addr),
            addr % 4 == 0,
        ensures
            forall|data: u32| #[trigger]
                self.write_mem(addr, data).wf() && self.same_control(self.write_mem(addr, data)),
    {
    }

    /// A fault, an interrupt and a change of HI and LO keep the invariant
    /// and the control state.
    pub proof fn lemma_unlogged_changes_keep_wf(self)
        requires
            self.wf(),
        ensures
            self.fault().wf(),
            self.same_control(self.fault()),
            self.interrupt().wf(),
            self.same_control(self.interrupt()),
            forall|hi: u32, lo: u32| #[trigger]
                self.set_hi_lo(hi, lo).wf() && self.same_control(self.set_hi_lo(hi, lo)),
    {
    }

    /// Whether two machines agree on all but the handling of exceptions: on
    /// the registers, HI and LO, the memory, the program counter, the
    /// pending transfer and the logs of the writes.
    pub open spec fn agrees_with(self, other: MachineModel) -> bool {
        &&& self.delayed_branching == other.delayed_branching
        &&& self.pc == other.pc
        &&& self.state == other.state
        &&& self.grf == other.grf
        &&& self.hi == other.hi
        &&& self.lo == other.lo
        &&& self.mem == other.mem
        &&& self.grf_log == other.grf_log
        &&& self.mem_log == other.mem_log
    }

    /// Machines that agree still do after the same write, the same change
    /// of HI and LO, or a fault.
    pub proof fn lemma_changes_agree(self, other: MachineModel)
        requires
            self.agrees_with(other),
        ensures
            forall|addr: u8, data: u32| #[trigger]
                self.write_grf(addr, data).agrees_with(other.write_grf(addr, data)),
            forall|addr: u32, data: u32| #[trigger]
                self.write_mem(addr, data).agrees_with(other.write_mem(addr, data)),
            forall|hi: u32, lo: u32| #[trigger]
                self.set_hi_lo(hi, lo).agrees_with(other.set_hi_lo(hi, lo)),
            self.fault().agrees_with(other.fault()),
            self.fault().agrees_with(other),
            self.agrees_with(other.fault()),
            forall|addr: u32| self.in_memory(addr) == other.in_memory(addr),
            forall|addr: u32| self.read_mem(addr) == other.read_mem(addr),
            forall|base: u8, offset: i16| #[trigger]
                self.effective_address(base, offset) == other.effective_address(base, offset),
    {
    }

    /// The machine before its first instruction is well formed.
    pub proof fn lemma_initial_is_wf(
        delayed_branching: bool,
        exception_enabled: bool,
        mem_size: nat,
    )
        requires
            mem_size <= MAX_MEM_SIZE,
        ensures
            MachineModel::initial(delayed_branching, exception_enabled, mem_size).wf(),
    {
    }

    /// The pending transfer once the instruction at `pc` has been handed to
    /// the machine, where `outcome` is what the instruction asks of the
    /// program counter.
    ///
    /// In state `Normal` a branch that is not taken opens a delay slot that
    /// ends at the instruction after it; a taken one opens a delay slot
    /// before its target, or without delayed branching starts skipping
    /// where the target lies further on. A delay slot ends with its one
    /// instruction, and skipping once the program counter has reached the
    /// target.
    pub open spec fn transition(self, outcome: BranchResult) -> MachineState {
        let next_pc = (self.pc + WORD_SIZE) as u32;
        match self.state {
            MachineState::Normal => match outcome {
                BranchResult::NoBranch => MachineState::Normal,
                BranchResult::NotTaken => MachineState::InDelaySlot((next_pc + WORD_SIZE) as u32),
                BranchResult::Taken(target) => if self.delayed_branching {
                    MachineState::InDelaySlot(target)
                } else if target > next_pc {
                    MachineState::Branching(target)
                } else {
                    MachineState::Normal
                },
            },
            MachineState::InDelaySlot(target) | MachineState::Branching(target) => if target
                <= next_pc {
                MachineState::Normal
            } else {
                MachineState::Branching(target)
            },
        }
    }

    /// The state that follows once the instruction at `pc` has been handed
    /// to the machine: the instruction has executed unless the machine was
    /// skipping, twice where it stood in the delay slot of a branch to
    /// itself, and the program counter is one word further.
    pub open spec fn step<T: Instruction>(self, instr: &T) -> MachineModel {
        let after = match self.state {
            MachineState::Normal => instr.apply(self),
            MachineState::InDelaySlot(target) => if target == self.pc {
                instr.apply(instr.apply(self))
            } else {
                instr.apply(self)
            },
            MachineState::Branching(_) => self,
        };
        MachineModel {
            pc: (self.pc + WORD_SIZE) as u32,
            state: self.transition(instr.outcome(self)),
            ..after
        }
    }

    /// Where a step leaves the program counter and the pending transfer.
    pub proof fn lemma_step_control<T: Instruction>(self, instr: &T)
        ensures
            self.step(instr).pc == (self.pc + WORD_SIZE) as u32,
            self.step(instr).state == self.transition(instr.outcome(self)),
    {
    }
}

/// The address that a branch at `pc` with this word offset transfers to:
/// the offset counts from the instruction after the branch.
pub open spec fn branch_target(pc: u32, offset: i16) -> u32 {
    unsigned(pc + WORD_SIZE * offset + WORD_SIZE)
}

/// The address that a jump at `pc` to this word address transfers to: the
/// top four bits of `pc` with the word address below them.
pub open spec fn jump_target(pc: u32, addr: u32) -> u32 {
    ((pc / 0x1000_0000) * 0x1000_0000 + addr * WORD_SIZE) as u32
}

/// The address of the instruction after the delay slot of the one at `pc`.
pub open spec fn link_address(pc: u32) -> u32 {
    (pc + 2 * WORD_SIZE) as u32
}

pub fn calc_branch_addr(pc: u32, offset: i16) -> (target: u32)
    ensures
        target == branch_target(pc, offset),
{
    let sum: i64 = pc as i64 + 4 * (offset as i64) + 4;
    if sum < 0 {
        (sum + 0x1_0000_0000) as u32
    } else if sum >= 0x1_0000_0000 {
        (sum - 0x1_0000_0000) as u32
    } else {
        sum as u32
    }
}

pub fn calc_jump_addr(pc: u32, addr: u32) -> (target: u32)
    requires
        addr < 0x400_0000,
    ensures
        target == jump_target(pc, addr),
{
    let low = addr * 4;
    assert((pc & 0xf000_0000) | low == (pc / 0x1000_0000) * 0x1000_0000 + low) by (bit_vector)
        requires
            low < 0x1000_0000,
    ;
    (pc & 0xf000_0000) | low
}

/// One instruction of the catalog: its operands fix its encoding and its
/// effect on the machine.
pub trait Instruction {
    /// The operand fields fit the widths of their encoding.
    spec fn wf(&self) -> bool;

    /// Whether this is a branch or jump.
    spec fn is_branch(&self) -> bool;

    /// The instruction word.
    spec fn encoding(&self) -> u32;

    /// The machine after the instruction's reads and writes.
    spec fn apply(&self, m: MachineModel) -> MachineModel;

    /// What the instruction asks of the program counter.
    spec fn outcome(&self, m: MachineModel) -> BranchResult;

    /// The instruction in assembler syntax.
    spec fn text(&self) -> Seq<char>;

    fn render_text(&self) -> (s: String)
        ensures
            s@ == self.text(),
    ;

    fn to_machine_code(&self) -> (code: u32)
        requires
            self.wf(),
        ensures
            code == self.encoding(),
    ;

    fn execute_on(&self, machine: &mut MipsMachine) -> (res: BranchResult)
        requires
            self.wf(),
            old(machine).wf(),
            old(machine)@.pc + 2 * WORD_SIZE <= u32::MAX,
        ensures
            final(machine).wf(),
            final(machine)@ == self.apply(old(machine)@),
            old(machine)@.same_control(final(machine)@),
            res == self.outcome(old(machine)@),
            !self.is_branch() ==> res == BranchResult::NoBranch,
    ;
}

/// Execution has no hidden input: the same instruction, handed to machines
/// in the same state, leaves them in the same state, with the same log
/// entries, and asks the same of the program counter.
pub proof fn lemma_execution_is_deterministic<T: Instruction>(
    first: MachineModel,
    second: MachineModel,
    instr: &T,
)
    requires
        first == second,
    ensures
        instr.apply(first) == instr.apply(second),
        instr.outcome(first) == instr.outcome(second),
        first.step(instr) == second.step(instr),
        first.step(instr).grf_log == second.step(instr).grf_log,
        first.step(instr).mem_log == second.step(instr).mem_log,
{
}

/// The reference machine: registers, HI/LO, data memory, program counter,
/// the pending control transfer and the logs of everything written.
pub struct MipsMachine {
    delayed_branching: bool,
    exception_enabled: bool,
    pc: u32,
    state: MachineState,
    grf: [u32; GRF_SIZE],
    lo: u32,
    hi: u32,
    mem: Vec<u32>,
    grf_log: Vec<GrfLogEntry>,
    mem_log: Vec<MemLogEntry>,
    irq_log: Vec<u32>,
}

impl View for MipsMachine {
    type V = MachineModel;

    closed spec fn view(&self) -> MachineModel {
        MachineModel {
            delayed_branching: self.delayed_branching,
            exception_enabled: self.exception_enabled,
            pc: self.pc,
            state: self.state,
            grf: self.grf@,
            lo: self.lo,
            hi: self.hi,
            mem: self.mem@,
            grf_log: self.grf_log@,
            mem_log: self.mem_log@,
            irq_log: self.irq_log@,
        }
    }
}

impl MipsMachine {
    /// The invariant of a machine value.
    pub open spec fn wf(&self) -> bool {
        self@.wf()
    }

    /// A machine at the start of the text segment with `mem_size` words of
    /// data memory, all registers and memory zero.
    pub fn new(delayed_branching: bool, exception_enabled: bool, mem_size: usize) -> (machine: Self)
        requires
            mem_size <= MAX_MEM_SIZE,
        ensures
            machine.wf(),
            machine@ == MachineModel::initial(delayed_branching, exception_enabled, mem_size as nat),
    {
        let machine = Self {
            delayed_branching,
            exception_enabled,
            pc: TEXT_START_ADDR,
            state: MachineState::Normal,
            grf: [0u32; GRF_SIZE],
            lo: 0,
            hi: 0,
            mem: vec![0u32; mem_size],
            grf_log: Vec::new(),
            mem_log: Vec::new(),
            irq_log: Vec::new(),
        };
        assert(machine.grf@ =~= Seq::new(GRF_SIZE as nat, |i: int| 0u32));
        assert(machine.mem@ =~= Seq::new(mem_size as nat, |i: int| 0u32));
        machine
    }

    pub fn pc(&self) -> (pc: u32)
        ensures
            pc == self@.pc,
    {
        self.pc
    }

    pub fn state(&self) -> (state: MachineState)
        ensures
            state == self@.state,
    {
        self.state
    }

    pub fn delayed_branching(&self) -> (enabled: bool)
        ensures
            enabled == self@.delayed_branching,
    {
        self.delayed_branching
    }

    pub fn exception_enabled(&self) -> (enabled: bool)
        ensures
            enabled == self@.exception_enabled,
    {
        self.exception_enabled
    }

    pub fn grf(&self) -> (grf: &[u32; GRF_SIZE])
        ensures
            grf@ == self@.grf,
    {
        &self.grf
    }

    pub fn mem(&self) -> (mem: &[u32])
        ensures
            mem@ == self@.mem,
    {
        self.mem.as_slice()
    }

    pub fn grf_log(&self) -> (log: &[GrfLogEntry])
        ensures
            log@ == self@.grf_log,
    {
        self.grf_log.as_slice()
    }

    pub fn mem_log(&self) -> (log: &[MemLogEntry])
        ensures
            log@ == self@.mem_log,
    {
        self.mem_log.as_slice()
    }

    pub fn irq_log(&self) -> (log: &[u32])
        ensures
            log@ == self@.irq_log,
    {
        self.irq_log.as_slice()
    }

    /// Injects an interrupt at the instruction about to execute.
    pub fn interrupt(&mut self)
        ensures
            final(self)@ == old(self)@.interrupt(),
            old(self)@.same_control(final(self)@),
            old(self).wf() ==> final(self).wf(),
    {
        self.irq_log.push(self.pc);
    }

    /// Hands the machine the instruction at the program counter.
    ///
    /// In state `Normal` the instruction executes and a branch opens a
    /// delay slot or starts skipping; in a delay slot it executes, twice
    /// where the pending target is the slot itself; while skipping it is
    /// passed over, and skipping ends once the program counter has reached
    /// the target. The program counter advances by one word in each case.
    /// No branch or jump may stand in a delay slot.
    pub fn execute<T: Instruction>(&mut self, instr: &T)
        requires
            instr.wf(),
            old(self).wf(),
            old(self)@.pc + 2 * WORD_SIZE <= u32::MAX,
            old(self)@.state is InDelaySlot ==> !instr.is_branch(),
        ensures
            final(self).wf(),
            final(self)@ == old(self)@.step(instr),
            old(self)@.extends_to(final(self)@),
            forall|i: int|
                0 <= i < final(self)@.grf_log.len() ==> (#[trigger] final(self)@.grf_log[i]).addr
                    != 0,
    {
        match self.state {
            MachineState::Normal => {
                let res = instr.execute_on(self);
                self.pc = self.pc + WORD_SIZE as u32;
                match res {
                    BranchResult::NoBranch => (),
                    BranchResult::NotTaken => {
                        self.state = MachineState::InDelaySlot(self.pc + WORD_SIZE as u32);
                    },
                    BranchResult::Taken(target) => {
                        if self.delayed_branching {
                            self.state = MachineState::InDelaySlot(target);
                        } else if target > self.pc {
                            self.state = MachineState::Branching(target);
                        }
                    },
                }
            },
            MachineState::InDelaySlot(target) => {
                instr.execute_on(self);
                if target == self.pc {
                    instr.execute_on(self);
                }
                self.pc = self.pc + WORD_SIZE as u32;
                if target <= self.pc {
                    self.state = MachineState::Normal;
                } else {
                    self.state = MachineState::Branching(target);
                }
            },
            MachineState::Branching(target) => {
                self.pc = self.pc + WORD_SIZE as u32;
                if target <= self.pc {
                    self.state = MachineState::Normal;
                }
            },
        }
    }

    pub(crate) fn read_grf(&self, addr: u8) -> (data: u32)
        requires
            addr < GRF_SIZE,
        ensures
            data == self@.grf[addr as int],
    {
        self.grf[addr as usize]
    }

    pub(crate) fn write_grf(&mut self, addr: u8, data: u32)
        requires
            addr < GRF_SIZE,
            old(self).wf(),
        ensures
            final(self).wf(),
            final(self)@ == old(self)@.write_grf(addr, data),
            old(self)@.same_control(final(self)@),
    {
        if addr != 0 {
            self.grf[addr as usize] = data;
            self.grf_log.push(GrfLogEntry::new(self.pc, addr, data));
        }
    }

    pub(crate) fn lo(&self) -> (data: u32)
        ensures
            data == self@.lo,
    {
        self.lo
    }

    pub(crate) fn hi(&self) -> (data: u32)
        ensures
            data == self@.hi,
    {
        self.hi
    }

    pub(crate) fn set_hi_lo(&mut self, hi: u32, lo: u32)
        requires
            old(self).wf(),
        ensures
            final(self).wf(),
            final(self)@ == old(self)@.set_hi_lo(hi, lo),
            old(self)@.same_control(final(self)@),
    {
        self.hi = hi;
        self.lo = lo;
    }

    pub(crate) fn effective_address(&self, base: u8, offset: i16) -> (addr: u32)
        requires
            base < GRF_SIZE,
        ensures
            addr == self@.effective_address(base, offset),
    {
        self.read_grf(base).wrapping_add(sign_extend_imm(offset))
    }

    /// The index of the memory word that holds the byte address.
    pub(crate) fn get_word_addr(addr: u32) -> (index: usize)
        ensures
            index == addr / 4,
    {
        (addr / WORD_SIZE as u32) as usize
    }

    /// Whether the byte address lies in data memory.
    pub(crate) fn in_memory(&self, addr: u32) -> (inside: bool)
        ensures
            inside == self@.in_memory(addr),
    {
        Self::get_word_addr(addr) < self.mem.len()
    }

    pub(crate) fn read_mem(&self, addr: u32) -> (data: u32)
        requires
            self@.in_memory(addr),
        ensures
            data == self@.read_mem(addr),
    {
        self.mem[Self::get_word_addr(addr)]
    }

    pub(crate) fn write_mem(&mut self, addr: u32, data: u32)
        requires
            old(self)@.in_memory(addr),
            addr % 4 == 0,
            old(self).wf(),
        ensures
            final(self).wf(),
            final(self)@ == old(self)@.write_mem(addr, data),
            old(self)@.same_control(final(self)@),
    {
        let index = Self::get_word_addr(addr);
        self.mem[index] = data;
        self.mem_log.push(MemLogEntry::new(self.pc, addr, data));
    }

    /// Gives up a memory access that cannot be performed.
    pub(crate) fn fault(&mut self)
        requires
            old(self).wf(),
        ensures
            final(self).wf(),
            final(self)@ == old(self)@.fault(),
            old(self)@.same_control(final(self)@),
    {
        if self.exception_enabled {
            self.irq_log.push(self.pc);
        }
    }
}

} // verus!
