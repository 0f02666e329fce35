use rand::rngs::StdRng;
use rand::Rng;
use vstd::pervasive::unreached;
use vstd::prelude::*;
use vstd::slice::slice_to_vec;
use crate::catalog::{lemma_interrupt_changes_no_operand, lemma_outcome_names_destination, Instr};
use crate::instr::arith::{
    AddInstr,
    AddiInstr,
    AddiuInstr,
    AdduInstr,
    LuiInstr,
    NopInstr,
    SltInstr,
    SltiInstr,
    SltiuInstr,
    SltuInstr,
    SubInstr,
    SubuInstr,
};
use crate::instr::branch::{
    BeqInstr,
    BgezInstr,
    BgtzInstr,
    BlezInstr,
    BltzInstr,
    BneInstr,
    JInstr,
    JalInstr,
    JalrInstr,
    JrInstr,
};
use crate::instr::logic::{
    AndInstr,
    AndiInstr,
    NorInstr,
    OrInstr,
    OriInstr,
    XorInstr,
    XoriInstr,
};
use crate::instr::memory::{
    LbInstr,
    LbuInstr,
    LhInstr,
    LhuInstr,
    LwInstr,
    SbInstr,
    ShInstr,
    SwInstr,
};
use crate::instr::muldiv::{
    DivInstr,
    DivuInstr,
    MfhiInstr,
    MfloInstr,
    MthiInstr,
    MtloInstr,
    MultInstr,
    MultuInstr,
};
use crate::instr::shift::{
    SllInstr,
    SllvInstr,
    SraInstr,
    SravInstr,
    SrlInstr,
    SrlvInstr,
};
use crate::machine::{
    branch_target,
    jump_target,
    BranchResult,
    Instruction,
    MachineModel,
    MachineState,
    MipsMachine,
    GRF_SIZE,
    TEXT_START_ADDR,
    WORD_SIZE,
};

verus! {

/// The opcodes of the catalog, without operands.
#[derive(Debug, PartialEq, Eq, Clone, Copy, Structural)]
pub enum InstructionType {
    Nop,
    Add,
    Addi,
    Addu,
    Addiu,
    Sub,
    Subu,
    Sll,
    Sllv,
    Srl,
    Srlv,
    Sra,
    Srav,
    And,
    Andi,
    Or,
    Ori,
    Xor,
    Xori,
    Nor,
    Lui,
    Lb,
    Lbu,
    Lh,
    Lhu,
    Lw,
    Sb,
    Sh,
    Sw,
    Slt,
    Slti,
    Sltu,
    Sltiu,
    Beq,
    Bne,
    Blez,
    Bltz,
    Bgez,
    Bgtz,
    J,
    Jal,
    Jr,
    Jalr,
    Mult,
    Multu,
    Div,
    Divu,
    Mflo,
    Mfhi,
    Mtlo,
    Mthi,
}

impl InstructionType {
    /// Whether the opcode is a branch or jump.
    pub open spec fn spec_is_branch(&self) -> bool {
        matches!(
            *self,
            InstructionType::Beq | InstructionType::Bne | InstructionType::Blez
                | InstructionType::Bltz | InstructionType::Bgez | InstructionType::Bgtz
                | InstructionType::J | InstructionType::Jal | InstructionType::Jr
                | InstructionType::Jalr
        )
    }

    #[verifier::when_used_as_spec(spec_is_branch)]
    pub fn is_branch(&self) -> (branch: bool)
        ensures
            branch == self.spec_is_branch(),
    {
        matches!(
            self,
            InstructionType::Beq | InstructionType::Bne | InstructionType::Blez
                | InstructionType::Bltz | InstructionType::Bgez | InstructionType::Bgtz
                | InstructionType::J | InstructionType::Jal | InstructionType::Jr
                | InstructionType::Jalr
        )
    }

    /// Whether the opcode is a load or store.
    pub open spec fn spec_is_memory(&self) -> bool {
        matches!(
            *self,
            InstructionType::Lb | InstructionType::Lbu | InstructionType::Lh | InstructionType::Lhu
                | InstructionType::Lw | InstructionType::Sb | InstructionType::Sh
                | InstructionType::Sw
        )
    }

    #[verifier::when_used_as_spec(spec_is_memory)]
    pub fn is_memory(&self) -> (memory: bool)
        ensures
            memory == self.spec_is_memory(),
    {
        matches!(
            self,
            InstructionType::Lb | InstructionType::Lbu | InstructionType::Lh | InstructionType::Lhu
                | InstructionType::Lw | InstructionType::Sb | InstructionType::Sh
                | InstructionType::Sw
        )
    }

    /// Whether the opcode jumps to the address in a register.
    pub open spec fn spec_is_jump_register(&self) -> bool {
        matches!(*self, InstructionType::Jr | InstructionType::Jalr)
    }

    #[verifier::when_used_as_spec(spec_is_jump_register)]
    pub fn is_jump_register(&self) -> (jump: bool)
        ensures
            jump == self.spec_is_jump_register(),
    {
        matches!(self, InstructionType::Jr | InstructionType::Jalr)
    }
}

/// Programs end below this address, so that `j` and `jal` reach all of them.
pub const TEXT_END_LIMIT: u32 = 0x1000_0000;

/// The largest number of instructions of a program.
pub const MAX_INSTR_COUNT: u32 = 0x3ff_f400;

/// `rand::rngs::StdRng`, the random number generator that the instruction
/// generator draws from. It can be seeded, so that a program can be
/// generated again.
#[verifier::external_type_specification]
#[verifier::external_body]
pub struct ExStdRng(StdRng);

/// `Rng::gen_range` on the range from 0 up to and without `bound`: the draw
/// lies in that range. The range must not be empty.
#[verifier::external_body]
fn draw_below(rng: &mut StdRng, bound: u32) -> (value: u32)
    requires
        bound > 0,
    ensures
        value < bound,
{
    rng.gen_range(0..bound)
}

/// `Rng::gen_ratio`: true with probability `numerator / denominator`. The
/// denominator must not be zero nor less than the numerator.
#[verifier::external_body]
fn draw_chance(rng: &mut StdRng, numerator: u32, denominator: u32) -> (hit: bool)
    requires
        0 < denominator,
        numerator <= denominator,
{
    rng.gen_ratio(numerator, denominator)
}

/// Whether a type may be chosen where branches, or jumps through a
/// register, are ruled out.
pub open spec fn is_permitted(kind: InstructionType, no_branch: bool, no_jump_register: bool) -> bool {
    !(no_branch && kind.is_branch()) && !(no_jump_register && kind.is_jump_register())
}

/// The instruction types of `set` that may be chosen, in their order.
pub open spec fn permitted(
    set: Seq<InstructionType>,
    no_branch: bool,
    no_jump_register: bool,
) -> Seq<InstructionType> {
    set.filter(|kind: InstructionType| is_permitted(kind, no_branch, no_jump_register))
}

/// Keeps the instruction types that may be chosen where branches, or jumps
/// through a register, are not legal.
pub fn permitted_types(set: &[InstructionType], no_branch: bool, no_jump_register: bool) -> (kept:
    Vec<InstructionType>)
    ensures
        kept@ == permitted(set@, no_branch, no_jump_register),
{
    let ghost pred = |kind: InstructionType| is_permitted(kind, no_branch, no_jump_register);
    let mut kept: Vec<InstructionType> = Vec::new();
    let mut i: usize = 0;
    proof {
        reveal(Seq::filter);
        assert(set@.take(0) =~= Seq::empty());
    }
    while i < set.len()
        invariant
            i <= set.len(),
            kept@ == set@.take(i as int).filter(pred),
            pred == (|kind: InstructionType| is_permitted(kind, no_branch, no_jump_register)),
        decreases set.len() - i,
    {
        let kind = set[i];
        proof {
            reveal(Seq::filter);
            assert(set@.take(i + 1).drop_last() =~= set@.take(i as int));
        }
        if !(no_branch && kind.is_branch()) && !(no_jump_register && kind.is_jump_register()) {
            kept.push(kind);
        }
        i = i + 1;
    }
    assert(set@.take(set.len() as int) =~= set@);
    kept
}

/// The largest multiple of `width` (1, 2 or 4) that is not above `addr`.
pub fn align_down(addr: u32, width: u32) -> (down: u32)
    requires
        width == 1 || width == 2 || width == 4,
    ensures
        down == aligned(addr, width),
        down % width == 0,
        down / 4 == addr / 4,
{
    addr - addr % width
}

/// The branch offset that a draw of the distance distribution stands for.
///
/// The offset is the magnitude of the draw, and one more where exceptions
/// are disabled, so that the target is no nearer than the instruction after
/// the delay slot. It is cut down to what a 16-bit offset holds, and to the
/// offset of the last instruction of the program.
pub open spec fn clamped_offset(pc: u32, jump_limit: u32, exception_enabled: bool, draw: i16) -> int {
    let magnitude = if draw < 0 {
        -draw
    } else {
        draw as int
    };
    let distance = if exception_enabled {
        magnitude
    } else {
        magnitude + 1
    };
    let room = (jump_limit - pc) / 4 - 2;
    if distance <= room && distance <= i16::MAX {
        distance
    } else if room <= i16::MAX {
        room
    } else {
        i16::MAX as int
    }
}

/// A branch with a clamped offset goes to an instruction after itself and
/// inside the program, and `j` with the word address of that instruction
/// goes there too.
pub proof fn lemma_clamped_offset_lands_inside(
    pc: u32,
    jump_limit: u32,
    exception_enabled: bool,
    draw: i16,
)
    requires
        pc + 2 * WORD_SIZE <= jump_limit <= TEXT_END_LIMIT,
        pc % 4 == 0,
        jump_limit % 4 == 0,
    ensures
        0 <= clamped_offset(pc, jump_limit, exception_enabled, draw) <= i16::MAX,
        lands_inside(
            pc,
            jump_limit,
            branch_target(pc, clamped_offset(pc, jump_limit, exception_enabled, draw) as i16),
        ),
        pc / 4 + clamped_offset(pc, jump_limit, exception_enabled, draw) + 1 < 0x400_0000,
        jump_target(
            pc,
            (pc / 4 + clamped_offset(pc, jump_limit, exception_enabled, draw) + 1) as u32,
        ) == branch_target(pc, clamped_offset(pc, jump_limit, exception_enabled, draw) as i16),
{
    let offset = clamped_offset(pc, jump_limit, exception_enabled, draw);
    let target = pc + 4 * offset + 4;
    assert(0 <= offset <= (jump_limit - pc) / 4 - 2);
    assert(pc < target < jump_limit);
    assert(branch_target(pc, offset as i16) == target);
    assert(pc / 0x1000_0000 == 0);
    assert((pc / 4 + offset + 1) * 4 == target);
}

/// Whether `target` is the address of an instruction of the program after
/// the one at `pc`.
pub open spec fn lands_inside(pc: u32, jump_limit: u32, target: u32) -> bool {
    pc < target < jump_limit && target % 4 == 0
}

pub fn gen_branch_offset(pc: u32, jump_limit: u32, exception_enabled: bool, draw: i16) -> (offset: i16)
    requires
        pc + 2 * WORD_SIZE <= jump_limit,
    ensures
        offset == clamped_offset(pc, jump_limit, exception_enabled, draw),
        0 <= offset,
        pc + WORD_SIZE * (offset + 2) <= jump_limit,
{
    let magnitude: u32 = if draw < 0 {
        (-(draw as i32)) as u32
    } else {
        draw as u32
    };
    let distance: u32 = if exception_enabled {
        magnitude
    } else {
        magnitude + 1
    };
    let room: u32 = (jump_limit - pc) / 4 - 2;
    if distance <= room && distance <= 0x7fff {
        distance as i16
    } else if room <= 0x7fff {
        room as i16
    } else {
        0x7fff
    }
}

/// The register that an instruction reads.
///
/// With `reuse` it is the register written last, for the sake of a data
/// hazard, unless that one is excluded; otherwise it is the fresh draw,
/// moved past the excluded register.
pub open spec fn read_register(
    last_written: Option<u8>,
    exclude: Option<u8>,
    reuse: bool,
    fresh: u8,
) -> u8 {
    if reuse && last_written is Some && last_written != exclude {
        last_written->0
    } else if exclude is Some && fresh >= exclude->0 {
        (fresh + 1) as u8
    } else {
        fresh
    }
}

pub fn choose_read_register(
    last_written: Option<u8>,
    exclude: Option<u8>,
    reuse: bool,
    fresh: u8,
) -> (register: u8)
    requires
        last_written is Some ==> last_written->0 < GRF_SIZE,
        exclude is Some ==> exclude->0 < GRF_SIZE && fresh < GRF_SIZE - 1,
        exclude is None ==> fresh < GRF_SIZE,
    ensures
        register == read_register(last_written, exclude, reuse, fresh),
        register < GRF_SIZE,
        exclude != Some(register),
{
    if let Some(last) = last_written {
        let excluded = match exclude {
            Some(other) => other == last,
            None => false,
        };
        if reuse && !excluded {
            return last;
        }
    }
    match exclude {
        Some(other) => if fresh >= other {
            fresh + 1
        } else {
            fresh
        },
        None => fresh,
    }
}

/// The offset that takes a base register holding `value` to `addr`, where a
/// 16-bit signed offset can.
pub open spec fn offset_to(value: u32, addr: u32) -> Option<i16> {
    if i16::MIN <= addr - value <= i16::MAX {
        Some((addr - value) as i16)
    } else {
        None
    }
}

pub fn exact_offset(value: u32, addr: u32) -> (offset: Option<i16>)
    ensures
        offset == offset_to(value, addr),
{
    let distance: i64 = addr as i64 - value as i64;
    if -0x8000 <= distance && distance <= 0x7fff {
        Some(distance as i16)
    } else {
        None
    }
}

/// Whether a jump to the address in register `index` is legal for the
/// instruction at `pc`: the address lies after `pc` and before the end of
/// the program, and on a word boundary unless that is waived.
pub open spec fn is_jump_register(
    grf: Seq<u32>,
    pc: u32,
    jump_limit: u32,
    allow_unaligned: bool,
    index: int,
) -> bool {
    &&& 0 <= index < grf.len()
    &&& pc < grf[index] < jump_limit
    &&& (allow_unaligned || grf[index] % 4 == 0)
}

/// The registers that `jr` and `jalr` may jump through, in rising order.
pub fn jump_register_candidates(
    grf: &[u32; GRF_SIZE],
    pc: u32,
    jump_limit: u32,
    allow_unaligned: bool,
) -> (candidates: Vec<u8>)
    ensures
        forall|k: int|
            0 <= k < candidates.len() ==> is_jump_register(
                grf@,
                pc,
                jump_limit,
                allow_unaligned,
                (#[trigger] candidates[k]) as int,
            ),
        forall|index: int|
            is_jump_register(grf@, pc, jump_limit, allow_unaligned, index)
                ==> candidates@.contains(index as u8),
        forall|j: int, k: int|
            0 <= j < k < candidates.len() ==> candidates[j] < candidates[k],
        candidates.len() <= GRF_SIZE,
{
    let mut candidates: Vec<u8> = Vec::new();
    let mut index: u8 = 0;
    while index < 32
        invariant
            index <= 32,
            candidates.len() <= index,
            forall|k: int|
                0 <= k < candidates.len() ==> is_jump_register(
                    grf@,
                    pc,
                    jump_limit,
                    allow_unaligned,
                    (#[trigger] candidates[k]) as int,
                ) && candidates[k] < index,
            forall|i: int|
                0 <= i < index && is_jump_register(grf@, pc, jump_limit, allow_unaligned, i)
                    ==> candidates@.contains(i as u8),
            forall|j: int, k: int|
                0 <= j < k < candidates.len() ==> candidates[j] < candidates[k],
        decreases 32 - index,
    {
        let value = grf[index as usize];
        if pc < value && value < jump_limit && (allow_unaligned || value % 4 == 0) {
            let ghost before = candidates@;
            candidates.push(index);
            assert(candidates@[before.len() as int] == index);
            assert forall|i: int|
                0 <= i < index + 1 && is_jump_register(
                    grf@,
                    pc,
                    jump_limit,
                    allow_unaligned,
                    i,
                ) implies candidates@.contains(i as u8) by {
                if i < index {
                    let k = choose|k: int| 0 <= k < before.len() && before[k] == i as u8;
                    assert(candidates@[k] == i as u8);
                }
            }
        }
        index = index + 1;
    }
    candidates
}

/// The word address that `j` and `jal` at `pc` name for a draw of the
/// distance distribution: that of the instruction which a branch with the
/// clamped offset would reach.
pub fn gen_jump_addr(pc: u32, jump_limit: u32, exception_enabled: bool, draw: i16) -> (addr: u32)
    requires
        pc + 2 * WORD_SIZE <= jump_limit,
    ensures
        addr == pc / 4 + clamped_offset(pc, jump_limit, exception_enabled, draw) + 1,
{
    pc / 4 + gen_branch_offset(pc, jump_limit, exception_enabled, draw) as u32 + 1
}

/// What holds of every instruction that the generator yields for a machine
/// in state `m`, in a program that ends before `jump_limit`.
///
/// No branch or jump stands in a delay slot nor in the last place of the
/// program; a branch or jump names an address after itself and inside the
/// program; and unless exceptions are enabled a jump through a register
/// goes to a word boundary, and a load or store touches data memory at an
/// address aligned to its width.
pub open spec fn legal_step(m: MachineModel, jump_limit: u32, instr: Instr) -> bool {
    &&& instr.wf()
    &&& (m.state is InDelaySlot || m.pc + WORD_SIZE == jump_limit) ==> !instr.is_branch()
    &&& instr.destination(m) matches Some(target) ==> m.pc < target < jump_limit && (
    m.exception_enabled || target % 4 == 0)
    &&& instr.access(m) matches Some((addr, width)) ==> m.exception_enabled || (m.in_memory(addr)
        && addr % width == 0)
}

/// A pending transfer goes to an address of the program or to its end, and
/// the program has not ended while one is pending.
pub open spec fn pending_in_bounds(m: MachineModel, jump_limit: u32) -> bool {
    match m.state {
        MachineState::Normal => true,
        MachineState::InDelaySlot(target) => target <= jump_limit && m.pc < jump_limit,
        MachineState::Branching(target) => m.pc < target <= jump_limit,
    }
}

/// What one step of generation does: the instruction is of a type of the
/// set, stands inside the program and is legal there, and the machine has
/// executed it, after an interrupt where exceptions are enabled and one was
/// injected.
pub open spec fn yields(
    before: MachineModel,
    jump_limit: u32,
    set: Seq<InstructionType>,
    instr: Instr,
    after: MachineModel,
) -> bool {
    &&& set.contains(instr.kind())
    &&& TEXT_START_ADDR <= before.pc < jump_limit
    &&& legal_step(before, jump_limit, instr)
    &&& (after == before.step(&instr) || (before.exception_enabled && after
        == before.interrupt().step(&instr)))
}

fn gen_register(rng: &mut StdRng) -> (register: u8)
    ensures
        register < GRF_SIZE,
{
    draw_below(rng, 32) as u8
}

fn gen_immediate(rng: &mut StdRng) -> (imm: u16) {
    draw_below(rng, 0x1_0000) as u16
}

/// A register to read: half of the time the one written last.
fn gen_grf_read_addr(rng: &mut StdRng, last_written: Option<u8>, exclude: Option<u8>) -> (register:
    u8)
    requires
        last_written is Some ==> last_written->0 < GRF_SIZE,
        exclude is Some ==> exclude->0 < GRF_SIZE,
    ensures
        register < GRF_SIZE,
        exclude != Some(register),
{
    let reuse = draw_chance(rng, 1, 2);
    let fresh = match exclude {
        Some(_) => draw_below(rng, 31) as u8,
        None => draw_below(rng, 32) as u8,
    };
    choose_read_register(last_written, exclude, reuse, fresh)
}

fn select_type(rng: &mut StdRng, set: &Vec<InstructionType>) -> (kind: InstructionType)
    requires
        0 < set.len() <= u32::MAX,
    ensures
        set@.contains(kind),
{
    set[draw_below(rng, set.len() as u32) as usize]
}

fn select_register(rng: &mut StdRng, candidates: &Vec<u8>) -> (register: u8)
    requires
        0 < candidates.len() <= u32::MAX,
    ensures
        candidates@.contains(register),
{
    candidates[draw_below(rng, candidates.len() as u32) as usize]
}

/// The register written last, if any was.
pub open spec fn last_register_written(m: MachineModel) -> Option<u8> {
    if m.grf_log.len() > 0 {
        Some(m.grf_log.last().addr)
    } else {
        None
    }
}

fn grf_last_written(machine: &MipsMachine) -> (last: Option<u8>)
    requires
        machine.wf(),
    ensures
        last is Some ==> last->0 < GRF_SIZE,
        last == last_register_written(machine@),
{
    let log = machine.grf_log();
    if log.len() > 0 {
        Some(log[log.len() - 1].addr())
    } else {
        None
    }
}

/// The byte address of the memory word written last, if any was.
pub open spec fn last_memory_address(m: MachineModel) -> Option<u32> {
    if m.mem_log.len() > 0 {
        Some(m.mem_log.last().addr)
    } else {
        None
    }
}

/// The byte address that a load or store aims at: with `reuse` the one
/// written last, for the sake of a data hazard, where there is one;
/// otherwise the fresh draw.
pub open spec fn mem_read_addr(last_written: Option<u32>, reuse: bool, fresh: u32) -> u32 {
    if reuse && last_written is Some {
        last_written->0
    } else {
        fresh
    }
}

pub fn choose_mem_addr(last_written: Option<u32>, reuse: bool, fresh: u32) -> (addr: u32)
    ensures
        addr == mem_read_addr(last_written, reuse, fresh),
{
    match last_written {
        Some(last) => if reuse {
            last
        } else {
            fresh
        },
        None => fresh,
    }
}

/// A byte address of data memory to touch: three times in ten the one
/// written last, else one drawn anywhere in data memory.
fn gen_mem_read_addr(rng: &mut StdRng, machine: &MipsMachine) -> (addr: u32)
    requires
        machine.wf(),
        machine@.mem.len() > 0,
    ensures
        machine@.in_memory(addr),
        exists|reuse: bool, fresh: u32|
            machine@.in_memory(fresh) && addr == #[trigger] mem_read_addr(
                last_memory_address(machine@),
                reuse,
                fresh,
            ),
{
    let reuse = draw_chance(rng, 3, 10);
    let fresh = draw_below(rng, (machine.mem().len() * WORD_SIZE) as u32);
    let log = machine.mem_log();
    let last_written = if log.len() > 0 {
        Some(log[log.len() - 1].addr())
    } else {
        None
    };
    let addr = choose_mem_addr(last_written, reuse, fresh);
    assert(addr == mem_read_addr(last_memory_address(machine@), reuse, fresh));
    addr
}

/// The registers among the first `count` that reach `addr`, each with the
/// offset that takes it there, in rising order.
pub open spec fn reaching_below(grf: Seq<u32>, addr: u32, count: nat) -> Seq<(u8, i16)>
    decreases count,
{
    if count == 0 {
        Seq::empty()
    } else {
        let rest = reaching_below(grf, addr, (count - 1) as nat);
        match offset_to(grf[count - 1], addr) {
            Some(offset) => rest.push(((count - 1) as u8, offset)),
            None => rest,
        }
    }
}

/// The base registers that reach `addr`, each with the offset that takes
/// it there, in rising order.
pub open spec fn reaching(grf: Seq<u32>, addr: u32) -> Seq<(u8, i16)> {
    reaching_below(grf, addr, GRF_SIZE as nat)
}

/// The registers that reach an address are those whose distance from it a
/// 16-bit signed offset holds, each once and with that offset, in rising
/// order.
pub proof fn lemma_reaching_holds_who_reaches(grf: Seq<u32>, addr: u32, count: nat)
    requires
        count <= GRF_SIZE,
    ensures
        reaching_below(grf, addr, count).len() <= count,
        forall|k: int|
            0 <= k < reaching_below(grf, addr, count).len() ==> (#[trigger] reaching_below(
                grf,
                addr,
                count,
            )[k]).0 < count && offset_to(
                grf[reaching_below(grf, addr, count)[k].0 as int],
                addr,
            ) == Some(reaching_below(grf, addr, count)[k].1),
        forall|index: int|
            0 <= index < count && offset_to(grf[index], addr) is Some ==> exists|k: int|
                0 <= k < reaching_below(grf, addr, count).len() && (#[trigger] reaching_below(
                    grf,
                    addr,
                    count,
                )[k]).0 == index,
        forall|j: int, k: int|
            0 <= j < k < reaching_below(grf, addr, count).len() ==> reaching_below(
                grf,
                addr,
                count,
            )[j].0 < reaching_below(grf, addr, count)[k].0,
    decreases count,
{
    if count > 0 {
        let rest = reaching_below(grf, addr, (count - 1) as nat);
        let all = reaching_below(grf, addr, count);
        lemma_reaching_holds_who_reaches(grf, addr, (count - 1) as nat);
        assert forall|index: int|
            0 <= index < count && offset_to(grf[index], addr) is Some implies exists|k: int|
            0 <= k < all.len() && (#[trigger] all[k]).0 == index by {
            if index < count - 1 {
                let k = choose|k: int| 0 <= k < rest.len() && (#[trigger] rest[k]).0 == index;
                assert(all[k].0 == index);
            } else {
                assert(all[all.len() - 1].0 == index);
            }
        }
    }
}

pub fn reaching_registers(grf: &[u32; GRF_SIZE], addr: u32) -> (candidates: Vec<(u8, i16)>)
    ensures
        candidates@ == reaching(grf@, addr),
{
    let mut candidates: Vec<(u8, i16)> = Vec::new();
    let mut index: u8 = 0;
    while index < 32
        invariant
            index <= 32,
            candidates@ == reaching_below(grf@, addr, index as nat),
        decreases 32 - index,
    {
        match exact_offset(grf[index as usize], addr) {
            Some(offset) => {
                candidates.push((index, offset));
            },
            None => {},
        }
        index = index + 1;
    }
    candidates
}

/// The base registers to choose from for an access at `addr`: those that
/// reach it, in rising order; with `stray` every register, with the offset
/// that reaches the address where there is one and else one drawn at
/// random.
fn offset_candidates(rng: &mut StdRng, grf: &[u32; GRF_SIZE], addr: u32, stray: bool) -> (candidates:
    Vec<(u8, i16)>)
    ensures
        !stray ==> candidates@ == reaching(grf@, addr),
        forall|k: int|
            0 <= k < candidates.len() ==> (#[trigger] candidates[k]).0 < GRF_SIZE && (stray
                || offset_to(grf[candidates[k].0 as int], addr) == Some(candidates[k].1)),
        forall|index: int|
            0 <= index < GRF_SIZE && offset_to(grf[index], addr) is Some ==> exists|k: int|
                0 <= k < candidates.len() && (#[trigger] candidates[k]).0 == index,
        candidates.len() <= GRF_SIZE,
{
    if !stray {
        proof {
            lemma_reaching_holds_who_reaches(grf@, addr, GRF_SIZE as nat);
        }
        return reaching_registers(grf, addr);
    }
    let mut candidates: Vec<(u8, i16)> = Vec::new();
    let mut index: u8 = 0;
    while index < 32
        invariant
            index <= 32,
            candidates.len() == index,
            forall|k: int| 0 <= k < candidates.len() ==> (#[trigger] candidates[k]).0 == k,
        decreases 32 - index,
    {
        let offset = match exact_offset(grf[index as usize], addr) {
            Some(offset) => offset,
            None => gen_immediate(rng) as i16,
        };
        candidates.push((index, offset));
        index = index + 1;
    }
    assert forall|i: int| 0 <= i < GRF_SIZE && offset_to(grf[i], addr) is Some implies exists|
        k: int,
    |
        0 <= k < candidates.len() && (#[trigger] candidates[k]).0 == i by {
        assert(candidates[i].0 == i);
    }
    candidates
}

/// The place of the first candidate at or after `from` whose base register
/// is `base`, if there is one.
pub open spec fn find_base(candidates: Seq<(u8, i16)>, base: u8, from: int) -> Option<int>
    decreases candidates.len() - from,
{
    if from < 0 || from >= candidates.len() {
        None
    } else if candidates[from].0 == base {
        Some(from)
    } else {
        find_base(candidates, base, from + 1)
    }
}

/// The candidate that is chosen: with `prefer_last` the one whose base is
/// the register written last, for the sake of a data hazard, where there
/// is one; otherwise the one at place `pick`.
pub open spec fn chosen(
    candidates: Seq<(u8, i16)>,
    last_written: Option<u8>,
    prefer_last: bool,
    pick: int,
) -> (u8, i16) {
    if prefer_last && last_written is Some && find_base(candidates, last_written->0, 0) is Some {
        candidates[find_base(candidates, last_written->0, 0)->0]
    } else {
        candidates[pick]
    }
}

pub fn choose_candidate(
    candidates: &Vec<(u8, i16)>,
    last_written: Option<u8>,
    prefer_last: bool,
    pick: usize,
) -> (r: (u8, i16))
    requires
        pick < candidates.len(),
    ensures
        r == chosen(candidates@, last_written, prefer_last, pick as int),
        candidates@.contains(r),
{
    if prefer_last {
        if let Some(last) = last_written {
            let mut k: usize = 0;
            while k < candidates.len()
                invariant
                    k <= candidates.len(),
                    prefer_last,
                    last_written == Some(last),
                    find_base(candidates@, last, 0) == find_base(candidates@, last, k as int),
                decreases candidates.len() - k,
            {
                if candidates[k].0 == last {
                    assert(find_base(candidates@, last, k as int) == Some(k as int));
                    return candidates[k];
                }
                k = k + 1;
            }
        }
    }
    candidates[pick]
}

/// Among the candidates, half of the time the one whose base is the
/// register written last, where there is one; else any.
fn select_candidate(rng: &mut StdRng, candidates: &Vec<(u8, i16)>, last_written: Option<u8>) -> (r:
    (u8, i16))
    requires
        0 < candidates.len() <= u32::MAX,
    ensures
        candidates@.contains(r),
        exists|prefer_last: bool, pick: int|
            0 <= pick < candidates.len() && r == #[trigger] chosen(
                candidates@,
                last_written,
                prefer_last,
                pick,
            ),
{
    let prefer_last = draw_chance(rng, 1, 2);
    let pick = draw_below(rng, candidates.len() as u32) as usize;
    let r = choose_candidate(candidates, last_written, prefer_last, pick);
    assert(r == chosen(candidates@, last_written, prefer_last, pick as int));
    r
}

/// Whether the base register and the offset add up, without wrapping round,
/// to the address of an access of `width` bytes inside data memory: the
/// address is one that the generator aims at, and the offset is the one
/// that takes the base register there.
pub open spec fn reaches_memory(m: MachineModel, base: u8, offset: i16, width: u32) -> bool {
    exists|target: u32|
        m.in_memory(target) && target % width == 0 && #[trigger] offset_to(
            m.grf[base as int],
            target,
        ) == Some(offset)
}

/// The offset that takes a base register to an address makes that address
/// the effective address.
pub proof fn lemma_offset_gives_effective_address(
    m: MachineModel,
    base: u8,
    offset: i16,
    target: u32,
)
    requires
        offset_to(m.grf[base as int], target) == Some(offset),
    ensures
        m.effective_address(base, offset) == target,
{
}

/// The largest multiple of `width` that is not above `addr`.
pub open spec fn aligned(addr: u32, width: u32) -> u32 {
    (addr - addr % width) as u32
}

/// The number of byte addresses that register 0 reaches with an offset that
/// is not negative, as far as data memory goes.
pub open spec fn near_reach(m: MachineModel) -> int {
    if m.mem.len() * WORD_SIZE < 0x8000 {
        m.mem.len() * WORD_SIZE
    } else {
        0x8000
    }
}

/// What is drawn for the base register and offset of a load or store: the
/// choice of the address (`reuse`, `fresh`) and of the candidate
/// (`prefer_last`, `pick`), and the same again for the case that no
/// register reaches the address (`near`, `near_prefer_last`, `near_pick`).
pub struct AccessDraws {
    pub reuse: bool,
    pub fresh: u32,
    pub prefer_last: bool,
    pub pick: int,
    pub near: u32,
    pub near_prefer_last: bool,
    pub near_pick: int,
}

/// The address that a load or store of `width` bytes aims at, without
/// exceptions: the address chosen, brought down to a multiple of the
/// width.
pub open spec fn access_target(m: MachineModel, width: u32, draws: AccessDraws) -> u32 {
    aligned(mem_read_addr(last_memory_address(m), draws.reuse, draws.fresh), width)
}

/// Whether the draws are in their ranges: the fresh address and the nearer
/// one in data memory, the latter within reach of register 0, and each
/// pick a place among the candidates it picks from.
pub open spec fn draws_fit(m: MachineModel, width: u32, draws: AccessDraws) -> bool {
    let first = reaching(m.grf, access_target(m, width, draws));
    let second = reaching(m.grf, aligned(draws.near, width));
    &&& m.in_memory(draws.fresh)
    &&& first.len() > 0 ==> 0 <= draws.pick < first.len()
    &&& first.len() == 0 ==> draws.near < near_reach(m) && 0 <= draws.near_pick < second.len()
}

/// The base register and offset of a load or store of `width` bytes,
/// without exceptions, as the draws decide them.
///
/// The candidates are the registers that reach the address aimed at; the
/// one whose base was written last is preferred where the draw says so,
/// and otherwise the draw picks among all of them. Where no register
/// reaches the address, the same is done for the nearer address, which
/// register 0 reaches.
pub open spec fn base_and_offset(m: MachineModel, width: u32, draws: AccessDraws) -> (u8, i16) {
    let first = reaching(m.grf, access_target(m, width, draws));
    if first.len() > 0 {
        chosen(first, last_register_written(m), draws.prefer_last, draws.pick)
    } else {
        chosen(
            reaching(m.grf, aligned(draws.near, width)),
            last_register_written(m),
            draws.near_prefer_last,
            draws.near_pick,
        )
    }
}

/// A base register and an offset for a load or store of `width` bytes.
///
/// The address is drawn in data memory and brought down to a multiple of
/// the width, and the base is a register that reaches it. Where no register
/// does, another address is drawn, within reach of register 0. Where
/// exceptions are enabled, once in five times the address is left where it
/// fell and any register serves.
fn gen_base_and_offset(rng: &mut StdRng, machine: &MipsMachine, width: u32) -> (operands: (u8, i16))
    requires
        machine.wf(),
        machine@.mem.len() > 0,
        width == 1 || width == 2 || width == 4,
    ensures
        operands.0 < GRF_SIZE,
        !machine@.exception_enabled ==> exists|draws: AccessDraws|
            draws_fit(machine@, width, draws) && operands == #[trigger] base_and_offset(
                machine@,
                width,
                draws,
            ),
        !machine@.exception_enabled ==> reaches_memory(machine@, operands.0, operands.1, width),
        !machine@.exception_enabled ==> machine@.in_memory(
            machine@.effective_address(operands.0, operands.1),
        ) && machine@.effective_address(operands.0, operands.1) % width == 0,
{
    let stray = machine.exception_enabled() && draw_chance(rng, 1, 5);
    let last_written = grf_last_written(machine);
    let drawn = gen_mem_read_addr(rng, machine);
    let ghost (reuse, fresh) = choose|reuse: bool, fresh: u32|
        machine@.in_memory(fresh) && drawn == #[trigger] mem_read_addr(
            last_memory_address(machine@),
            reuse,
            fresh,
        );
    let addr = if stray {
        drawn
    } else {
        align_down(drawn, width)
    };
    let candidates = offset_candidates(rng, machine.grf(), addr, stray);
    if candidates.len() > 0 {
        let operands = select_candidate(rng, &candidates, last_written);
        proof {
            if !stray {
                let k = choose|k: int| 0 <= k < candidates.len() && candidates[k] == operands;
                assert(offset_to(machine@.grf[candidates[k].0 as int], addr) == Some(operands.1));
                lemma_offset_gives_effective_address(machine@, operands.0, operands.1, addr);
                let (prefer_last, pick) = choose|prefer_last: bool, pick: int|
                    0 <= pick < candidates.len() && operands == #[trigger] chosen(
                        candidates@,
                        last_written,
                        prefer_last,
                        pick,
                    );
                let draws = AccessDraws {
                    reuse,
                    fresh,
                    prefer_last,
                    pick,
                    near: 0,
                    near_prefer_last: false,
                    near_pick: 0,
                };
                assert(access_target(machine@, width, draws) == addr);
                assert(draws_fit(machine@, width, draws));
                assert(operands == base_and_offset(machine@, width, draws));
            }
        }
        return operands;
    }
    let mem_bytes = (machine.mem().len() * WORD_SIZE) as u32;
    let reach: u32 = if mem_bytes < 0x8000 {
        mem_bytes
    } else {
        0x8000
    };
    let near = draw_below(rng, reach);
    let target = align_down(near, width);
    let second = offset_candidates(rng, machine.grf(), target, false);
    assert(offset_to(machine@.grf[0], target) is Some);
    let operands = select_candidate(rng, &second, last_written);
    proof {
        let k = choose|k: int| 0 <= k < second.len() && second[k] == operands;
        assert(offset_to(machine@.grf[second[k].0 as int], target) == Some(operands.1));
        lemma_offset_gives_effective_address(machine@, operands.0, operands.1, target);
        if !stray {
            let (near_prefer_last, near_pick) = choose|prefer_last: bool, pick: int|
                0 <= pick < second.len() && operands == #[trigger] chosen(
                    second@,
                    last_written,
                    prefer_last,
                    pick,
                );
            let draws = AccessDraws {
                reuse,
                fresh,
                prefer_last: false,
                pick: 0,
                near,
                near_prefer_last,
                near_pick,
            };
            assert(access_target(machine@, width, draws) == addr);
            assert(draws_fit(machine@, width, draws));
            assert(operands == base_and_offset(machine@, width, draws));
        }
    }
    operands
}

/// Builds an instruction that neither branches nor touches memory.
fn synthesize_plain(rng: &mut StdRng, last_written: Option<u8>, kind: InstructionType) -> (instr:
    Instr)
    requires
        last_written is Some ==> last_written->0 < GRF_SIZE,
        !kind.is_branch(),
        !kind.is_memory(),
    ensures
        instr.kind() == kind,
        instr.wf(),
{
    match kind {
        InstructionType::Nop => Instr::Nop(NopInstr),
        InstructionType::Add => {
            let rs = gen_grf_read_addr(rng, last_written, None);
            let rt = gen_grf_read_addr(rng, last_written, None);
            let rd = gen_register(rng);
            Instr::Add(AddInstr { rs, rt, rd })
        },
        InstructionType::Addi => {
            let rs = gen_grf_read_addr(rng, last_written, None);
            let rt = gen_register(rng);
            let imm = gen_immediate(rng) as i16;
            Instr::Addi(AddiInstr { rs, rt, imm })
        },
        InstructionType::Addu => {
            let rs = gen_grf_read_addr(rng, last_written, None);
            let rt = gen_grf_read_addr(rng, last_written, None);
            let rd = gen_register(rng);
            Instr::Addu(AdduInstr { rs, rt, rd })
        },
        InstructionType::Addiu => {
            let rs = gen_grf_read_addr(rng, last_written, None);
            let rt = gen_register(rng);
            let imm = gen_immediate(rng) as i16;
            Instr::Addiu(AddiuInstr { rs, rt, imm })
        },
        InstructionType::Sub => {
            let rs = gen_grf_read_addr(rng, last_written, None);
            let rt = gen_grf_read_addr(rng, last_written, None);
            let rd = gen_register(rng);
            Instr::Sub(SubInstr { rs, rt, rd })
        },
        InstructionType::Subu => {
            let rs = gen_grf_read_addr(rng, last_written, None);
            let rt = gen_grf_read_addr(rng, last_written, None);
            let rd = gen_register(rng);
            Instr::Subu(SubuInstr { rs, rt, rd })
        },
        InstructionType::Sll => {
            let rt = gen_grf_read_addr(rng, last_written, None);
            let rd = gen_register(rng);
            let sa = draw_below(rng, 32) as u8;
            Instr::Sll(SllInstr { rt, rd, sa })
        },
        InstructionType::Sllv => {
            let rs = gen_grf_read_addr(rng, last_written, None);
            let rt = gen_grf_read_addr(rng, last_written, None);
            let rd = gen_register(rng);
            Instr::Sllv(SllvInstr { rs, rt, rd })
        },
        InstructionType::Srl => {
            let rt = gen_grf_read_addr(rng, last_written, None);
            let rd = gen_register(rng);
            let sa = draw_below(rng, 32) as u8;
            Instr::Srl(SrlInstr { rt, rd, sa })
        },
        InstructionType::Srlv => {
            let rs = gen_grf_read_addr(rng, last_written, None);
            let rt = gen_grf_read_addr(rng, last_written, None);
            let rd = gen_register(rng);
            Instr::Srlv(SrlvInstr { rs, rt, rd })
        },
        InstructionType::Sra => {
            let rt = gen_grf_read_addr(rng, last_written, None);
            let rd = gen_register(rng);
            let sa = draw_below(rng, 32) as u8;
            Instr::Sra(SraInstr { rt, rd, sa })
        },
        InstructionType::Srav => {
            let rs = gen_grf_read_addr(rng, last_written, None);
            let rt = gen_grf_read_addr(rng, last_written, None);
            let rd = gen_register(rng);
            Instr::Srav(SravInstr { rs, rt, rd })
        },
        InstructionType::And => {
            let rs = gen_grf_read_addr(rng, last_written, None);
            let rt = gen_grf_read_addr(rng, last_written, None);
            let rd = gen_register(rng);
            Instr::And(AndInstr { rs, rt, rd })
        },
        InstructionType::Andi => {
            let rs = gen_grf_read_addr(rng, last_written, None);
            let rt = gen_register(rng);
            let imm = gen_immediate(rng);
            Instr::Andi(AndiInstr { rs, rt, imm })
        },
        InstructionType::Or => {
            let rs = gen_grf_read_addr(rng, last_written, None);
            let rt = gen_grf_read_addr(rng, last_written, None);
            let rd = gen_register(rng);
            Instr::Or(OrInstr { rs, rt, rd })
        },
        InstructionType::Ori => {
            let rs = gen_grf_read_addr(rng, last_written, None);
            let rt = gen_register(rng);
            let imm = gen_immediate(rng);
            Instr::Ori(OriInstr { rs, rt, imm })
        },
        InstructionType::Xor => {
            let rs = gen_grf_read_addr(rng, last_written, None);
            let rt = gen_grf_read_addr(rng, last_written, None);
            let rd = gen_register(rng);
            Instr::Xor(XorInstr { rs, rt, rd })
        },
        InstructionType::Xori => {
            let rs = gen_grf_read_addr(rng, last_written, None);
            let rt = gen_register(rng);
            let imm = gen_immediate(rng);
            Instr::Xori(XoriInstr { rs, rt, imm })
        },
        InstructionType::Nor => {
            let rs = gen_grf_read_addr(rng, last_written, None);
            let rt = gen_grf_read_addr(rng, last_written, None);
            let rd = gen_register(rng);
            Instr::Nor(NorInstr { rs, rt, rd })
        },
        InstructionType::Lui => {
            let rt = gen_register(rng);
            let imm = gen_immediate(rng);
            Instr::Lui(LuiInstr { rt, imm })
        },
        InstructionType::Slt => {
            let rs = gen_grf_read_addr(rng, last_written, None);
            let rt = gen_grf_read_addr(rng, last_written, None);
            let rd = gen_register(rng);
            Instr::Slt(SltInstr { rs, rt, rd })
        },
        InstructionType::Slti => {
            let rs = gen_grf_read_addr(rng, last_written, None);
            let rt = gen_register(rng);
            let imm = gen_immediate(rng) as i16;
            Instr::Slti(SltiInstr { rs, rt, imm })
        },
        InstructionType::Sltu => {
            let rs = gen_grf_read_addr(rng, last_written, None);
            let rt = gen_grf_read_addr(rng, last_written, None);
            let rd = gen_register(rng);
            Instr::Sltu(SltuInstr { rs, rt, rd })
        },
        InstructionType::Sltiu => {
            let rs = gen_grf_read_addr(rng, last_written, None);
            let rt = gen_register(rng);
            let imm = gen_immediate(rng) as i16;
            Instr::Sltiu(SltiuInstr { rs, rt, imm })
        },
        InstructionType::Mult => {
            let rs = gen_grf_read_addr(rng, last_written, None);
            let rt = gen_grf_read_addr(rng, last_written, None);
            Instr::Mult(MultInstr { rs, rt })
        },
        InstructionType::Multu => {
            let rs = gen_grf_read_addr(rng, last_written, None);
            let rt = gen_grf_read_addr(rng, last_written, None);
            Instr::Multu(MultuInstr { rs, rt })
        },
        InstructionType::Div => {
            let rs = gen_grf_read_addr(rng, last_written, None);
            let rt = gen_grf_read_addr(rng, last_written, None);
            Instr::Div(DivInstr { rs, rt })
        },
        InstructionType::Divu => {
            let rs = gen_grf_read_addr(rng, last_written, None);
            let rt = gen_grf_read_addr(rng, last_written, None);
            Instr::Divu(DivuInstr { rs, rt })
        },
        InstructionType::Mflo => {
            let rd = gen_register(rng);
            Instr::Mflo(MfloInstr { rd })
        },
        InstructionType::Mfhi => {
            let rd = gen_register(rng);
            Instr::Mfhi(MfhiInstr { rd })
        },
        InstructionType::Mtlo => {
            let rs = gen_grf_read_addr(rng, last_written, None);
            Instr::Mtlo(MtloInstr { rs })
        },
        InstructionType::Mthi => {
            let rs = gen_grf_read_addr(rng, last_written, None);
            Instr::Mthi(MthiInstr { rs })
        },
        _ => unreached(),
    }
}

/// Builds a load or store for the machine as it stands.
fn synthesize_memory(rng: &mut StdRng, machine: &MipsMachine, kind: InstructionType) -> (instr:
    Instr)
    requires
        machine.wf(),
        machine@.mem.len() > 0,
        kind.is_memory(),
    ensures
        instr.kind() == kind,
        instr.wf(),
        instr.access(machine@) matches Some((addr, width)) && (machine@.exception_enabled || (
        machine@.in_memory(addr) && addr % width == 0)),
{
    let last_written = grf_last_written(machine);
    match kind {
        InstructionType::Lb => {
            let (base, offset) = gen_base_and_offset(rng, machine, 1);
            let rt = gen_register(rng);
            Instr::Lb(LbInstr { base, rt, offset })
        },
        InstructionType::Lbu => {
            let (base, offset) = gen_base_and_offset(rng, machine, 1);
            let rt = gen_register(rng);
            Instr::Lbu(LbuInstr { base, rt, offset })
        },
        InstructionType::Lh => {
            let (base, offset) = gen_base_and_offset(rng, machine, 2);
            let rt = gen_register(rng);
            Instr::Lh(LhInstr { base, rt, offset })
        },
        InstructionType::Lhu => {
            let (base, offset) = gen_base_and_offset(rng, machine, 2);
            let rt = gen_register(rng);
            Instr::Lhu(LhuInstr { base, rt, offset })
        },
        InstructionType::Lw => {
            let (base, offset) = gen_base_and_offset(rng, machine, 4);
            let rt = gen_register(rng);
            Instr::Lw(LwInstr { base, rt, offset })
        },
        InstructionType::Sb => {
            let (base, offset) = gen_base_and_offset(rng, machine, 1);
            let rt = gen_grf_read_addr(rng, last_written, None);
            Instr::Sb(SbInstr { base, rt, offset })
        },
        InstructionType::Sh => {
            let (base, offset) = gen_base_and_offset(rng, machine, 2);
            let rt = gen_grf_read_addr(rng, last_written, None);
            Instr::Sh(ShInstr { base, rt, offset })
        },
        InstructionType::Sw => {
            let (base, offset) = gen_base_and_offset(rng, machine, 4);
            let rt = gen_grf_read_addr(rng, last_written, None);
            Instr::Sw(SwInstr { base, rt, offset })
        },
        _ => unreached(),
    }
}

/// Builds a branch or jump for the machine as it stands.
fn synthesize_branch(
    rng: &mut StdRng,
    machine: &MipsMachine,
    jump_limit: u32,
    kind: InstructionType,
    candidates: &Vec<u8>,
    branch_draw: i16,
) -> (instr: Instr)
    requires
        machine.wf(),
        machine@.pc % 4 == 0,
        jump_limit % 4 == 0,
        machine@.pc + 2 * WORD_SIZE <= jump_limit <= TEXT_END_LIMIT,
        kind.is_branch(),
        kind.is_jump_register() ==> candidates.len() > 0,
        candidates.len() <= GRF_SIZE,
        forall|k: int|
            0 <= k < candidates.len() ==> is_jump_register(
                machine@.grf,
                machine@.pc,
                jump_limit,
                machine@.exception_enabled,
                (#[trigger] candidates[k]) as int,
            ),
    ensures
        instr.kind() == kind,
        instr.wf(),
        instr.destination(machine@) matches Some(target) && machine@.pc < target < jump_limit && (
        machine@.exception_enabled || target % 4 == 0),
{
    let pc = machine.pc();
    let exception_enabled = machine.exception_enabled();
    let last_written = grf_last_written(machine);
    proof {
        lemma_clamped_offset_lands_inside(pc, jump_limit, exception_enabled, branch_draw);
    }
    match kind {
        InstructionType::Beq => {
            let rs = gen_grf_read_addr(rng, last_written, None);
            let rt = gen_grf_read_addr(rng, last_written, None);
            let offset = gen_branch_offset(pc, jump_limit, exception_enabled, branch_draw);
            Instr::Beq(BeqInstr { rs, rt, offset })
        },
        InstructionType::Bne => {
            let rs = gen_grf_read_addr(rng, last_written, None);
            let rt = gen_grf_read_addr(rng, last_written, None);
            let offset = gen_branch_offset(pc, jump_limit, exception_enabled, branch_draw);
            Instr::Bne(BneInstr { rs, rt, offset })
        },
        InstructionType::Blez => {
            let rs = gen_grf_read_addr(rng, last_written, None);
            let offset = gen_branch_offset(pc, jump_limit, exception_enabled, branch_draw);
            Instr::Blez(BlezInstr { rs, offset })
        },
        InstructionType::Bltz => {
            let rs = gen_grf_read_addr(rng, last_written, None);
            let offset = gen_branch_offset(pc, jump_limit, exception_enabled, branch_draw);
            Instr::Bltz(BltzInstr { rs, offset })
        },
        InstructionType::Bgez => {
            let rs = gen_grf_read_addr(rng, last_written, None);
            let offset = gen_branch_offset(pc, jump_limit, exception_enabled, branch_draw);
            Instr::Bgez(BgezInstr { rs, offset })
        },
        InstructionType::Bgtz => {
            let rs = gen_grf_read_addr(rng, last_written, None);
            let offset = gen_branch_offset(pc, jump_limit, exception_enabled, branch_draw);
            Instr::Bgtz(BgtzInstr { rs, offset })
        },
        InstructionType::J => {
            let addr = gen_jump_addr(pc, jump_limit, exception_enabled, branch_draw);
            Instr::J(JInstr { addr })
        },
        InstructionType::Jal => {
            let addr = gen_jump_addr(pc, jump_limit, exception_enabled, branch_draw);
            Instr::Jal(JalInstr { addr })
        },
        InstructionType::Jr => {
            let rs = select_register(rng, candidates);
            Instr::Jr(JrInstr { rs })
        },
        InstructionType::Jalr => {
            let rs = select_register(rng, candidates);
            let rd = gen_grf_read_addr(rng, last_written, Some(rs));
            Instr::Jalr(JalrInstr { rs, rd })
        },
        _ => unreached(),
    }
}

/// Builds an instruction of the given type for the machine as it stands.
fn synthesize(
    rng: &mut StdRng,
    machine: &MipsMachine,
    jump_limit: u32,
    kind: InstructionType,
    candidates: &Vec<u8>,
    branch_draw: i16,
) -> (instr: Instr)
    requires
        machine.wf(),
        machine@.mem.len() > 0,
        machine@.pc % 4 == 0,
        jump_limit % 4 == 0,
        machine@.pc < jump_limit <= TEXT_END_LIMIT,
        kind.is_branch() ==> !(machine@.state is InDelaySlot) && machine@.pc + WORD_SIZE
            != jump_limit,
        kind.is_jump_register() ==> candidates.len() > 0,
        candidates.len() <= GRF_SIZE,
        forall|k: int|
            0 <= k < candidates.len() ==> is_jump_register(
                machine@.grf,
                machine@.pc,
                jump_limit,
                machine@.exception_enabled,
                (#[trigger] candidates[k]) as int,
            ),
    ensures
        instr.kind() == kind,
        legal_step(machine@, jump_limit, instr),
{
    let instr = if kind.is_branch() {
        synthesize_branch(rng, machine, jump_limit, kind, candidates, branch_draw)
    } else if kind.is_memory() {
        synthesize_memory(rng, machine, kind)
    } else {
        synthesize_plain(rng, grf_last_written(machine), kind)
    };
    proof {
        lemma_outcome_names_destination(instr, machine@);
    }
    instr
}

/// A type of the set that is legal where the machine stands: one of the
/// table of those that are permitted, which leaves out branches and jumps
/// where those are ruled out, and jumps through a register where no
/// register holds a target.
fn select_legal_type(
    rng: &mut StdRng,
    set: &Vec<InstructionType>,
    branches_ruled_out: bool,
    no_jump_target: bool,
) -> (kind: InstructionType)
    requires
        set.len() <= u32::MAX,
        permitted(set@, true, false).len() > 0,
    ensures
        permitted(set@, branches_ruled_out, no_jump_target).contains(kind),
        set@.contains(kind),
        branches_ruled_out ==> !kind.is_branch(),
        no_jump_target ==> !kind.is_jump_register(),
{
    proof {
        lemma_permitted_is_part(set@, branches_ruled_out, no_jump_target);
        lemma_permitted_is_never_empty(set@, branches_ruled_out, no_jump_target);
    }
    let table = permitted_types(set.as_slice(), branches_ruled_out, no_jump_target);
    select_type(rng, &table)
}

/// The source of a random program: it holds the reference machine, builds
/// one instruction at a time for the state the machine is in, and has the
/// machine execute each before it hands it out.
pub struct InstructionGenerator {
    machine: MipsMachine,
    instr_set: Vec<InstructionType>,
    jump_limit: u32,
    rng: StdRng,
}

impl InstructionGenerator {
    /// The state of the machine that the generator drives.
    pub closed spec fn machine_model(&self) -> MachineModel {
        self.machine@
    }

    /// The instruction types to choose from.
    pub closed spec fn instr_types(&self) -> Seq<InstructionType> {
        self.instr_set@
    }

    /// The address at which the program ends.
    pub closed spec fn limit(&self) -> u32 {
        self.jump_limit
    }

    /// The invariant of a generator: its machine is well formed and has
    /// data memory, it stands at an instruction of the program or at its
    /// end, any transfer that is pending stays inside the program, and the
    /// set holds a type that is no branch.
    pub open spec fn wf(&self) -> bool {
        &&& self.machine_model().wf()
        &&& self.machine_model().mem.len() > 0
        &&& self.machine_model().pc % 4 == 0
        &&& TEXT_START_ADDR <= self.machine_model().pc <= self.limit()
        &&& self.limit() % 4 == 0
        &&& self.limit() <= TEXT_END_LIMIT
        &&& self.instr_types().len() <= u32::MAX
        &&& permitted(self.instr_types(), true, false).len() > 0
        &&& pending_in_bounds(self.machine_model(), self.limit())
    }

    /// A generator of programs of `instr_count` instructions over the given
    /// instruction types, for a machine that stands between instructions
    /// of such a program.
    pub fn new(
        machine: MipsMachine,
        instr_set: &[InstructionType],
        instr_count: u32,
        rng: StdRng,
    ) -> (generator: Self)
        requires
            machine.wf(),
            machine@.mem.len() > 0,
            machine@.state is Normal,
            machine@.pc % 4 == 0,
            instr_count <= MAX_INSTR_COUNT,
            TEXT_START_ADDR <= machine@.pc <= TEXT_START_ADDR + instr_count * WORD_SIZE,
            instr_set.len() <= u32::MAX,
            permitted(instr_set@, true, false).len() > 0,
        ensures
            generator.wf(),
            generator.machine_model() == machine@,
            generator.instr_types() == instr_set@,
            generator.limit() == TEXT_START_ADDR + instr_count * WORD_SIZE,
    {
        Self {
            machine,
            instr_set: slice_to_vec(instr_set),
            jump_limit: TEXT_START_ADDR + instr_count * WORD_SIZE as u32,
            rng,
        }
    }

    pub fn machine(&self) -> (machine: &MipsMachine)
        ensures
            machine@ == self.machine_model(),
            self.wf() ==> machine.wf(),
    {
        &self.machine
    }

    /// Gives the machine back, with the logs of the program generated.
    pub fn into_machine(self) -> (machine: MipsMachine)
        ensures
            machine@ == self.machine_model(),
            self.wf() ==> machine.wf(),
    {
        self.machine
    }

    pub fn jump_limit(&self) -> (limit: u32)
        ensures
            limit == self.limit(),
    {
        self.jump_limit
    }

    /// The next instruction of the program, or `None` at its end.
    ///
    /// The type is chosen at random among those of the set that are legal
    /// where the machine stands, and the operands are drawn with a bias to
    /// the register and the memory word written last. The machine executes
    /// the instruction before it is handed out, so that the program counter
    /// is one word further after each, and the program ends, with nothing
    /// pending, when it has reached the limit.
    ///
    /// `branch_draw` is a draw of the branch-distance distribution, which
    /// the caller samples; it is used where the instruction is a branch or
    /// jump.
    pub fn next(&mut self, branch_draw: i16) -> (r: Option<Instr>)
        requires
            old(self).wf(),
        ensures
            final(self).wf(),
            final(self).limit() == old(self).limit(),
            final(self).instr_types() == old(self).instr_types(),
            old(self).machine_model().pc >= old(self).limit() ==> r is None
                && final(self).machine_model() == old(self).machine_model()
                && old(self).machine_model().state is Normal,
            old(self).machine_model().pc < old(self).limit() ==> r is Some && yields(
                old(self).machine_model(),
                old(self).limit(),
                old(self).instr_types(),
                r->0,
                final(self).machine_model(),
            ) && final(self).machine_model().pc == old(self).machine_model().pc + WORD_SIZE,
    {
        let pc = self.machine.pc();
        if pc >= self.jump_limit {
            return None;
        }
        let exception_enabled = self.machine.exception_enabled();
        if exception_enabled && draw_chance(&mut self.rng, 1, 10) {
            self.machine.interrupt();
        }
        let allow_unaligned = exception_enabled && draw_chance(&mut self.rng, 1, 10);
        let candidates = jump_register_candidates(
            self.machine.grf(),
            pc,
            self.jump_limit,
            allow_unaligned,
        );
        let is_last = pc + WORD_SIZE as u32 == self.jump_limit;
        let in_delay_slot = match self.machine.state() {
            MachineState::InDelaySlot(_) => true,
            _ => false,
        };
        let kind = select_legal_type(
            &mut self.rng,
            &self.instr_set,
            in_delay_slot || is_last,
            candidates.len() == 0,
        );
        let instr = synthesize(
            &mut self.rng,
            &self.machine,
            self.jump_limit,
            kind,
            &candidates,
            branch_draw,
        );
        proof {
            lemma_legal_step_ignores_interrupts(old(self).machine@, self.jump_limit, instr);
            lemma_step_stays_in_bounds(self.machine@, self.jump_limit, instr);
        }
        self.machine.execute(&instr);
        Some(instr)
    }

    /// The instructions that close a program where exceptions are enabled:
    /// a jump out of the program and its delay slot. Without exceptions a
    /// program needs none.
    pub fn trailer(exception_enabled: bool) -> (instrs: Vec<Instr>)
        ensures
            instrs@ == (if exception_enabled {
                seq![Instr::J(JInstr { addr: TRAILER_TARGET }), Instr::Nop(NopInstr)]
            } else {
                Seq::empty()
            }),
    {
        let mut instrs: Vec<Instr> = Vec::new();
        if exception_enabled {
            instrs.push(Instr::J(JInstr { addr: TRAILER_TARGET }));
            instrs.push(Instr::Nop(NopInstr));
        }
        assert(instrs@ =~= (if exception_enabled {
            seq![Instr::J(JInstr { addr: TRAILER_TARGET }), Instr::Nop(NopInstr)]
        } else {
            Seq::empty()
        }));
        instrs
    }
}

/// Every type that may be chosen is a type of the set and is not ruled
/// out.
pub proof fn lemma_permitted_is_part(
    set: Seq<InstructionType>,
    no_branch: bool,
    no_jump_register: bool,
)
    ensures
        permitted(set, no_branch, no_jump_register).len() <= set.len(),
        forall|kind: InstructionType| #[trigger]
            permitted(set, no_branch, no_jump_register).contains(kind) ==> set.contains(kind)
                && is_permitted(kind, no_branch, no_jump_register),
{
    let pred = |kind: InstructionType| is_permitted(kind, no_branch, no_jump_register);
    let kept = set.filter(pred);
    set.lemma_filter_len(pred);
    assert forall|kind: InstructionType| #[trigger] kept.contains(kind) implies set.contains(kind)
        && is_permitted(kind, no_branch, no_jump_register) by {
        let k = choose|k: int| 0 <= k < kept.len() && kept[k] == kind;
        set.lemma_filter_pred(pred, k);
        set.lemma_filter_contains_rev(pred, kind);
    }
}

/// Every type of the set that is not ruled out may be chosen.
pub proof fn lemma_permitted_keeps(
    set: Seq<InstructionType>,
    no_branch: bool,
    no_jump_register: bool,
    i: int,
)
    requires
        0 <= i < set.len(),
        is_permitted(set[i], no_branch, no_jump_register),
    ensures
        permitted(set, no_branch, no_jump_register).contains(set[i]),
{
    let pred = |kind: InstructionType| is_permitted(kind, no_branch, no_jump_register);
    set.lemma_filter_contains(pred, i);
}

/// A set that holds a type which is no branch has a type to choose from
/// whatever is ruled out.
pub proof fn lemma_permitted_is_never_empty(
    set: Seq<InstructionType>,
    no_branch: bool,
    no_jump_register: bool,
)
    requires
        permitted(set, true, false).len() > 0,
    ensures
        permitted(set, no_branch, no_jump_register).len() > 0,
{
    let kind = permitted(set, true, false)[0];
    assert(permitted(set, true, false).contains(kind));
    lemma_permitted_is_part(set, true, false);
    let i = choose|i: int| 0 <= i < set.len() && set[i] == kind;
    lemma_permitted_keeps(set, no_branch, no_jump_register, i);
}

/// An interrupt changes nothing of what makes an instruction legal.
pub proof fn lemma_legal_step_ignores_interrupts(m: MachineModel, jump_limit: u32, instr: Instr)
    ensures
        legal_step(m.interrupt(), jump_limit, instr) == legal_step(m, jump_limit, instr),
{
    lemma_interrupt_changes_no_operand(instr, m);
}

/// Where a legal instruction leaves the pending transfer, it stays inside
/// the program.
pub proof fn lemma_transition_stays_in_bounds(m: MachineModel, jump_limit: u32, instr: Instr)
    requires
        m.pc % 4 == 0,
        jump_limit % 4 == 0,
        m.pc < jump_limit <= TEXT_END_LIMIT,
        pending_in_bounds(m, jump_limit),
        legal_step(m, jump_limit, instr),
    ensures
        pending_in_bounds(
            MachineModel {
                pc: (m.pc + WORD_SIZE) as u32,
                state: m.transition(instr.outcome(m)),
                ..m
            },
            jump_limit,
        ),
{
    lemma_outcome_names_destination(instr, m);
}

/// A legal instruction leaves the machine one word further, with any
/// transfer that it opens or leaves pending still inside the program.
pub proof fn lemma_step_stays_in_bounds(m: MachineModel, jump_limit: u32, instr: Instr)
    requires
        m.pc % 4 == 0,
        jump_limit % 4 == 0,
        m.pc < jump_limit <= TEXT_END_LIMIT,
        pending_in_bounds(m, jump_limit),
        legal_step(m, jump_limit, instr),
    ensures
        m.step(&instr).pc == m.pc + WORD_SIZE,
        pending_in_bounds(m.step(&instr), jump_limit),
{
    lemma_transition_stays_in_bounds(m, jump_limit, instr);
    m.lemma_step_control(&instr);
}

/// The word address that the jump of the trailer names.
pub const TRAILER_TARGET: u32 = 16384;

} // verus!
