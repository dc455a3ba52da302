//! The CPU engine: a state machine that fetches, decodes, executes and writes
//! back one instruction over several ticks of one machine cycle each, with
//! breakpoints and rollback of CPU state on failure.

use vstd::prelude::*;
use std::collections::HashSet;
use crate::bus::{read_at, reachable, write_at, Bus, BusError, Region};

verus! {

broadcast use vstd::std_specs::hash::group_hash_axioms;

/// Clock cycles in one machine cycle, the length of a tick.
pub const CYCLES_PER_TICK: u8 = 4;

/// How an operand in memory is addressed.
#[derive(Debug, Clone, Copy, PartialEq, Eq, Structural)]
pub enum MemoryAddressing {
    /// (a16)
    A16,
    /// ($FF00 + a8)
    IO,
    /// ($FF00 + C)
    C,
    /// (BC)
    BC,
    /// (DE)
    DE,
    /// (HL)
    HL,
    /// (SP), popping 16 bits
    SP,
}

/// Where an operand of an instruction lives.
#[derive(Debug, Clone, Copy, PartialEq, Eq, Structural)]
pub enum OperandLocation {
    Register,
    Immediate,
    Memory(MemoryAddressing),
}

/// Static metadata of an opcode: mnemonic, destination, source, size in bytes,
/// clock cycles when a branch is taken, clock cycles when it is not.
#[derive(Debug, Clone, Copy)]
pub struct OpcodeInfo(
    pub &'static str,
    pub OperandLocation,
    pub OperandLocation,
    pub u8,
    pub u8,
    pub u8,
);

/// Phase of the engine's state machine.
#[derive(Debug, Clone, Copy, PartialEq, Eq, Structural)]
pub enum CpuState {
    FetchOpcode,
    FetchByte0,
    FetchByte1,
    FetchMemory,
    Writeback,
    Delay(u8),
}

/// A memory effect deferred to the writeback phase.
#[derive(Debug, Clone, Copy, PartialEq, Eq, Structural)]
pub enum WritebackOp {
    Write8(u16, u8),
    Write16(u16, u16),
    Push(u16),
    Return,
}

/// What stops a tick.
#[derive(Debug, Clone, Copy, PartialEq, Eq, Structural)]
pub enum TraceEvent {
    /// The program counter reached an armed breakpoint.
    Breakpoint(u16),
    /// A bus access fell outside every window of the address space.
    InvalidAddress(u16),
    /// An opcode whose metadata or effect the engine cannot carry out.
    IllegalOpcode(u8),
    /// A request to switch the CPU speed; absorbed by the engine.
    CgbSpeedSwitchReq,
}

impl TraceEvent {
    pub fn from_bus(e: BusError) -> (r: TraceEvent)
        ensures
            match e {
                BusError::InvalidAddress(a) => r == TraceEvent::InvalidAddress(a),
            },
    {
        match e {
            BusError::InvalidAddress(a) => TraceEvent::InvalidAddress(a),
        }
    }
}

/// The register file.
#[derive(Debug, Clone, Copy, PartialEq, Eq, Structural)]
pub struct Registers {
    pub af: u16,
    pub bc: u16,
    pub de: u16,
    pub hl: u16,
    pub sp: u16,
    pub pc: u16,
}

/// What an instruction's semantics hand back to the engine.
#[derive(Debug, Clone, Copy)]
pub struct Effect {
    /// Registers after the instruction; the low nibble of `af` is dropped.
    pub regs: Registers,
    pub branch_taken: bool,
    pub write_op: Option<WritebackOp>,
    /// The instruction asks the CPU to halt.
    pub halt: bool,
    pub intr_enabled: bool,
}

/// The per-opcode table: metadata and semantics of each instruction.
pub trait InstructionSet {
    /// The metadata table, as `info` hands it out. Outside verified code it
    /// compiles to an ordinary method, which an impl writes as a call of `info`.
    spec fn spec_info(&self, opcode: u8) -> OpcodeInfo;

    /// Metadata of `opcode`.
    fn info(&self, opcode: u8) -> (r: OpcodeInfo)
        ensures
            r == self.spec_info(opcode),
    ;

    /// Carries out the instruction that `cpu` has fetched (its opcode, prefix
    /// mode and operand), without its deferred memory effect.
    fn execute(&mut self, cpu: &CPU, bus: &mut Bus) -> Result<Effect, TraceEvent>;
}

/// All CPU-owned state that a failed tick rolls back.
#[derive(Clone, Copy)]
pub struct Context {
    pub regs: Registers,
    pub halted: bool,
    pub halt_bug: bool,
    pub should_halt: bool,
    pub intr_enabled: bool,
    pub state: CpuState,
    pub info: OpcodeInfo,
    pub opcode: u8,
    pub cb_mode: bool,
    pub operand: u16,
    pub write_op: Option<WritebackOp>,
    pub executing: bool,
    pub branch_taken: bool,
    pub remaining_cycles: u8,
    pub paused: bool,
    pub ignore_next_halt: bool,
    /// Ticks spent on the current instruction.
    pub ticks: Ghost<nat>,
}

/// The CPU engine.
pub struct CPU {
    pub ctx: Context,
    /// Addresses at which fetching an opcode stops.
    pub breakpoints: HashSet<u16>,
}

pub open spec fn is_memory(l: OperandLocation) -> bool {
    l is Memory
}

/// Metadata that the engine can carry out: sizes of one to three bytes, cycle
/// counts in whole ticks, a taken count no smaller than the untaken one, and
/// an untaken count that covers one tick per fetched byte and memory operand.
pub open spec fn info_ok(i: OpcodeInfo) -> bool {
    &&& counts_ok(i)
    &&& i.5 >= 4 * (i.3 + mem_ticks(i.2))
}

/// Size and cycle counts within the bounds the engine works with.
pub open spec fn counts_ok(i: OpcodeInfo) -> bool {
    &&& 1 <= i.3 <= 3
    &&& i.4 % 4 == 0
    &&& i.5 % 4 == 0
    &&& i.5 <= i.4 <= 240
}

/// The current instruction is a prefixed one whose secondary opcode works on (HL).
pub open spec fn cb_hl(c: Context) -> bool {
    c.cb_mode && c.opcode & 7 == 6
}

/// Clock cycles that the current instruction takes: its untaken count, the
/// extra memory round trip of a prefixed (HL) operation, and the difference
/// to the taken count once its branch is taken.
pub open spec fn instr_cycles(c: Context) -> int {
    c.info.5 + (if cb_hl(c) { 8int } else { 0 }) + (if c.branch_taken {
        c.info.4 - c.info.5
    } else {
        0
    })
}

pub open spec fn mem_ticks(l: OperandLocation) -> int {
    if is_memory(l) { 1 } else { 0 }
}

/// The engine's invariant: the flag nibble is clean; mid-instruction the
/// remaining budget is a whole number of ticks that, with the ticks already
/// spent, makes up the instruction's cycle count and covers the phases left;
/// and until the instruction executes, its decode state holds nothing but
/// what this instruction fetched.
pub open spec fn ctx_ok(c: Context) -> bool {
    &&& c.regs.af & 0xF == 0
    &&& counts_ok(c.info)
    &&& c.state != CpuState::FetchOpcode ==> {
        &&& c.remaining_cycles % 4 == 0
        &&& c.remaining_cycles >= 4
        &&& c.ticks@ >= 1
        &&& 4 * c.ticks@ + c.remaining_cycles == instr_cycles(c)
    }
    &&& c.state is FetchByte0 ==> {
        &&& c.info.3 >= 2
        &&& !cb_hl(c)
        &&& c.remaining_cycles >= 4 * (c.info.3 - 1 + mem_ticks(c.info.2))
    }
    &&& c.state is FetchByte1 ==> c.remaining_cycles >= 4 * (1 + mem_ticks(c.info.2))
    &&& c.state is FetchMemory ==> is_memory(c.info.2)
    &&& (c.state is FetchByte0 || c.state is FetchByte1 || c.state is FetchMemory)
        ==> !c.branch_taken
    &&& c.state is Writeback ==> c.write_op is Some
    &&& c.state is FetchByte0 ==> c.operand == 0
    &&& c.state is FetchByte1 ==> c.operand < 256
    &&& (c.state is FetchByte0 || c.state is FetchByte1 || c.state is FetchMemory)
        ==> c.write_op is None
    &&& c.state is Delay ==> c.remaining_cycles == 4 * (c.state->Delay_0 + 1)
}

/// The source operand is popped from the stack.
pub open spec fn pops(c: Context) -> bool {
    c.info.2 == OperandLocation::Memory(MemoryAddressing::SP)
}

/// The address that the memory phase reads for the source addressing of `c`.
pub open spec fn operand_address(c: Context) -> u16 {
    match c.info.2 {
        OperandLocation::Memory(MemoryAddressing::C) => (0xFF00 + lo_byte(c.regs.bc)) as u16,
        OperandLocation::Memory(MemoryAddressing::IO) => (0xFF00 + (c.operand as u8)) as u16,
        OperandLocation::Memory(MemoryAddressing::BC) => c.regs.bc,
        OperandLocation::Memory(MemoryAddressing::DE) => c.regs.de,
        OperandLocation::Memory(MemoryAddressing::HL) => c.regs.hl,
        OperandLocation::Memory(MemoryAddressing::A16) => c.operand,
        _ => c.regs.sp,
    }
}

/// The operand that the memory phase loads: 16 bits popped from the stack, or
/// the byte at the operand address.
pub open spec fn memory_operand(c: Context, bus: Map<Region, Seq<u8>>) -> Option<u16> {
    if pops(c) {
        read_at::<u16>(bus, c.regs.sp)
    } else {
        match read_at::<u8>(bus, operand_address(c)) {
            Some(v) => Some(v as u16),
            None => None,
        }
    }
}

/// The decode state once the memory operand `v` is loaded; a pop advances the
/// stack pointer past it.
pub open spec fn after_load(c: Context, v: u16) -> Context {
    Context {
        operand: v,
        regs: Registers { sp: if pops(c) { add2(c.regs.sp) } else { c.regs.sp }, ..c.regs },
        ..c
    }
}

/// The decode state once opcode `op` with metadata `info` is fetched: what the
/// previous instruction left is reset, the budget is the untaken count less
/// this tick, and the next phase fetches an immediate byte where the
/// instruction has one, else its memory operand.
pub open spec fn after_fetch(c: Context, op: u8, info: OpcodeInfo) -> Context {
    Context {
        regs: Registers { pc: add1(c.regs.pc), ..c.regs },
        paused: false,
        opcode: op,
        info: info,
        operand: 0,
        cb_mode: op == 0xCB,
        write_op: None,
        executing: true,
        branch_taken: false,
        remaining_cycles: (info.5 - 4) as u8,
        ticks: Ghost(1nat),
        state: if info.3 > 1 {
            CpuState::FetchByte0
        } else {
            CpuState::FetchMemory
        },
        ..c
    }
}

/// The decode state once immediate byte `d` is fetched: it joins the operand,
/// low byte first; after the prefix byte it becomes the opcode, and an (HL)
/// operation gains a memory operand and 8 cycles. The next phase fetches the
/// high byte where there is one, else the memory operand.
pub open spec fn after_byte(c: Context, d: u8) -> Context {
    let operand = if c.state is FetchByte0 {
        c.operand | (d as u16)
    } else {
        c.operand | ((d as u16) << 8u16)
    };
    let prefixed = c.state is FetchByte0 && c.cb_mode;
    let hl = prefixed && operand & 7 == 6;
    let info = if hl {
        OpcodeInfo(
            c.info.0,
            c.info.1,
            OperandLocation::Memory(MemoryAddressing::HL),
            c.info.3,
            c.info.4,
            c.info.5,
        )
    } else {
        c.info
    };
    Context {
        regs: Registers { pc: add1(c.regs.pc), ..c.regs },
        operand: operand,
        opcode: if prefixed { operand as u8 } else { c.opcode },
        info: info,
        remaining_cycles: if hl { (c.remaining_cycles + 8) as u8 } else { c.remaining_cycles },
        state: if c.state is FetchByte0 && c.info.3 > 2 {
            CpuState::FetchByte1
        } else {
            CpuState::FetchMemory
        },
        ..c
    }
}

/// After immediate byte `d` the instruction executes in the same tick.
pub open spec fn byte_executes(c: Context, d: u8) -> bool {
    !(c.state is FetchByte0 && c.info.3 > 2) && !is_memory(after_byte(c, d).info.2)
}

/// Clears a pending halt request that a speed switch asked to ignore.
pub open spec fn settle_halt(c: Context) -> Context {
    if c.should_halt && c.ignore_next_halt {
        Context { should_halt: false, ignore_next_halt: false, ..c }
    } else {
        c
    }
}

/// The phase after execution: the writeback where one is queued, else a delay
/// that spends the rest of the budget, else the next fetch.
pub open spec fn scheduled(c: Context) -> Context {
    Context {
        state: if c.write_op is Some {
            CpuState::Writeback
        } else if c.remaining_cycles > 0 {
            CpuState::Delay(((c.remaining_cycles - 1) / 4) as u8)
        } else {
            CpuState::FetchOpcode
        },
        executing: c.write_op is Some || c.remaining_cycles > 0,
        ..c
    }
}

/// The budget once the taken flag `taken` is known.
pub open spec fn budget_after(c: Context, taken: bool) -> int {
    c.remaining_cycles + if taken { c.info.4 - c.info.5 } else { 0int }
}

/// The state with effect `e` applied: its registers with the flag nibble
/// cleared, its branch flag, queued writeback, halt request and interrupt
/// flag, and the budget adjusted for a taken branch.
pub open spec fn applied(c: Context, e: Effect) -> Context {
    Context {
        regs: Registers { af: e.regs.af & 0xFFF0, ..e.regs },
        branch_taken: e.branch_taken,
        write_op: e.write_op,
        should_halt: c.should_halt || e.halt,
        intr_enabled: e.intr_enabled,
        remaining_cycles: budget_after(c, e.branch_taken) as u8,
        ..c
    }
}

/// What execution makes of the semantics' outcome `res`: an effect is applied
/// and the next phase picked, but a writeback with no budget left is an
/// illegal opcode; a speed-switch request changes nothing but arming the halt
/// workaround; any other failure is passed on.
pub open spec fn exec_post(c: Context, res: Result<Effect, TraceEvent>, new: Context, r: Result<
    (),
    TraceEvent,
>) -> bool {
    match res {
        Ok(e) => if e.write_op is Some && budget_after(c, e.branch_taken) == 0 {
            r == Err::<(), TraceEvent>(TraceEvent::IllegalOpcode(c.opcode))
        } else {
            r is Ok && new == scheduled(settle_halt(applied(c, e)))
        },
        Err(TraceEvent::CgbSpeedSwitchReq) => r is Ok && new == scheduled(
            settle_halt(Context { ignore_next_halt: true, ..c }),
        ),
        Err(ev) => r == Err::<(), TraceEvent>(ev),
    }
}

/// Some outcome of the semantics leads from `c` to `new` and `r`.
pub open spec fn executed(c: Context, new: Context, r: Result<(), TraceEvent>) -> bool {
    exists|res: Result<Effect, TraceEvent>| #[trigger] exec_post(c, res, new, r)
}

/// The fetch tick reaches execution.
pub open spec fn fetch_executes<I: InstructionSet>(
    c: Context,
    bps: Set<u16>,
    set: I,
    bus: Map<Region, Seq<u8>>,
) -> bool {
    &&& !(!c.paused && bps.contains(c.regs.pc))
    &&& read_at::<u8>(bus, c.regs.pc) is Some
    &&& info_ok(set.spec_info(read_at::<u8>(bus, c.regs.pc)->0))
    &&& set.spec_info(read_at::<u8>(bus, c.regs.pc)->0).3 <= 1
    &&& !is_memory(set.spec_info(read_at::<u8>(bus, c.regs.pc)->0).2)
}

/// The opcode-fetch phase: stop at an armed breakpoint unless paused; else
/// fetch the opcode, reject metadata the engine cannot carry out, and either
/// go on to the next fetch phase or execute at once.
pub open spec fn fetch_post<I: InstructionSet>(
    c: Context,
    bps: Set<u16>,
    set: I,
    bus: Map<Region, Seq<u8>>,
    new: Context,
    r: Result<(), TraceEvent>,
) -> bool {
    if !c.paused && bps.contains(c.regs.pc) {
        r == Err::<(), TraceEvent>(TraceEvent::Breakpoint(c.regs.pc))
    } else {
        match read_at::<u8>(bus, c.regs.pc) {
            None => r == Err::<(), TraceEvent>(TraceEvent::InvalidAddress(c.regs.pc)),
            Some(op) => if !info_ok(set.spec_info(op)) {
                r == Err::<(), TraceEvent>(TraceEvent::IllegalOpcode(op))
            } else if set.spec_info(op).3 > 1 || is_memory(set.spec_info(op).2) {
                r is Ok && new == after_fetch(c, op, set.spec_info(op))
            } else {
                executed(after_fetch(c, op, set.spec_info(op)), new, r)
            },
        }
    }
}

/// The immediate-fetch phases.
pub open spec fn byte_post(c: Context, bus: Map<Region, Seq<u8>>, new: Context, r: Result<
    (),
    TraceEvent,
>) -> bool {
    match read_at::<u8>(bus, c.regs.pc) {
        None => r == Err::<(), TraceEvent>(TraceEvent::InvalidAddress(c.regs.pc)),
        Some(d) => if byte_executes(c, d) {
            executed(after_byte(c, d), new, r)
        } else {
            r is Ok && new == after_byte(c, d)
        },
    }
}

/// The memory phase: load the operand, then execute.
pub open spec fn load_post(c: Context, bus: Map<Region, Seq<u8>>, new: Context, r: Result<
    (),
    TraceEvent,
>) -> bool {
    match memory_operand(c, bus) {
        None => r == Err::<(), TraceEvent>(TraceEvent::InvalidAddress(operand_address(c))),
        Some(v) => executed(after_load(c, v), new, r),
    }
}

/// The phase after a writeback: a delay that spends the rest of the budget, or
/// the next fetch.
pub open spec fn after_writeback(c: Context) -> Context {
    Context {
        state: if c.remaining_cycles > 0 {
            CpuState::Delay(((c.remaining_cycles - 1) / 4) as u8)
        } else {
            CpuState::FetchOpcode
        },
        executing: c.remaining_cycles > 0,
        ..c
    }
}

/// The writeback phase: the queued memory effect on the bus and registers.
pub open spec fn writeback_post(
    c: Context,
    bus: Map<Region, Seq<u8>>,
    new_bus: Map<Region, Seq<u8>>,
    new: Context,
    r: Result<(), TraceEvent>,
) -> bool {
    let next = after_writeback(c);
    let sp = c.regs.sp;
    match c.write_op {
        Some(WritebackOp::Write8(a, v)) => {
            &&& new_bus == write_at::<u8>(bus, a, v)
            &&& if reachable(bus, a, 1) {
                r is Ok && new == next
            } else {
                r == Err::<(), TraceEvent>(TraceEvent::InvalidAddress(a))
            }
        },
        Some(WritebackOp::Write16(a, v)) => {
            &&& new_bus == write_at::<u16>(bus, a, v)
            &&& if reachable(bus, a, 2) {
                r is Ok && new == next
            } else {
                r == Err::<(), TraceEvent>(TraceEvent::InvalidAddress(a))
            }
        },
        Some(WritebackOp::Push(v)) => {
            &&& new_bus == write_at::<u16>(bus, sub2(sp), v)
            &&& if reachable(bus, sub2(sp), 2) {
                r is Ok && new == (Context { regs: Registers { sp: sub2(sp), ..c.regs }, ..next })
            } else {
                r == Err::<(), TraceEvent>(TraceEvent::InvalidAddress(sub2(sp)))
            }
        },
        Some(WritebackOp::Return) => {
            &&& new_bus == bus
            &&& match read_at::<u16>(bus, sp) {
                Some(v) => r is Ok && new == (Context {
                    regs: Registers { pc: v, sp: add2(sp), ..c.regs },
                    ..next
                }),
                None => r == Err::<(), TraceEvent>(TraceEvent::InvalidAddress(sp)),
            }
        },
        None => r is Ok && new == next && new_bus == bus,
    }
}

/// A delay tick: count down, and return to the fetch phase after the last.
pub open spec fn after_delay(c: Context, n: u8) -> Context {
    Context {
        state: if n == 0 {
            CpuState::FetchOpcode
        } else {
            CpuState::Delay((n - 1) as u8)
        },
        executing: n != 0 && c.executing,
        ..c
    }
}

/// The state on entry to a phase after the fetch: one tick taken from the
/// budget and counted.
pub open spec fn spent(c: Context) -> Context {
    Context {
        remaining_cycles: (c.remaining_cycles - 4) as u8,
        ticks: Ghost(c.ticks@ + 1),
        ..c
    }
}

/// One tick of the engine from `c`: the phase that `c.state` names, with the
/// bus from `bus` to `new_bus`, ending in `new` when it goes through. Only
/// execution, which runs the instruction's semantics, changes the bus outside
/// the writeback phase.
pub open spec fn tick_post<I: InstructionSet>(
    c: Context,
    bps: Set<u16>,
    set: I,
    bus: Map<Region, Seq<u8>>,
    new_bus: Map<Region, Seq<u8>>,
    new: Context,
    r: Result<(), TraceEvent>,
) -> bool {
    match c.state {
        CpuState::FetchOpcode => {
            &&& fetch_post(c, bps, set, bus, new, r)
            &&& !fetch_executes(c, bps, set, bus) ==> new_bus == bus
        },
        CpuState::FetchMemory => {
            &&& load_post(spent(c), bus, new, r)
            &&& memory_operand(spent(c), bus) is None ==> new_bus == bus
        },
        CpuState::Writeback => writeback_post(spent(c), bus, new_bus, new, r),
        CpuState::Delay(n) => r is Ok && new == after_delay(spent(c), n) && new_bus == bus,
        _ => {
            &&& byte_post(spent(c), bus, new, r)
            &&& !(read_at::<u8>(bus, c.regs.pc) is Some && byte_executes(
                spent(c),
                read_at::<u8>(bus, c.regs.pc)->0,
            )) ==> new_bus == bus
        },
    }
}

/// Cycle-budget conservation: when `tick` has brought an instruction back to
/// the fetch phase, the ticks it took, counted from its own fetch, are its
/// untaken cycle count over four, or its taken count over four once its
/// branch was taken, plus two for a prefixed operation on (HL); however many
/// fetch, memory, writeback and delay phases it went through.
pub proof fn lemma_cycle_budget(c: Context)
    requires
        phase_done(c),
        c.state == CpuState::FetchOpcode,
    ensures
        c.ticks@ == (if c.branch_taken { c.info.4 } else { c.info.5 }) / 4 + (if cb_hl(c) {
            2int
        } else {
            0
        }),
{
}

/// `x - 2`, wrapping.
pub open spec fn sub2(x: u16) -> u16 {
    if x >= 2 { (x - 2) as u16 } else { (x + 0xFFFE) as u16 }
}

/// `x + 2`, wrapping.
pub open spec fn add2(x: u16) -> u16 {
    if x <= 0xFFFD { (x + 2) as u16 } else { (x - 0xFFFE) as u16 }
}

/// `x + 1`, wrapping.
pub open spec fn add1(x: u16) -> u16 {
    if x < 0xFFFF { (x + 1) as u16 } else { 0 }
}

fn wrap_sub2(x: u16) -> (r: u16)
    ensures
        r == sub2(x),
{
    if x >= 2 { x - 2 } else { x + 0xFFFE }
}

fn wrap_add2(x: u16) -> (r: u16)
    ensures
        r == add2(x),
{
    if x <= 0xFFFD { x + 2 } else { x - 0xFFFE }
}

fn wrap_add1(x: u16) -> (r: u16)
    ensures
        r == add1(x),
{
    if x < 0xFFFF { x + 1 } else { 0 }
}

/// State on entry to a phase, once the tick has taken its cycles from the
/// budget: the budget and the ticks spent still make up the instruction.
pub open spec fn entry_ok(c: Context) -> bool {
    &&& c.regs.af & 0xF == 0
    &&& counts_ok(c.info)
    &&& c.remaining_cycles % 4 == 0
    &&& c.ticks@ >= 1
    &&& 4 * c.ticks@ + c.remaining_cycles == instr_cycles(c)
}

/// The end of a phase that went through: the invariant holds, and an
/// instruction that has come back to the fetch phase took exactly its cycles.
pub open spec fn phase_done(c: Context) -> bool {
    &&& ctx_ok(c)
    &&& c.state == CpuState::FetchOpcode ==> 4 * c.ticks@ == instr_cycles(c)
}

impl OpcodeInfo {
    pub fn is_valid(&self) -> (r: bool)
        ensures
            r == info_ok(*self),
    {
        let mem: u8 = match self.2 {
            OperandLocation::Memory(_) => 1,
            _ => 0,
        };
        1 <= self.3 && self.3 <= 3 && self.4 % 4 == 0 && self.5 % 4 == 0 && self.5 <= self.4
            && self.4 <= 240 && self.5 >= 4 * (self.3 + mem)
    }
}

impl CPU {
    pub fn new() -> (c: CPU)
        ensures
            ctx_ok(c.ctx),
            c.ctx.state == CpuState::FetchOpcode,
            c.ctx.regs == (Registers { af: 0, bc: 0, de: 0, hl: 0, sp: 0, pc: 0 }),
            !c.ctx.paused,
            !c.ctx.executing,
            !c.ctx.halted && !c.ctx.halt_bug && !c.ctx.should_halt && !c.ctx.intr_enabled,
            !c.ctx.ignore_next_halt,
            c.ctx.opcode == 0 && !c.ctx.cb_mode && c.ctx.operand == 0,
            c.ctx.write_op is None && !c.ctx.branch_taken && c.ctx.remaining_cycles == 0,
            c.breakpoints@ == Set::<u16>::empty(),
    {
        let c = CPU {
            ctx: Context {
                regs: Registers { af: 0, bc: 0, de: 0, hl: 0, sp: 0, pc: 0 },
                halted: false,
                halt_bug: false,
                should_halt: false,
                intr_enabled: false,
                state: CpuState::FetchOpcode,
                info: OpcodeInfo("NOP", OperandLocation::Register, OperandLocation::Register, 1, 4, 4),
                opcode: 0,
                cb_mode: false,
                operand: 0,
                write_op: None,
                executing: false,
                branch_taken: false,
                remaining_cycles: 0,
                paused: false,
                ignore_next_halt: false,
                ticks: Ghost(0),
            },
            breakpoints: HashSet::new(),
        };
        assert(0u16 & 0xF == 0) by (bit_vector);
        c
    }

    /// Runs one machine cycle of the state machine: exactly the phase that the
    /// state names. On failure every piece of CPU state is put back as it was
    /// before the tick and the engine pauses; bus writes already made stay.
    pub fn tick<I: InstructionSet>(&mut self, set: &mut I, bus: &mut Bus) -> (r: Result<
        (),
        TraceEvent,
    >)
        requires
            ctx_ok(old(self).ctx),
        ensures
            final(self).breakpoints@ == old(self).breakpoints@,
            ctx_ok(final(self).ctx),
            match r {
                Ok(()) => {
                    &&& phase_done(final(self).ctx)
                    &&& old(self).ctx.state == CpuState::FetchOpcode ==> final(self).ctx.ticks@ == 1
                    &&& old(self).ctx.state != CpuState::FetchOpcode ==> {
                        &&& final(self).ctx.ticks@ == old(self).ctx.ticks@ + 1
                        &&& final(self).ctx.info.3 == old(self).ctx.info.3
                        &&& final(self).ctx.info.4 == old(self).ctx.info.4
                        &&& final(self).ctx.info.5 == old(self).ctx.info.5
                        &&& final(self).ctx.cb_mode == old(self).ctx.cb_mode
                    }
                },
                Err(_) => final(self).ctx == (Context { paused: true, ..old(self).ctx }),
            },
            exists|mid: Context|
                #[trigger] tick_post(
                    old(self).ctx,
                    old(self).breakpoints@,
                    *old(set),
                    old(bus)@,
                    final(bus)@,
                    mid,
                    r,
                ) && (r is Ok ==> final(self).ctx == mid),
    {
        let saved = self.ctx;
        let ghost s0 = *set;
        let ghost b0 = bus@;
        let ghost bps = self.breakpoints@;
        let res = self.run_phase(set, bus);
        let ghost mid = self.ctx;
        assert(tick_post(saved, bps, s0, b0, bus@, mid, res));
        if res.is_err() {
            self.ctx = saved;
            self.ctx.paused = true;
        }
        res
    }

    /// The phase that the state names, for one tick.
    #[verifier::rlimit(100)]
    fn run_phase<I: InstructionSet>(&mut self, set: &mut I, bus: &mut Bus) -> (r: Result<
        (),
        TraceEvent,
    >)
        requires
            ctx_ok(old(self).ctx),
        ensures
            final(self).breakpoints@ == old(self).breakpoints@,
            r is Ok ==> {
                &&& phase_done(final(self).ctx)
                &&& old(self).ctx.state == CpuState::FetchOpcode ==> final(self).ctx.ticks@ == 1
                &&& old(self).ctx.state != CpuState::FetchOpcode ==> {
                    &&& final(self).ctx.ticks@ == old(self).ctx.ticks@ + 1
                    &&& final(self).ctx.info.3 == old(self).ctx.info.3
                    &&& final(self).ctx.info.4 == old(self).ctx.info.4
                    &&& final(self).ctx.info.5 == old(self).ctx.info.5
                    &&& final(self).ctx.cb_mode == old(self).ctx.cb_mode
                }
            },
            tick_post(
                old(self).ctx,
                old(self).breakpoints@,
                *old(set),
                old(bus)@,
                final(bus)@,
                final(self).ctx,
                r,
            ),
    {
        match self.ctx.state {
            CpuState::FetchOpcode => self.fetch_opcode(set, bus),
            CpuState::Delay(n) => {
                self.spend_tick();
                if n == 0 {
                    self.ctx.state = CpuState::FetchOpcode;
                    self.ctx.executing = false;
                } else {
                    self.ctx.state = CpuState::Delay(n - 1);
                }
                Ok(())
            },
            CpuState::FetchMemory => {
                self.spend_tick();
                self.fetch_memory(set, bus)
            },
            CpuState::Writeback => {
                self.spend_tick();
                self.writeback(bus)
            },
            _ => {
                self.spend_tick();
                self.fetch_immediate(set, bus)
            },
        }
    }

    /// Takes one tick from the budget of the instruction under way.
    fn spend_tick(&mut self)
        requires
            old(self).ctx.remaining_cycles >= 4,
        ensures
            final(self).ctx == spent(old(self).ctx),
            final(self).breakpoints@ == old(self).breakpoints@,
    {
        self.ctx.remaining_cycles = self.ctx.remaining_cycles - CYCLES_PER_TICK;
        self.ctx.ticks = Ghost(self.ctx.ticks@ + 1);
    }

    fn fetch_opcode<I: InstructionSet>(&mut self, set: &mut I, bus: &mut Bus) -> (r: Result<
        (),
        TraceEvent,
    >)
        requires
            ctx_ok(old(self).ctx),
            old(self).ctx.state == CpuState::FetchOpcode,
        ensures
            final(self).breakpoints@ == old(self).breakpoints@,
            r is Ok ==> phase_done(final(self).ctx) && final(self).ctx.ticks@ == 1,
            fetch_post(
                old(self).ctx,
                old(self).breakpoints@,
                *old(set),
                old(bus)@,
                final(self).ctx,
                r,
            ),
            !fetch_executes(
                old(self).ctx,
                old(self).breakpoints@,
                *old(set),
                old(bus)@,
            ) ==> final(bus)@ == old(bus)@,
    {
        if !self.ctx.paused && self.breakpoints.contains(&self.ctx.regs.pc) {
            self.pause();
            return Err(TraceEvent::Breakpoint(self.ctx.regs.pc));
        }
        self.resume();
        let op = self.fetch_pc(bus)?;
        let info = set.info(op);
        assert(info == set.spec_info(op));
        if !info.is_valid() {
            return Err(TraceEvent::IllegalOpcode(op));
        }
        self.ctx.opcode = op;
        self.ctx.info = info;
        self.ctx.operand = 0;
        self.ctx.cb_mode = op == 0xCB;
        self.ctx.write_op = None;
        self.ctx.executing = true;
        self.ctx.branch_taken = false;
        self.ctx.remaining_cycles = info.5 - CYCLES_PER_TICK;
        self.ctx.ticks = Ghost(1);
        assert(0xCBu8 & 7 == 3) by (bit_vector);
        if info.3 > 1 {
            self.ctx.state = CpuState::FetchByte0;
            Ok(())
        } else if let OperandLocation::Memory(_) = info.2 {
            self.ctx.state = CpuState::FetchMemory;
            Ok(())
        } else {
            self.ctx.state = CpuState::FetchMemory;
            self.exec(set, bus)
        }
    }

    #[verifier::rlimit(60)]
    fn fetch_immediate<I: InstructionSet>(&mut self, set: &mut I, bus: &mut Bus) -> (r: Result<
        (),
        TraceEvent,
    >)
        requires
            entry_ok(old(self).ctx),
            !old(self).ctx.branch_taken,
            old(self).ctx.write_op is None,
            old(self).ctx.state is FetchByte0 ==> {
                &&& old(self).ctx.operand == 0
                &&& old(self).ctx.info.3 >= 2
                &&& !cb_hl(old(self).ctx)
                &&& old(self).ctx.remaining_cycles + 4 >= 4 * (old(self).ctx.info.3 - 1
                    + mem_ticks(old(self).ctx.info.2))
            },
            old(self).ctx.state is FetchByte1 ==> old(self).ctx.operand < 256
                && old(self).ctx.remaining_cycles >= 4 * mem_ticks(old(self).ctx.info.2),
            old(self).ctx.state is FetchByte0 || old(self).ctx.state is FetchByte1,
        ensures
            final(self).breakpoints@ == old(self).breakpoints@,
            r is Ok ==> phase_done(final(self).ctx) && final(self).ctx.ticks == old(self).ctx.ticks,
            byte_post(old(self).ctx, old(bus)@, final(self).ctx, r),
            !(read_at::<u8>(old(bus)@, old(self).ctx.regs.pc) is Some && byte_executes(
                old(self).ctx,
                read_at::<u8>(old(bus)@, old(self).ctx.regs.pc)->0,
            )) ==> final(bus)@ == old(bus)@,
    {
        let ghost c0 = self.ctx;
        let d8 = self.fetch_pc(bus)?;
        if let CpuState::FetchByte0 = self.ctx.state {
            let before = self.ctx.operand;
            self.ctx.operand = before | u16::from(d8);
            assert(before == 0 ==> (before | (d8 as u16)) < 256) by (bit_vector);
            // Prefixed opcodes: the byte just fetched selects the operation,
            // and an (HL) operand costs one more memory round trip.
            if self.ctx.cb_mode {
                let operand = self.ctx.operand;
                self.ctx.opcode = #[verifier::truncate] (operand as u8);
                assert(((operand as u8) & 7 == 6) == (operand & 7 == 6)) by (bit_vector);
                if operand & 0x7 == 0x6 {
                    self.ctx.info.2 = OperandLocation::Memory(MemoryAddressing::HL);
                    self.ctx.remaining_cycles = self.ctx.remaining_cycles + 8;
                }
            }
            if self.ctx.info.3 > 2 {
                self.ctx.state = CpuState::FetchByte1;
                assert(self.ctx == after_byte(c0, d8));
                Ok(())
            } else {
                self.ctx.state = CpuState::FetchMemory;
                assert(self.ctx == after_byte(c0, d8));
                if let OperandLocation::Memory(_) = self.ctx.info.2 {
                    Ok(())
                } else {
                    self.exec(set, bus)
                }
            }
        } else {
            let before = self.ctx.operand;
            self.ctx.operand = before | (u16::from(d8) << 8);
            self.ctx.state = CpuState::FetchMemory;
            assert(self.ctx == after_byte(c0, d8));
            if let OperandLocation::Memory(_) = self.ctx.info.2 {
                Ok(())
            } else {
                self.exec(set, bus)
            }
        }
    }

    /// Loads the memory operand; a pop advances the stack pointer.
    fn load_operand(&mut self, bus: &Bus) -> (r: Result<(), TraceEvent>)
        ensures
            final(self).breakpoints@ == old(self).breakpoints@,
            match memory_operand(old(self).ctx, bus@) {
                Some(v) => r is Ok && final(self).ctx == after_load(old(self).ctx, v),
                None => r == Err::<(), TraceEvent>(TraceEvent::InvalidAddress(
                    operand_address(old(self).ctx),
                )) && final(self).ctx == old(self).ctx,
            },
    {
        if let OperandLocation::Memory(MemoryAddressing::SP) = self.ctx.info.2 {
            match bus.read::<u16>(self.ctx.regs.sp) {
                Ok(v) => {
                    self.ctx.operand = v;
                    self.ctx.regs.sp = wrap_add2(self.ctx.regs.sp);
                    Ok(())
                },
                Err(e) => Err(TraceEvent::from_bus(e)),
            }
        } else {
            let addr = match self.ctx.info.2 {
                OperandLocation::Memory(MemoryAddressing::C) => 0xFF00 + u16::from(self.c()),
                OperandLocation::Memory(MemoryAddressing::IO) => {
                    let lo = #[verifier::truncate] (self.ctx.operand as u8);
                    0xFF00 + u16::from(lo)
                },
                OperandLocation::Memory(MemoryAddressing::BC) => self.ctx.regs.bc,
                OperandLocation::Memory(MemoryAddressing::DE) => self.ctx.regs.de,
                OperandLocation::Memory(MemoryAddressing::HL) => self.ctx.regs.hl,
                OperandLocation::Memory(MemoryAddressing::A16) => self.ctx.operand,
                _ => self.ctx.regs.sp,
            };
            match bus.read::<u8>(addr) {
                Ok(v) => {
                    self.ctx.operand = v as u16;
                    Ok(())
                },
                Err(e) => Err(TraceEvent::from_bus(e)),
            }
        }
    }

    fn fetch_memory<I: InstructionSet>(&mut self, set: &mut I, bus: &mut Bus) -> (r: Result<
        (),
        TraceEvent,
    >)
        requires
            entry_ok(old(self).ctx),
            !old(self).ctx.branch_taken,
            old(self).ctx.write_op is None,
            is_memory(old(self).ctx.info.2),
        ensures
            final(self).breakpoints@ == old(self).breakpoints@,
            r is Ok ==> phase_done(final(self).ctx) && final(self).ctx.ticks == old(self).ctx.ticks,
            load_post(old(self).ctx, old(bus)@, final(self).ctx, r),
            memory_operand(old(self).ctx, old(bus)@) is None ==> final(bus)@ == old(bus)@,
    {
        self.load_operand(bus)?;
        self.exec(set, bus)
    }

    /// Runs the instruction's semantics, then picks the next phase.
    fn exec<I: InstructionSet>(&mut self, set: &mut I, bus: &mut Bus) -> (r: Result<
        (),
        TraceEvent,
    >)
        requires
            entry_ok(old(self).ctx),
            !old(self).ctx.branch_taken,
            old(self).ctx.write_op is None,
        ensures
            final(self).breakpoints@ == old(self).breakpoints@,
            r is Ok ==> phase_done(final(self).ctx) && final(self).ctx.ticks == old(self).ctx.ticks,
            executed(old(self).ctx, final(self).ctx, r),
    {
        let res = set.execute(&*self, bus);
        self.finish_exec(res)
    }

    /// Applies the outcome `res` of the instruction's semantics and picks the
    /// next phase.
    #[verifier::rlimit(60)]
    fn finish_exec(&mut self, res: Result<Effect, TraceEvent>) -> (r: Result<(), TraceEvent>)
        requires
            entry_ok(old(self).ctx),
            !old(self).ctx.branch_taken,
            old(self).ctx.write_op is None,
        ensures
            final(self).breakpoints@ == old(self).breakpoints@,
            r is Ok ==> phase_done(final(self).ctx) && final(self).ctx.ticks == old(self).ctx.ticks,
            exec_post(old(self).ctx, res, final(self).ctx, r),
    {
        match res {
            Ok(e) => {
                self.apply_effect(e)?;
            },
            Err(TraceEvent::CgbSpeedSwitchReq) => {
                // Only arms the workaround for the stop that follows.
                self.ctx.ignore_next_halt = true;
            },
            Err(e) => {
                return Err(e);
            },
        }
        self.settle_halt();
        self.schedule();
        Ok(())
    }

    /// Applies effect `e`; refuses a writeback that has no budget left.
    fn apply_effect(&mut self, e: Effect) -> (r: Result<(), TraceEvent>)
        requires
            entry_ok(old(self).ctx),
            !old(self).ctx.branch_taken,
        ensures
            final(self).breakpoints@ == old(self).breakpoints@,
            if e.write_op is Some && budget_after(old(self).ctx, e.branch_taken) == 0 {
                r == Err::<(), TraceEvent>(TraceEvent::IllegalOpcode(old(self).ctx.opcode))
                    && final(self).ctx == old(self).ctx
            } else {
                r is Ok && final(self).ctx == applied(old(self).ctx, e)
            },
            budget_after(old(self).ctx, e.branch_taken) <= 244,
            final(self).ctx.regs.af & 0xF == 0,
    {
        let rem = if e.branch_taken {
            self.ctx.remaining_cycles + (self.ctx.info.4 - self.ctx.info.5)
        } else {
            self.ctx.remaining_cycles
        };
        if e.write_op.is_some() && rem == 0 {
            return Err(TraceEvent::IllegalOpcode(self.ctx.opcode));
        }
        let af = e.regs.af;
        assert((af & 0xFFF0) & 0xF == 0) by (bit_vector);
        self.ctx.regs = Registers { af: af & 0xFFF0, ..e.regs };
        self.ctx.branch_taken = e.branch_taken;
        self.ctx.write_op = e.write_op;
        self.ctx.should_halt = self.ctx.should_halt || e.halt;
        self.ctx.intr_enabled = e.intr_enabled;
        self.ctx.remaining_cycles = rem;
        Ok(())
    }

    /// A speed switch is followed by a stop that must not halt.
    fn settle_halt(&mut self)
        ensures
            final(self).ctx == settle_halt(old(self).ctx),
            final(self).breakpoints@ == old(self).breakpoints@,
    {
        if self.ctx.should_halt && self.ctx.ignore_next_halt {
            self.ctx.ignore_next_halt = false;
            self.ctx.should_halt = false;
        }
    }

    /// Picks the phase that follows execution.
    fn schedule(&mut self)
        ensures
            final(self).ctx == scheduled(old(self).ctx),
            final(self).breakpoints@ == old(self).breakpoints@,
    {
        if self.ctx.write_op.is_some() {
            self.ctx.state = CpuState::Writeback;
            self.ctx.executing = true;
        } else if self.ctx.remaining_cycles > 0 {
            self.ctx.state = CpuState::Delay((self.ctx.remaining_cycles - 1) / 4);
            self.ctx.executing = true;
        } else {
            self.ctx.state = CpuState::FetchOpcode;
            self.ctx.executing = false;
        }
    }

    /// Performs the deferred memory effect, then picks the next phase.
    fn writeback(&mut self, bus: &mut Bus) -> (r: Result<(), TraceEvent>)
        requires
            entry_ok(old(self).ctx),
            old(self).ctx.write_op is Some,
        ensures
            final(self).breakpoints@ == old(self).breakpoints@,
            r is Ok ==> phase_done(final(self).ctx) && final(self).ctx.ticks == old(self).ctx.ticks,
            writeback_post(old(self).ctx, old(bus)@, final(bus)@, final(self).ctx, r),
    {
        if self.ctx.remaining_cycles > 0 {
            self.ctx.state = CpuState::Delay((self.ctx.remaining_cycles - 1) / 4);
            self.ctx.executing = true;
        } else {
            self.ctx.state = CpuState::FetchOpcode;
            self.ctx.executing = false;
        }
        let res = match self.ctx.write_op {
            Some(WritebackOp::Write8(dest, d8)) => bus.write::<u8>(dest, d8),
            Some(WritebackOp::Write16(dest, d16)) => bus.write::<u16>(dest, d16),
            Some(WritebackOp::Push(d16)) => {
                self.ctx.regs.sp = wrap_sub2(self.ctx.regs.sp);
                bus.write::<u16>(self.ctx.regs.sp, d16)
            },
            Some(WritebackOp::Return) => {
                // A pop into the program counter.
                match bus.read::<u16>(self.ctx.regs.sp) {
                    Ok(v) => {
                        self.ctx.regs.pc = v;
                        self.ctx.regs.sp = wrap_add2(self.ctx.regs.sp);
                        Ok(())
                    },
                    Err(e) => Err(e),
                }
            },
            None => Ok(()),
        };
        match res {
            Ok(()) => Ok(()),
            Err(e) => Err(TraceEvent::from_bus(e)),
        }
    }

    /// Pushes the program counter and jumps to the interrupt vector `addr`.
    /// Where the push fails, nothing changes.
    pub fn jump_to_isr(&mut self, bus: &mut Bus, addr: u16) -> (r: Result<(), TraceEvent>)
        ensures
            final(self).breakpoints@ == old(self).breakpoints@,
            final(bus)@ == write_at::<u16>(old(bus)@, sub2(old(self).ctx.regs.sp), old(self).ctx.regs.pc),
            r is Ok <==> reachable(old(bus)@, sub2(old(self).ctx.regs.sp), 2),
            r is Ok ==> final(self).ctx == (Context {
                regs: Registers { sp: sub2(old(self).ctx.regs.sp), pc: addr, ..old(self).ctx.regs },
                ..old(self).ctx
            }),
            r is Err ==> final(self).ctx == old(self).ctx && r == Err::<(), TraceEvent>(
                TraceEvent::InvalidAddress(sub2(old(self).ctx.regs.sp)),
            ),
    {
        let sp = wrap_sub2(self.ctx.regs.sp);
        match bus.write::<u16>(sp, self.ctx.regs.pc) {
            Ok(()) => {
                self.ctx.regs.sp = sp;
                self.ctx.regs.pc = addr;
                Ok(())
            },
            Err(e) => Err(TraceEvent::from_bus(e)),
        }
    }

    /// Reads the byte at the program counter and advances it.
    pub fn fetch_pc(&mut self, bus: &Bus) -> (r: Result<u8, TraceEvent>)
        ensures
            final(self).breakpoints@ == old(self).breakpoints@,
            match r {
                Ok(v) => read_at::<u8>(bus@, old(self).ctx.regs.pc) == Some(v) && final(self).ctx
                    == (Context {
                    regs: Registers { pc: add1(old(self).ctx.regs.pc), ..old(self).ctx.regs },
                    ..old(self).ctx
                }),
                Err(e) => read_at::<u8>(bus@, old(self).ctx.regs.pc) is None && e
                    == TraceEvent::InvalidAddress(old(self).ctx.regs.pc) && final(self).ctx == old(
                    self,
                ).ctx,
            },
    {
        match bus.read::<u8>(self.ctx.regs.pc) {
            Ok(v) => {
                self.ctx.regs.pc = wrap_add1(self.ctx.regs.pc);
                Ok(v)
            },
            Err(e) => Err(TraceEvent::from_bus(e)),
        }
    }

    pub fn resume(&mut self)
        ensures
            final(self).ctx == (Context { paused: false, ..old(self).ctx }),
            final(self).breakpoints@ == old(self).breakpoints@,
    {
        self.ctx.paused = false;
    }

    pub fn pause(&mut self)
        ensures
            final(self).ctx == (Context { paused: true, ..old(self).ctx }),
            final(self).breakpoints@ == old(self).breakpoints@,
    {
        self.ctx.paused = true;
    }

    pub fn paused(&self) -> (r: bool)
        ensures
            r == self.ctx.paused,
    {
        self.ctx.paused
    }

    pub fn set_breakpoint(&mut self, addr: u16)
        ensures
            final(self).breakpoints@ == old(self).breakpoints@.insert(addr),
            final(self).ctx == old(self).ctx,
    {
        self.breakpoints.insert(addr);
    }

    pub fn clear_breakpoint(&mut self, addr: u16)
        ensures
            final(self).breakpoints@ == old(self).breakpoints@.remove(addr),
            final(self).ctx == old(self).ctx,
    {
        self.breakpoints.remove(&addr);
    }

    pub fn breakpoint_at(&self, addr: u16) -> (r: bool)
        ensures
            r == self.breakpoints@.contains(addr),
    {
        self.breakpoints.contains(&addr)
    }

    pub fn breakpoints(&self) -> (r: &HashSet<u16>)
        ensures
            r@ == self.breakpoints@,
    {
        &self.breakpoints
    }
}

/// Low byte of a register pair.
pub open spec fn lo_byte(x: u16) -> u8 {
    (x % 256) as u8
}

/// High byte of a register pair.
pub open spec fn hi_byte(x: u16) -> u8 {
    (x / 256) as u8
}

/// The flag bits kept in the low byte of `af`.
pub open spec fn flags_of(af: u16) -> u8 {
    lo_byte(af) & 0xF0
}

/// The flag at `mask` in the flag register.
pub open spec fn flag(af: u16, mask: u8) -> bool {
    flags_of(af) & mask != 0
}

impl CPU {
    pub fn c(&self) -> (v: u8)
        ensures
            v == lo_byte(self.ctx.regs.bc),
    {
        let x = self.ctx.regs.bc;
        assert((x as u8) == (x % 256) as u8) by (bit_vector);
        #[verifier::truncate] (x as u8)
    }
    pub fn e(&self) -> (v: u8)
        ensures
            v == lo_byte(self.ctx.regs.de),
    {
        let x = self.ctx.regs.de;
        assert((x as u8) == (x % 256) as u8) by (bit_vector);
        #[verifier::truncate] (x as u8)
    }
    pub fn l(&self) -> (v: u8)
        ensures
            v == lo_byte(self.ctx.regs.hl),
    {
        let x = self.ctx.regs.hl;
        assert((x as u8) == (x % 256) as u8) by (bit_vector);
        #[verifier::truncate] (x as u8)
    }
    pub fn a(&self) -> (v: u8)
        ensures
            v == hi_byte(self.ctx.regs.af),
    {
        let x = self.ctx.regs.af;
        assert(((x >> 8) as u8) == (x / 256) as u8) by (bit_vector);
        #[verifier::truncate] ((x >> 8) as u8)
    }
    pub fn b(&self) -> (v: u8)
        ensures
            v == hi_byte(self.ctx.regs.bc),
    {
        let x = self.ctx.regs.bc;
        assert(((x >> 8) as u8) == (x / 256) as u8) by (bit_vector);
        #[verifier::truncate] ((x >> 8) as u8)
    }
    pub fn d(&self) -> (v: u8)
        ensures
            v == hi_byte(self.ctx.regs.de),
    {
        let x = self.ctx.regs.de;
        assert(((x >> 8) as u8) == (x / 256) as u8) by (bit_vector);
        #[verifier::truncate] ((x >> 8) as u8)
    }
    pub fn h(&self) -> (v: u8)
        ensures
            v == hi_byte(self.ctx.regs.hl),
    {
        let x = self.ctx.regs.hl;
        assert(((x >> 8) as u8) == (x / 256) as u8) by (bit_vector);
        #[verifier::truncate] ((x >> 8) as u8)
    }
    /// The flag register: the low byte of `af`, whose low nibble is always clear.
    pub fn f(&self) -> (v: u8)
        ensures
            v == flags_of(self.ctx.regs.af),
    {
        let x = self.ctx.regs.af;
        assert(((x & 0x00F0) as u8) == ((x % 256) as u8) & 0xF0) by (bit_vector);
        #[verifier::truncate] ((x & 0x00F0) as u8)
    }
    pub fn set_c(&mut self, v: u8)
        ensures
            lo_byte(final(self).ctx.regs.bc) == v,
            hi_byte(final(self).ctx.regs.bc) == hi_byte(old(self).ctx.regs.bc),
            final(self).ctx == (Context {
                regs: Registers { bc: final(self).ctx.regs.bc, ..old(self).ctx.regs },
                ..old(self).ctx
            }),
            final(self).breakpoints@ == old(self).breakpoints@,
    {
        let x = self.ctx.regs.bc;
        let y = (x & 0xFF00) | u16::from(v);
        assert((y % 256) as u8 == v && y / 256 == x / 256) by (bit_vector)
            requires y == (x & 0xFF00) | (v as u16);
        self.ctx.regs.bc = y;
    }
    pub fn set_e(&mut self, v: u8)
        ensures
            lo_byte(final(self).ctx.regs.de) == v,
            hi_byte(final(self).ctx.regs.de) == hi_byte(old(self).ctx.regs.de),
            final(self).ctx == (Context {
                regs: Registers { de: final(self).ctx.regs.de, ..old(self).ctx.regs },
                ..old(self).ctx
            }),
            final(self).breakpoints@ == old(self).breakpoints@,
    {
        let x = self.ctx.regs.de;
        let y = (x & 0xFF00) | u16::from(v);
        assert((y % 256) as u8 == v && y / 256 == x / 256) by (bit_vector)
            requires y == (x & 0xFF00) | (v as u16);
        self.ctx.regs.de = y;
    }
    pub fn set_l(&mut self, v: u8)
        ensures
            lo_byte(final(self).ctx.regs.hl) == v,
            hi_byte(final(self).ctx.regs.hl) == hi_byte(old(self).ctx.regs.hl),
            final(self).ctx == (Context {
                regs: Registers { hl: final(self).ctx.regs.hl, ..old(self).ctx.regs },
                ..old(self).ctx
            }),
            final(self).breakpoints@ == old(self).breakpoints@,
    {
        let x = self.ctx.regs.hl;
        let y = (x & 0xFF00) | u16::from(v);
        assert((y % 256) as u8 == v && y / 256 == x / 256) by (bit_vector)
            requires y == (x & 0xFF00) | (v as u16);
        self.ctx.regs.hl = y;
    }
    pub fn set_a(&mut self, v: u8)
        ensures
            hi_byte(final(self).ctx.regs.af) == v,
            lo_byte(final(self).ctx.regs.af) == lo_byte(old(self).ctx.regs.af),
            final(self).ctx.regs.af & 0xF == old(self).ctx.regs.af & 0xF,
            final(self).ctx == (Context {
                regs: Registers { af: final(self).ctx.regs.af, ..old(self).ctx.regs },
                ..old(self).ctx
            }),
            final(self).breakpoints@ == old(self).breakpoints@,
    {
        let x = self.ctx.regs.af;
        let y = (x & 0x00FF) | (u16::from(v) << 8);
        assert(y / 256 == v as u16 && y % 256 == x % 256 && y & 0xF == x & 0xF) by (bit_vector)
            requires y == (x & 0x00FF) | ((v as u16) << 8);
        self.ctx.regs.af = y;
    }
    pub fn set_b(&mut self, v: u8)
        ensures
            hi_byte(final(self).ctx.regs.bc) == v,
            lo_byte(final(self).ctx.regs.bc) == lo_byte(old(self).ctx.regs.bc),
            final(self).ctx == (Context {
                regs: Registers { bc: final(self).ctx.regs.bc, ..old(self).ctx.regs },
                ..old(self).ctx
            }),
            final(self).breakpoints@ == old(self).breakpoints@,
    {
        let x = self.ctx.regs.bc;
        let y = (x & 0x00FF) | (u16::from(v) << 8);
        assert(y / 256 == v as u16 && y % 256 == x % 256 && y & 0xF == x & 0xF) by (bit_vector)
            requires y == (x & 0x00FF) | ((v as u16) << 8);
        self.ctx.regs.bc = y;
    }
    pub fn set_d(&mut self, v: u8)
        ensures
            hi_byte(final(self).ctx.regs.de) == v,
            lo_byte(final(self).ctx.regs.de) == lo_byte(old(self).ctx.regs.de),
            final(self).ctx == (Context {
                regs: Registers { de: final(self).ctx.regs.de, ..old(self).ctx.regs },
                ..old(self).ctx
            }),
            final(self).breakpoints@ == old(self).breakpoints@,
    {
        let x = self.ctx.regs.de;
        let y = (x & 0x00FF) | (u16::from(v) << 8);
        assert(y / 256 == v as u16 && y % 256 == x % 256 && y & 0xF == x & 0xF) by (bit_vector)
            requires y == (x & 0x00FF) | ((v as u16) << 8);
        self.ctx.regs.de = y;
    }
    pub fn set_h(&mut self, v: u8)
        ensures
            hi_byte(final(self).ctx.regs.hl) == v,
            lo_byte(final(self).ctx.regs.hl) == lo_byte(old(self).ctx.regs.hl),
            final(self).ctx == (Context {
                regs: Registers { hl: final(self).ctx.regs.hl, ..old(self).ctx.regs },
                ..old(self).ctx
            }),
            final(self).breakpoints@ == old(self).breakpoints@,
    {
        let x = self.ctx.regs.hl;
        let y = (x & 0x00FF) | (u16::from(v) << 8);
        assert(y / 256 == v as u16 && y % 256 == x % 256 && y & 0xF == x & 0xF) by (bit_vector)
            requires y == (x & 0x00FF) | ((v as u16) << 8);
        self.ctx.regs.hl = y;
    }
    /// Sets the flag register; the low nibble stays clear whatever `v` holds.
    pub fn set_f(&mut self, v: u8)
        ensures
            flags_of(final(self).ctx.regs.af) == v & 0xF0,
            lo_byte(final(self).ctx.regs.af) == v & 0xF0,
            final(self).ctx.regs.af & 0xF == 0,
            hi_byte(final(self).ctx.regs.af) == hi_byte(old(self).ctx.regs.af),
            final(self).ctx == (Context {
                regs: Registers { af: final(self).ctx.regs.af, ..old(self).ctx.regs },
                ..old(self).ctx
            }),
            final(self).breakpoints@ == old(self).breakpoints@,
    {
        let x = self.ctx.regs.af;
        let y = (x & 0xFF00) | u16::from(v & 0xF0);
        assert(((y % 256) as u8) & 0xF0 == v & 0xF0 && (y % 256) as u8 == v & 0xF0 && y & 0xF == 0
            && y / 256 == x / 256) by (bit_vector)
            requires y == (x & 0xFF00) | ((v & 0xF0) as u16);
        self.ctx.regs.af = y;
    }
    pub fn zf(&self) -> (r: bool)
        ensures
            r == flag(self.ctx.regs.af, 0x80),
    {
        (self.f() & 0x80) != 0
    }
    pub fn sf(&self) -> (r: bool)
        ensures
            r == flag(self.ctx.regs.af, 0x40),
    {
        (self.f() & 0x40) != 0
    }
    pub fn hc(&self) -> (r: bool)
        ensures
            r == flag(self.ctx.regs.af, 0x20),
    {
        (self.f() & 0x20) != 0
    }
    pub fn cy(&self) -> (r: bool)
        ensures
            r == flag(self.ctx.regs.af, 0x10),
    {
        (self.f() & 0x10) != 0
    }
    pub fn set_zf(&mut self, v: bool)
        ensures
            flag(final(self).ctx.regs.af, 0x80) == v,
            flag(final(self).ctx.regs.af, 0x40) == flag(old(self).ctx.regs.af, 0x40),
            flag(final(self).ctx.regs.af, 0x20) == flag(old(self).ctx.regs.af, 0x20),
            flag(final(self).ctx.regs.af, 0x10) == flag(old(self).ctx.regs.af, 0x10),
            final(self).ctx.regs.af & 0xF == 0,
            hi_byte(final(self).ctx.regs.af) == hi_byte(old(self).ctx.regs.af),
            final(self).ctx == (Context {
                regs: Registers { af: final(self).ctx.regs.af, ..old(self).ctx.regs },
                ..old(self).ctx
            }),
            final(self).breakpoints@ == old(self).breakpoints@,
    {
        let f = self.f();
        let bit: u8 = if v { 0x80 } else { 0 };
        let g = (f & (!0x80u8)) | bit;
        assert((g & 0xF0 & 0x80 != 0) == (bit != 0) && (g & 0xF0 & 0x40 != 0) == (f & 0x40 != 0) && (g & 0xF0 & 0x20 != 0) == (f & 0x20 != 0) && (g & 0xF0 & 0x10 != 0) == (f & 0x10 != 0)) by (bit_vector)
            requires g == (f & (!0x80u8)) | bit, bit == 0 || bit == 0x80;
        self.set_f(g);
    }
    pub fn set_sf(&mut self, v: bool)
        ensures
            flag(final(self).ctx.regs.af, 0x40) == v,
            flag(final(self).ctx.regs.af, 0x80) == flag(old(self).ctx.regs.af, 0x80),
            flag(final(self).ctx.regs.af, 0x20) == flag(old(self).ctx.regs.af, 0x20),
            flag(final(self).ctx.regs.af, 0x10) == flag(old(self).ctx.regs.af, 0x10),
            final(self).ctx.regs.af & 0xF == 0,
            hi_byte(final(self).ctx.regs.af) == hi_byte(old(self).ctx.regs.af),
            final(self).ctx == (Context {
                regs: Registers { af: final(self).ctx.regs.af, ..old(self).ctx.regs },
                ..old(self).ctx
            }),
            final(self).breakpoints@ == old(self).breakpoints@,
    {
        let f = self.f();
        let bit: u8 = if v { 0x40 } else { 0 };
        let g = (f & (!0x40u8)) | bit;
        assert((g & 0xF0 & 0x40 != 0) == (bit != 0) && (g & 0xF0 & 0x80 != 0) == (f & 0x80 != 0) && (g & 0xF0 & 0x20 != 0) == (f & 0x20 != 0) && (g & 0xF0 & 0x10 != 0) == (f & 0x10 != 0)) by (bit_vector)
            requires g == (f & (!0x40u8)) | bit, bit == 0 || bit == 0x40;
        self.set_f(g);
    }
    pub fn set_hc(&mut self, v: bool)
        ensures
            flag(final(self).ctx.regs.af, 0x20) == v,
            flag(final(self).ctx.regs.af, 0x80) == flag(old(self).ctx.regs.af, 0x80),
            flag(final(self).ctx.regs.af, 0x40) == flag(old(self).ctx.regs.af, 0x40),
            flag(final(self).ctx.regs.af, 0x10) == flag(old(self).ctx.regs.af, 0x10),
            final(self).ctx.regs.af & 0xF == 0,
            hi_byte(final(self).ctx.regs.af) == hi_byte(old(self).ctx.regs.af),
            final(self).ctx == (Context {
                regs: Registers { af: final(self).ctx.regs.af, ..old(self).ctx.regs },
                ..old(self).ctx
            }),
            final(self).breakpoints@ == old(self).breakpoints@,
    {
        let f = self.f();
        let bit: u8 = if v { 0x20 } else { 0 };
        let g = (f & (!0x20u8)) | bit;
        assert((g & 0xF0 & 0x20 != 0) == (bit != 0) && (g & 0xF0 & 0x80 != 0) == (f & 0x80 != 0) && (g & 0xF0 & 0x40 != 0) == (f & 0x40 != 0) && (g & 0xF0 & 0x10 != 0) == (f & 0x10 != 0)) by (bit_vector)
            requires g == (f & (!0x20u8)) | bit, bit == 0 || bit == 0x20;
        self.set_f(g);
    }
    pub fn set_cy(&mut self, v: bool)
        ensures
            flag(final(self).ctx.regs.af, 0x10) == v,
            flag(final(self).ctx.regs.af, 0x80) == flag(old(self).ctx.regs.af, 0x80),
            flag(final(self).ctx.regs.af, 0x40) == flag(old(self).ctx.regs.af, 0x40),
            flag(final(self).ctx.regs.af, 0x20) == flag(old(self).ctx.regs.af, 0x20),
            final(self).ctx.regs.af & 0xF == 0,
            hi_byte(final(self).ctx.regs.af) == hi_byte(old(self).ctx.regs.af),
            final(self).ctx == (Context {
                regs: Registers { af: final(self).ctx.regs.af, ..old(self).ctx.regs },
                ..old(self).ctx
            }),
            final(self).breakpoints@ == old(self).breakpoints@,
    {
        let f = self.f();
        let bit: u8 = if v { 0x10 } else { 0 };
        let g = (f & (!0x10u8)) | bit;
        assert((g & 0xF0 & 0x10 != 0) == (bit != 0) && (g & 0xF0 & 0x80 != 0) == (f & 0x80 != 0) && (g & 0xF0 & 0x40 != 0) == (f & 0x40 != 0) && (g & 0xF0 & 0x20 != 0) == (f & 0x20 != 0)) by (bit_vector)
            requires g == (f & (!0x10u8)) | bit, bit == 0 || bit == 0x10;
        self.set_f(g);
    }
}

} // verus!
