use gib_core::bus::Bus;
use gib_core::cpu::{
    CpuState, Effect, InstructionSet, MemoryAddressing, OpcodeInfo, OperandLocation, Registers,
    TraceEvent, WritebackOp, CPU,
};

use OperandLocation::{Immediate, Memory, Register};

/// A few opcodes with their usual encodings and timings.
struct Table {
    /// Whether conditional branches are taken.
    take: bool,
}

impl InstructionSet for Table {
    fn spec_info(&self, opcode: u8) -> OpcodeInfo {
        self.info(opcode)
    }

    fn info(&self, opcode: u8) -> OpcodeInfo {
        match opcode {
            0x00 => OpcodeInfo("NOP", Register, Register, 1, 4, 4),
            0x3E => OpcodeInfo("LD A,d8", Register, Immediate, 2, 8, 8),
            0x20 => OpcodeInfo("JR NZ,r8", Immediate, Immediate, 2, 12, 8),
            0xC4 => OpcodeInfo("CALL NZ,a16", Immediate, Immediate, 3, 24, 12),
            0xC9 => OpcodeInfo("RET", Register, Register, 1, 16, 16),
            0x77 => OpcodeInfo("LD (HL),A", Memory(MemoryAddressing::HL), Register, 1, 8, 8),
            0x7E => OpcodeInfo("LD A,(HL)", Register, Memory(MemoryAddressing::HL), 1, 8, 8),
            0xF0 => OpcodeInfo("LDH A,(a8)", Register, Memory(MemoryAddressing::IO), 2, 12, 12),
            0xC1 => OpcodeInfo("POP BC", Register, Memory(MemoryAddressing::SP), 1, 12, 12),
            0xCB => OpcodeInfo("PREFIX CB", Register, Register, 2, 8, 8),
            0x10 => OpcodeInfo("STOP", Register, Register, 1, 4, 4),
            0x76 => OpcodeInfo("HALT", Register, Register, 1, 4, 4),
            0xED => OpcodeInfo("FAULT", Register, Register, 1, 4, 4),
            0xEC => OpcodeInfo("BADWB", Register, Register, 1, 4, 4),
            0xD3 => OpcodeInfo("BAD", Register, Register, 0, 4, 4),
            _ => OpcodeInfo("NOP", Register, Register, 1, 4, 4),
        }
    }

    fn execute(&mut self, cpu: &CPU, bus: &mut Bus) -> Result<Effect, TraceEvent> {
        let mut regs = cpu.ctx.regs;
        let mut branch_taken = false;
        let mut write_op = None;
        let mut halt = false;
        if cpu.ctx.cb_mode {
            // BIT 0,r: zero flag from bit 0 of the operand or of A.
            let v = if cpu.ctx.opcode & 7 == 6 { cpu.ctx.operand as u8 } else { cpu.a() };
            let z: u16 = if v & 1 == 0 { 0x80 } else { 0 };
            regs.af = (regs.af & 0xFF00) | z | 0x20;
        } else {
            match cpu.ctx.opcode {
                0x3E | 0xF0 => regs.af = (cpu.ctx.operand << 8) | (regs.af & 0xFF),
                0x7E => regs.af = (cpu.ctx.operand << 8) | (regs.af & 0xFF),
                0xC1 => regs.bc = cpu.ctx.operand,
                0x20 => {
                    if self.take {
                        branch_taken = true;
                        let off = cpu.ctx.operand as u8 as i8;
                        regs.pc = regs.pc.wrapping_add(off as i16 as u16);
                    }
                }
                0xC4 => {
                    if self.take {
                        branch_taken = true;
                        write_op = Some(WritebackOp::Push(regs.pc));
                        regs.pc = cpu.ctx.operand;
                    }
                }
                0xC9 => write_op = Some(WritebackOp::Return),
                0x77 => write_op = Some(WritebackOp::Write8(regs.hl, cpu.a())),
                0x10 => return Err(TraceEvent::CgbSpeedSwitchReq),
                0x76 => halt = true,
                0xED => {
                    bus.write::<u8>(0xC000, 0x42).map_err(TraceEvent::from_bus)?;
                    bus.read::<u8>(0xFEA0).map_err(TraceEvent::from_bus)?;
                }
                0xEC => write_op = Some(WritebackOp::Write8(0xC000, 1)),
                _ => {}
            }
        }
        Ok(Effect { regs, branch_taken, write_op, halt, intr_enabled: cpu.ctx.intr_enabled })
    }
}

fn setup(program: &[u8]) -> (CPU, Table, Bus) {
    (CPU::new(), Table { take: false }, Bus::new(program))
}

/// Ticks through one whole instruction and returns the number of ticks.
fn run_instruction(cpu: &mut CPU, set: &mut Table, bus: &mut Bus) -> usize {
    assert_eq!(cpu.ctx.state, CpuState::FetchOpcode);
    let mut n = 0;
    loop {
        cpu.tick(set, bus).unwrap();
        n += 1;
        if cpu.ctx.state == CpuState::FetchOpcode {
            return n;
        }
        assert!(n < 100);
    }
}

#[test]
fn untaken_and_taken_branches_take_their_cycle_counts() {
    let (mut cpu, mut set, mut bus) = setup(&[0x20, 0x05, 0x20, 0x05]);
    assert_eq!(run_instruction(&mut cpu, &mut set, &mut bus), 8 / 4);
    assert_eq!(cpu.ctx.regs.pc, 2);
    set.take = true;
    assert_eq!(run_instruction(&mut cpu, &mut set, &mut bus), 12 / 4);
    assert_eq!(cpu.ctx.regs.pc, 9);
}

#[test]
fn each_kind_of_instruction_takes_its_cycle_count() {
    let (mut cpu, mut set, mut bus) =
        setup(&[0x00, 0x3E, 0x99, 0x7E, 0xF0, 0x80, 0x77, 0xC1]);
    assert_eq!(run_instruction(&mut cpu, &mut set, &mut bus), 1);
    assert_eq!(run_instruction(&mut cpu, &mut set, &mut bus), 2);
    assert_eq!(cpu.a(), 0x99);
    cpu.ctx.regs.hl = 0xC010;
    bus.write::<u8>(0xC010, 0x66).unwrap();
    assert_eq!(run_instruction(&mut cpu, &mut set, &mut bus), 2);
    assert_eq!(cpu.a(), 0x66);
    bus.write::<u8>(0xFF80, 0x31).unwrap();
    assert_eq!(run_instruction(&mut cpu, &mut set, &mut bus), 3);
    assert_eq!(cpu.a(), 0x31);
    cpu.ctx.regs.hl = 0xC020;
    assert_eq!(run_instruction(&mut cpu, &mut set, &mut bus), 2);
    assert_eq!(bus.read::<u8>(0xC020), Ok(0x31));
    cpu.ctx.regs.sp = 0xC100;
    bus.write::<u16>(0xC100, 0xABCD).unwrap();
    assert_eq!(run_instruction(&mut cpu, &mut set, &mut bus), 3);
    assert_eq!(cpu.ctx.regs.bc, 0xABCD);
    assert_eq!(cpu.ctx.regs.sp, 0xC102);
}

#[test]
fn call_and_return_go_through_the_stack() {
    let mut program = vec![0u8; 0x200];
    program[0] = 0xC4;
    program[1] = 0x00;
    program[2] = 0x01;
    program[0x100] = 0xC9;
    let (mut cpu, mut set, mut bus) = setup(&program);
    cpu.ctx.regs.sp = 0xD000;
    set.take = true;
    assert_eq!(run_instruction(&mut cpu, &mut set, &mut bus), 24 / 4);
    assert_eq!(cpu.ctx.regs.pc, 0x0100);
    assert_eq!(cpu.ctx.regs.sp, 0xCFFE);
    assert_eq!(bus.read::<u16>(0xCFFE), Ok(3));
    assert_eq!(run_instruction(&mut cpu, &mut set, &mut bus), 16 / 4);
    assert_eq!(cpu.ctx.regs.pc, 3);
    assert_eq!(cpu.ctx.regs.sp, 0xD000);
}

#[test]
fn untaken_call_skips_the_push() {
    let (mut cpu, mut set, mut bus) = setup(&[0xC4, 0x00, 0x01]);
    cpu.ctx.regs.sp = 0xD000;
    assert_eq!(run_instruction(&mut cpu, &mut set, &mut bus), 12 / 4);
    assert_eq!(cpu.ctx.regs.pc, 3);
    assert_eq!(cpu.ctx.regs.sp, 0xD000);
}

#[test]
fn breakpoint_stops_before_the_fetch() {
    let mut program = vec![0u8; 0x200];
    program[0x150] = 0x3E;
    let (mut cpu, mut set, mut bus) = setup(&program);
    cpu.ctx.regs.pc = 0x0150;
    cpu.set_breakpoint(0x0150);
    assert!(cpu.breakpoint_at(0x0150));
    assert_eq!(cpu.tick(&mut set, &mut bus), Err(TraceEvent::Breakpoint(0x0150)));
    assert!(cpu.paused());
    assert_eq!(cpu.ctx.regs.pc, 0x0150);
    assert_eq!(cpu.ctx.state, CpuState::FetchOpcode);
    // Ticking again while paused steps past the breakpoint.
    assert_eq!(cpu.tick(&mut set, &mut bus), Ok(()));
    assert!(!cpu.paused());
    assert_eq!(cpu.ctx.regs.pc, 0x0151);
}

#[test]
fn cleared_breakpoint_does_not_stop() {
    let (mut cpu, mut set, mut bus) = setup(&[0x00]);
    cpu.set_breakpoint(0);
    cpu.clear_breakpoint(0);
    assert!(!cpu.breakpoint_at(0));
    assert!(cpu.breakpoints().is_empty());
    assert_eq!(cpu.tick(&mut set, &mut bus), Ok(()));
    assert_eq!(cpu.ctx.regs.pc, 1);
}

#[test]
fn failed_tick_restores_registers_but_keeps_bus_writes() {
    let (mut cpu, mut set, mut bus) = setup(&[0xED]);
    cpu.ctx.regs = Registers { af: 0x1230, bc: 2, de: 3, hl: 4, sp: 5, pc: 0 };
    assert_eq!(cpu.tick(&mut set, &mut bus), Err(TraceEvent::InvalidAddress(0xFEA0)));
    assert_eq!(cpu.ctx.regs, Registers { af: 0x1230, bc: 2, de: 3, hl: 4, sp: 5, pc: 0 });
    assert_eq!(cpu.ctx.state, CpuState::FetchOpcode);
    assert_eq!(cpu.ctx.opcode, 0);
    assert!(cpu.paused());
    assert_eq!(bus.read::<u8>(0xC000), Ok(0x42));
}

#[test]
fn failed_writeback_rolls_back() {
    let (mut cpu, mut set, mut bus) = setup(&[0x00, 0x77]);
    run_instruction(&mut cpu, &mut set, &mut bus);
    cpu.ctx.regs.hl = 0xFEA0;
    assert_eq!(cpu.tick(&mut set, &mut bus), Ok(()));
    assert_eq!(cpu.ctx.state, CpuState::Writeback);
    let before = cpu.ctx.regs;
    let remaining = cpu.ctx.remaining_cycles;
    assert_eq!(cpu.tick(&mut set, &mut bus), Err(TraceEvent::InvalidAddress(0xFEA0)));
    assert_eq!(cpu.ctx.regs, before);
    assert_eq!(cpu.ctx.state, CpuState::Writeback);
    assert_eq!(cpu.ctx.remaining_cycles, remaining);
}

#[test]
fn prefixed_hl_operation_adds_a_memory_phase_and_eight_cycles() {
    let (mut cpu, mut set, mut bus) = setup(&[0xCB, 0x46, 0xCB, 0x47]);
    cpu.ctx.regs.hl = 0xC000;
    bus.write::<u8>(0xC000, 0x01).unwrap();
    cpu.tick(&mut set, &mut bus).unwrap();
    assert_eq!(cpu.ctx.state, CpuState::FetchByte0);
    cpu.tick(&mut set, &mut bus).unwrap();
    assert_eq!(cpu.ctx.state, CpuState::FetchMemory);
    assert_eq!(cpu.ctx.opcode, 0x46);
    assert_eq!(cpu.ctx.info.2, Memory(MemoryAddressing::HL));
    let mut n = 2;
    while cpu.ctx.state != CpuState::FetchOpcode {
        cpu.tick(&mut set, &mut bus).unwrap();
        n += 1;
    }
    assert_eq!(n, (8 + 8) / 4);
    assert!(!cpu.zf());
    assert_eq!(run_instruction(&mut cpu, &mut set, &mut bus), 8 / 4);
    assert_eq!(cpu.ctx.opcode, 0x47);
    assert!(cpu.zf());
}

#[test]
fn speed_switch_suppresses_the_next_halt() {
    let (mut cpu, mut set, mut bus) = setup(&[0x10, 0x76, 0x76]);
    assert_eq!(run_instruction(&mut cpu, &mut set, &mut bus), 1);
    assert!(cpu.ctx.ignore_next_halt);
    assert_eq!(run_instruction(&mut cpu, &mut set, &mut bus), 1);
    assert!(!cpu.ctx.should_halt);
    assert!(!cpu.ctx.ignore_next_halt);
    assert_eq!(run_instruction(&mut cpu, &mut set, &mut bus), 1);
    assert!(cpu.ctx.should_halt);
}

#[test]
fn malformed_metadata_is_an_illegal_opcode() {
    let (mut cpu, mut set, mut bus) = setup(&[0xD3]);
    assert_eq!(cpu.tick(&mut set, &mut bus), Err(TraceEvent::IllegalOpcode(0xD3)));
    assert_eq!(cpu.ctx.regs.pc, 0);
}

#[test]
fn writeback_without_budget_is_an_illegal_opcode() {
    let (mut cpu, mut set, mut bus) = setup(&[0xEC]);
    assert_eq!(cpu.tick(&mut set, &mut bus), Err(TraceEvent::IllegalOpcode(0xEC)));
    assert_eq!(bus.read::<u8>(0xC000), Ok(0));
}

#[test]
fn fetch_from_unmapped_memory_fails() {
    let (mut cpu, mut set, mut bus) = setup(&[]);
    cpu.ctx.regs.pc = 0xFEA0;
    assert_eq!(cpu.tick(&mut set, &mut bus), Err(TraceEvent::InvalidAddress(0xFEA0)));
    assert_eq!(cpu.fetch_pc(&bus), Err(TraceEvent::InvalidAddress(0xFEA0)));
    cpu.ctx.regs.pc = 0xFFFE;
    assert_eq!(cpu.fetch_pc(&bus), Ok(0));
    assert_eq!(cpu.ctx.regs.pc, 0xFFFF);
}

#[test]
fn interrupt_pushes_pc_and_jumps() {
    let (mut cpu, _set, mut bus) = setup(&[]);
    cpu.ctx.regs.sp = 0xFFFE;
    cpu.ctx.regs.pc = 0x1234;
    assert_eq!(cpu.jump_to_isr(&mut bus, 0x40), Ok(()));
    assert_eq!(cpu.ctx.regs.pc, 0x40);
    assert_eq!(cpu.ctx.regs.sp, 0xFFFC);
    assert_eq!(bus.read::<u16>(0xFFFC), Ok(0x1234));
    cpu.ctx.regs.sp = 0xFEA2;
    assert_eq!(cpu.jump_to_isr(&mut bus, 0x48), Err(TraceEvent::InvalidAddress(0xFEA0)));
    assert_eq!(cpu.ctx.regs.sp, 0xFEA2);
    assert_eq!(cpu.ctx.regs.pc, 0x40);
}

#[test]
fn flag_register_low_nibble_stays_clear() {
    let mut cpu = CPU::new();
    cpu.set_f(0xFF);
    assert_eq!(cpu.f(), 0xF0);
    assert_eq!(cpu.ctx.regs.af & 0xF, 0);
    assert!(cpu.zf() && cpu.sf() && cpu.hc() && cpu.cy());
    cpu.set_zf(false);
    cpu.set_cy(false);
    assert_eq!(cpu.f(), 0x60);
    cpu.set_sf(false);
    cpu.set_hc(false);
    assert_eq!(cpu.f(), 0x00);
    cpu.set_zf(true);
    cpu.set_hc(true);
    assert_eq!(cpu.f(), 0xA0);
    cpu.set_a(0x12);
    assert_eq!(cpu.ctx.regs.af, 0x12A0);
    assert_eq!(cpu.ctx.regs.af & 0xF, 0);
}

#[test]
fn executed_flags_drop_the_low_nibble() {
    struct Dirty;
    impl InstructionSet for Dirty {
        fn spec_info(&self, opcode: u8) -> OpcodeInfo {
            self.info(opcode)
        }
        fn info(&self, _opcode: u8) -> OpcodeInfo {
            OpcodeInfo("POP AF", Register, Register, 1, 4, 4)
        }
        fn execute(&mut self, cpu: &CPU, _bus: &mut Bus) -> Result<Effect, TraceEvent> {
            let mut regs = cpu.ctx.regs;
            regs.af = 0xFFFF;
            Ok(Effect { regs, branch_taken: false, write_op: None, halt: false, intr_enabled: false })
        }
    }
    let mut cpu = CPU::new();
    let mut bus = Bus::new(&[]);
    cpu.tick(&mut Dirty, &mut bus).unwrap();
    assert_eq!(cpu.ctx.regs.af, 0xFFF0);
}

#[test]
fn byte_registers_view_the_pairs() {
    let mut cpu = CPU::new();
    cpu.set_b(0x12);
    cpu.set_c(0x34);
    cpu.set_d(0x56);
    cpu.set_e(0x78);
    cpu.set_h(0x9A);
    cpu.set_l(0xBC);
    assert_eq!(cpu.ctx.regs.bc, 0x1234);
    assert_eq!(cpu.ctx.regs.de, 0x5678);
    assert_eq!(cpu.ctx.regs.hl, 0x9ABC);
    assert_eq!((cpu.b(), cpu.c(), cpu.d(), cpu.e(), cpu.h(), cpu.l()), (0x12, 0x34, 0x56, 0x78, 0x9A, 0xBC));
    cpu.set_a(0xEE);
    assert_eq!(cpu.a(), 0xEE);
}

#[test]
fn pause_and_resume() {
    let mut cpu = CPU::new();
    assert!(!cpu.paused());
    cpu.pause();
    assert!(cpu.paused());
    cpu.resume();
    assert!(!cpu.paused());
}
