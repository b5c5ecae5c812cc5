use risc_v_simulator::abstractions::memory::VectorMemoryImpl;
use risc_v_simulator::abstractions::non_determinism::ZeroedSource;
use risc_v_simulator::cycle::state::RiscV32State;
use risc_v_simulator::cycle::status_registers::InterruptReason;
use risc_v_simulator::cycle::status_registers::TrapReason;
use risc_v_simulator::mmu::NoMMU;

fn run_one(instr: u32, setup: impl FnOnce(&mut RiscV32State)) -> RiscV32State {
    let mut state = RiscV32State::initial(0);
    setup(&mut state);
    let mut memory = VectorMemoryImpl::new_for_byte_size(64);
    memory.populate(0, instr);
    let mut mmu = NoMMU::default();
    state.cycle(&mut memory, &mut (), &mut mmu, &mut ZeroedSource, 0);
    state
}

fn encode_r(funct7: u32, rs2: u32, rs1: u32, funct3: u32, rd: u32, opcode: u32) -> u32 {
    (funct7 << 25) | (rs2 << 20) | (rs1 << 15) | (funct3 << 12) | (rd << 7) | opcode
}

fn encode_i(imm: u32, rs1: u32, funct3: u32, rd: u32, opcode: u32) -> u32 {
    (imm << 20) | (rs1 << 15) | (funct3 << 12) | (rd << 7) | opcode
}

#[test]
fn addi_writes_sum_and_advances() {
    // ADDI x3, x1, 0x007 with x1 = 3 at PC 0.
    let state = run_one(encode_i(7, 1, 0, 3, 0x13), |s| {
        s.registers[1] = 3;
    });
    assert_eq!(state.registers[3], 10);
    assert_eq!(state.pc, 4);
    assert_eq!(state.machine_mode_trap_data.handling.cause, 0);
}

#[test]
fn add_wraps_modularly() {
    // ADD x3, x1, x2 with x1 = 0x7fffffff, x2 = 1.
    let state = run_one(encode_r(0, 2, 1, 0, 3, 0x33), |s| {
        s.registers[1] = 0x7fff_ffff;
        s.registers[2] = 1;
    });
    assert_eq!(state.registers[3], 0x8000_0000);
    assert_eq!(state.pc, 4);
    assert_eq!(state.machine_mode_trap_data.handling.cause, 0);
}

#[test]
fn mulhu_high_product() {
    // MULHU x3, x1, x2 with both operands all-ones.
    let state = run_one(encode_r(1, 2, 1, 3, 3, 0x33), |s| {
        s.registers[1] = 0xffff_ffff;
        s.registers[2] = 0xffff_ffff;
    });
    assert_eq!(state.registers[3], 0xffff_fffe);
}

#[test]
fn beq_taken_branch() {
    // BEQ x1, x2, +8 with x1 = x2 = 1 at PC 0.
    // imm = 8: bit 3 of the immediate lands in instruction bit 10.
    let instr = (1u32 << 10) | (2 << 20) | (1 << 15) | 0x63;
    let state = run_one(instr, |s| {
        s.registers[1] = 1;
        s.registers[2] = 1;
    });
    assert_eq!(state.pc, 8);
}

#[test]
fn unaligned_load_traps_without_side_effects() {
    // LW x3, 1(x0): misaligned load; x3 stays, mcause = 4, mepc = 0,
    // and control lands on the trap vector.
    let state = run_one(encode_i(1, 0, 2, 3, 0x03), |s| {
        s.machine_mode_trap_data.setup.tvec = 0x100;
        s.registers[3] = 0xdddd_dddd;
    });
    assert_eq!(state.registers[3], 0xdddd_dddd);
    assert_eq!(state.machine_mode_trap_data.handling.cause, 4);
    assert_eq!(state.machine_mode_trap_data.handling.epc, 0);
    assert_eq!(state.pc, 0x100);
}

#[test]
fn sra_sign_extends() {
    // SRA x3, x1, x2 with x1 = 0x80000001, x2 = 31.
    let state = run_one(encode_r(0x20, 2, 1, 5, 3, 0x33), |s| {
        s.registers[1] = 0x8000_0001;
        s.registers[2] = 31;
    });
    assert_eq!(state.registers[3], 0xffff_ffff);
}

#[test]
fn register_zero_stays_zero() {
    // ADDI x0, x1, 1: the write to x0 is dropped.
    let state = run_one(encode_i(1, 1, 0, 0, 0x13), |s| {
        s.registers[1] = 41;
    });
    assert_eq!(state.registers[0], 0);
    assert_eq!(state.pc, 4);
}

#[test]
fn illegal_opcode_traps() {
    let state = run_one(0xffff_ffff, |s| {
        s.machine_mode_trap_data.setup.tvec = 0x40;
    });
    assert_eq!(state.machine_mode_trap_data.handling.cause, 2);
    assert_eq!(state.machine_mode_trap_data.handling.tval, 0xffff_ffff);
    assert_eq!(state.pc, 0x40);
}

#[test]
fn load_beyond_memory_faults() {
    // LW x3, 0(x1) with x1 far out of the 64-byte backing store.
    let state = run_one(encode_i(0, 1, 2, 3, 0x03), |s| {
        s.registers[1] = 0x0010_0000;
        s.machine_mode_trap_data.setup.tvec = 0x40;
    });
    assert_eq!(
        state.machine_mode_trap_data.handling.cause,
        TrapReason::LoadAccessFault.as_register_value()
    );
}

#[test]
fn unaligned_store_traps() {
    // SH x2, 1(x0): halfword store at offset 1 is misaligned.
    let instr = (1u32 << 7) | (2 << 20) | (0 << 15) | (1 << 12) | 0x23;
    let state = run_one(instr, |s| {
        s.registers[2] = 0xbeef;
        s.machine_mode_trap_data.setup.tvec = 0x40;
    });
    assert_eq!(
        state.machine_mode_trap_data.handling.cause,
        TrapReason::StoreOrAMOAddressMisaligned.as_register_value()
    );
}

#[test]
fn ebreak_raises_breakpoint() {
    let state = run_one(encode_i(1, 0, 0, 0, 0x73), |s| {
        s.machine_mode_trap_data.setup.tvec = 0x40;
    });
    assert_eq!(
        state.machine_mode_trap_data.handling.cause,
        TrapReason::Breakpoint.as_register_value()
    );
}

#[test]
fn ecall_from_machine_mode() {
    let state = run_one(encode_i(0, 0, 0, 0, 0x73), |s| {
        s.machine_mode_trap_data.setup.tvec = 0x40;
    });
    assert_eq!(
        state.machine_mode_trap_data.handling.cause,
        TrapReason::EnvironmentCallFromMMode.as_register_value()
    );
}

#[test]
fn taken_branch_to_unaligned_target_traps() {
    // BEQ x1, x2, +2: a taken branch to a misaligned target.
    let instr = (1u32 << 8) | (2 << 20) | (1 << 15) | 0x63;
    let state = run_one(instr, |s| {
        s.registers[1] = 7;
        s.registers[2] = 7;
        s.machine_mode_trap_data.setup.tvec = 0x40;
    });
    assert_eq!(
        state.machine_mode_trap_data.handling.cause,
        TrapReason::InstructionAddressMisaligned.as_register_value()
    );
}

#[test]
fn wfi_latches_and_advances() {
    // WFI, then one more cycle that must not execute anything.
    let mut state = RiscV32State::initial(0);
    let mut memory = VectorMemoryImpl::new_for_byte_size(64);
    memory.populate(0, encode_i(0x105, 0, 0, 0, 0x73));
    let mut mmu = NoMMU::default();
    state.cycle(&mut memory, &mut (), &mut mmu, &mut ZeroedSource, 0);
    assert_eq!(state.pc, 4);
    assert!(state.extra_flags.get_wait_for_interrupt() != 0);
    let pc_before = state.pc;
    state.cycle(&mut memory, &mut (), &mut mmu, &mut ZeroedSource, 1);
    assert_eq!(state.pc, pc_before);
}

#[test]
fn mret_returns_to_saved_address() {
    let state = run_one(encode_i(0x302, 0, 0, 0, 0x73), |s| {
        s.machine_mode_trap_data.handling.epc = 0x20;
        // Stack machine privilege and a pending MPIE bit.
        s.machine_mode_trap_data.state.status = 0x1880;
    });
    assert_eq!(state.pc, 0x20);
    // MIE restored from MPIE, MPIE set, MPP cleared.
    assert_eq!(state.machine_mode_trap_data.state.status & 0x8, 0x8);
    assert_eq!(state.machine_mode_trap_data.state.status & 0x80, 0x80);
    assert_eq!(state.machine_mode_trap_data.state.status & 0x1800, 0);
}

#[test]
fn timer_interrupt_preempts_and_vectors() {
    let mut state = RiscV32State::initial(0);
    state.machine_mode_trap_data.setup.tvec = 0x80;
    state.machine_mode_trap_data.state.status = 0x8;  // MIE
    state.machine_mode_trap_data.state.ie = 0x80;  // machine timer enable
    state.timer_match = 0;  // pending as soon as the timer ticks
    let mut memory = VectorMemoryImpl::new_for_byte_size(64);
    memory.populate(0, 0x13);  // NOP, must not run
    let mut mmu = NoMMU::default();
    state.cycle(&mut memory, &mut (), &mut mmu, &mut ZeroedSource, 0);
    assert_eq!(state.pc, 0x80);
    assert_eq!(
        state.machine_mode_trap_data.handling.cause,
        InterruptReason::MachineTimerInterrupt.as_register_value()
    );
    assert_eq!(state.machine_mode_trap_data.handling.cause & 0x8000_0000, 0x8000_0000);
    assert_eq!(state.machine_mode_trap_data.handling.epc, 0);
    assert_eq!(state.machine_mode_trap_data.handling.tval, 0);
}

#[test]
fn cause_encodings_carry_the_interrupt_bit() {
    assert_eq!(TrapReason::LoadAddressMisaligned.as_register_value(), 4);
    assert_eq!(TrapReason::IllegalInstruction.as_register_value() & 0x8000_0000, 0);
    assert_eq!(TrapReason::StoreOrAMOPageFault.as_register_value(), 15);
    assert_eq!(
        InterruptReason::MachineTimerInterrupt.as_register_value(),
        0x8000_0007
    );
    assert_eq!(
        InterruptReason::MachineExternalInterrupt.as_register_value() & 0x8000_0000,
        0x8000_0000
    );
    assert_eq!(TrapReason::from_register_value(4), TrapReason::LoadAddressMisaligned);
}
