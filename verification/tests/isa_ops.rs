use risc_v_simulator::abstractions::memory::VectorMemoryImpl;
use risc_v_simulator::abstractions::non_determinism::ZeroedSource;
use risc_v_simulator::cycle::state::RiscV32State;
use risc_v_simulator::mmu::NoMMU;

const INITIAL_PC: u32 = 0;

fn encode_reg_reg(op_name: &str, rd: u32, rs1: u32, rs2: u32) -> u32 {
    let (funct7, funct3) = match op_name {
        "add" => (0x00, 0),
        "sub" => (0x20, 0),
        "sll" => (0x00, 1),
        "slt" => (0x00, 2),
        "sltu" => (0x00, 3),
        "xor" => (0x00, 4),
        "srl" => (0x00, 5),
        "sra" => (0x20, 5),
        "or" => (0x00, 6),
        "and" => (0x00, 7),
        "mul" => (0x01, 0),
        "mulh" => (0x01, 1),
        "mulhsu" => (0x01, 2),
        "mulhu" => (0x01, 3),
        "div" => (0x01, 4),
        "divu" => (0x01, 5),
        "rem" => (0x01, 6),
        "remu" => (0x01, 7),
        other => panic!("unknown operation {}", other),
    };
    (funct7 << 25) | (rs2 << 20) | (rs1 << 15) | (funct3 << 12) | (rd << 7) | 0x33
}

fn encode_reg_imm(op_name: &str, rd: u32, rs1: u32, imm: u16) -> u32 {
    let funct3 = match op_name {
        "addi" => 0,
        "slti" => 2,
        "xori" => 4,
        "ori" => 6,
        "andi" => 7,
        other => panic!("unknown operation {}", other),
    };
    ((imm as u32) << 20) | (rs1 << 15) | (funct3 << 12) | (rd << 7) | 0x13
}

fn encode_branch_plus_8(op_name: &str, rs1: u32, rs2: u32) -> u32 {
    let funct3 = match op_name {
        "beq" => 0,
        "bne" => 1,
        "blt" => 4,
        "bge" => 5,
        "bltu" => 6,
        "bgeu" => 7,
        other => panic!("unknown operation {}", other),
    };
    // The +8 offset puts one immediate bit in instruction bit 10.
    (1u32 << 10) | (rs2 << 20) | (rs1 << 15) | (funct3 << 12) | 0x63
}

fn test_reg_reg_op(op_name: &str, expected: u32, op1: u32, op2: u32) {
    let mut state = RiscV32State::initial(INITIAL_PC);
    state.registers[1] = op1;
    state.registers[2] = op2;
    let encoding = encode_reg_reg(op_name, 3, 1, 2);
    let binary = vec![encoding];
    let mut memory = VectorMemoryImpl::new_for_byte_size(16);
    for (idx, insn) in binary.iter().enumerate() {
        memory.populate(
            INITIAL_PC + idx as u32 * (core::mem::size_of::<u32>() as u32),
            *insn,
        );
    }
    let mut mmu = NoMMU::default();
    state.cycle(&mut memory, &mut (), &mut mmu, &mut ZeroedSource, 0);
    assert!(state.registers[3] == expected, "Unexpected output: expected 0x{:08x} for operation `{}` 0x{:08x}, 0x{:08x}, obtained 0x{:08x}", expected, op_name, op1, op2, state.registers[3]);
}

fn test_reg_imm_op(op_name: &str, expected: u32, op1: u32, imm: u16) {
    let mut state = RiscV32State::initial(INITIAL_PC);
    state.registers[1] = op1;
    let encoding = encode_reg_imm(op_name, 3, 1, imm);
    let binary = vec![encoding];
    let mut memory = VectorMemoryImpl::new_for_byte_size(16);
    for (idx, insn) in binary.iter().enumerate() {
        memory.populate(
            INITIAL_PC + idx as u32 * (core::mem::size_of::<u32>() as u32),
            *insn,
        );
    }
    let mut mmu = NoMMU::default();
    state.cycle(&mut memory, &mut (), &mut mmu, &mut ZeroedSource, 0);
    assert!(state.registers[3] == expected, "Unexpected output: expected 0x{:08x} for operation `{}` 0x{:08x}, 0x{:04x}, obtained 0x{:08x}", expected, op_name, op1, imm, state.registers[3]);
}

fn test_branch_op<const TAKEN: bool>(op_name: &str, op1: u32, op2: u32) {
    let mut state = RiscV32State::initial(INITIAL_PC);
    state.registers[1] = op1;
    state.registers[2] = op2;
    let encoding = encode_branch_plus_8(op_name, 1, 2);
    let binary = vec![encoding, 0, 0, 0];
    let mut memory = VectorMemoryImpl::new_for_byte_size(16);
    for (idx, insn) in binary.iter().enumerate() {
        memory.populate(
            INITIAL_PC + idx as u32 * (core::mem::size_of::<u32>() as u32),
            *insn,
        );
    }
    let mut mmu = NoMMU::default();
    state.cycle(&mut memory, &mut (), &mut mmu, &mut ZeroedSource, 0);
    assert!(state.pc == 4 || state.pc == 8);
    if TAKEN {
        assert!(
            state.pc == 8,
            "Unexpected branching: expected to take a branch for operation `{}` 0x{:08x}, 0x{:08x}",
            op_name,
            op1,
            op2
        );
    } else {
        assert!(state.pc == 4, "Unexpected branching: expected to NOT take a branch for operation `{}` 0x{:08x}, 0x{:08x}", op_name, op1, op2);
    }
}

fn test_reg_reg_op_64(op_name: &str, expected: u64, op1: u64, op2: u64) {
    test_reg_reg_op(op_name, expected as u32, op1 as u32, op2 as u32)
}

fn test_reg_imm_op_64(op_name: &str, expected: u64, op1: u64, imm: u16) {
    test_reg_imm_op(op_name, expected as u32, op1 as u32, imm)
}

#[test]
fn test_add() {
    test_reg_reg_op(&"add", 0x00000000, 0x00000000, 0x00000000);
    test_reg_reg_op(&"add", 0x00000002, 0x00000001, 0x00000001);
    test_reg_reg_op(&"add", 0x0000000a, 0x00000003, 0x00000007);

    test_reg_reg_op_64(
        &"add",
        0xffffffffffff8000,
        0x0000000000000000,
        0xffffffffffff8000,
    );
    test_reg_reg_op_64(&"add", 0xffffffff80000000, 0xffffffff80000000, 0x00000000);
    test_reg_reg_op_64(
        &"add",
        0xffffffff7fff8000,
        0xffffffff80000000,
        0xffffffffffff8000,
    );
    test_reg_reg_op_64(
        &"add",
        0x0000000000007fff,
        0x0000000000000000,
        0x0000000000007fff,
    );
    test_reg_reg_op_64(
        &"add",
        0x000000007fffffff,
        0x000000007fffffff,
        0x0000000000000000,
    );
    test_reg_reg_op_64(
        &"add",
        0x0000000080007ffe,
        0x000000007fffffff,
        0x0000000000007fff,
    );
    test_reg_reg_op_64(
        &"add",
        0xffffffff80007fff,
        0xffffffff80000000,
        0x0000000000007fff,
    );
    test_reg_reg_op_64(
        &"add",
        0x000000007fff7fff,
        0x000000007fffffff,
        0xffffffffffff8000,
    );
    test_reg_reg_op_64(
        &"add",
        0xffffffffffffffff,
        0x0000000000000000,
        0xffffffffffffffff,
    );
    test_reg_reg_op_64(
        &"add",
        0x0000000000000000,
        0xffffffffffffffff,
        0x0000000000000001,
    );
    test_reg_reg_op_64(
        &"add",
        0xfffffffffffffffe,
        0xffffffffffffffff,
        0xffffffffffffffff,
    );
    test_reg_reg_op_64(
        &"add",
        0x0000000080000000,
        0x0000000000000001,
        0x000000007fffffff,
    );
}

#[test]
fn test_addi() {
    test_reg_imm_op(&"addi", 0x00000000, 0x00000000, 0x000);
    test_reg_imm_op(&"addi", 0x00000002, 0x00000001, 0x001);
    test_reg_imm_op(&"addi", 0x0000000a, 0x00000003, 0x007);

    test_reg_imm_op_64(&"addi", 0xfffffffffffff800, 0x0000000000000000, 0x800);
    test_reg_imm_op_64(&"addi", 0xffffffff80000000, 0xffffffff80000000, 0x000);
    test_reg_imm_op_64(&"addi", 0xffffffff7ffff800, 0xffffffff80000000, 0x800);
    test_reg_imm_op_64(&"addi", 0x00000000000007ff, 0x00000000, 0x7ff);
    test_reg_imm_op_64(&"addi", 0x000000007fffffff, 0x7fffffff, 0x000);
    test_reg_imm_op_64(&"addi", 0x00000000800007fe, 0x7fffffff, 0x7ff);
    test_reg_imm_op_64(&"addi", 0xffffffff800007ff, 0xffffffff80000000, 0x7ff);
    test_reg_imm_op_64(&"addi", 0x000000007ffff7ff, 0x000000007fffffff, 0x800);
    test_reg_imm_op_64(&"addi", 0xffffffffffffffff, 0x0000000000000000, 0xfff);
    test_reg_imm_op_64(&"addi", 0x0000000000000000, 0xffffffffffffffff, 0x001);
    test_reg_imm_op_64(&"addi", 0xfffffffffffffffe, 0xffffffffffffffff, 0xfff);
    test_reg_imm_op_64(&"addi", 0x0000000080000000, 0x7fffffff, 0x001);
}

#[test]
fn test_beq() {
    test_branch_op::<true>(&"beq", 0, 0);
    test_branch_op::<true>(&"beq", 1, 1);
    test_branch_op::<true>(&"beq", -1i32 as u32, -1i32 as u32);

    test_branch_op::<false>(&"beq", 0, 1);
    test_branch_op::<false>(&"beq", 1, 0);
    test_branch_op::<false>(&"beq", -1i32 as u32, 1);
    test_branch_op::<false>(&"beq", 1, -1i32 as u32);
}

#[test]
fn test_mul() {
    test_reg_reg_op(&"mul", 0x00001200, 0x00007e00, 0xb6db6db7);
    test_reg_reg_op(&"mul", 0x00001240, 0x00007fc0, 0xb6db6db7);
    test_reg_reg_op(&"mul", 0x00000000, 0x00000000, 0x00000000);
    test_reg_reg_op(&"mul", 0x00000001, 0x00000001, 0x00000001);
    test_reg_reg_op(&"mul", 0x00000015, 0x00000003, 0x00000007);
    test_reg_reg_op(&"mul", 0x00000000, 0x00000000, 0xffff8000);
    test_reg_reg_op(&"mul", 0x00000000, 0x80000000, 0x00000000);
    test_reg_reg_op(&"mul", 0x00000000, 0x80000000, 0xffff8000);
    test_reg_reg_op(&"mul", 0x0000ff7f, 0xaaaaaaab, 0x0002fe7d);
    test_reg_reg_op(&"mul", 0x0000ff7f, 0x0002fe7d, 0xaaaaaaab);
    test_reg_reg_op(&"mul", 0x00000000, 0xff000000, 0xff000000);
    test_reg_reg_op(&"mul", 0x00000001, 0xffffffff, 0xffffffff);
    test_reg_reg_op(&"mul", 0xffffffff, 0xffffffff, 0x00000001);
    test_reg_reg_op(&"mul", 0xffffffff, 0x00000001, 0xffffffff);
}

#[test]
fn test_mulh() {
    test_reg_reg_op(&"mulh", 0x00000000, 0x00000000, 0x00000000);
    test_reg_reg_op(&"mulh", 0x00000000, 0x00000001, 0x00000001);
    test_reg_reg_op(&"mulh", 0x00000000, 0x00000003, 0x00000007);
    test_reg_reg_op(&"mulh", 0x00000000, 0x00000000, 0xffff8000);
    test_reg_reg_op(&"mulh", 0x00000000, 0x80000000, 0x00000000);
    test_reg_reg_op(&"mulh", 0x00000000, 0x80000000, 0x00000000);
    test_reg_reg_op(&"mulh", 0xffff0081, 0xaaaaaaab, 0x0002fe7d);
    test_reg_reg_op(&"mulh", 0xffff0081, 0x0002fe7d, 0xaaaaaaab);
    test_reg_reg_op(&"mulh", 0x00010000, 0xff000000, 0xff000000);
    test_reg_reg_op(&"mulh", 0x00000000, 0xffffffff, 0xffffffff);
    test_reg_reg_op(&"mulh", 0xffffffff, 0xffffffff, 0x00000001);
    test_reg_reg_op(&"mulh", 0xffffffff, 0x00000001, 0xffffffff);
}

#[test]
fn test_mulhu() {
    test_reg_reg_op(&"mulhu", 0x00000000, 0x00000000, 0x00000000);
    test_reg_reg_op(&"mulhu", 0x00000000, 0x00000001, 0x00000001);
    test_reg_reg_op(&"mulhu", 0x00000000, 0x00000003, 0x00000007);
    test_reg_reg_op(&"mulhu", 0x00000000, 0x00000000, 0xffff8000);
    test_reg_reg_op(&"mulhu", 0x00000000, 0x80000000, 0x00000000);
    test_reg_reg_op(&"mulhu", 0x7fffc000, 0x80000000, 0xffff8000);
    test_reg_reg_op(&"mulhu", 0x0001fefe, 0xaaaaaaab, 0x0002fe7d);
    test_reg_reg_op(&"mulhu", 0x0001fefe, 0x0002fe7d, 0xaaaaaaab);
    test_reg_reg_op(&"mulhu", 0xfe010000, 0xff000000, 0xff000000);
    test_reg_reg_op(&"mulhu", 0xfffffffe, 0xffffffff, 0xffffffff);
    test_reg_reg_op(&"mulhu", 0x00000000, 0xffffffff, 0x00000001);
    test_reg_reg_op(&"mulhu", 0x00000000, 0x00000001, 0xffffffff);
}

#[test]
fn test_rem() {
    test_reg_reg_op(&"rem", 2, 20, 6);
    test_reg_reg_op(&"rem", -2i32 as u32, -20i32 as u32, 6);
    test_reg_reg_op(&"rem", 2, 20, -6i32 as u32);
    test_reg_reg_op(&"rem", -2i32 as u32, -20i32 as u32, -6i32 as u32);
    test_reg_reg_op(&"rem", 0, (-1i32 as u32) << 31, 1);
    test_reg_reg_op(&"rem", 0, (-1i32 as u32) << 31, -1i32 as u32);
    test_reg_reg_op(&"rem", (-1i32 as u32) << 31, (-1i32 as u32) << 31, 0);
    test_reg_reg_op(&"rem", 1, 1, 0);
    test_reg_reg_op(&"rem", 0, 0, 0);
}

#[test]
fn test_slt() {
    test_reg_reg_op_64(&"slt", 0, 0x0000000000000000, 0x0000000000000000);
    test_reg_reg_op_64(&"slt", 0, 0x0000000000000001, 0x0000000000000001);
    test_reg_reg_op_64(&"slt", 1, 0x0000000000000003, 0x0000000000000007);
    test_reg_reg_op_64(&"slt", 0, 0x0000000000000007, 0x0000000000000003);
    test_reg_reg_op_64(&"slt", 0, 0x0000000000000000, 0xffffffffffff8000);
    test_reg_reg_op_64(&"slt", 1, 0xffffffff80000000, 0x0000000000000000);
    test_reg_reg_op_64(&"slt", 1, 0xffffffff80000000, 0xffffffffffff8000);
    test_reg_reg_op_64(&"slt", 1, 0x0000000000000000, 0x0000000000007fff);
    test_reg_reg_op_64(&"slt", 0, 0x000000007fffffff, 0x0000000000000000);
    test_reg_reg_op_64(&"slt", 0, 0x000000007fffffff, 0x0000000000007fff);
    test_reg_reg_op_64(&"slt", 1, 0xffffffff80000000, 0x0000000000007fff);
    test_reg_reg_op_64(&"slt", 0, 0x000000007fffffff, 0xffffffffffff8000);
    test_reg_reg_op_64(&"slt", 0, 0x0000000000000000, 0xffffffffffffffff);
    test_reg_reg_op_64(&"slt", 1, 0xffffffffffffffff, 0x0000000000000001);
    test_reg_reg_op_64(&"slt", 0, 0xffffffffffffffff, 0xffffffffffffffff);
}

#[test]
fn test_sltu() {
    test_reg_reg_op(&"sltu", 0, 0x00000000, 0x00000000);
    test_reg_reg_op(&"sltu", 0, 0x00000001, 0x00000001);
    test_reg_reg_op(&"sltu", 1, 0x00000003, 0x00000007);
    test_reg_reg_op(&"sltu", 0, 0x00000007, 0x00000003);
    test_reg_reg_op(&"sltu", 1, 0x00000000, 0xffff8000);
    test_reg_reg_op(&"sltu", 0, 0x80000000, 0x00000000);
    test_reg_reg_op(&"sltu", 1, 0x80000000, 0xffff8000);
    test_reg_reg_op(&"sltu", 1, 0x00000000, 0x00007fff);
    test_reg_reg_op(&"sltu", 0, 0x7fffffff, 0x00000000);
    test_reg_reg_op(&"sltu", 0, 0x7fffffff, 0x00007fff);
    test_reg_reg_op(&"sltu", 0, 0x80000000, 0x00007fff);
    test_reg_reg_op(&"sltu", 1, 0x7fffffff, 0xffff8000);
    test_reg_reg_op(&"sltu", 1, 0x00000000, 0xffffffff);
    test_reg_reg_op(&"sltu", 0, 0xffffffff, 0x00000001);
    test_reg_reg_op(&"sltu", 0, 0xffffffff, 0xffffffff);
}

#[test]
fn sra_test_sltu() {
    test_reg_reg_op_64(&"sra", 0xffffffff80000000, 0xffffffff80000000, 0);
    test_reg_reg_op_64(&"sra", 0xffffffffc0000000, 0xffffffff80000000, 1);
    test_reg_reg_op_64(&"sra", 0xffffffffff000000, 0xffffffff80000000, 7);
    test_reg_reg_op_64(&"sra", 0xfffffffffffe0000, 0xffffffff80000000, 14);
    test_reg_reg_op_64(&"sra", 0xffffffffffffffff, 0xffffffff80000001, 31);
    test_reg_reg_op_64(&"sra", 0x000000007fffffff, 0x000000007fffffff, 0);
    test_reg_reg_op_64(&"sra", 0x000000003fffffff, 0x000000007fffffff, 1);
    test_reg_reg_op_64(&"sra", 0x0000000000ffffff, 0x000000007fffffff, 7);
    test_reg_reg_op_64(&"sra", 0x000000000001ffff, 0x000000007fffffff, 14);
    test_reg_reg_op_64(&"sra", 0x0000000000000000, 0x000000007fffffff, 31);
    test_reg_reg_op_64(&"sra", 0xffffffff81818181, 0xffffffff81818181, 0);
    test_reg_reg_op_64(&"sra", 0xffffffffc0c0c0c0, 0xffffffff81818181, 1);
    test_reg_reg_op_64(&"sra", 0xffffffffff030303, 0xffffffff81818181, 7);
    test_reg_reg_op_64(&"sra", 0xfffffffffffe0606, 0xffffffff81818181, 14);
    test_reg_reg_op_64(&"sra", 0xffffffffffffffff, 0xffffffff81818181, 31);

    test_reg_reg_op_64(
        &"sra",
        0xffffffff81818181,
        0xffffffff81818181,
        0xffffffffffffffc0,
    );
    test_reg_reg_op_64(
        &"sra",
        0xffffffffc0c0c0c0,
        0xffffffff81818181,
        0xffffffffffffffc1,
    );
    test_reg_reg_op_64(
        &"sra",
        0xffffffffff030303,
        0xffffffff81818181,
        0xffffffffffffffc7,
    );
    test_reg_reg_op_64(
        &"sra",
        0xfffffffffffe0606,
        0xffffffff81818181,
        0xffffffffffffffce,
    );
    test_reg_reg_op_64(
        &"sra",
        0xffffffffffffffff,
        0xffffffff81818181,
        0xffffffffffffffff,
    );
}
